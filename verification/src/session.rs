use vstd::prelude::*;

use crate::devices::{DeviceEntry, UsbDeviceIdentifier, spec_registry_matches, registry_matches};
use crate::framer::{
    CompletedReport, FramerModel, FramingError, ReportFramer, framer_idle, framer_wf, spec_absorb,
};

verus! {

/// How many consecutive read failures make the session treat the device as
/// gone. A policy constant, not a protocol requirement; adjustable.
pub const READ_FAILURE_LIMIT: u8 = 3;

/// Where the session stands in the connect → read → reconnect cycle.
#[derive(Clone, Copy, Debug, PartialEq, Eq, Structural)]
pub enum SessionState {
    /// No device handle; waiting to enumerate again.
    Disconnected,
    /// A matching device was seen; an open attempt is due.
    Connecting,
    /// A handle is open and reads are flowing.
    Connected,
    /// A handle is open but the last `failures` reads in a row failed.
    ReadingFailed { failures: u8 },
}

/// What the surrounding runner observed since the last step: the outcome of
/// the action the session asked for.
#[derive(Debug)]
pub enum SessionEvent {
    /// Enumeration finished and returned this snapshot of attached devices.
    Polled(Vec<DeviceEntry>),
    /// Enumeration itself failed; treated as "no devices found this tick".
    PollFailed,
    /// The open attempt succeeded.
    Opened,
    /// The open attempt failed (permissions, a race with removal, ...).
    OpenFailed,
    /// A read returned these bytes.
    ReadCompleted(Vec<u8>),
    /// A read failed.
    ReadFailed,
}

/// What the runner must do next.
///
/// `Sleep`: drop any open handle, wait the poll interval, then enumerate and
/// report `Polled` or `PollFailed`. `Open`: try to open the target device and
/// report `Opened` or `OpenFailed`. `Read`: issue one read on the open handle
/// and report `ReadCompleted` or `ReadFailed`.
#[derive(Clone, Copy, Debug, PartialEq, Eq, Structural)]
pub enum SessionAction {
    Sleep,
    Open,
    Read,
}

/// One step's observable result: the next action, plus the completed scan
/// record or the framing violation this step produced, if any.
#[derive(Clone, Copy, Debug, PartialEq, Eq, Structural)]
pub struct StepOutput {
    pub action: SessionAction,
    pub completed: Option<CompletedReport>,
    pub violation: Option<FramingError>,
}

/// Mathematical state of a `SessionLoop`.
pub ghost struct SessionModel {
    pub target: UsbDeviceIdentifier,
    pub poll_interval_ms: u64,
    pub state: SessionState,
    pub framer: FramerModel,
}

/// What one event leaves behind: the next session state, the framer's next
/// state, and the step's output.
pub ghost struct SpecStepResult {
    pub state: SessionState,
    pub framer: FramerModel,
    pub output: StepOutput,
}

/// A step that changes the state and emits neither a report nor a violation.
pub open spec fn quiet_step(s: SessionState, m: FramerModel, a: SessionAction) -> SpecStepResult {
    SpecStepResult {
        state: s,
        framer: m,
        output: StepOutput { action: a, completed: None, violation: None },
    }
}

/// A successful read while connected: the chunk goes to the framer, the
/// consecutive-failure counter resets, and the loop keeps reading.
pub open spec fn read_step(m: FramerModel, bytes: Seq<u8>) -> SpecStepResult {
    let st = spec_absorb(m, bytes);
    SpecStepResult {
        state: SessionState::Connected,
        framer: st.framer,
        output: StepOutput {
            action: SessionAction::Read,
            completed: match st.outcome {
                Ok(c) => c,
                Err(_) => None,
            },
            violation: match st.outcome {
                Ok(_) => None,
                Err(v) => Some(v),
            },
        },
    }
}

/// A failed read after `prior_failures` consecutive failures: below the limit
/// the loop retries the read; at the limit the device is treated as gone, the
/// handle is dropped, and any partial assembly is discarded so that it cannot
/// leak into the next connection's first report.
pub open spec fn fail_step(m: FramerModel, prior_failures: u8) -> SpecStepResult {
    if prior_failures + 1 >= READ_FAILURE_LIMIT {
        quiet_step(SessionState::Disconnected, framer_idle(), SessionAction::Sleep)
    } else {
        quiet_step(
            SessionState::ReadingFailed { failures: (prior_failures + 1) as u8 },
            m,
            SessionAction::Read,
        )
    }
}

/// The session state machine: the full meaning of one event in each state.
/// Events a state does not expect (which a runner that follows the actions
/// never produces) leave the state unchanged and re-issue that state's
/// pending action.
pub open spec fn spec_step(
    target: UsbDeviceIdentifier,
    s: SessionState,
    m: FramerModel,
    e: SessionEvent,
) -> SpecStepResult {
    match s {
        SessionState::Disconnected => match e {
            SessionEvent::Polled(devs) => {
                if spec_registry_matches(devs@, target) {
                    quiet_step(SessionState::Connecting, m, SessionAction::Open)
                } else {
                    quiet_step(SessionState::Disconnected, m, SessionAction::Sleep)
                }
            },
            _ => quiet_step(SessionState::Disconnected, m, SessionAction::Sleep),
        },
        SessionState::Connecting => match e {
            SessionEvent::Opened => quiet_step(SessionState::Connected, m, SessionAction::Read),
            SessionEvent::OpenFailed => quiet_step(
                SessionState::Disconnected,
                m,
                SessionAction::Sleep,
            ),
            _ => quiet_step(SessionState::Connecting, m, SessionAction::Open),
        },
        SessionState::Connected => match e {
            SessionEvent::ReadCompleted(bytes) => read_step(m, bytes@),
            SessionEvent::ReadFailed => fail_step(m, 0),
            _ => quiet_step(SessionState::Connected, m, SessionAction::Read),
        },
        SessionState::ReadingFailed { failures } => match e {
            SessionEvent::ReadCompleted(bytes) => read_step(m, bytes@),
            SessionEvent::ReadFailed => fail_step(m, failures),
            _ => quiet_step(SessionState::ReadingFailed { failures }, m, SessionAction::Read),
        },
    }
}

/// The session's invariant: a valid target, a framer within its cap, and a
/// failure counter that only exists strictly between 0 and the limit.
pub open spec fn session_wf(m: SessionModel) -> bool {
    &&& m.target.valid()
    &&& framer_wf(m.framer)
    &&& (m.state matches SessionState::ReadingFailed { failures } ==> 1 <= failures
        < READ_FAILURE_LIMIT)
}

/// Owns the connect → read → reconnect state machine: it decides, the runner
/// performs. Each received buffer is delegated to the `ReportFramer`.
#[derive(Debug)]
pub struct SessionLoop {
    target: UsbDeviceIdentifier,
    poll_interval_ms: u64,
    state: SessionState,
    framer: ReportFramer,
}

impl View for SessionLoop {
    type V = SessionModel;

    closed spec fn view(&self) -> SessionModel {
        SessionModel {
            target: self.target,
            poll_interval_ms: self.poll_interval_ms,
            state: self.state,
            framer: self.framer@,
        }
    }
}

impl SessionLoop {
    /// The invariant, at the model.
    pub open spec fn wf(self) -> bool {
        session_wf(self@)
    }

    /// A fresh session for one target device, polling every
    /// `poll_interval_ms` milliseconds while disconnected. A misconfigured
    /// (empty-serial) identifier is refused here, at construction time.
    pub fn new(target: UsbDeviceIdentifier, poll_interval_ms: u64) -> (s: SessionLoop)
        requires
            target.valid(),
        ensures
            s@.target == target,
            s@.poll_interval_ms == poll_interval_ms,
            s@.state == SessionState::Disconnected,
            s@.framer == framer_idle(),
            s.wf(),
    {
        SessionLoop {
            target,
            poll_interval_ms,
            state: SessionState::Disconnected,
            framer: ReportFramer::new(),
        }
    }

    /// The state the session is in.
    pub fn state(&self) -> (s: SessionState)
        ensures
            s == self@.state,
    {
        self.state
    }

    /// The configured poll interval, in milliseconds.
    pub fn poll_interval_ms(&self) -> (r: u64)
        ensures
            r == self@.poll_interval_ms,
    {
        self.poll_interval_ms
    }

    /// The identifier of the device this session serves.
    pub fn target(&self) -> (t: &UsbDeviceIdentifier)
        ensures
            *t == self@.target,
    {
        &self.target
    }

    /// The action the runner should perform first, and again after any event
    /// it could not attribute to a pending action.
    pub fn pending_action(&self) -> (a: SessionAction)
        ensures
            a == resume_action(self@.state),
    {
        match self.state {
            SessionState::Disconnected => SessionAction::Sleep,
            SessionState::Connecting => SessionAction::Open,
            SessionState::Connected => SessionAction::Read,
            SessionState::ReadingFailed { .. } => SessionAction::Read,
        }
    }

    /// Feed one observed event into the state machine. The next state, the
    /// framer's next state, and the returned output are exactly `spec_step`
    /// of the old state and the event.
    pub fn on_event(&mut self, event: SessionEvent) -> (out: StepOutput)
        requires
            old(self).wf(),
        ensures
            final(self).wf(),
            final(self)@.target == old(self)@.target,
            final(self)@.poll_interval_ms == old(self)@.poll_interval_ms,
            final(self)@.state == spec_step(
                old(self)@.target,
                old(self)@.state,
                old(self)@.framer,
                event,
            ).state,
            final(self)@.framer == spec_step(
                old(self)@.target,
                old(self)@.state,
                old(self)@.framer,
                event,
            ).framer,
            out == spec_step(old(self)@.target, old(self)@.state, old(self)@.framer, event).output,
    {
        match self.state {
            SessionState::Disconnected => match event {
                SessionEvent::Polled(devs) => {
                    if registry_matches(&devs, &self.target) {
                        self.state = SessionState::Connecting;
                        StepOutput { action: SessionAction::Open, completed: None, violation: None }
                    } else {
                        StepOutput {
                            action: SessionAction::Sleep,
                            completed: None,
                            violation: None,
                        }
                    }
                },
                _ => StepOutput { action: SessionAction::Sleep, completed: None, violation: None },
            },
            SessionState::Connecting => match event {
                SessionEvent::Opened => {
                    self.state = SessionState::Connected;
                    StepOutput { action: SessionAction::Read, completed: None, violation: None }
                },
                SessionEvent::OpenFailed => {
                    self.state = SessionState::Disconnected;
                    StepOutput { action: SessionAction::Sleep, completed: None, violation: None }
                },
                _ => StepOutput { action: SessionAction::Open, completed: None, violation: None },
            },
            SessionState::Connected => match event {
                SessionEvent::ReadCompleted(bytes) => self.absorb_read(bytes),
                SessionEvent::ReadFailed => self.note_read_failure(0),
                _ => StepOutput { action: SessionAction::Read, completed: None, violation: None },
            },
            SessionState::ReadingFailed { failures } => match event {
                SessionEvent::ReadCompleted(bytes) => self.absorb_read(bytes),
                SessionEvent::ReadFailed => self.note_read_failure(failures),
                _ => StepOutput { action: SessionAction::Read, completed: None, violation: None },
            },
        }
    }

    /// A read succeeded: absorb the chunk, reset the failure counter.
    fn absorb_read(&mut self, bytes: Vec<u8>) -> (out: StepOutput)
        requires
            old(self).wf(),
        ensures
            final(self).wf(),
            final(self)@.target == old(self)@.target,
            final(self)@.poll_interval_ms == old(self)@.poll_interval_ms,
            final(self)@.state == read_step(old(self)@.framer, bytes@).state,
            final(self)@.framer == read_step(old(self)@.framer, bytes@).framer,
            out == read_step(old(self)@.framer, bytes@).output,
    {
        let r = self.framer.absorb(bytes.as_slice());
        self.state = SessionState::Connected;
        match r {
            Ok(c) => StepOutput { action: SessionAction::Read, completed: c, violation: None },
            Err(v) => StepOutput {
                action: SessionAction::Read,
                completed: None,
                violation: Some(v),
            },
        }
    }

    /// A read failed after `prior_failures` consecutive failures.
    fn note_read_failure(&mut self, prior_failures: u8) -> (out: StepOutput)
        requires
            old(self).wf(),
            prior_failures < READ_FAILURE_LIMIT,
        ensures
            final(self).wf(),
            final(self)@.target == old(self)@.target,
            final(self)@.poll_interval_ms == old(self)@.poll_interval_ms,
            final(self)@.state == fail_step(old(self)@.framer, prior_failures).state,
            final(self)@.framer == fail_step(old(self)@.framer, prior_failures).framer,
            out == fail_step(old(self)@.framer, prior_failures).output,
    {
        if prior_failures + 1 >= READ_FAILURE_LIMIT {
            self.state = SessionState::Disconnected;
            self.framer = ReportFramer::new();
            StepOutput { action: SessionAction::Sleep, completed: None, violation: None }
        } else {
            self.state = SessionState::ReadingFailed { failures: prior_failures + 1 };
            StepOutput { action: SessionAction::Read, completed: None, violation: None }
        }
    }
}

/// The action a state is waiting on.
pub open spec fn resume_action(s: SessionState) -> SessionAction {
    match s {
        SessionState::Disconnected => SessionAction::Sleep,
        SessionState::Connecting => SessionAction::Open,
        SessionState::Connected => SessionAction::Read,
        SessionState::ReadingFailed { .. } => SessionAction::Read,
    }
}

/// A tick whose enumeration found no device matching the target, or whose
/// enumeration failed outright.
pub open spec fn unmatched_poll(e: SessionEvent, target: UsbDeviceIdentifier) -> bool {
    match e {
        SessionEvent::Polled(devs) => !spec_registry_matches(devs@, target),
        SessionEvent::PollFailed => true,
        _ => false,
    }
}

/// The session and framer state after the events are fed in order.
pub open spec fn spec_run(
    target: UsbDeviceIdentifier,
    s: SessionState,
    m: FramerModel,
    events: Seq<SessionEvent>,
) -> (SessionState, FramerModel)
    decreases events.len(),
{
    if events.len() == 0 {
        (s, m)
    } else {
        let prev = spec_run(target, s, m, events.drop_last());
        let st = spec_step(target, prev.0, prev.1, events.last());
        (st.state, st.framer)
    }
}

/// The output of the i-th step when the events are fed in order.
pub open spec fn run_output_at(
    target: UsbDeviceIdentifier,
    s: SessionState,
    m: FramerModel,
    events: Seq<SessionEvent>,
    i: int,
) -> StepOutput {
    spec_step(
        target,
        spec_run(target, s, m, events.take(i)).0,
        spec_run(target, s, m, events.take(i)).1,
        events[i],
    ).output
}

/// Law: in Disconnected the session never asks for a read; the only way out
/// is to Connecting, exactly when a poll matched the target; and Connecting
/// asks for a read only once the open has succeeded, which is also the only
/// way it reaches Connected. A read therefore never precedes a full
/// enumerate → open cycle.
pub proof fn lemma_no_read_before_reconnect(
    target: UsbDeviceIdentifier,
    m: FramerModel,
    e: SessionEvent,
)
    ensures
        spec_step(target, SessionState::Disconnected, m, e).output.action != SessionAction::Read,
        spec_step(target, SessionState::Disconnected, m, e).state == SessionState::Disconnected
            || spec_step(target, SessionState::Disconnected, m, e).state
            == SessionState::Connecting,
        spec_step(target, SessionState::Disconnected, m, e).state == SessionState::Connecting
            <==> (e matches SessionEvent::Polled(devs) && spec_registry_matches(devs@, target)),
        spec_step(target, SessionState::Connecting, m, e).output.action == SessionAction::Read
            ==> (e matches SessionEvent::Opened),
        spec_step(target, SessionState::Connecting, m, e).state == SessionState::Connected <==> (
        e matches SessionEvent::Opened),
{
}

/// Law: while connected, the first two consecutive read failures keep the
/// handle and retry the read; the third treats the device as gone — the
/// session drops back to Disconnected, discards any partial assembly, and
/// waits for the next poll tick.
pub proof fn lemma_three_read_failures_disconnect(target: UsbDeviceIdentifier, m: FramerModel)
    ensures
        spec_step(target, SessionState::Connected, m, SessionEvent::ReadFailed).state == (
        SessionState::ReadingFailed { failures: 1u8 }),
        spec_step(target, SessionState::Connected, m, SessionEvent::ReadFailed).output.action
            == SessionAction::Read,
        spec_step(
            target,
            (SessionState::ReadingFailed { failures: 1u8 }),
            m,
            SessionEvent::ReadFailed,
        ).state == (SessionState::ReadingFailed { failures: 2u8 }),
        spec_step(
            target,
            (SessionState::ReadingFailed { failures: 1u8 }),
            m,
            SessionEvent::ReadFailed,
        ).output.action == SessionAction::Read,
        spec_step(
            target,
            (SessionState::ReadingFailed { failures: 2u8 }),
            m,
            SessionEvent::ReadFailed,
        ).state == SessionState::Disconnected,
        spec_step(
            target,
            (SessionState::ReadingFailed { failures: 2u8 }),
            m,
            SessionEvent::ReadFailed,
        ).output.action == SessionAction::Sleep,
        spec_step(
            target,
            (SessionState::ReadingFailed { failures: 2u8 }),
            m,
            SessionEvent::ReadFailed,
        ).framer == framer_idle(),
{
}

/// Law: while every poll tick finds no matching device (or enumeration
/// fails), the session stays Disconnected, leaves the framer untouched, and
/// answers every tick with Sleep — zero open attempts, zero reads.
pub proof fn lemma_unmatched_polls_keep_disconnected(
    target: UsbDeviceIdentifier,
    m: FramerModel,
    events: Seq<SessionEvent>,
)
    requires
        forall|i: int| 0 <= i < events.len() ==> unmatched_poll(#[trigger] events[i], target),
    ensures
        spec_run(target, SessionState::Disconnected, m, events).0 == SessionState::Disconnected,
        spec_run(target, SessionState::Disconnected, m, events).1 == m,
        forall|i: int|
            0 <= i < events.len() ==> (#[trigger] run_output_at(
                target,
                SessionState::Disconnected,
                m,
                events,
                i,
            )).action == SessionAction::Sleep,
    decreases events.len(),
{
    if events.len() == 0 {
    } else {
        let pre = events.drop_last();
        lemma_unmatched_polls_keep_disconnected(target, m, pre);
        assert forall|i: int|
            0 <= i < events.len() implies (#[trigger] run_output_at(
            target,
            SessionState::Disconnected,
            m,
            events,
            i,
        )).action == SessionAction::Sleep by {
            assert(events.take(i) =~= pre.take(i));
            if i < events.len() - 1 {
                assert(run_output_at(target, SessionState::Disconnected, m, pre, i).action
                    == SessionAction::Sleep);
                assert(events[i] == pre[i]);
            } else {
                assert(events.take(i) =~= pre);
            }
        }
    }
}

} // verus!
