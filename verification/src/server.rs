use vstd::prelude::*;

use crate::devices::UsbDeviceIdentifier;
use crate::framer::framer_idle;
use crate::session::{SessionLoop, SessionState};

verus! {

/// Thin facade over the session state machine: holds the identifier of the
/// one device this server serves and turns into the session that runs it.
#[derive(Debug)]
pub struct UsbHidPosDeviceServer {
    device_identifier: UsbDeviceIdentifier,
}

impl UsbHidPosDeviceServer {
    /// The identifier this server was configured with.
    pub closed spec fn id(self) -> UsbDeviceIdentifier {
        self.device_identifier
    }

    /// A server only ever holds a well-formed identifier.
    pub open spec fn wf(self) -> bool {
        self.id().valid()
    }

    /// Configure a server for one device. A misconfigured (empty-serial)
    /// identifier is refused here, at construction time, not during the loop.
    pub fn new(device_identifier: UsbDeviceIdentifier) -> (s: Self)
        requires
            device_identifier.valid(),
        ensures
            s.id() == device_identifier,
            s.wf(),
    {
        UsbHidPosDeviceServer { device_identifier }
    }

    /// The configured identifier.
    pub fn device_identifier(&self) -> (id: &UsbDeviceIdentifier)
        ensures
            *id == self.id(),
    {
        &self.device_identifier
    }

    /// The session that runs this server forever: the runner performs each
    /// action the session asks for and feeds the outcome back, starting with
    /// the session's pending action (a poll after one interval).
    pub fn into_session(self, poll_interval_ms: u64) -> (l: SessionLoop)
        requires
            self.wf(),
        ensures
            l@.target == self.id(),
            l@.poll_interval_ms == poll_interval_ms,
            l@.state == SessionState::Disconnected,
            l@.framer == framer_idle(),
            l.wf(),
    {
        SessionLoop::new(self.device_identifier, poll_interval_ms)
    }
}

} // verus!
