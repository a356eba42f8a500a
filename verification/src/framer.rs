use vstd::prelude::*;

verus! {

/// Smallest raw read this device family can produce: the three terminator
/// bytes. Anything shorter is a protocol violation.
pub const MIN_CHUNK_LEN: usize = 3;

/// Upper bound on the bytes one logical report may accumulate. The device
/// protocol itself sets no cap, so an assembly that outgrows this bound is
/// discarded rather than allowed to grow without limit (a hardening choice;
/// report boundaries from a device with unrecognized terminators would
/// otherwise accumulate forever).
pub const MAX_REPORT_BYTES: usize = 0x10000;

/// Classification of the last three bytes of one raw read.
///
/// The two end patterns both complete the logical report and both count the
/// final chunk's bytes toward the reported total; they are kept distinct
/// because the device distinguishes a bare end marker from an end marker on
/// a chunk that still carries payload.
#[derive(Clone, Copy, Debug, PartialEq, Eq, Structural)]
pub enum Terminator {
    /// More reads belong to the current logical report.
    Continuation,
    /// The logical report is complete.
    EndOfReport,
    /// The final chunk carries payload and completes the report.
    EndOfReportWithPayload,
    /// An unrecognized pattern; treated conservatively as a continuation.
    Unknown,
}

/// Symbology named by the AIM identifier retained from the first chunk of a
/// logical report.
#[derive(Clone, Copy, Debug, PartialEq, Eq, Structural)]
pub enum Symbology {
    Code39,
    Code128,
    Code93,
    Codabar,
    EanUpc,
    Interleaved2of5,
    Pdf417,
    QrCode,
    DataMatrix,
    Gs1DataBar,
    /// An identifier outside the fixed table, kept verbatim.
    Unknown(u8, u8, u8),
}

/// Violations the framer reports instead of panicking: a raw read shorter
/// than the three terminator bytes, or an assembly that outgrew
/// `MAX_REPORT_BYTES` and was discarded.
#[derive(Clone, Copy, Debug, PartialEq, Eq, Structural)]
pub enum FramingError {
    ChunkTooShort,
    ReportTooLong,
}

/// One reassembled scan: how many bytes the logical report accumulated and
/// which symbology produced it.
#[derive(Clone, Copy, Debug, PartialEq, Eq, Structural)]
pub struct CompletedReport {
    pub total_bytes: usize,
    pub symbology: Symbology,
}

/// Mathematical state of a `ReportFramer`: the running byte count of the
/// assembly and the three symbology bytes retained from its first chunk.
pub ghost struct FramerModel {
    pub accumulated: nat,
    pub symbology: (u8, u8, u8),
}

/// What one absorbed chunk leaves behind: the framer's next state and what
/// the call returns.
pub ghost struct AbsorbStep {
    pub framer: FramerModel,
    pub outcome: Result<Option<CompletedReport>, FramingError>,
}

/// How the three terminator bytes are classified.
pub open spec fn spec_classify_terminator(t0: u8, t1: u8, t2: u8) -> Terminator {
    if t0 == 0x00 && t1 == 0x28 && t2 == 0x01 {
        Terminator::Continuation
    } else if t0 == 0x00 && t1 == 0x28 && t2 == 0x00 {
        Terminator::EndOfReport
    } else if t0 == 0x00 && t1 == 0x01 && t2 == 0x00 {
        Terminator::EndOfReportWithPayload
    } else {
        Terminator::Unknown
    }
}

/// The terminator of a chunk: its last three bytes, classified.
pub open spec fn spec_terminator_of(chunk: Seq<u8>) -> Terminator
    recommends
        chunk.len() >= MIN_CHUNK_LEN,
{
    spec_classify_terminator(
        chunk[chunk.len() - 3],
        chunk[chunk.len() - 2],
        chunk[chunk.len() - 1],
    )
}

/// The fixed AIM lookup table: `]` followed by a code character and a
/// modifier. Only the code character picks the symbology; the modifier is
/// retained only inside `Unknown`.
pub open spec fn spec_classify_symbology(b0: u8, b1: u8, b2: u8) -> Symbology {
    if b0 == 0x5d {
        if b1 == 0x41 {
            Symbology::Code39
        } else if b1 == 0x43 {
            Symbology::Code128
        } else if b1 == 0x47 {
            Symbology::Code93
        } else if b1 == 0x46 {
            Symbology::Codabar
        } else if b1 == 0x45 {
            Symbology::EanUpc
        } else if b1 == 0x49 {
            Symbology::Interleaved2of5
        } else if b1 == 0x4c {
            Symbology::Pdf417
        } else if b1 == 0x51 {
            Symbology::QrCode
        } else if b1 == 0x64 {
            Symbology::DataMatrix
        } else if b1 == 0x65 {
            Symbology::Gs1DataBar
        } else {
            Symbology::Unknown(b0, b1, b2)
        }
    } else {
        Symbology::Unknown(b0, b1, b2)
    }
}

/// The symbology bytes a chunk offers when it opens a logical report: the
/// bytes at offset [2, 5). A first chunk too short to hold that range
/// contributes the all-zero identifier, which classifies as `Unknown`.
pub open spec fn spec_symbology_bytes(chunk: Seq<u8>) -> (u8, u8, u8) {
    if chunk.len() >= 5 {
        (chunk[2], chunk[3], chunk[4])
    } else {
        (0u8, 0u8, 0u8)
    }
}

/// The framer state before any chunk of a logical report has been absorbed.
pub open spec fn framer_idle() -> FramerModel {
    FramerModel { accumulated: 0, symbology: (0u8, 0u8, 0u8) }
}

/// The framer never accumulates past the cap.
pub open spec fn framer_wf(m: FramerModel) -> bool {
    m.accumulated <= MAX_REPORT_BYTES
}

/// The full meaning of absorbing one raw read, as a function of the framer's
/// state and the chunk's bytes:
///  - a chunk shorter than `MIN_CHUNK_LEN` is rejected and changes nothing;
///  - a chunk that would push the assembly past `MAX_REPORT_BYTES` discards
///    the assembly and reports it;
///  - a chunk whose terminator ends the report (either end pattern) completes
///    the report, counting this chunk's bytes in the total, and resets the
///    framer;
///  - any other chunk (continuation or unrecognized terminator) is added to
///    the running assembly, recording the symbology bytes when it is the
///    first chunk.
pub open spec fn spec_absorb(m: FramerModel, chunk: Seq<u8>) -> AbsorbStep {
    if chunk.len() < MIN_CHUNK_LEN {
        AbsorbStep { framer: m, outcome: Err(FramingError::ChunkTooShort) }
    } else if m.accumulated + chunk.len() > MAX_REPORT_BYTES {
        AbsorbStep { framer: framer_idle(), outcome: Err(FramingError::ReportTooLong) }
    } else {
        let sym = if m.accumulated == 0 {
            spec_symbology_bytes(chunk)
        } else {
            m.symbology
        };
        let term = spec_terminator_of(chunk);
        if term == Terminator::EndOfReport || term == Terminator::EndOfReportWithPayload {
            AbsorbStep {
                framer: framer_idle(),
                outcome: Ok(
                    Some(
                        CompletedReport {
                            total_bytes: (m.accumulated + chunk.len()) as usize,
                            symbology: spec_classify_symbology(sym.0, sym.1, sym.2),
                        },
                    ),
                ),
            }
        } else {
            AbsorbStep {
                framer: FramerModel { accumulated: m.accumulated + chunk.len(), symbology: sym },
                outcome: Ok(None),
            }
        }
    }
}

/// Reassembles successive fixed-size raw reads into delimited scan records.
///
/// The assembly buffer of one logical scan: a running byte count and the
/// symbology bytes of the report's first chunk. It holds no state across
/// completed reports.
#[derive(Debug)]
pub struct ReportFramer {
    accumulated: usize,
    sym0: u8,
    sym1: u8,
    sym2: u8,
}

impl View for ReportFramer {
    type V = FramerModel;

    closed spec fn view(&self) -> FramerModel {
        FramerModel {
            accumulated: self.accumulated as nat,
            symbology: (self.sym0, self.sym1, self.sym2),
        }
    }
}

impl ReportFramer {
    /// The framer's invariant.
    pub open spec fn wf(self) -> bool {
        framer_wf(self@)
    }

    /// A fresh framer, with no assembly in progress.
    pub fn new() -> (f: ReportFramer)
        ensures
            f@ == framer_idle(),
            f.wf(),
    {
        ReportFramer { accumulated: 0, sym0: 0, sym1: 0, sym2: 0 }
    }

    /// Whether a logical report is currently being assembled.
    pub fn mid_report(&self) -> (r: bool)
        ensures
            r == (self@.accumulated != 0),
    {
        self.accumulated != 0
    }

    /// Absorb the meaningful bytes of one raw read. Returns the completed
    /// report when this chunk's terminator ends the logical report, `None`
    /// while more chunks are expected, and a `FramingError` for a chunk that
    /// violates the protocol. The exact behaviour in every case is
    /// `spec_absorb`.
    pub fn absorb(&mut self, chunk: &[u8]) -> (r: Result<Option<CompletedReport>, FramingError>)
        requires
            old(self).wf(),
        ensures
            final(self).wf(),
            final(self)@ == spec_absorb(old(self)@, chunk@).framer,
            r == spec_absorb(old(self)@, chunk@).outcome,
    {
        let n = chunk.len();
        if n < MIN_CHUNK_LEN {
            return Err(FramingError::ChunkTooShort);
        }
        if n > MAX_REPORT_BYTES - self.accumulated {
            self.accumulated = 0;
            self.sym0 = 0;
            self.sym1 = 0;
            self.sym2 = 0;
            return Err(FramingError::ReportTooLong);
        }
        if self.accumulated == 0 {
            if n >= 5 {
                self.sym0 = chunk[2];
                self.sym1 = chunk[3];
                self.sym2 = chunk[4];
            } else {
                self.sym0 = 0;
                self.sym1 = 0;
                self.sym2 = 0;
            }
        }
        let term = classify_terminator(chunk[n - 3], chunk[n - 2], chunk[n - 1]);
        match term {
            Terminator::EndOfReport | Terminator::EndOfReportWithPayload => {
                let total = self.accumulated + n;
                let symbology = classify_symbology(self.sym0, self.sym1, self.sym2);
                self.accumulated = 0;
                self.sym0 = 0;
                self.sym1 = 0;
                self.sym2 = 0;
                Ok(Some(CompletedReport { total_bytes: total, symbology }))
            },
            Terminator::Continuation | Terminator::Unknown => {
                self.accumulated = self.accumulated + n;
                Ok(None)
            },
        }
    }
}

/// The number of bytes the chunks hold altogether.
pub open spec fn total_len(chunks: Seq<Seq<u8>>) -> nat
    decreases chunks.len(),
{
    if chunks.len() == 0 {
        0
    } else {
        total_len(chunks.drop_last()) + chunks.last().len()
    }
}

/// A chunk long enough to frame whose terminator continues the report.
pub open spec fn continuation_chunk(c: Seq<u8>) -> bool {
    c.len() >= MIN_CHUNK_LEN && spec_terminator_of(c) == Terminator::Continuation
}

/// A chunk long enough to frame whose terminator ends the report, with
/// either end pattern.
pub open spec fn end_chunk(c: Seq<u8>) -> bool {
    c.len() >= MIN_CHUNK_LEN && (spec_terminator_of(c) == Terminator::EndOfReport
        || spec_terminator_of(c) == Terminator::EndOfReportWithPayload)
}

/// The framer's state after absorbing the chunks in order.
pub open spec fn framer_after(m: FramerModel, chunks: Seq<Seq<u8>>) -> FramerModel
    decreases chunks.len(),
{
    if chunks.len() == 0 {
        m
    } else {
        spec_absorb(framer_after(m, chunks.drop_last()), chunks.last()).framer
    }
}

/// The i-th absorb step when the chunks are fed in order from state `m`.
pub open spec fn absorb_step_at(m: FramerModel, chunks: Seq<Seq<u8>>, i: int) -> AbsorbStep {
    spec_absorb(framer_after(m, chunks.take(i)), chunks[i])
}

/// Law: a read of exactly `MIN_CHUNK_LEN` bytes is valid — within the cap it
/// is absorbed, never rejected — while a shorter read is rejected as a
/// framing violation that leaves the framer exactly as it was.
pub proof fn lemma_minimum_read_boundary(m: FramerModel, chunk: Seq<u8>)
    ensures
        chunk.len() < MIN_CHUNK_LEN ==> spec_absorb(m, chunk).outcome == Err::<
            Option<CompletedReport>,
            FramingError,
        >(FramingError::ChunkTooShort) && spec_absorb(m, chunk).framer == m,
        chunk.len() == MIN_CHUNK_LEN && m.accumulated + chunk.len() <= MAX_REPORT_BYTES
            ==> (spec_absorb(m, chunk).outcome matches Ok(o)),
{
}

/// Feeding only continuation chunks, within the cap, just accumulates their
/// lengths: every step returns `Ok(None)` and the running count grows by
/// exactly the bytes fed.
pub proof fn lemma_continuations_accumulate(m: FramerModel, chunks: Seq<Seq<u8>>)
    requires
        forall|i: int| 0 <= i < chunks.len() ==> continuation_chunk(#[trigger] chunks[i]),
        m.accumulated + total_len(chunks) <= MAX_REPORT_BYTES,
    ensures
        framer_after(m, chunks).accumulated == m.accumulated + total_len(chunks),
        forall|i: int|
            0 <= i < chunks.len() ==> (#[trigger] absorb_step_at(m, chunks, i)).outcome == Ok::<
                Option<CompletedReport>,
                FramingError,
            >(None),
    decreases chunks.len(),
{
    if chunks.len() == 0 {
    } else {
        let pre = chunks.drop_last();
        let c = chunks.last();
        lemma_continuations_accumulate(m, pre);
        assert forall|i: int|
            0 <= i < chunks.len() implies (#[trigger] absorb_step_at(m, chunks, i)).outcome == Ok::<
            Option<CompletedReport>,
            FramingError,
        >(None) by {
            assert(chunks.take(i) =~= pre.take(i));
            if i < chunks.len() - 1 {
                assert(absorb_step_at(m, pre, i).outcome == Ok::<
                    Option<CompletedReport>,
                    FramingError,
                >(None));
                assert(chunks[i] == pre[i]);
            } else {
                assert(chunks.take(i) =~= pre);
            }
        }
    }
}

/// Law: when every chunk before the last continues the report and only the
/// last chunk's terminator ends it, feeding the chunks in order from an idle
/// framer emits no report until the last chunk; the last chunk emits exactly
/// one completed report whose total is the sum of all the chunks' lengths,
/// the final chunk counted; and the accumulator is 0 immediately after.
pub proof fn lemma_single_report_reassembly(m: FramerModel, chunks: Seq<Seq<u8>>)
    requires
        m.accumulated == 0,
        chunks.len() >= 1,
        forall|i: int| 0 <= i < chunks.len() - 1 ==> continuation_chunk(#[trigger] chunks[i]),
        end_chunk(chunks.last()),
        total_len(chunks) <= MAX_REPORT_BYTES,
    ensures
        forall|i: int|
            0 <= i < chunks.len() - 1 ==> (#[trigger] absorb_step_at(m, chunks, i)).outcome
                == Ok::<Option<CompletedReport>, FramingError>(None),
        absorb_step_at(m, chunks, chunks.len() - 1).outcome matches Ok(Some(rep))
            && rep.total_bytes == total_len(chunks),
        absorb_step_at(m, chunks, chunks.len() - 1).framer == framer_idle(),
        framer_after(m, chunks) == framer_idle(),
{
    let pre = chunks.drop_last();
    let c = chunks.last();
    assert(total_len(pre) + c.len() == total_len(chunks));
    lemma_continuations_accumulate(m, pre);
    assert forall|i: int|
        0 <= i < chunks.len() - 1 implies (#[trigger] absorb_step_at(m, chunks, i)).outcome == Ok::<
        Option<CompletedReport>,
        FramingError,
    >(None) by {
        assert(chunks.take(i) =~= pre.take(i));
        assert(absorb_step_at(m, pre, i).outcome == Ok::<Option<CompletedReport>, FramingError>(
            None,
        ));
        assert(chunks[i] == pre[i]);
    }
    assert(chunks.take(chunks.len() - 1) =~= pre);
    assert(chunks =~= pre.push(c));
    assert(framer_after(m, chunks) == spec_absorb(framer_after(m, pre), c).framer);
}

/// Classify the three terminator bytes of a raw read.
pub fn classify_terminator(t0: u8, t1: u8, t2: u8) -> (t: Terminator)
    ensures
        t == spec_classify_terminator(t0, t1, t2),
{
    if t0 == 0x00 && t1 == 0x28 && t2 == 0x01 {
        Terminator::Continuation
    } else if t0 == 0x00 && t1 == 0x28 && t2 == 0x00 {
        Terminator::EndOfReport
    } else if t0 == 0x00 && t1 == 0x01 && t2 == 0x00 {
        Terminator::EndOfReportWithPayload
    } else {
        Terminator::Unknown
    }
}

/// Map a retained AIM identifier to its symbology.
pub fn classify_symbology(b0: u8, b1: u8, b2: u8) -> (s: Symbology)
    ensures
        s == spec_classify_symbology(b0, b1, b2),
{
    if b0 != 0x5d {
        return Symbology::Unknown(b0, b1, b2);
    }
    if b1 == 0x41 {
        Symbology::Code39
    } else if b1 == 0x43 {
        Symbology::Code128
    } else if b1 == 0x47 {
        Symbology::Code93
    } else if b1 == 0x46 {
        Symbology::Codabar
    } else if b1 == 0x45 {
        Symbology::EanUpc
    } else if b1 == 0x49 {
        Symbology::Interleaved2of5
    } else if b1 == 0x4c {
        Symbology::Pdf417
    } else if b1 == 0x51 {
        Symbology::QrCode
    } else if b1 == 0x64 {
        Symbology::DataMatrix
    } else if b1 == 0x65 {
        Symbology::Gs1DataBar
    } else {
        Symbology::Unknown(b0, b1, b2)
    }
}

} // verus!
