//! Scanning a buffer for frames, with resynchronisation.
//!
//! A scanner is a cursor into a buffer. One step looks at the bytes at the
//! cursor: where they open with a frame, the frame is decoded and the cursor
//! moves past it; where they do not, the cursor moves on by one byte. So
//! after a damaged or cut-off frame the scanner finds the next frame by
//! itself, and every step moves the cursor forward.

use vstd::prelude::*;
use vstd::slice::slice_subrange;
use crate::edm::frame::{frame_result_view, EDMFrame, FrameView};
use crate::edm::parser::{
    frame_len,
    frame_result,
    lemma_frame_len_bound,
    parse_edm,
    well_framed,
    EDM_MIN_FRAME,
};
use crate::edm::types::EDMFrameError;

verus! {

/// The first offset at or after `pos` at which `s` holds a frame, or the
/// length of `s` where there is none.
pub open spec fn next_frame_start(s: Seq<u8>, pos: int) -> int
    decreases s.len() - pos,
{
    if pos < 0 || pos >= s.len() {
        s.len() as int
    } else if well_framed(s.skip(pos)) {
        pos
    } else {
        next_frame_start(s, pos + 1)
    }
}

/// What a scan of `s` from offset `pos` yields, in order: at each offset
/// that holds a frame, what the frame decodes to, after which the scan goes
/// on behind the frame; at any other offset nothing, and the scan goes on
/// one byte further.
pub open spec fn scan_results(s: Seq<u8>, pos: int) -> Seq<Result<FrameView, EDMFrameError>>
    decreases s.len() - pos,
{
    if pos < 0 || pos >= s.len() {
        Seq::empty()
    } else if well_framed(s.skip(pos)) {
        seq![frame_result(s.skip(pos))] + scan_results(s, pos + frame_len(s.skip(pos)))
    } else {
        scan_results(s, pos + 1)
    }
}

/// A sequence of decoding results with each frame replaced by its view.
pub open spec fn results_view(results: Seq<Result<EDMFrame<'_>, EDMFrameError>>) -> Seq<
    Result<FrameView, EDMFrameError>,
> {
    Seq::new(results.len(), |i: int| frame_result_view(results[i]))
}

/// What one step of a scanner found at the cursor.
#[derive(Debug, Clone, Copy, PartialEq, Eq)]
pub enum EDMScanStep<'a> {
    /// The bytes at the cursor open with a frame. It was decoded, and the
    /// cursor stands behind its end byte.
    Frame(Result<EDMFrame<'a>, EDMFrameError>),
    /// The bytes at the cursor do not open with a frame. The cursor moved on
    /// by one byte.
    Malformed,
    /// Fewer bytes are left than the shortest frame takes. The cursor did
    /// not move, and never will.
    Done,
}

impl<'a> EDMScanStep<'a> {
    /// This step as a decoding result: what the frame decodes to for a
    /// frame, `MalformedFraming` for a byte that was passed over, and
    /// nothing when the scan is over.
    pub fn into_result(self) -> (r: Option<Result<EDMFrame<'a>, EDMFrameError>>)
        ensures
            r == match self {
                EDMScanStep::Frame(res) => Some(res),
                EDMScanStep::Malformed => Some(Err(EDMFrameError::MalformedFraming)),
                EDMScanStep::Done => None,
            },
    {
        match self {
            EDMScanStep::Frame(res) => Some(res),
            EDMScanStep::Malformed => Some(Err(EDMFrameError::MalformedFraming)),
            EDMScanStep::Done => None,
        }
    }
}

/// A cursor into a buffer of captured bytes.
pub struct EDMScanner<'a> {
    input: &'a [u8],
    pos: usize,
}

impl<'a> EDMScanner<'a> {
    /// The buffer that is scanned.
    pub closed spec fn buffer(&self) -> Seq<u8> {
        self.input@
    }

    /// The offset of the next byte to look at.
    pub closed spec fn cursor(&self) -> int {
        self.pos as int
    }

    /// The cursor stands in the buffer or at its end.
    #[verifier::type_invariant]
    pub closed spec fn wf(&self) -> bool {
        self.pos <= self.input@.len()
    }

    /// The scan is over: fewer bytes are left than the shortest frame takes.
    pub open spec fn done(&self) -> bool {
        self.buffer().len() - self.cursor() < EDM_MIN_FRAME
    }

    /// A scanner at the start of `input`.
    pub fn new(input: &'a [u8]) -> (s: Self)
        ensures
            s.buffer() == input@,
            s.cursor() == 0,
    {
        Self { input, pos: 0 }
    }

    /// The offset of the next byte to look at.
    pub fn position(&self) -> (p: usize)
        ensures
            p == self.cursor(),
            p <= self.buffer().len(),
    {
        proof {
            use_type_invariant(self);
        }
        self.pos
    }

    /// The bytes from the cursor to the end of the buffer.
    pub fn remaining(&self) -> (rest: &'a [u8])
        ensures
            rest@ == self.buffer().skip(self.cursor()),
    {
        proof {
            use_type_invariant(self);
        }
        slice_subrange(self.input, self.pos, self.input.len())
    }

    /// Whether the scan is over.
    pub fn is_done(&self) -> (b: bool)
        ensures
            b == self.done(),
    {
        proof {
            use_type_invariant(self);
        }
        self.input.len() - self.pos < EDM_MIN_FRAME
    }

    /// Makes one step.
    ///
    /// Where the scan is over, the result is `Done` and nothing changes.
    /// Else, where the bytes at the cursor open with a frame, the result is
    /// `Frame` of what the frame decodes to, and the cursor moves behind the
    /// frame. Else the result is `Malformed`, and the cursor moves on by one
    /// byte. So every step but `Done` moves the cursor forward. The buffer
    /// stays the same.
    pub fn step(&mut self) -> (r: EDMScanStep<'a>)
        ensures
            final(self).buffer() == old(self).buffer(),
            old(self).cursor() <= final(self).cursor() <= old(self).buffer().len(),
            !(r is Done) ==> old(self).cursor() < final(self).cursor(),
            match r {
                EDMScanStep::Done => old(self).done() && final(self).cursor() == old(self).cursor(),
                EDMScanStep::Malformed => !old(self).done() && !well_framed(
                    old(self).buffer().skip(old(self).cursor()),
                ) && final(self).cursor() == old(self).cursor() + 1,
                EDMScanStep::Frame(res) => {
                    let at = old(self).buffer().skip(old(self).cursor());
                    &&& !old(self).done()
                    &&& well_framed(at)
                    &&& final(self).cursor() == old(self).cursor() + frame_len(at)
                    &&& frame_result_view(res) == frame_result(at)
                    &&& res matches Ok(frame) ==> frame.wf()
                },
            },
    {
        proof {
            use_type_invariant(&*self);
        }
        let n: usize = self.input.len();
        if n - self.pos < EDM_MIN_FRAME {
            return EDMScanStep::Done;
        }
        match parse_edm(slice_subrange(self.input, self.pos, n)) {
            Ok((rest, res)) => {
                let consumed: usize = (n - self.pos) - rest.len();
                self.pos = self.pos + consumed;
                EDMScanStep::Frame(res)
            },
            Err(_) => {
                self.pos = self.pos + 1;
                EDMScanStep::Malformed
            },
        }
    }

    /// Steps until a frame is found or the scan is over.
    ///
    /// The result is what the first frame at or after the cursor decodes to,
    /// and the cursor then stands behind that frame; or `None` where no
    /// offset from the cursor on holds a frame, and the scan is then over.
    /// The buffer stays the same.
    pub fn next_frame(&mut self) -> (r: Option<Result<EDMFrame<'a>, EDMFrameError>>)
        ensures
            final(self).buffer() == old(self).buffer(),
            old(self).cursor() <= final(self).cursor() <= old(self).buffer().len(),
            ({
                let s = old(self).buffer();
                let n = next_frame_start(s, old(self).cursor());
                match r {
                    None => n == s.len() && final(self).done(),
                    Some(res) => {
                        &&& n < s.len()
                        &&& final(self).cursor() == n + frame_len(s.skip(n))
                        &&& final(self).cursor() > old(self).cursor()
                        &&& frame_result_view(res) == frame_result(s.skip(n))
                        &&& res matches Ok(frame) ==> frame.wf()
                    },
                }
            }),
    {
        proof {
            use_type_invariant(&*self);
        }
        loop
            invariant
                self.buffer() == old(self).buffer(),
                old(self).cursor() <= self.cursor() <= self.buffer().len(),
                next_frame_start(self.buffer(), self.cursor()) == next_frame_start(
                    old(self).buffer(),
                    old(self).cursor(),
                ),
            decreases self.buffer().len() - self.cursor(),
        {
            match self.step() {
                EDMScanStep::Done => {
                    proof {
                        lemma_scan_tail(self.buffer(), self.cursor());
                    }
                    return None;
                },
                EDMScanStep::Malformed => {},
                EDMScanStep::Frame(res) => {
                    return Some(res);
                },
            }
        }
    }
}

/// Scans all of `input` and returns what each frame found decodes to, in
/// the order in which the frames stand in the buffer. Bytes that belong to
/// no frame are passed over.
pub fn scan_edm<'a>(input: &'a [u8]) -> (out: Vec<Result<EDMFrame<'a>, EDMFrameError>>)
    ensures
        results_view(out@) == scan_results(input@, 0),
        forall|i: int| 0 <= i < out@.len() ==> (#[trigger] out@[i] matches Ok(frame) ==> frame.wf()),
{
    let mut scanner = EDMScanner::new(input);
    let mut out: Vec<Result<EDMFrame<'a>, EDMFrameError>> = Vec::new();
    loop
        invariant
            scanner.buffer() == input@,
            0 <= scanner.cursor() <= input@.len(),
            results_view(out@) + scan_results(input@, scanner.cursor()) == scan_results(input@, 0),
            forall|i: int|
                0 <= i < out@.len() ==> (#[trigger] out@[i] matches Ok(frame) ==> frame.wf()),
        decreases input@.len() - scanner.cursor(),
    {
        proof {
            lemma_scan_unfold(input@, scanner.cursor());
        }
        match scanner.next_frame() {
            None => {
                return out;
            },
            Some(res) => {
                out.push(res);
            },
        }
    }
}

/// Where fewer bytes are left than the shortest frame takes, no frame
/// starts any more and the scan yields nothing.
pub proof fn lemma_scan_tail(s: Seq<u8>, pos: int)
    requires
        0 <= pos,
        s.len() - pos < EDM_MIN_FRAME,
    ensures
        next_frame_start(s, pos) == s.len(),
        scan_results(s, pos) == Seq::<Result<FrameView, EDMFrameError>>::empty(),
    decreases s.len() - pos,
{
    if pos < s.len() {
        lemma_frame_len_bound(s.skip(pos));
        lemma_scan_tail(s, pos + 1);
    }
}

/// `next_frame_start` is the least offset from `pos` on that holds a frame:
/// no offset before it does, and it does itself unless it is the end of the
/// buffer.
pub proof fn lemma_next_frame_start_least(s: Seq<u8>, pos: int)
    requires
        0 <= pos <= s.len(),
    ensures
        pos <= next_frame_start(s, pos) <= s.len(),
        next_frame_start(s, pos) < s.len() ==> well_framed(s.skip(next_frame_start(s, pos))),
        forall|k: int| pos <= k < next_frame_start(s, pos) ==> !well_framed(#[trigger] s.skip(k)),
    decreases s.len() - pos,
{
    if pos < s.len() && !well_framed(s.skip(pos)) {
        lemma_next_frame_start_least(s, pos + 1);
    }
}

/// A scan yields what the first frame from `pos` on decodes to, and then
/// what the scan behind that frame yields; it yields nothing where no frame
/// starts from `pos` on.
pub proof fn lemma_scan_unfold(s: Seq<u8>, pos: int)
    requires
        0 <= pos <= s.len(),
    ensures
        ({
            let n = next_frame_start(s, pos);
            scan_results(s, pos) == if n >= s.len() {
                Seq::<Result<FrameView, EDMFrameError>>::empty()
            } else {
                seq![frame_result(s.skip(n))] + scan_results(s, n + frame_len(s.skip(n)))
            }
        }),
    decreases s.len() - pos,
{
    if pos < s.len() && !well_framed(s.skip(pos)) {
        lemma_scan_unfold(s, pos + 1);
    }
}

/// Resynchronisation: a stretch of bytes at none of which a frame starts
/// changes nothing in what a scan yields.
pub proof fn lemma_scan_skips_garbage(s: Seq<u8>, pos: int, end: int)
    requires
        0 <= pos <= end <= s.len(),
        forall|k: int| pos <= k < end ==> !well_framed(#[trigger] s.skip(k)),
    ensures
        scan_results(s, pos) == scan_results(s, end),
    decreases end - pos,
{
    if pos < end {
        lemma_scan_skips_garbage(s, pos + 1, end);
    }
}

/// Resynchronisation after a frame: where a frame is followed by bytes at
/// none of which a frame starts, and then by a second frame, a scan yields
/// what the first frame decodes to, then what the second decodes to, and
/// goes on behind the second.
pub proof fn lemma_scan_resynchronises(s: Seq<u8>, first: int, second: int)
    requires
        0 <= first < second < s.len(),
        well_framed(s.skip(first)),
        first + frame_len(s.skip(first)) <= second,
        forall|k: int|
            first + frame_len(s.skip(first)) <= k < second ==> !well_framed(#[trigger] s.skip(k)),
        well_framed(s.skip(second)),
    ensures
        scan_results(s, first) == seq![frame_result(s.skip(first)), frame_result(s.skip(second))]
            + scan_results(s, second + frame_len(s.skip(second))),
{
    lemma_scan_skips_garbage(s, first + frame_len(s.skip(first)), second);
}

/// A scan looks at the bytes from its offset on only: scanning from `pos`
/// yields what scanning the rest of the buffer from its start yields. So a
/// caller who cuts frames off with `parse_edm`, going on with the bytes
/// that it hands back and dropping a byte where it fails, meets the same
/// results.
pub proof fn lemma_scan_suffix(s: Seq<u8>, pos: int)
    requires
        0 <= pos <= s.len(),
    ensures
        scan_results(s, pos) == scan_results(s.skip(pos), 0),
    decreases s.len() - pos,
{
    let t = s.skip(pos);
    assert(t.skip(0) =~= t);
    if pos < s.len() {
        let step: int = if well_framed(t) {
            lemma_frame_len_bound(t);
            frame_len(t) as int
        } else {
            1
        };
        assert(t.skip(step) =~= s.skip(pos + step));
        lemma_scan_suffix(s, pos + step);
        lemma_scan_suffix(t, step);
    }
}

/// A scan ends: it yields at most one result for every six bytes that are
/// left.
pub proof fn lemma_scan_results_bound(s: Seq<u8>, pos: int)
    requires
        0 <= pos <= s.len(),
    ensures
        EDM_MIN_FRAME * scan_results(s, pos).len() <= s.len() - pos,
    decreases s.len() - pos,
{
    if pos < s.len() {
        if well_framed(s.skip(pos)) {
            lemma_frame_len_bound(s.skip(pos));
            lemma_scan_results_bound(s, pos + frame_len(s.skip(pos)));
        } else {
            lemma_scan_results_bound(s, pos + 1);
        }
    }
}

} // verus!
