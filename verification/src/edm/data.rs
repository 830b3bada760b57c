//! The application data that decoded frames carry.

use vstd::prelude::*;
use crate::edm::frame::{frame_result_view, EDMFrame, FrameView};
use crate::edm::scanner::results_view;
use crate::edm::subframe::{EDMSubframe, SubframeView};
use crate::edm::types::EDMFrameError;

verus! {

/// The application data that one decoding result carries: the payload of a
/// data event, and nothing for any other frame or for an error.
pub open spec fn data_event_bytes(r: Result<FrameView, EDMFrameError>) -> Seq<u8> {
    match r {
        Ok(frame) => match frame.subframe {
            SubframeView::DataEvent { payload, .. } => payload,
            _ => Seq::empty(),
        },
        Err(_) => Seq::empty(),
    }
}

/// The application data that a run of decoding results carries: the
/// payloads of its data events, joined in their order.
pub open spec fn collected_data(results: Seq<Result<FrameView, EDMFrameError>>) -> Seq<u8>
    decreases results.len(),
{
    if results.len() == 0 {
        Seq::empty()
    } else {
        collected_data(results.drop_last()) + data_event_bytes(results.last())
    }
}

impl<'a> EDMFrame<'a> {
    /// The payload of this frame where it is a data event.
    pub fn data_event_payload(&self) -> (r: Option<&'a [u8]>)
        ensures
            r is Some <==> self@.subframe is DataEvent,
            r matches Some(payload) ==> payload@ == data_event_bytes(Ok(self@)),
            r is None ==> data_event_bytes(Ok(self@)).len() == 0,
    {
        match self.subframe {
            EDMSubframe::DataEvent(event) => Some(event.payload),
            _ => None,
        }
    }
}

/// Joins the payloads of the data events among `results`, in their order.
pub fn collect_data_events(results: &[Result<EDMFrame<'_>, EDMFrameError>]) -> (out: Vec<u8>)
    ensures
        out@ == collected_data(results_view(results@)),
{
    let mut out: Vec<u8> = Vec::new();
    let mut i: usize = 0;
    while i < results.len()
        invariant
            i <= results@.len(),
            out@ == collected_data(results_view(results@).take(i as int)),
        decreases results@.len() - i,
    {
        proof {
            let all = results_view(results@);
            assert(all.take(i + 1).drop_last() =~= all.take(i as int));
        }
        if let Ok(frame) = &results[i] {
            if let Some(payload) = frame.data_event_payload() {
                out.extend_from_slice(payload);
            }
        }
        i = i + 1;
    }
    assert(results_view(results@).take(i as int) =~= results_view(results@));
    out
}

} // verus!
