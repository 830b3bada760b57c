//! Frames: an identifier, a type and the subframe that the pair stands for.
//!
//! Ten of the pairs of identifier and type have a subframe. `dispatch` is
//! that table; `assemble` says what two raw codes and the bytes after the
//! header make; `EDMFrame::from_parts` computes it.

use vstd::prelude::*;
use crate::edm::subframe::{
    decode_subframe,
    EDMSubframe,
    EDMSubframeKind,
    SubframeView,
};
use crate::edm::types::{EDMConnectType, EDMFrameError, EDMIdentifier, EDMType};

verus! {

/// The dispatch table: the kind of subframe that a pair of identifier and
/// type stands for, if the protocol defines one.
pub open spec fn dispatch(id: EDMIdentifier, ftype: EDMType) -> Option<EDMSubframeKind> {
    match (id, ftype) {
        (EDMIdentifier::Connect, EDMType::Event) => Some(EDMSubframeKind::ConnectEvent),
        (EDMIdentifier::Disconnect, EDMType::Event) => Some(EDMSubframeKind::DisconnectEvent),
        (EDMIdentifier::Data, EDMType::Event) => Some(EDMSubframeKind::DataEvent),
        (EDMIdentifier::Data, EDMType::Command) => Some(EDMSubframeKind::DataCommand),
        (EDMIdentifier::AT, EDMType::Request) => Some(EDMSubframeKind::AtRequest),
        (EDMIdentifier::AT, EDMType::Response) => Some(EDMSubframeKind::AtResponse),
        (EDMIdentifier::AT, EDMType::Event) => Some(EDMSubframeKind::AtEvent),
        (EDMIdentifier::ResendConnectEvents, EDMType::Command) => Some(
            EDMSubframeKind::ResendConnectEventsCommand,
        ),
        (EDMIdentifier::Iphone, EDMType::Event) => Some(EDMSubframeKind::IphoneEvent),
        (EDMIdentifier::Start, EDMType::Event) => Some(EDMSubframeKind::StartEvent),
        _ => None,
    }
}

/// The dispatch table over codes: the kind of subframe that an identifier
/// code and a type code stand for, if both are registered and the protocol
/// defines a subframe for the pair that they name.
pub open spec fn dispatch_codes(id_code: u16, type_code: u16) -> Option<EDMSubframeKind> {
    match (EDMIdentifier::from_code(id_code), EDMType::from_code(type_code)) {
        (Some(id), Some(ftype)) => dispatch(id, ftype),
        _ => None,
    }
}

/// What a frame holds, as plain values.
pub struct FrameView {
    pub id: EDMIdentifier,
    pub ftype: EDMType,
    pub subframe: SubframeView,
}

impl FrameView {
    /// The subframe is of the kind that the frame's identifier and type
    /// stand for.
    pub open spec fn wf(self) -> bool {
        dispatch(self.id, self.ftype) == Some(self.subframe.kind())
    }
}

/// The frame that an identifier code, a type code and the bytes after the
/// header make, or the reason why they make none.
///
/// The identifier code is judged first, then the type code, then the pair,
/// and the bytes last.
pub open spec fn assemble(id_code: u16, type_code: u16, payload: Seq<u8>) -> Result<
    FrameView,
    EDMFrameError,
> {
    match EDMIdentifier::from_code(id_code) {
        None => Err(EDMFrameError::InvalidFrameIdentifier),
        Some(id) => match EDMType::from_code(type_code) {
            None => Err(EDMFrameError::InvalidFrameType),
            Some(ftype) => match dispatch(id, ftype) {
                None => Err(EDMFrameError::UnsupportedFrameKind),
                Some(kind) => match decode_subframe(kind, payload) {
                    Err(_) => Err(EDMFrameError::BadFrameData),
                    Ok(subframe) => Ok(FrameView { id, ftype, subframe }),
                },
            },
        },
    }
}

/// The result of decoding a frame with the frame replaced by its view.
pub open spec fn frame_result_view(r: Result<EDMFrame<'_>, EDMFrameError>) -> Result<
    FrameView,
    EDMFrameError,
> {
    match r {
        Ok(frame) => Ok(frame@),
        Err(e) => Err(e),
    }
}

impl EDMSubframeKind {
    /// Looks a pair of identifier and type up in the dispatch table.
    pub fn for_pair(id: EDMIdentifier, ftype: EDMType) -> (r: Option<EDMSubframeKind>)
        ensures
            r == dispatch(id, ftype),
    {
        match (id, ftype) {
            (EDMIdentifier::Connect, EDMType::Event) => Some(EDMSubframeKind::ConnectEvent),
            (EDMIdentifier::Disconnect, EDMType::Event) => Some(EDMSubframeKind::DisconnectEvent),
            (EDMIdentifier::Data, EDMType::Event) => Some(EDMSubframeKind::DataEvent),
            (EDMIdentifier::Data, EDMType::Command) => Some(EDMSubframeKind::DataCommand),
            (EDMIdentifier::AT, EDMType::Request) => Some(EDMSubframeKind::AtRequest),
            (EDMIdentifier::AT, EDMType::Response) => Some(EDMSubframeKind::AtResponse),
            (EDMIdentifier::AT, EDMType::Event) => Some(EDMSubframeKind::AtEvent),
            (EDMIdentifier::ResendConnectEvents, EDMType::Command) => Some(
                EDMSubframeKind::ResendConnectEventsCommand,
            ),
            (EDMIdentifier::Iphone, EDMType::Event) => Some(EDMSubframeKind::IphoneEvent),
            (EDMIdentifier::Start, EDMType::Event) => Some(EDMSubframeKind::StartEvent),
            _ => None,
        }
    }
}

/// One decoded protocol unit. Its payload is lent from the buffer that the
/// frame was cut from.
#[derive(Debug, Clone, Copy, PartialEq, Eq)]
pub struct EDMFrame<'a> {
    pub id: EDMIdentifier,
    pub ftype: EDMType,
    pub subframe: EDMSubframe<'a>,
}

impl<'a> View for EDMFrame<'a> {
    type V = FrameView;

    open spec fn view(&self) -> FrameView {
        FrameView { id: self.id, ftype: self.ftype, subframe: self.subframe@ }
    }
}

impl<'a> EDMFrame<'a> {
    /// The subframe is of the kind that the frame's identifier and type
    /// stand for.
    pub open spec fn wf(&self) -> bool {
        self@.wf()
    }

    /// Puts a frame together from parts that belong together: the subframe
    /// must be of the kind that the pair stands for.
    pub fn new(id: EDMIdentifier, ftype: EDMType, subframe: EDMSubframe<'a>) -> (r: Self)
        requires
            dispatch(id, ftype) == Some(subframe@.kind()),
        ensures
            r.id == id,
            r.ftype == ftype,
            r.subframe == subframe,
            r.wf(),
    {
        Self { id, ftype, subframe }
    }

    /// Decodes a frame from the two codes of its header and the bytes that
    /// follow the header.
    ///
    /// Fails with `InvalidFrameIdentifier` when `id` is not registered; else
    /// with `InvalidFrameType` when `ftype` is not registered; else with
    /// `UnsupportedFrameKind` when the protocol defines no subframe for the
    /// pair; else with `BadFrameData` when `payload` does not decode as that
    /// subframe. Otherwise the frame holds the identifier, the type and the
    /// decoded subframe.
    pub fn from_parts(id: u16, ftype: u16, payload: &'a [u8]) -> (r: Result<Self, EDMFrameError>)
        ensures
            frame_result_view(r) == assemble(id, ftype, payload@),
            r matches Ok(frame) ==> frame.wf(),
    {
        let xid = match EDMIdentifier::try_from(id) {
            Ok(xid) => xid,
            Err(_) => {
                return Err(EDMFrameError::InvalidFrameIdentifier);
            },
        };
        let xftype = match EDMType::try_from(ftype) {
            Ok(xftype) => xftype,
            Err(_) => {
                return Err(EDMFrameError::InvalidFrameType);
            },
        };
        let kind = match EDMSubframeKind::for_pair(xid, xftype) {
            Some(kind) => kind,
            None => {
                return Err(EDMFrameError::UnsupportedFrameKind);
            },
        };
        match EDMSubframe::decode(kind, payload) {
            Ok(subframe) => Ok(Self { id: xid, ftype: xftype, subframe }),
            Err(_) => Err(EDMFrameError::BadFrameData),
        }
    }
}

/// Every frame that `assemble` makes holds a subframe of the kind that its
/// identifier and type stand for.
pub proof fn lemma_assemble_wf(id_code: u16, type_code: u16, payload: Seq<u8>)
    ensures
        assemble(id_code, type_code, payload) matches Ok(frame) ==> frame.wf(),
{
}

/// Each error of `assemble` comes on exactly the inputs that it names: an
/// unregistered identifier code; a registered identifier with an
/// unregistered type code; a registered pair without a subframe; a pair with
/// a subframe whose decoder rejects the bytes.
pub proof fn lemma_assemble_errors(id_code: u16, type_code: u16, payload: Seq<u8>)
    ensures
        assemble(id_code, type_code, payload) == Err::<FrameView, EDMFrameError>(
            EDMFrameError::InvalidFrameIdentifier,
        ) <==> EDMIdentifier::from_code(id_code) is None,
        assemble(id_code, type_code, payload) == Err::<FrameView, EDMFrameError>(
            EDMFrameError::InvalidFrameType,
        ) <==> EDMIdentifier::from_code(id_code) is Some && EDMType::from_code(type_code) is None,
        assemble(id_code, type_code, payload) == Err::<FrameView, EDMFrameError>(
            EDMFrameError::UnsupportedFrameKind,
        ) <==> (EDMIdentifier::from_code(id_code) matches Some(id) && EDMType::from_code(
            type_code,
        ) matches Some(ftype) && dispatch(id, ftype) is None),
        assemble(id_code, type_code, payload) == Err::<FrameView, EDMFrameError>(
            EDMFrameError::BadFrameData,
        ) <==> (EDMIdentifier::from_code(id_code) matches Some(id) && EDMType::from_code(
            type_code,
        ) matches Some(ftype) && dispatch(id, ftype) matches Some(kind) && decode_subframe(
            kind,
            payload,
        ) is Err),
        assemble(id_code, type_code, payload) != Err::<FrameView, EDMFrameError>(
            EDMFrameError::MalformedFraming,
        ),
{
}

/// For codes that name a pair in the dispatch table, and bytes that hold the
/// fixed fields of the pair's subframe, with a registered connect-type byte
/// where the subframe is a connect event, a frame is made. It holds the
/// identifier and the type that the codes name, and a subframe of the kind
/// that the table gives for them.
pub proof fn lemma_assemble_supported(id_code: u16, type_code: u16, payload: Seq<u8>)
    requires
        dispatch_codes(id_code, type_code) is Some,
        payload.len() >= dispatch_codes(id_code, type_code).unwrap().spec_min_len(),
        dispatch_codes(id_code, type_code) == Some(EDMSubframeKind::ConnectEvent)
            ==> EDMConnectType::from_code(payload[1]) is Some,
    ensures
        assemble(id_code, type_code, payload) matches Ok(frame) && Some(frame.id)
            == EDMIdentifier::from_code(id_code) && Some(frame.ftype) == EDMType::from_code(
            type_code,
        ) && Some(frame.subframe.kind()) == dispatch_codes(id_code, type_code),
{
}

/// For a registered identifier code and a registered type code whose pair
/// is not in the dispatch table, no frame is made, whatever the bytes: the
/// result is `UnsupportedFrameKind`.
pub proof fn lemma_assemble_unsupported(id_code: u16, type_code: u16, payload: Seq<u8>)
    requires
        EDMIdentifier::from_code(id_code) is Some,
        EDMType::from_code(type_code) is Some,
        dispatch_codes(id_code, type_code) is None,
    ensures
        assemble(id_code, type_code, payload) == Err::<FrameView, EDMFrameError>(
            EDMFrameError::UnsupportedFrameKind,
        ),
{
}

} // verus!
