//! The typed records that follow a frame's header, and their decoders.
//!
//! A decoder is handed the bytes after the two header bytes. It checks that
//! the fixed fields are present before it reads them, and lends the rest of
//! the bytes out as the record's payload without copying them.

use vstd::prelude::*;
use vstd::slice::slice_subrange;
use crate::edm::types::{EDMConnectType, EDMSubframeError};

verus! {

/// The ten kinds of subframe that the protocol defines.
#[derive(Debug, Clone, Copy, PartialEq, Eq, Structural)]
pub enum EDMSubframeKind {
    ConnectEvent,
    DisconnectEvent,
    DataEvent,
    DataCommand,
    AtRequest,
    AtResponse,
    AtEvent,
    ResendConnectEventsCommand,
    IphoneEvent,
    StartEvent,
}

impl EDMSubframeKind {
    /// The number of bytes that the fixed fields of this kind take.
    pub open spec fn spec_min_len(self) -> nat {
        match self {
            EDMSubframeKind::ConnectEvent => 2,
            EDMSubframeKind::DisconnectEvent => 1,
            EDMSubframeKind::DataEvent => 1,
            EDMSubframeKind::DataCommand => 1,
            _ => 0,
        }
    }

    /// The number of bytes that the fixed fields of this kind take.
    #[verifier::when_used_as_spec(spec_min_len_usize)]
    pub fn min_len(self) -> (n: usize)
        ensures
            n == self.spec_min_len(),
    {
        match self {
            EDMSubframeKind::ConnectEvent => 2,
            EDMSubframeKind::DisconnectEvent => 1,
            EDMSubframeKind::DataEvent => 1,
            EDMSubframeKind::DataCommand => 1,
            _ => 0,
        }
    }

    /// `spec_min_len` as a machine integer.
    pub open spec fn spec_min_len_usize(self) -> usize {
        self.spec_min_len() as usize
    }
}

/// What a subframe holds, as plain values: the model that the contracts of
/// the decoders speak of.
pub enum SubframeView {
    ConnectEvent { channel_id: u8, connect_type: EDMConnectType, payload: Seq<u8> },
    DisconnectEvent { channel_id: u8 },
    DataEvent { channel_id: u8, payload: Seq<u8> },
    DataCommand { channel_id: u8, payload: Seq<u8> },
    AtRequest { payload: Seq<u8> },
    AtResponse { payload: Seq<u8> },
    AtEvent { payload: Seq<u8> },
    ResendConnectEventsCommand,
    IphoneEvent,
    StartEvent,
}

impl SubframeView {
    /// The kind of this subframe.
    pub open spec fn kind(self) -> EDMSubframeKind {
        match self {
            SubframeView::ConnectEvent { .. } => EDMSubframeKind::ConnectEvent,
            SubframeView::DisconnectEvent { .. } => EDMSubframeKind::DisconnectEvent,
            SubframeView::DataEvent { .. } => EDMSubframeKind::DataEvent,
            SubframeView::DataCommand { .. } => EDMSubframeKind::DataCommand,
            SubframeView::AtRequest { .. } => EDMSubframeKind::AtRequest,
            SubframeView::AtResponse { .. } => EDMSubframeKind::AtResponse,
            SubframeView::AtEvent { .. } => EDMSubframeKind::AtEvent,
            SubframeView::ResendConnectEventsCommand => EDMSubframeKind::ResendConnectEventsCommand,
            SubframeView::IphoneEvent => EDMSubframeKind::IphoneEvent,
            SubframeView::StartEvent => EDMSubframeKind::StartEvent,
        }
    }
}

/// What the bytes after a header decode to as a subframe of the given kind.
///
/// A connect event is a channel id, a connect-type byte and a payload; a
/// disconnect event is a channel id, and what follows it is dropped; a data
/// event or command is a channel id and a payload; an AT request, response
/// or event is all of the bytes; the remaining kinds hold nothing and drop
/// whatever bytes are present.
pub open spec fn decode_subframe(kind: EDMSubframeKind, bytes: Seq<u8>) -> Result<
    SubframeView,
    EDMSubframeError,
> {
    match kind {
        EDMSubframeKind::ConnectEvent => {
            if bytes.len() < 2 {
                Err(EDMSubframeError::InsufficientData)
            } else {
                match EDMConnectType::from_code(bytes[1]) {
                    Some(connect_type) => Ok(
                        SubframeView::ConnectEvent {
                            channel_id: bytes[0],
                            connect_type,
                            payload: bytes.skip(2),
                        },
                    ),
                    None => Err(EDMSubframeError::InvalidConnectType),
                }
            }
        },
        EDMSubframeKind::DisconnectEvent => {
            if bytes.len() < 1 {
                Err(EDMSubframeError::InsufficientData)
            } else {
                Ok(SubframeView::DisconnectEvent { channel_id: bytes[0] })
            }
        },
        EDMSubframeKind::DataEvent => {
            if bytes.len() < 1 {
                Err(EDMSubframeError::InsufficientData)
            } else {
                Ok(SubframeView::DataEvent { channel_id: bytes[0], payload: bytes.skip(1) })
            }
        },
        EDMSubframeKind::DataCommand => {
            if bytes.len() < 1 {
                Err(EDMSubframeError::InsufficientData)
            } else {
                Ok(SubframeView::DataCommand { channel_id: bytes[0], payload: bytes.skip(1) })
            }
        },
        EDMSubframeKind::AtRequest => Ok(SubframeView::AtRequest { payload: bytes }),
        EDMSubframeKind::AtResponse => Ok(SubframeView::AtResponse { payload: bytes }),
        EDMSubframeKind::AtEvent => Ok(SubframeView::AtEvent { payload: bytes }),
        EDMSubframeKind::ResendConnectEventsCommand => Ok(SubframeView::ResendConnectEventsCommand),
        EDMSubframeKind::IphoneEvent => Ok(SubframeView::IphoneEvent),
        EDMSubframeKind::StartEvent => Ok(SubframeView::StartEvent),
    }
}

/// The result of a decoder with the record replaced by its view.
pub open spec fn decoded<T: View<V = SubframeView>, E>(r: Result<T, E>) -> Result<SubframeView, E> {
    match r {
        Ok(record) => Ok(record@),
        Err(e) => Err(e),
    }
}

/// A channel was opened.
#[derive(Debug, Clone, Copy, PartialEq, Eq)]
pub struct EDMConnectEvent<'a> {
    pub channel_id: u8,
    pub connect_type: EDMConnectType,
    pub payload: &'a [u8],
}

impl<'a> View for EDMConnectEvent<'a> {
    type V = SubframeView;

    open spec fn view(&self) -> SubframeView {
        SubframeView::ConnectEvent {
            channel_id: self.channel_id,
            connect_type: self.connect_type,
            payload: self.payload@,
        }
    }
}

impl<'a> EDMConnectEvent<'a> {
    /// Decodes a connect event: byte 0 is the channel id, byte 1 the
    /// connect type, the rest the payload.
    ///
    /// Fails with `InsufficientData` on fewer than two bytes, and with
    /// `InvalidConnectType` when byte 1 is not a registered connect type.
    pub fn new(bytes: &'a [u8]) -> (r: Result<Self, EDMSubframeError>)
        ensures
            decoded(r) == decode_subframe(EDMSubframeKind::ConnectEvent, bytes@),
    {
        if bytes.len() < 2 {
            return Err(EDMSubframeError::InsufficientData);
        }
        let channel_id: u8 = bytes[0];
        match EDMConnectType::try_from(bytes[1]) {
            Ok(connect_type) => Ok(
                Self { channel_id, connect_type, payload: slice_subrange(bytes, 2, bytes.len()) },
            ),
            Err(_) => Err(EDMSubframeError::InvalidConnectType),
        }
    }
}

/// A channel was closed.
#[derive(Debug, Clone, Copy, PartialEq, Eq)]
pub struct EDMDisconnectEvent {
    pub channel_id: u8,
}

impl View for EDMDisconnectEvent {
    type V = SubframeView;

    open spec fn view(&self) -> SubframeView {
        SubframeView::DisconnectEvent { channel_id: self.channel_id }
    }
}

impl EDMDisconnectEvent {
    /// Decodes a disconnect event: byte 0 is the channel id. Bytes after it
    /// are not kept.
    ///
    /// Fails with `InsufficientData` on an empty input.
    pub fn new(bytes: &[u8]) -> (r: Result<Self, EDMSubframeError>)
        ensures
            decoded(r) == decode_subframe(EDMSubframeKind::DisconnectEvent, bytes@),
    {
        if bytes.len() < 1 {
            return Err(EDMSubframeError::InsufficientData);
        }
        Ok(Self { channel_id: bytes[0] })
    }
}

/// Application data that arrived on a channel.
#[derive(Debug, Clone, Copy, PartialEq, Eq)]
pub struct EDMDataEvent<'a> {
    pub channel_id: u8,
    pub payload: &'a [u8],
}

impl<'a> View for EDMDataEvent<'a> {
    type V = SubframeView;

    open spec fn view(&self) -> SubframeView {
        SubframeView::DataEvent { channel_id: self.channel_id, payload: self.payload@ }
    }
}

impl<'a> EDMDataEvent<'a> {
    /// Decodes a data event: byte 0 is the channel id, the rest the
    /// payload, which may be empty.
    ///
    /// Fails with `InsufficientData` on an empty input.
    pub fn new(bytes: &'a [u8]) -> (r: Result<Self, EDMSubframeError>)
        ensures
            decoded(r) == decode_subframe(EDMSubframeKind::DataEvent, bytes@),
    {
        if bytes.len() < 1 {
            return Err(EDMSubframeError::InsufficientData);
        }
        Ok(Self { channel_id: bytes[0], payload: slice_subrange(bytes, 1, bytes.len()) })
    }
}

/// Application data to send on a channel.
#[derive(Debug, Clone, Copy, PartialEq, Eq)]
pub struct EDMDataCommand<'a> {
    pub channel_id: u8,
    pub payload: &'a [u8],
}

impl<'a> View for EDMDataCommand<'a> {
    type V = SubframeView;

    open spec fn view(&self) -> SubframeView {
        SubframeView::DataCommand { channel_id: self.channel_id, payload: self.payload@ }
    }
}

impl<'a> EDMDataCommand<'a> {
    /// Decodes a data command: byte 0 is the channel id, the rest the
    /// payload, which may be empty.
    ///
    /// Fails with `InsufficientData` on an empty input.
    pub fn new(bytes: &'a [u8]) -> (r: Result<Self, EDMSubframeError>)
        ensures
            decoded(r) == decode_subframe(EDMSubframeKind::DataCommand, bytes@),
    {
        if bytes.len() < 1 {
            return Err(EDMSubframeError::InsufficientData);
        }
        Ok(Self { channel_id: bytes[0], payload: slice_subrange(bytes, 1, bytes.len()) })
    }
}

/// An AT command sent to the module.
#[derive(Debug, Clone, Copy, PartialEq, Eq)]
pub struct EDMAtRequest<'a> {
    pub payload: &'a [u8],
}

impl<'a> View for EDMAtRequest<'a> {
    type V = SubframeView;

    open spec fn view(&self) -> SubframeView {
        SubframeView::AtRequest { payload: self.payload@ }
    }
}

impl<'a> EDMAtRequest<'a> {
    /// Takes all of `bytes` as the payload. Never fails; the bytes need not
    /// be text.
    pub fn new(bytes: &'a [u8]) -> (r: Result<Self, ()>)
        ensures
            r is Ok,
            Ok::<SubframeView, EDMSubframeError>(r->Ok_0@) == decode_subframe(
                EDMSubframeKind::AtRequest,
                bytes@,
            ),
    {
        Ok(Self { payload: bytes })
    }
}

/// The module's answer to an AT command.
#[derive(Debug, Clone, Copy, PartialEq, Eq)]
pub struct EDMAtResponse<'a> {
    pub payload: &'a [u8],
}

impl<'a> View for EDMAtResponse<'a> {
    type V = SubframeView;

    open spec fn view(&self) -> SubframeView {
        SubframeView::AtResponse { payload: self.payload@ }
    }
}

impl<'a> EDMAtResponse<'a> {
    /// Takes all of `bytes` as the payload. Never fails; the bytes need not
    /// be text.
    pub fn new(bytes: &'a [u8]) -> (r: Result<Self, ()>)
        ensures
            r is Ok,
            Ok::<SubframeView, EDMSubframeError>(r->Ok_0@) == decode_subframe(
                EDMSubframeKind::AtResponse,
                bytes@,
            ),
    {
        Ok(Self { payload: bytes })
    }
}

/// An unsolicited AT message from the module.
#[derive(Debug, Clone, Copy, PartialEq, Eq)]
pub struct EDMAtEvent<'a> {
    pub payload: &'a [u8],
}

impl<'a> View for EDMAtEvent<'a> {
    type V = SubframeView;

    open spec fn view(&self) -> SubframeView {
        SubframeView::AtEvent { payload: self.payload@ }
    }
}

impl<'a> EDMAtEvent<'a> {
    /// Takes all of `bytes` as the payload. Never fails; the bytes need not
    /// be text.
    pub fn new(bytes: &'a [u8]) -> (r: Result<Self, ()>)
        ensures
            r is Ok,
            Ok::<SubframeView, EDMSubframeError>(r->Ok_0@) == decode_subframe(
                EDMSubframeKind::AtEvent,
                bytes@,
            ),
    {
        Ok(Self { payload: bytes })
    }
}

/// A request to report the open channels again. It holds no data.
#[derive(Debug, Clone, Copy, PartialEq, Eq)]
pub struct EDMResendConnectEventsCommand {}

impl View for EDMResendConnectEventsCommand {
    type V = SubframeView;

    open spec fn view(&self) -> SubframeView {
        SubframeView::ResendConnectEventsCommand
    }
}

impl EDMResendConnectEventsCommand {
    pub fn new() -> (r: Self)
        ensures
            r@ == SubframeView::ResendConnectEventsCommand,
    {
        Self {  }
    }
}

/// An iPhone event. It holds no data.
#[derive(Debug, Clone, Copy, PartialEq, Eq)]
pub struct EDMIphoneEvent {}

impl View for EDMIphoneEvent {
    type V = SubframeView;

    open spec fn view(&self) -> SubframeView {
        SubframeView::IphoneEvent
    }
}

impl EDMIphoneEvent {
    pub fn new() -> (r: Self)
        ensures
            r@ == SubframeView::IphoneEvent,
    {
        Self {  }
    }
}

/// The module has started. It holds no data.
#[derive(Debug, Clone, Copy, PartialEq, Eq)]
pub struct EDMStartEvent {}

impl View for EDMStartEvent {
    type V = SubframeView;

    open spec fn view(&self) -> SubframeView {
        SubframeView::StartEvent
    }
}

impl EDMStartEvent {
    pub fn new() -> (r: Self)
        ensures
            r@ == SubframeView::StartEvent,
    {
        Self {  }
    }
}

/// The decoded body of a frame: one record of the ten kinds.
#[derive(Debug, Clone, Copy, PartialEq, Eq)]
pub enum EDMSubframe<'a> {
    ConnectEvent(EDMConnectEvent<'a>),
    DisconnectEvent(EDMDisconnectEvent),
    DataEvent(EDMDataEvent<'a>),
    DataCommand(EDMDataCommand<'a>),
    AtRequest(EDMAtRequest<'a>),
    AtResponse(EDMAtResponse<'a>),
    AtEvent(EDMAtEvent<'a>),
    ResendConnectEventsCommand(EDMResendConnectEventsCommand),
    IphoneEvent(EDMIphoneEvent),
    StartEvent(EDMStartEvent),
}

impl<'a> View for EDMSubframe<'a> {
    type V = SubframeView;

    open spec fn view(&self) -> SubframeView {
        match *self {
            EDMSubframe::ConnectEvent(x) => x@,
            EDMSubframe::DisconnectEvent(x) => x@,
            EDMSubframe::DataEvent(x) => x@,
            EDMSubframe::DataCommand(x) => x@,
            EDMSubframe::AtRequest(x) => x@,
            EDMSubframe::AtResponse(x) => x@,
            EDMSubframe::AtEvent(x) => x@,
            EDMSubframe::ResendConnectEventsCommand(x) => x@,
            EDMSubframe::IphoneEvent(x) => x@,
            EDMSubframe::StartEvent(x) => x@,
        }
    }
}

impl<'a> EDMSubframe<'a> {
    /// The kind of this subframe.
    pub fn kind(&self) -> (k: EDMSubframeKind)
        ensures
            k == self@.kind(),
    {
        match self {
            EDMSubframe::ConnectEvent(_) => EDMSubframeKind::ConnectEvent,
            EDMSubframe::DisconnectEvent(_) => EDMSubframeKind::DisconnectEvent,
            EDMSubframe::DataEvent(_) => EDMSubframeKind::DataEvent,
            EDMSubframe::DataCommand(_) => EDMSubframeKind::DataCommand,
            EDMSubframe::AtRequest(_) => EDMSubframeKind::AtRequest,
            EDMSubframe::AtResponse(_) => EDMSubframeKind::AtResponse,
            EDMSubframe::AtEvent(_) => EDMSubframeKind::AtEvent,
            EDMSubframe::ResendConnectEventsCommand(_) => EDMSubframeKind::ResendConnectEventsCommand,
            EDMSubframe::IphoneEvent(_) => EDMSubframeKind::IphoneEvent,
            EDMSubframe::StartEvent(_) => EDMSubframeKind::StartEvent,
        }
    }

    /// Runs the decoder of the given kind on the bytes after a header.
    pub fn decode(kind: EDMSubframeKind, bytes: &'a [u8]) -> (r: Result<Self, EDMSubframeError>)
        ensures
            decoded(r) == decode_subframe(kind, bytes@),
    {
        match kind {
            EDMSubframeKind::ConnectEvent => match EDMConnectEvent::new(bytes) {
                Ok(x) => Ok(EDMSubframe::ConnectEvent(x)),
                Err(e) => Err(e),
            },
            EDMSubframeKind::DisconnectEvent => match EDMDisconnectEvent::new(bytes) {
                Ok(x) => Ok(EDMSubframe::DisconnectEvent(x)),
                Err(e) => Err(e),
            },
            EDMSubframeKind::DataEvent => match EDMDataEvent::new(bytes) {
                Ok(x) => Ok(EDMSubframe::DataEvent(x)),
                Err(e) => Err(e),
            },
            EDMSubframeKind::DataCommand => match EDMDataCommand::new(bytes) {
                Ok(x) => Ok(EDMSubframe::DataCommand(x)),
                Err(e) => Err(e),
            },
            EDMSubframeKind::AtRequest => Ok(EDMSubframe::AtRequest(EDMAtRequest::new(bytes).unwrap())),
            EDMSubframeKind::AtResponse => Ok(EDMSubframe::AtResponse(EDMAtResponse::new(bytes).unwrap())),
            EDMSubframeKind::AtEvent => Ok(EDMSubframe::AtEvent(EDMAtEvent::new(bytes).unwrap())),
            EDMSubframeKind::ResendConnectEventsCommand => Ok(
                EDMSubframe::ResendConnectEventsCommand(EDMResendConnectEventsCommand::new()),
            ),
            EDMSubframeKind::IphoneEvent => Ok(EDMSubframe::IphoneEvent(EDMIphoneEvent::new())),
            EDMSubframeKind::StartEvent => Ok(EDMSubframe::StartEvent(EDMStartEvent::new())),
        }
    }
}

/// A subframe decodes exactly when the fixed fields of its kind are present
/// and, for a connect event, the connect-type byte is registered; what comes
/// out is of the kind asked for.
pub proof fn lemma_decode_subframe_ok(kind: EDMSubframeKind, bytes: Seq<u8>)
    ensures
        decode_subframe(kind, bytes) is Ok <==> bytes.len() >= kind.spec_min_len() && (kind
            == EDMSubframeKind::ConnectEvent ==> EDMConnectType::from_code(bytes[1]) is Some),
        decode_subframe(kind, bytes) matches Ok(sub) ==> sub.kind() == kind,
        decode_subframe(kind, bytes) == Err::<SubframeView, EDMSubframeError>(
            EDMSubframeError::InsufficientData,
        ) <==> bytes.len() < kind.spec_min_len(),
{
}

} // verus!
