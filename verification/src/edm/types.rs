//! The closed registries of the protocol and its error types.
//!
//! Each registry is an enum together with the code that stands for each of
//! its values on the wire. `from_code` is the lookup table as a mathematical
//! function; the `TryFrom` impls compute it.

use vstd::prelude::*;
use vstd::std_specs::convert::TryFromSpecImpl;

verus! {

/// The role of a frame within its identifier. The header carries its code
/// in its low three bits.
#[derive(Debug, Clone, Copy, PartialEq, Eq, Structural)]
pub enum EDMType {
    Event,
    Indication,
    Response,
    Request,
    Confirmation,
    Command,
}

impl EDMType {
    /// The code that stands for this type on the wire, from 1 to 6.
    pub open spec fn spec_code(self) -> u16 {
        match self {
            EDMType::Event => 1,
            EDMType::Indication => 2,
            EDMType::Response => 3,
            EDMType::Request => 4,
            EDMType::Confirmation => 5,
            EDMType::Command => 6,
        }
    }

    /// The type registered under the code `v`, if there is one.
    pub open spec fn from_code(v: u16) -> Option<EDMType> {
        if v == 1 {
            Some(EDMType::Event)
        } else if v == 2 {
            Some(EDMType::Indication)
        } else if v == 3 {
            Some(EDMType::Response)
        } else if v == 4 {
            Some(EDMType::Request)
        } else if v == 5 {
            Some(EDMType::Confirmation)
        } else if v == 6 {
            Some(EDMType::Command)
        } else {
            None
        }
    }

    /// The code that stands for this type on the wire.
    #[verifier::when_used_as_spec(spec_code)]
    pub fn code(self) -> (c: u16)
        ensures
            c == self.spec_code(),
            1 <= c <= 6,
    {
        match self {
            EDMType::Event => 1,
            EDMType::Indication => 2,
            EDMType::Response => 3,
            EDMType::Request => 4,
            EDMType::Confirmation => 5,
            EDMType::Command => 6,
        }
    }

    /// A code names a type exactly when it is that type's own code.
    pub proof fn lemma_code_round_trip(self)
        ensures
            EDMType::from_code(self.spec_code()) == Some(self),
    {
    }

    /// The registered codes are 1 to 6, and a registered code is the code of
    /// the type it names.
    pub proof fn lemma_from_code_range(v: u16)
        ensures
            EDMType::from_code(v) is Some <==> 1 <= v <= 6,
            EDMType::from_code(v) matches Some(t) ==> t.spec_code() == v,
    {
    }
}

impl TryFrom<u16> for EDMType {
    type Error = ();

    /// Looks `v` up in the registry of types.
    fn try_from(v: u16) -> (r: Result<Self, Self::Error>) {
        match v {
            1 => Ok(EDMType::Event),
            2 => Ok(EDMType::Indication),
            3 => Ok(EDMType::Response),
            4 => Ok(EDMType::Request),
            5 => Ok(EDMType::Confirmation),
            6 => Ok(EDMType::Command),
            _ => Err(()),
        }
    }
}

impl TryFromSpecImpl<u16> for EDMType {
    open spec fn obeys_try_from_spec() -> bool {
        true
    }

    open spec fn try_from_spec(v: u16) -> Result<Self, Self::Error> {
        match EDMType::from_code(v) {
            Some(t) => Ok(t),
            None => Err(()),
        }
    }
}

/// The coarse category of a frame. The header carries its code in its high
/// twelve bits.
#[derive(Debug, Clone, Copy, PartialEq, Eq, Structural)]
pub enum EDMIdentifier {
    Connect,
    Disconnect,
    Data,
    AT,
    ResendConnectEvents,
    Iphone,
    Start,
}

impl EDMIdentifier {
    /// The code that stands for this identifier on the wire, from 1 to 7.
    pub open spec fn spec_code(self) -> u16 {
        match self {
            EDMIdentifier::Connect => 1,
            EDMIdentifier::Disconnect => 2,
            EDMIdentifier::Data => 3,
            EDMIdentifier::AT => 4,
            EDMIdentifier::ResendConnectEvents => 5,
            EDMIdentifier::Iphone => 6,
            EDMIdentifier::Start => 7,
        }
    }

    /// The identifier registered under the code `v`, if there is one.
    pub open spec fn from_code(v: u16) -> Option<EDMIdentifier> {
        if v == 1 {
            Some(EDMIdentifier::Connect)
        } else if v == 2 {
            Some(EDMIdentifier::Disconnect)
        } else if v == 3 {
            Some(EDMIdentifier::Data)
        } else if v == 4 {
            Some(EDMIdentifier::AT)
        } else if v == 5 {
            Some(EDMIdentifier::ResendConnectEvents)
        } else if v == 6 {
            Some(EDMIdentifier::Iphone)
        } else if v == 7 {
            Some(EDMIdentifier::Start)
        } else {
            None
        }
    }

    /// The code that stands for this identifier on the wire.
    #[verifier::when_used_as_spec(spec_code)]
    pub fn code(self) -> (c: u16)
        ensures
            c == self.spec_code(),
            1 <= c <= 7,
    {
        match self {
            EDMIdentifier::Connect => 1,
            EDMIdentifier::Disconnect => 2,
            EDMIdentifier::Data => 3,
            EDMIdentifier::AT => 4,
            EDMIdentifier::ResendConnectEvents => 5,
            EDMIdentifier::Iphone => 6,
            EDMIdentifier::Start => 7,
        }
    }

    /// A code names an identifier exactly when it is that identifier's own
    /// code.
    pub proof fn lemma_code_round_trip(self)
        ensures
            EDMIdentifier::from_code(self.spec_code()) == Some(self),
    {
    }

    /// The registered codes are 1 to 7, and a registered code is the code of
    /// the identifier it names.
    pub proof fn lemma_from_code_range(v: u16)
        ensures
            EDMIdentifier::from_code(v) is Some <==> 1 <= v <= 7,
            EDMIdentifier::from_code(v) matches Some(id) ==> id.spec_code() == v,
    {
    }
}

impl TryFrom<u16> for EDMIdentifier {
    type Error = ();

    /// Looks `v` up in the registry of identifiers.
    fn try_from(v: u16) -> (r: Result<Self, Self::Error>) {
        match v {
            1 => Ok(EDMIdentifier::Connect),
            2 => Ok(EDMIdentifier::Disconnect),
            3 => Ok(EDMIdentifier::Data),
            4 => Ok(EDMIdentifier::AT),
            5 => Ok(EDMIdentifier::ResendConnectEvents),
            6 => Ok(EDMIdentifier::Iphone),
            7 => Ok(EDMIdentifier::Start),
            _ => Err(()),
        }
    }
}

impl TryFromSpecImpl<u16> for EDMIdentifier {
    open spec fn obeys_try_from_spec() -> bool {
        true
    }

    open spec fn try_from_spec(v: u16) -> Result<Self, Self::Error> {
        match EDMIdentifier::from_code(v) {
            Some(id) => Ok(id),
            None => Err(()),
        }
    }
}

/// Why a byte buffer did not yield a frame.
#[derive(Debug, Clone, Copy, PartialEq, Eq, Structural)]
pub enum EDMFrameError {
    /// The identifier code is not one of the seven registered.
    InvalidFrameIdentifier,
    /// The type code is not one of the six registered.
    InvalidFrameType,
    /// Identifier and type are both registered, but no subframe is defined
    /// for the pair.
    UnsupportedFrameKind,
    /// The bytes after the header do not decode as the pair's subframe.
    BadFrameData,
    /// The buffer does not open with a start byte, a length, a payload of
    /// that length that holds a header, and an end byte.
    MalformedFraming,
}

/// The connect-type byte of a connect event is not registered.
#[derive(Debug, Clone, Copy, PartialEq, Eq, Structural)]
pub enum EDMConnectTypeError {
    InvalidConnectType,
}

/// Why the bytes after a header did not decode as a subframe.
#[derive(Debug, Clone, Copy, PartialEq, Eq, Structural)]
pub enum EDMSubframeError {
    /// Fewer bytes are present than the subframe's fixed fields take.
    InsufficientData,
    /// The connect-type byte of a connect event is not registered.
    InvalidConnectType,
}

/// The transport that a connect event reports.
#[derive(Debug, Clone, Copy, PartialEq, Eq, Structural)]
pub enum EDMConnectType {
    Bluetooth,
    IPv4,
    IPv6,
}

impl EDMConnectType {
    /// The byte that stands for this connect type on the wire, from 1 to 3.
    pub open spec fn spec_code(self) -> u8 {
        match self {
            EDMConnectType::Bluetooth => 1,
            EDMConnectType::IPv4 => 2,
            EDMConnectType::IPv6 => 3,
        }
    }

    /// The connect type registered under the byte `v`, if there is one.
    pub open spec fn from_code(v: u8) -> Option<EDMConnectType> {
        if v == 1 {
            Some(EDMConnectType::Bluetooth)
        } else if v == 2 {
            Some(EDMConnectType::IPv4)
        } else if v == 3 {
            Some(EDMConnectType::IPv6)
        } else {
            None
        }
    }

    /// The byte that stands for this connect type on the wire.
    #[verifier::when_used_as_spec(spec_code)]
    pub fn code(self) -> (c: u8)
        ensures
            c == self.spec_code(),
            1 <= c <= 3,
    {
        match self {
            EDMConnectType::Bluetooth => 1,
            EDMConnectType::IPv4 => 2,
            EDMConnectType::IPv6 => 3,
        }
    }

    /// A byte names a connect type exactly when it is that connect type's
    /// own code.
    pub proof fn lemma_code_round_trip(self)
        ensures
            EDMConnectType::from_code(self.spec_code()) == Some(self),
    {
    }

    /// The registered bytes are 1 to 3, and a registered byte is the code of
    /// the connect type it names.
    pub proof fn lemma_from_code_range(v: u8)
        ensures
            EDMConnectType::from_code(v) is Some <==> 1 <= v <= 3,
            EDMConnectType::from_code(v) matches Some(t) ==> t.spec_code() == v,
    {
    }
}

impl TryFrom<u8> for EDMConnectType {
    type Error = EDMConnectTypeError;

    /// Looks `v` up in the registry of connect types.
    fn try_from(v: u8) -> (r: Result<Self, Self::Error>) {
        match v {
            1 => Ok(EDMConnectType::Bluetooth),
            2 => Ok(EDMConnectType::IPv4),
            3 => Ok(EDMConnectType::IPv6),
            _ => Err(EDMConnectTypeError::InvalidConnectType),
        }
    }
}

impl TryFromSpecImpl<u8> for EDMConnectType {
    open spec fn obeys_try_from_spec() -> bool {
        true
    }

    open spec fn try_from_spec(v: u8) -> Result<Self, Self::Error> {
        match EDMConnectType::from_code(v) {
            Some(t) => Ok(t),
            None => Err(EDMConnectTypeError::InvalidConnectType),
        }
    }
}

} // verus!
