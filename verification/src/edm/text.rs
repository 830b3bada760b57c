//! The parts of a frame as text, for showing it to a reader.

use vstd::prelude::*;
use crate::base16::{hex_encode, hex_text};
use crate::edm::subframe::{EDMSubframe, EDMSubframeKind, SubframeView};
use crate::edm::types::EDMConnectType;
use crate::strings::{lossy_text, utf8_lossy};

verus! {

/// A text without its line feeds and carriage returns.
pub open spec fn without_line_breaks(text: Seq<char>) -> Seq<char> {
    text.filter(|c: char| c != '\n' && c != '\r')
}

/// A text with one more character at its end keeps that character
/// exactly when it is neither a line feed nor a carriage return.
pub proof fn lemma_without_line_breaks_push(text: Seq<char>, c: char)
    ensures
        without_line_breaks(text.push(c)) == if c == '\n' || c == '\r' {
            without_line_breaks(text)
        } else {
            without_line_breaks(text).push(c)
        },
{
    reveal(Seq::filter);
    assert(text.push(c).drop_last() =~= text);
}

/// The text of an AT payload on one line: the payload read as UTF-8, with
/// U+FFFD for what is not, and without line feeds and carriage returns.
pub open spec fn at_line(payload: Seq<u8>) -> Seq<char> {
    without_line_breaks(utf8_lossy(payload))
}

impl EDMSubframeKind {
    /// The short tag under which a subframe of this kind is shown.
    pub open spec fn spec_label(self) -> Seq<char> {
        match self {
            EDMSubframeKind::ConnectEvent => "ConnectEvt"@,
            EDMSubframeKind::DisconnectEvent => "DisconnectEvt"@,
            EDMSubframeKind::DataEvent => "DataEvt"@,
            EDMSubframeKind::DataCommand => "DataCmd"@,
            EDMSubframeKind::AtRequest => "ATReq"@,
            EDMSubframeKind::AtResponse => "ATRes"@,
            EDMSubframeKind::AtEvent => "ATEvt"@,
            EDMSubframeKind::ResendConnectEventsCommand => "ResendCECmd"@,
            EDMSubframeKind::IphoneEvent => "IphoneEvt"@,
            EDMSubframeKind::StartEvent => "StartEvt"@,
        }
    }

    /// The short tag under which a subframe of this kind is shown.
    pub fn label(self) -> (tag: &'static str)
        ensures
            tag@ == self.spec_label(),
    {
        match self {
            EDMSubframeKind::ConnectEvent => "ConnectEvt",
            EDMSubframeKind::DisconnectEvent => "DisconnectEvt",
            EDMSubframeKind::DataEvent => "DataEvt",
            EDMSubframeKind::DataCommand => "DataCmd",
            EDMSubframeKind::AtRequest => "ATReq",
            EDMSubframeKind::AtResponse => "ATRes",
            EDMSubframeKind::AtEvent => "ATEvt",
            EDMSubframeKind::ResendConnectEventsCommand => "ResendCECmd",
            EDMSubframeKind::IphoneEvent => "IphoneEvt",
            EDMSubframeKind::StartEvent => "StartEvt",
        }
    }
}

impl EDMConnectType {
    /// The name under which this connect type is shown.
    pub open spec fn spec_name(self) -> Seq<char> {
        match self {
            EDMConnectType::Bluetooth => "BLUETOOTH"@,
            EDMConnectType::IPv4 => "IPv4"@,
            EDMConnectType::IPv6 => "IPv6"@,
        }
    }

    /// The name under which this connect type is shown.
    pub fn name(self) -> (name: &'static str)
        ensures
            name@ == self.spec_name(),
    {
        match self {
            EDMConnectType::Bluetooth => "BLUETOOTH",
            EDMConnectType::IPv4 => "IPv4",
            EDMConnectType::IPv6 => "IPv6",
        }
    }
}

impl SubframeView {
    /// The payload of a subframe as it is shown, where the subframe has
    /// one: in hexadecimal for a connect event, a data event and a data
    /// command; as one line of text for an AT request, response and event.
    pub open spec fn payload_text(self) -> Option<Seq<char>> {
        match self {
            SubframeView::ConnectEvent { payload, .. } => Some(hex_text(payload)),
            SubframeView::DataEvent { payload, .. } => Some(hex_text(payload)),
            SubframeView::DataCommand { payload, .. } => Some(hex_text(payload)),
            SubframeView::AtRequest { payload } => Some(at_line(payload)),
            SubframeView::AtResponse { payload } => Some(at_line(payload)),
            SubframeView::AtEvent { payload } => Some(at_line(payload)),
            _ => None,
        }
    }
}

/// Copies a text without its line feeds and carriage returns.
pub fn strip_line_breaks(text: &str) -> (line: String)
    ensures
        line@ == without_line_breaks(text@),
{
    let mut line = String::new();
    for c in it: text.chars()
        invariant
            it.seq() == text@,
            line@ == without_line_breaks(text@.take(it.index())),
    {
        proof {
            let i = it.index();
            assert(text@.take(i + 1) =~= text@.take(i).push(c));
            lemma_without_line_breaks_push(text@.take(i), c);
        }
        if c != '\n' && c != '\r' {
            line.push(c);
        }
    }
    assert(text@.take(text@.len() as int) =~= text@);
    line
}

/// Reads an AT payload as one line of text: as UTF-8, with U+FFFD for what
/// is not, and without line feeds and carriage returns.
pub fn at_text(payload: &[u8]) -> (line: String)
    ensures
        line@ == at_line(payload@),
{
    let text = lossy_text(payload);
    strip_line_breaks(text.as_str())
}

impl<'a> EDMSubframe<'a> {
    /// The payload of this subframe as it is shown, where the subframe has
    /// one: in hexadecimal for a connect event, a data event and a data
    /// command; as one line of text for an AT request, response and event.
    pub fn payload_text(&self) -> (r: Option<String>)
        ensures
            r is Some <==> self@.payload_text() is Some,
            r matches Some(text) ==> self@.payload_text() == Some(text@),
    {
        match self {
            EDMSubframe::ConnectEvent(x) => Some(hex_encode(x.payload)),
            EDMSubframe::DataEvent(x) => Some(hex_encode(x.payload)),
            EDMSubframe::DataCommand(x) => Some(hex_encode(x.payload)),
            EDMSubframe::AtRequest(x) => Some(at_text(x.payload)),
            EDMSubframe::AtResponse(x) => Some(at_text(x.payload)),
            EDMSubframe::AtEvent(x) => Some(at_text(x.payload)),
            _ => None,
        }
    }
}

} // verus!
