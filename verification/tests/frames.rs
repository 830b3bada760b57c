use ublox_edm_decoder::edm::frame::EDMFrame;
use ublox_edm_decoder::edm::subframe::{
    EDMAtRequest, EDMConnectEvent, EDMDataEvent, EDMDisconnectEvent, EDMStartEvent, EDMSubframe,
    EDMSubframeKind,
};
use ublox_edm_decoder::edm::types::{EDMConnectType, EDMFrameError, EDMIdentifier, EDMType};

const SUPPORTED: [(u16, u16, EDMSubframeKind); 10] = [
    (1, 1, EDMSubframeKind::ConnectEvent),
    (2, 1, EDMSubframeKind::DisconnectEvent),
    (3, 1, EDMSubframeKind::DataEvent),
    (3, 6, EDMSubframeKind::DataCommand),
    (4, 4, EDMSubframeKind::AtRequest),
    (4, 3, EDMSubframeKind::AtResponse),
    (4, 1, EDMSubframeKind::AtEvent),
    (5, 6, EDMSubframeKind::ResendConnectEventsCommand),
    (6, 1, EDMSubframeKind::IphoneEvent),
    (7, 1, EDMSubframeKind::StartEvent),
];

fn kind_of_pair(id: u16, ftype: u16) -> Option<EDMSubframeKind> {
    for (i, t, kind) in SUPPORTED {
        if i == id && t == ftype {
            return Some(kind);
        }
    }
    None
}

#[test]
fn every_supported_pair_decodes_to_its_subframe() {
    let payload = [0x05u8, 0x01, 0x33];
    for (id, ftype, kind) in SUPPORTED {
        let frame = EDMFrame::from_parts(id, ftype, &payload).unwrap();
        assert_eq!(frame.id.code(), id);
        assert_eq!(frame.ftype.code(), ftype);
        assert_eq!(frame.subframe.kind(), kind);
        assert_eq!(EDMSubframeKind::for_pair(frame.id, frame.ftype), Some(kind));
    }
}

#[test]
fn every_supported_pair_decodes_at_its_minimum_length() {
    let payload = [0x05u8, 0x01];
    for (id, ftype, kind) in SUPPORTED {
        let frame = EDMFrame::from_parts(id, ftype, &payload[..kind.min_len()]).unwrap();
        assert_eq!(frame.subframe.kind(), kind);
    }
}

#[test]
fn every_other_registered_pair_is_unsupported() {
    let payload = [0x05u8, 0x01, 0x33];
    let mut unsupported = 0;
    for id in 1..=7u16 {
        for ftype in 1..=6u16 {
            if kind_of_pair(id, ftype).is_none() {
                assert_eq!(
                    EDMFrame::from_parts(id, ftype, &payload),
                    Err(EDMFrameError::UnsupportedFrameKind)
                );
                assert_eq!(
                    EDMFrame::from_parts(id, ftype, &[]),
                    Err(EDMFrameError::UnsupportedFrameKind)
                );
                unsupported += 1;
            }
        }
    }
    assert_eq!(unsupported, 32);
}

#[test]
fn unregistered_identifier_is_judged_first() {
    let payload = [0x05u8, 0x01];
    assert_eq!(
        EDMFrame::from_parts(0x100, 5, &payload),
        Err(EDMFrameError::InvalidFrameIdentifier)
    );
    assert_eq!(EDMFrame::from_parts(0, 1, &payload), Err(EDMFrameError::InvalidFrameIdentifier));
    assert_eq!(EDMFrame::from_parts(8, 1, &payload), Err(EDMFrameError::InvalidFrameIdentifier));
    assert_eq!(EDMFrame::from_parts(0, 0, &payload), Err(EDMFrameError::InvalidFrameIdentifier));
    assert_eq!(EDMFrame::from_parts(8, 7, &[]), Err(EDMFrameError::InvalidFrameIdentifier));
}

#[test]
fn unregistered_type_with_registered_identifier() {
    let payload = [0x05u8, 0x01];
    assert_eq!(EDMFrame::from_parts(1, 0, &payload), Err(EDMFrameError::InvalidFrameType));
    assert_eq!(EDMFrame::from_parts(1, 7, &payload), Err(EDMFrameError::InvalidFrameType));
    assert_eq!(EDMFrame::from_parts(7, 0, &[]), Err(EDMFrameError::InvalidFrameType));
}

#[test]
fn connect_event_on_no_bytes_is_bad_frame_data() {
    assert_eq!(EDMFrame::from_parts(1, 1, &[]), Err(EDMFrameError::BadFrameData));
    assert_eq!(EDMFrame::from_parts(1, 1, &[0x05]), Err(EDMFrameError::BadFrameData));
}

#[test]
fn connect_type_four_is_bad_frame_data() {
    assert_eq!(EDMFrame::from_parts(1, 1, &[0x05, 0x04]), Err(EDMFrameError::BadFrameData));
    assert_eq!(
        EDMFrame::from_parts(1, 1, &[0x05, 0x04, 0x01, 0x02]),
        Err(EDMFrameError::BadFrameData)
    );
}

#[test]
fn short_data_and_disconnect_frames_are_bad_frame_data() {
    assert_eq!(EDMFrame::from_parts(2, 1, &[]), Err(EDMFrameError::BadFrameData));
    assert_eq!(EDMFrame::from_parts(3, 1, &[]), Err(EDMFrameError::BadFrameData));
    assert_eq!(EDMFrame::from_parts(3, 6, &[]), Err(EDMFrameError::BadFrameData));
    assert!(EDMFrame::from_parts(2, 1, &[0x01]).is_ok());
    assert!(EDMFrame::from_parts(3, 1, &[0x01]).is_ok());
    assert!(EDMFrame::from_parts(3, 6, &[0x01]).is_ok());
}

#[test]
fn frame_of_a_connect_event() {
    let payload = [0x02u8, 0x02, 0xC0, 0xA8, 0x00, 0x01];
    assert_eq!(
        EDMFrame::from_parts(1, 1, &payload),
        Ok(EDMFrame {
            id: EDMIdentifier::Connect,
            ftype: EDMType::Event,
            subframe: EDMSubframe::ConnectEvent(EDMConnectEvent {
                channel_id: 0x02,
                connect_type: EDMConnectType::IPv4,
                payload: &[0xC0, 0xA8, 0x00, 0x01],
            }),
        })
    );
}

#[test]
fn frame_of_a_data_event() {
    let payload = [0x00u8, 0x68, 0x69];
    assert_eq!(
        EDMFrame::from_parts(3, 1, &payload),
        Ok(EDMFrame {
            id: EDMIdentifier::Data,
            ftype: EDMType::Event,
            subframe: EDMSubframe::DataEvent(EDMDataEvent {
                channel_id: 0x00,
                payload: &[0x68, 0x69],
            }),
        })
    );
}

#[test]
fn frame_of_an_at_request() {
    let payload = b"AT\r";
    assert_eq!(
        EDMFrame::from_parts(4, 4, payload),
        Ok(EDMFrame {
            id: EDMIdentifier::AT,
            ftype: EDMType::Request,
            subframe: EDMSubframe::AtRequest(EDMAtRequest { payload: b"AT\r" }),
        })
    );
}

#[test]
fn frames_without_data_ignore_their_bytes() {
    let start = EDMFrame::from_parts(7, 1, &[0x01, 0x02, 0x03]).unwrap();
    assert_eq!(start.subframe, EDMSubframe::StartEvent(EDMStartEvent {}));
    assert_eq!(EDMFrame::from_parts(7, 1, &[]), Ok(start));
}

#[test]
fn new_keeps_its_parts() {
    let subframe = EDMSubframe::DisconnectEvent(EDMDisconnectEvent { channel_id: 4 });
    let frame = EDMFrame::new(EDMIdentifier::Disconnect, EDMType::Event, subframe);
    assert_eq!(frame.id, EDMIdentifier::Disconnect);
    assert_eq!(frame.ftype, EDMType::Event);
    assert_eq!(frame.subframe, subframe);
    assert_eq!(EDMFrame::from_parts(2, 1, &[4]), Ok(frame));
}

#[test]
fn dispatch_table_has_ten_entries() {
    let ids = [
        EDMIdentifier::Connect,
        EDMIdentifier::Disconnect,
        EDMIdentifier::Data,
        EDMIdentifier::AT,
        EDMIdentifier::ResendConnectEvents,
        EDMIdentifier::Iphone,
        EDMIdentifier::Start,
    ];
    let types = [
        EDMType::Event,
        EDMType::Indication,
        EDMType::Response,
        EDMType::Request,
        EDMType::Confirmation,
        EDMType::Command,
    ];
    let mut entries = 0;
    for id in ids {
        for ftype in types {
            let kind = EDMSubframeKind::for_pair(id, ftype);
            assert_eq!(kind, kind_of_pair(id.code(), ftype.code()));
            if kind.is_some() {
                entries += 1;
            }
        }
    }
    assert_eq!(entries, 10);
}
