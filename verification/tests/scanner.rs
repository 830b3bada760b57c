use ublox_edm_decoder::edm::data::collect_data_events;
use ublox_edm_decoder::edm::frame::EDMFrame;
use ublox_edm_decoder::edm::scanner::{scan_edm, EDMScanStep, EDMScanner};
use ublox_edm_decoder::edm::subframe::{EDMDataEvent, EDMStartEvent, EDMSubframe};
use ublox_edm_decoder::edm::types::{EDMFrameError, EDMIdentifier, EDMType};

fn data_event(channel_id: u8, payload: &[u8]) -> EDMFrame<'_> {
    EDMFrame {
        id: EDMIdentifier::Data,
        ftype: EDMType::Event,
        subframe: EDMSubframe::DataEvent(EDMDataEvent { channel_id, payload }),
    }
}

fn start_event() -> EDMFrame<'static> {
    EDMFrame {
        id: EDMIdentifier::Start,
        ftype: EDMType::Event,
        subframe: EDMSubframe::StartEvent(EDMStartEvent {}),
    }
}

#[test]
fn scan_recovers_after_a_garbage_byte() {
    let input = [
        0xAAu8, 0x00, 0x02, 0x10, 0x01, 0x55, // identifier 0x100
        0x00, // garbage
        0xAA, 0x00, 0x04, 0x00, 0x31, 0x07, 0x2A, 0x55, // data event
    ];
    let found = scan_edm(&input);
    assert_eq!(
        found,
        vec![Err(EDMFrameError::InvalidFrameIdentifier), Ok(data_event(0x07, &[0x2A]))]
    );
}

#[test]
fn scan_recovers_step_by_step() {
    let input = [
        0xAAu8, 0x00, 0x02, 0x10, 0x01, 0x55, 0x00, 0xAA, 0x00, 0x04, 0x00, 0x31, 0x07, 0x2A, 0x55,
    ];
    let mut scanner = EDMScanner::new(&input);
    assert_eq!(scanner.position(), 0);
    assert!(!scanner.is_done());
    assert_eq!(scanner.step(), EDMScanStep::Frame(Err(EDMFrameError::InvalidFrameIdentifier)));
    assert_eq!(scanner.position(), 6);
    assert_eq!(scanner.step(), EDMScanStep::Malformed);
    assert_eq!(scanner.position(), 7);
    assert_eq!(scanner.remaining(), &input[7..]);
    assert_eq!(scanner.step(), EDMScanStep::Frame(Ok(data_event(0x07, &[0x2A]))));
    assert_eq!(scanner.position(), 15);
    assert!(scanner.is_done());
    assert_eq!(scanner.step(), EDMScanStep::Done);
    assert_eq!(scanner.position(), 15);
    assert_eq!(scanner.step(), EDMScanStep::Done);
}

#[test]
fn next_frame_passes_over_garbage() {
    let input = [
        0x01u8, 0x02, 0xAA, 0x55, 0xAA, 0x00, 0x02, 0x00, 0x71, 0x55, 0xFF, 0xAA, 0x00, 0x02, 0x00,
        0x71, 0x55,
    ];
    let mut scanner = EDMScanner::new(&input);
    assert_eq!(scanner.next_frame(), Some(Ok(start_event())));
    assert_eq!(scanner.position(), 10);
    assert_eq!(scanner.next_frame(), Some(Ok(start_event())));
    assert_eq!(scanner.position(), 17);
    assert_eq!(scanner.next_frame(), None);
    assert!(scanner.is_done());
    assert_eq!(scanner.next_frame(), None);
}

#[test]
fn truncated_frame_ends_the_scan() {
    let input = [0xAAu8, 0x00, 0x10, 0x00, 0x31, 0x07, 0x01, 0x02, 0x03];
    assert!(scan_edm(&input).is_empty());
    let mut scanner = EDMScanner::new(&input);
    assert_eq!(scanner.step(), EDMScanStep::Malformed);
    assert_eq!(scanner.position(), 1);
    assert_eq!(scanner.next_frame(), None);
    assert!(scanner.is_done());
}

#[test]
fn frame_inside_a_truncated_frame_is_found() {
    let input = [
        0xAAu8, 0x00, 0x40, 0x00, 0x31, 0xAA, 0x00, 0x03, 0x00, 0x31, 0x09, 0x55,
    ];
    assert_eq!(scan_edm(&input), vec![Ok(data_event(0x09, &[]))]);
}

#[test]
fn scan_of_short_buffers() {
    assert!(scan_edm(&[]).is_empty());
    assert!(scan_edm(&[0xAA]).is_empty());
    assert!(scan_edm(&[0xAA, 0x00, 0x02, 0x00, 0x71]).is_empty());
    let mut scanner = EDMScanner::new(&[0xAA, 0x00, 0x02, 0x00, 0x71]);
    assert!(scanner.is_done());
    assert_eq!(scanner.step(), EDMScanStep::Done);
    assert_eq!(scanner.position(), 0);
}

#[test]
fn scan_of_back_to_back_frames() {
    let input = [
        0xAAu8, 0x00, 0x02, 0x00, 0x71, 0x55, // start event
        0xAA, 0x00, 0x05, 0x00, 0x31, 0x01, 0x68, 0x69, 0x55, // data event "hi"
        0xAA, 0x00, 0x02, 0x00, 0x11, 0x55, // connect event without body
        0xAA, 0x00, 0x02, 0x00, 0x72, 0x55, // start indication
        0xAA, 0x00, 0x04, 0x00, 0x31, 0x01, 0x21, 0x55, // data event "!"
    ];
    let found = scan_edm(&input);
    assert_eq!(
        found,
        vec![
            Ok(start_event()),
            Ok(data_event(0x01, b"hi")),
            Err(EDMFrameError::BadFrameData),
            Err(EDMFrameError::UnsupportedFrameKind),
            Ok(data_event(0x01, b"!")),
        ]
    );
    assert_eq!(collect_data_events(&found), b"hi!".to_vec());
}

#[test]
fn wrong_end_byte_is_passed_over() {
    let input = [
        0xAAu8, 0x00, 0x02, 0x00, 0x71, 0x54, // no end byte
        0xAA, 0x00, 0x02, 0x00, 0x71, 0x55,
    ];
    assert_eq!(scan_edm(&input), vec![Ok(start_event())]);
}

#[test]
fn scan_yields_at_most_one_result_for_six_bytes() {
    let mut input = Vec::new();
    for _ in 0..50 {
        input.extend_from_slice(&[0xAA, 0x00, 0x02, 0x00, 0x71, 0x55]);
    }
    assert_eq!(scan_edm(&input).len(), 50);
    input.pop();
    assert_eq!(scan_edm(&input).len(), 49);
}

#[test]
fn collected_data_of_frames_without_data_events() {
    let input = [0xAAu8, 0x00, 0x02, 0x00, 0x71, 0x55, 0xAA, 0x00, 0x04, 0x00, 0x36, 0x01, 0x21, 0x55];
    let found = scan_edm(&input);
    assert_eq!(found.len(), 2);
    assert!(collect_data_events(&found).is_empty());
    assert!(collect_data_events(&[]).is_empty());
}

#[test]
fn data_event_payload_of_a_frame() {
    let payload = [0x61u8, 0x62];
    assert_eq!(data_event(3, &payload).data_event_payload(), Some(&payload[..]));
    assert_eq!(start_event().data_event_payload(), None);
    let command = EDMFrame::from_parts(3, 6, &[0x01, 0x61]).unwrap();
    assert_eq!(command.data_event_payload(), None);
}

#[test]
fn steps_as_results() {
    let input = [0x00u8, 0xAA, 0x00, 0x02, 0x00, 0x71, 0x55];
    let mut scanner = EDMScanner::new(&input);
    assert_eq!(scanner.step().into_result(), Some(Err(EDMFrameError::MalformedFraming)));
    assert_eq!(scanner.remaining(), &input[1..]);
    assert_eq!(scanner.step().into_result(), Some(Ok(start_event())));
    assert!(scanner.remaining().is_empty());
    assert_eq!(scanner.step().into_result(), None);
}

#[test]
fn truncated_frame_steps_to_the_end() {
    let input = [0xAAu8, 0x00, 0x10, 0x00, 0x31, 0x07, 0x01, 0x02, 0x03];
    let mut scanner = EDMScanner::new(&input);
    let mut steps = Vec::new();
    while !scanner.is_done() {
        steps.push(scanner.step().into_result());
    }
    assert_eq!(steps, vec![Some(Err(EDMFrameError::MalformedFraming)); 4]);
    assert_eq!(scanner.position(), 4);
    assert_eq!(scanner.step(), EDMScanStep::Done);
}

#[test]
fn cutting_frames_off_one_by_one_meets_the_scan() {
    let input = [
        0x12u8, 0xAA, 0x00, 0x02, 0x00, 0x71, 0x55, // garbage, start event
        0xAA, 0x00, 0x09, // cut-off frame
        0xAA, 0x00, 0x05, 0x00, 0x31, 0x01, 0x68, 0x69, 0x55, // data event "hi"
        0x54, 0xAA, // garbage
        0xAA, 0x00, 0x02, 0x10, 0x05, 0x55, // identifier 0x100
        0xAA, 0x00, 0x02,
    ];
    let mut found = Vec::new();
    let mut rest: &[u8] = &input;
    while !rest.is_empty() {
        match ublox_edm_decoder::edm::parser::parse_edm(rest) {
            Ok((after, result)) => {
                found.push(result);
                rest = after;
            }
            Err(e) => {
                assert_eq!(e, EDMFrameError::MalformedFraming);
                rest = &rest[1..];
            }
        }
    }
    assert_eq!(found, scan_edm(&input));
    assert_eq!(
        found,
        vec![
            Ok(start_event()),
            Ok(data_event(0x01, b"hi")),
            Err(EDMFrameError::InvalidFrameIdentifier),
        ]
    );
    assert_eq!(scan_edm(&input[7..]), found[1..].to_vec());
}

#[test]
fn cut_off_frame_that_ends_on_a_later_end_byte_is_a_frame() {
    let input = [
        0xAAu8, 0x00, 0x09, // announces nine bytes
        0xAA, 0x00, 0x05, 0x00, 0x31, 0x01, 0x68, 0x69, 0x55, // taken as its payload
        0x55,
    ];
    assert_eq!(scan_edm(&input), vec![Err(EDMFrameError::InvalidFrameIdentifier)]);
}
