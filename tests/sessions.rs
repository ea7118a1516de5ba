use packet_sessions::decoder::decode_frame;
use packet_sessions::archive::{SelectionError, SessionArchive, SessionSummary};
use packet_sessions::capture::{
    CaptureBuffer, CaptureEvent, Controller, WorkerAction,
};

fn frame_with_marker(marker: u8) -> Vec<u8> {
    let payload = [marker];
    let mut f = vec![0x02, 0, 0, 0, 0, 1, 0x02, 0, 0, 0, 0, 2, 0x08, 0x00];
    let total: u16 = 20 + 8 + 1;
    f.extend_from_slice(&[0x45, 0]);
    f.extend_from_slice(&total.to_be_bytes());
    f.extend_from_slice(&[0, 0, 0x40, 0, 64, 17, 0, 0, 10, 0, 0, 1, 10, 0, 0, 2]);
    f.extend_from_slice(&[0x30, 0x39, 0x00, 0x35, 0, 9, 0, 0]);
    f.extend_from_slice(&payload);
    f
}

fn run_session(controller: &mut Controller, events: Vec<CaptureEvent>) {
    let mut buffer = controller.start();
    for e in events {
        if buffer.on_event(e) == WorkerAction::Stop {
            break;
        }
    }
    controller.stop(buffer);
}

#[test]
fn session_keeps_frame_order() {
    let mut c = Controller::new();
    let markers = [0x41u8, 0x5a, 0x43, 0x30, 0x42];
    let events: Vec<CaptureEvent> = markers.iter().map(|m| CaptureEvent::Frame(frame_with_marker(*m))).collect();
    run_session(&mut c, events);
    let archive = c.archive();
    assert_eq!(archive.len(), 1);
    let s = archive.get(0);
    assert_eq!(s.len(), markers.len());
    for (i, m) in markers.iter().enumerate() {
        assert_eq!(s.get(i).payload.ascii, (*m as char).to_string());
    }
}

#[test]
fn short_frame_leaves_buffer_unchanged() {
    let mut b = CaptureBuffer::new();
    assert_eq!(b.on_event(CaptureEvent::Frame(frame_with_marker(1))), WorkerAction::Continue);
    assert_eq!(b.len(), 1);
    assert_eq!(b.on_event(CaptureEvent::Frame(vec![0u8; 10])), WorkerAction::Continue);
    assert_eq!(b.len(), 1);
    assert_eq!(b.on_event(CaptureEvent::Frame(Vec::new())), WorkerAction::Continue);
    assert_eq!(b.len(), 1);
}

#[test]
fn timeout_continues_and_fatal_stops() {
    let mut b = CaptureBuffer::new();
    assert_eq!(b.on_event(CaptureEvent::Timeout), WorkerAction::Continue);
    assert_eq!(b.len(), 0);
    b.on_event(CaptureEvent::Frame(frame_with_marker(7)));
    assert_eq!(b.on_event(CaptureEvent::Fatal), WorkerAction::Stop);
    assert_eq!(b.len(), 1);
    assert_eq!(b.on_event(CaptureEvent::StopRequested), WorkerAction::Stop);
    assert_eq!(b.len(), 1);
}

#[test]
fn fatal_error_keeps_captured_packets() {
    let mut c = Controller::new();
    run_session(
        &mut c,
        vec![
            CaptureEvent::Frame(frame_with_marker(1)),
            CaptureEvent::Frame(frame_with_marker(2)),
            CaptureEvent::Fatal,
            CaptureEvent::Frame(frame_with_marker(3)),
        ],
    );
    assert_eq!(c.archive().len(), 1);
    assert_eq!(c.archive().get(0).len(), 2);
}

#[test]
fn k_frames_make_one_session_of_length_k() {
    let mut c = Controller::new();
    for k in 1..4usize {
        let mut events: Vec<CaptureEvent> = (0..k).map(|i| CaptureEvent::Frame(frame_with_marker(i as u8))).collect();
        events.push(CaptureEvent::Timeout);
        events.push(CaptureEvent::StopRequested);
        let before = c.archive().len();
        run_session(&mut c, events);
        assert!(!c.is_capturing());
        assert_eq!(c.archive().len(), before + 1);
        assert_eq!(c.archive().get(before).len(), k);
    }
}

#[test]
fn zero_frames_add_no_session() {
    let mut c = Controller::new();
    run_session(&mut c, vec![CaptureEvent::Frame(vec![1, 2, 3]), CaptureEvent::Timeout, CaptureEvent::StopRequested]);
    assert_eq!(c.archive().len(), 0);
    assert!(c.archive().list().is_none());
}

#[test]
fn listing_gives_index_and_count() {
    let mut c = Controller::new();
    run_session(&mut c, vec![CaptureEvent::Frame(frame_with_marker(1)), CaptureEvent::StopRequested]);
    run_session(&mut c, vec![
        CaptureEvent::Frame(frame_with_marker(1)),
        CaptureEvent::Frame(frame_with_marker(2)),
        CaptureEvent::Frame(frame_with_marker(3)),
        CaptureEvent::StopRequested,
    ]);
    let list = c.archive().list().unwrap();
    assert_eq!(
        list,
        vec![SessionSummary { index: 0, packet_count: 1 }, SessionSummary { index: 1, packet_count: 3 }]
    );
}

#[test]
fn export_out_of_range_is_selection_error() {
    let mut c = Controller::new();
    assert_eq!(c.archive().export(0), Err(SelectionError { index: 0, available: 0 }));
    run_session(&mut c, vec![CaptureEvent::Frame(frame_with_marker(1)), CaptureEvent::StopRequested]);
    assert_eq!(c.archive().export(1), Err(SelectionError { index: 1, available: 1 }));
    assert_eq!(c.archive().export(5), Err(SelectionError { index: 5, available: 1 }));
}

#[test]
fn export_gives_records_in_capture_order() {
    let mut c = Controller::new();
    run_session(
        &mut c,
        vec![CaptureEvent::Frame(frame_with_marker(b'x')), CaptureEvent::Frame(frame_with_marker(b'y')), CaptureEvent::StopRequested],
    );
    let records = c.archive().export(0).unwrap();
    assert_eq!(records.len(), 2);
    let block = |c: char, hex: &str| {
        format!(
            "_______________________________\n10.0.0.1 -> 10.0.0.2 | UDP 12345 -> 53\nPayload HEX: {} | ASCII: {}\n_______________________________\n\n",
            hex, c
        )
    };
    assert_eq!(records[0], block('x', "78"));
    assert_eq!(records[1], block('y', "79"));
}

#[test]
fn archive_drops_empty_sessions() {
    let mut a = SessionArchive::new();
    a.append(CaptureBuffer::new().into_session());
    assert_eq!(a.len(), 0);
    let mut b = CaptureBuffer::new();
    b.record(decode_frame(&frame_with_marker(9)));
    b.record(None);
    assert_eq!(b.len(), 1);
    a.append(b.into_session());
    assert_eq!(a.len(), 1);
    assert_eq!(a.get(0).get(0).protocol.protocol, "UDP");
}

#[test]
fn timeouts_do_not_change_the_run() {
    let mut a = CaptureBuffer::new();
    let mut b = CaptureBuffer::new();
    for m in [3u8, 1, 2] {
        a.on_event(CaptureEvent::Frame(frame_with_marker(m)));
        b.on_event(CaptureEvent::Timeout);
        b.on_event(CaptureEvent::Frame(frame_with_marker(m)));
        b.on_event(CaptureEvent::Timeout);
    }
    assert_eq!(a.len(), 3);
    assert_eq!(b.len(), 3);
    for i in 0..3 {
        assert_eq!(a.get(i).render(), b.get(i).render());
    }
}

#[test]
fn header_only_frame_is_skipped() {
    let mut b = CaptureBuffer::new();
    let frame = vec![0x02, 0, 0, 0, 0, 1, 0x02, 0, 0, 0, 0, 2, 0x08, 0x00];
    assert_eq!(b.on_event(CaptureEvent::Frame(frame)), WorkerAction::Continue);
    assert_eq!(b.len(), 0);
}
