use qrscan::capture::accept_frame;
use qrscan::capture::validate_request;
use qrscan::capture::CaptureError;
use qrscan::capture::ScreenBounds;
use qrscan::decode::DecodeOutcome;
use qrscan::decode::PixelBuffer;
use qrscan::geometry::PointerEvent;
use qrscan::geometry::SelectionRect;
use qrscan::orchestrator::Orchestrator;
use qrscan::session::open_target;
use qrscan::session::Session;

/// Render a payload as an RGBA pixel buffer holding its QR code, eight
/// pixels per module with a four-module quiet zone.
fn qr_buffer(payload: &str) -> PixelBuffer {
    let code = qrcode::QrCode::new(payload.as_bytes()).expect("payload fits a QR code");
    let modules = code.to_colors();
    let side = code.width();
    let scale = 8usize;
    let quiet = 4usize;
    let out_side = (side + 2 * quiet) * scale;
    let mut data = Vec::with_capacity(out_side * out_side * 4);
    for y in 0..out_side {
        for x in 0..out_side {
            let mx = x / scale;
            let my = y / scale;
            let dark = mx >= quiet
                && my >= quiet
                && mx < side + quiet
                && my < side + quiet
                && matches!(
                    modules[(my - quiet) * side + (mx - quiet)],
                    qrcode::Color::Dark
                );
            let level = if dark { 0u8 } else { 255u8 };
            data.extend_from_slice(&[level, level, level, 255]);
        }
    }
    PixelBuffer { data, width: out_side as u32, height: out_side as u32 }
}

#[test]
fn end_to_end_payload_opened_once() {
    let mut session = Session::new();
    let mut opens = 0;
    assert!(session.on_pointer_event(PointerEvent::Move { x: 10, y: 10 }).is_none());
    assert!(session.on_pointer_event(PointerEvent::Press).is_none());
    assert!(session.on_pointer_event(PointerEvent::Move { x: 10, y: 10 }).is_none());
    assert!(session.on_pointer_event(PointerEvent::Move { x: 110, y: 110 }).is_none());
    let request = session
        .on_pointer_event(PointerEvent::Release)
        .expect("one request per completed gesture");
    assert_eq!(
        request.rect,
        SelectionRect { origin_x: 10, origin_y: 10, width: 100, height: 100 }
    );

    // While the result is owed, no pointer event emits another request.
    assert!(session.on_pointer_event(PointerEvent::Press).is_none());
    assert!(session.on_pointer_event(PointerEvent::Move { x: 300, y: 300 }).is_none());
    assert!(session.on_pointer_event(PointerEvent::Release).is_none());

    let outcome = session
        .on_capture_result(request.request_id, Ok(qr_buffer("https://example.com")))
        .expect("the pending result publishes exactly one outcome");
    match &outcome {
        DecodeOutcome::Payload(p) => assert_eq!(p, "https://example.com"),
        other => panic!("expected a payload, got {:?}", other),
    }
    if let Some(target) = open_target(&outcome) {
        assert_eq!(target, "https://example.com");
        opens += 1;
    }
    assert_eq!(opens, 1);

    // A second delivery of the same id is stale and publishes nothing.
    assert!(session
        .on_capture_result(request.request_id, Ok(qr_buffer("https://example.com")))
        .is_none());
}

#[test]
fn outcome_without_payload_opens_nothing() {
    assert!(open_target(&DecodeOutcome::NotFound).is_none());
    assert!(open_target(&DecodeOutcome::CaptureFailed("gone".to_string())).is_none());
    assert!(open_target(&DecodeOutcome::DecodeFailed("bad".to_string())).is_none());
}

#[test]
fn stale_result_discarded() {
    let mut orchestrator = Orchestrator::new();
    let rect = SelectionRect { origin_x: 0, origin_y: 0, width: 10, height: 10 };
    let first = orchestrator.on_rectangle(rect);
    let second = orchestrator.on_rectangle(rect);
    assert!(second.request_id > first.request_id);

    // The answer to the superseded request is discarded silently.
    assert!(orchestrator
        .on_capture_result(first.request_id, Err(CaptureError::OutOfBounds))
        .is_none());

    // The answer to the pending request is published.
    let outcome = orchestrator
        .on_capture_result(second.request_id, Err(CaptureError::OutOfBounds))
        .expect("the pending result publishes an outcome");
    match outcome {
        DecodeOutcome::CaptureFailed(reason) => {
            assert_eq!(reason, "selection outside the screen");
        }
        other => panic!("expected CaptureFailed, got {:?}", other),
    }

    // Nothing is pending any more: even the right id is now stale.
    assert!(orchestrator
        .on_capture_result(second.request_id, Err(CaptureError::OutOfBounds))
        .is_none());
}

#[test]
fn capture_failure_rearms_session() {
    let mut session = Session::new();
    assert!(session.on_pointer_event(PointerEvent::Move { x: 5, y: 5 }).is_none());
    assert!(session.on_pointer_event(PointerEvent::Press).is_none());
    assert!(session.on_pointer_event(PointerEvent::Move { x: 50, y: 50 }).is_none());
    let request = session.on_pointer_event(PointerEvent::Release).unwrap();

    let outcome = session
        .on_capture_result(
            request.request_id,
            Err(CaptureError::DeviceFailure("screen read failed".to_string())),
        )
        .expect("a failure is surfaced once");
    match outcome {
        DecodeOutcome::CaptureFailed(reason) => assert_eq!(reason, "screen read failed"),
        other => panic!("expected CaptureFailed, got {:?}", other),
    }

    // The session is ready for the next gesture.
    assert!(session.on_pointer_event(PointerEvent::Move { x: 0, y: 0 }).is_none());
    assert!(session.on_pointer_event(PointerEvent::Press).is_none());
    assert!(session.on_pointer_event(PointerEvent::Move { x: 8, y: 9 }).is_none());
    assert!(session.on_pointer_event(PointerEvent::Release).is_some());
}

#[test]
fn validate_request_bounds() {
    let screen = ScreenBounds { x: 0, y: 0, width: 1920, height: 1080 };
    let inside = SelectionRect { origin_x: 100, origin_y: 100, width: 50, height: 50 };
    assert!(validate_request(&inside, &screen).is_ok());

    let overlapping = SelectionRect { origin_x: -5, origin_y: -5, width: 10, height: 10 };
    assert!(validate_request(&overlapping, &screen).is_ok());

    let outside_right = SelectionRect { origin_x: 2000, origin_y: 50, width: 10, height: 10 };
    assert_eq!(
        validate_request(&outside_right, &screen),
        Err(CaptureError::OutOfBounds)
    );

    let outside_top = SelectionRect { origin_x: 50, origin_y: -30, width: 10, height: 30 };
    assert_eq!(
        validate_request(&outside_top, &screen),
        Err(CaptureError::OutOfBounds)
    );
}

#[test]
fn accept_frame_checks_size() {
    let rect = SelectionRect { origin_x: 0, origin_y: 0, width: 2, height: 2 };
    let good = accept_frame(&rect, vec![0u8; 16], 2, 2).expect("a full frame is accepted");
    assert_eq!(good.width, 2);
    assert_eq!(good.height, 2);
    assert_eq!(good.data.len(), 16);

    match accept_frame(&rect, vec![0u8; 15], 2, 2) {
        Err(CaptureError::DeviceFailure(reason)) => assert_eq!(reason, "frame size mismatch"),
        other => panic!("expected DeviceFailure, got {:?}", other),
    }
}

#[test]
fn accept_frame_checks_requested_dimensions() {
    // A frame that is internally consistent but not the one asked for is
    // refused: 4 x 1 pixels fill 16 bytes, yet the request was 2 x 2.
    let rect = SelectionRect { origin_x: 0, origin_y: 0, width: 2, height: 2 };
    match accept_frame(&rect, vec![0u8; 16], 4, 1) {
        Err(CaptureError::DeviceFailure(reason)) => assert_eq!(reason, "frame size mismatch"),
        other => panic!("expected DeviceFailure, got {:?}", other),
    }
}
