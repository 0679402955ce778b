//! Capturing a frame from a running and from a closed pane.

use crossbeam_channel::unbounded;
use klamottenkiste::capture::{CapturePoll, CaptureReply, PendingCapture};
use klamottenkiste::pane::Started;
use klamottenkiste::present::Frame;
use klamottenkiste::{CaptureError, CapturedFrame, WaylandPane};

/// Bytes per pixel in the RGBA8 frame.
const BYTES_PER_PIXEL: usize = 4;

fn running_pane() -> WaylandPane {
    let (input_tx, _input_rx) = unbounded();
    let (release_tx, _release_rx) = unbounded();
    WaylandPane::new(
        None,
        Ok(Started {
            socket_name: "wayland-3".to_string(),
            control_socket_path: None,
            input_tx,
            release_tx,
        }),
    )
}

/// What a compositor without a client renders: its opaque clear colour.
fn clear_frame(width: u32, height: u32) -> Frame {
    let stride = width as usize * BYTES_PER_PIXEL;
    let mut bytes = Vec::new();
    for _ in 0..width as usize * height as usize {
        bytes.extend_from_slice(&[26, 26, 26, 0xff]);
    }
    Frame {
        bytes,
        width,
        height,
        stride,
    }
}

fn still_waiting(poll: CapturePoll) -> PendingCapture {
    match poll {
        CapturePoll::Waiting(capture) => capture,
        CapturePoll::Done(outcome) => panic!("settled too early: {outcome:?}"),
    }
}

fn settled(poll: CapturePoll) -> Result<CapturedFrame, CaptureError> {
    match poll {
        CapturePoll::Done(outcome) => outcome,
        CapturePoll::Waiting(_) => panic!("not settled"),
    }
}

#[test]
fn capture_frame_delivers_pixels_and_reports_a_closed_pane() {
    let mut pane = running_pane();
    if let Some(err) = pane.startup_error() {
        panic!("the pane's compositor failed to start: {err}");
    }
    assert!(pane.is_running(), "a freshly built pane should be running");

    // Running: the request gives out nothing by itself, and the reply is handed on.
    let capture = pane.capture_frame();
    assert!(capture.asks_compositor());
    let capture = still_waiting(capture.poll(CaptureReply::Pending));
    let capture = still_waiting(capture.poll(CaptureReply::Pending));
    let frame = settled(capture.poll(CaptureReply::Answered(Ok(clear_frame(1280, 800)))))
        .expect("capturing a frame from a running pane failed");

    assert!(
        frame.width > 0 && frame.height > 0,
        "captured frame has area"
    );
    assert_eq!(
        frame.stride,
        frame.width as usize * BYTES_PER_PIXEL,
        "stride should be a tight RGBA8 row"
    );
    assert!(
        frame.rgba.len() >= frame.stride * frame.height as usize,
        "{} bytes is short for {}x{} at stride {}",
        frame.rgba.len(),
        frame.width,
        frame.height,
        frame.stride
    );
    assert!(
        frame
            .rgba
            .chunks_exact(BYTES_PER_PIXEL)
            .all(|px| px[3] == 0xff),
        "the captured buffer has transparent pixels"
    );
    assert_eq!(frame.rgba, clear_frame(1280, 800).bytes);

    // Closed: there is still an outcome, and it says so.
    pane.close();
    assert!(!pane.is_running(), "close() should stop the compositor");
    let capture = pane.capture_frame();
    assert!(!capture.asks_compositor());
    let outcome = settled(capture.poll(CaptureReply::Pending));
    assert!(
        matches!(outcome, Err(CaptureError::NotRunning)),
        "a closed pane must report NotRunning, got {outcome:?}"
    );
}

#[test]
fn a_failed_render_is_reported_with_its_reason() {
    let pane = running_pane();
    let capture = pane.capture_frame();
    match settled(capture.poll(CaptureReply::Answered(Err("context lost".to_string())))) {
        Err(CaptureError::Failed(message)) => assert_eq!(message, "context lost"),
        other => panic!("{other:?}"),
    }
}

#[test]
fn a_compositor_that_goes_away_is_not_running() {
    let pane = running_pane();
    let capture = pane.capture_frame();
    let capture = still_waiting(capture.poll(CaptureReply::Pending));
    assert!(matches!(
        settled(capture.poll(CaptureReply::Gone)),
        Err(CaptureError::NotRunning)
    ));
}

#[test]
fn a_failed_start_is_not_running() {
    let pane = WaylandPane::new(None, Err("no render node".to_string()));
    let capture = pane.capture_frame();
    assert!(!capture.asks_compositor());
    assert!(matches!(
        settled(capture.poll(CaptureReply::Answered(Ok(clear_frame(2, 2))))),
        Err(CaptureError::NotRunning)
    ));
}
