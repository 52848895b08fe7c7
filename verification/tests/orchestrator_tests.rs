use plato::errors::{CaptureError, ErrorKind};
use plato::frame::Frame;
use plato::messages::{CameraResult, PipelineMessage};
use plato::orchestrator::{Orchestrator, OrchestratorState};
use plato::subtractor::{create_bg_selector, ApplyInput, BGSubtracSettings, SubtractorType};

fn frame(width: usize, height: usize, data: Vec<u8>) -> Frame {
    Frame::new(width, height, data, 0).expect("geometry must match the buffer")
}

fn naive_orchestrator() -> Orchestrator {
    let settings = BGSubtracSettings::default();
    Orchestrator::new(create_bg_selector(SubtractorType::Naive, &settings))
}

fn captured(f: Frame, timestamp: u64) -> CameraResult {
    CameraResult { data: Ok(f), timestamp }
}

fn capture_failed() -> CameraResult {
    CameraResult { data: Err(CaptureError { code: -10 }), timestamp: 0 }
}

#[test]
fn request_before_any_reference_is_rejected() {
    // Scenario A: the orchestrator starts Idle; a frame request before any
    // SetReference answers ReferenceNotSet.
    let mut orch = naive_orchestrator();
    assert_eq!(orch.state, OrchestratorState::Idle);
    let out = orch.handle_generate_image(
        captured(frame(1, 1, vec![1, 2, 3]), 0),
        &ApplyInput::FrameOnly,
        42,
    );
    assert_eq!(out.mask.as_ref().err(), Some(&ErrorKind::ReferenceNotSet));
    assert!(out.image.is_none());
    assert_eq!(out.timestamp, 42);
    assert_eq!(orch.state, OrchestratorState::Idle);
}

#[test]
fn same_frame_after_reference_yields_all_false_mask() {
    // Scenario B: SetReference succeeds with F; requesting a frame that
    // captures F again answers Ok with every pixel false.
    let mut orch = naive_orchestrator();
    let data = vec![10, 20, 30, 40, 50, 60];
    orch.handle_set_reference(captured(frame(2, 1, data.clone()), 1));
    assert_eq!(orch.state, OrchestratorState::Ready);

    let out = orch.handle_generate_image(
        captured(frame(2, 1, data), 2),
        &ApplyInput::FrameOnly,
        7,
    );
    let mask = out.mask.expect("same frame must succeed");
    assert_eq!(mask.data, vec![false, false]);
    let image = out.image.expect("success carries the source frame");
    assert_eq!(image.data, vec![10, 20, 30, 40, 50, 60]);
    assert_eq!(out.timestamp, 7);
}

#[test]
fn capture_failure_spoils_one_cycle_only() {
    // Scenario C: a capture error answers CaptureFailed; a later successful
    // request behaves as if nothing had failed.
    let mut orch = naive_orchestrator();
    let reference = vec![0, 0, 0];
    orch.handle_set_reference(captured(frame(1, 1, reference), 0));

    let out = orch.handle_generate_image(capture_failed(), &ApplyInput::FrameOnly, 3);
    assert_eq!(out.mask.as_ref().err(), Some(&ErrorKind::CaptureFailed));
    assert!(out.image.is_none());
    assert_eq!(orch.state, OrchestratorState::Ready);

    let out2 = orch.handle_generate_image(
        captured(frame(1, 1, vec![200, 0, 0]), 4),
        &ApplyInput::FrameOnly,
        5,
    );
    let mask = out2.mask.expect("the cycle after the failure works");
    assert_eq!(mask.data, vec![true]);
}

#[test]
fn failed_reference_seed_changes_nothing() {
    // A failed SetReference leaves the previous state: still Idle, so the
    // next request is still rejected for the missing reference.
    let mut orch = naive_orchestrator();
    orch.handle_set_reference(capture_failed());
    assert_eq!(orch.state, OrchestratorState::Idle);
    let out = orch.handle_generate_image(
        captured(frame(1, 1, vec![0, 0, 0]), 0),
        &ApplyInput::FrameOnly,
        0,
    );
    assert_eq!(out.mask.as_ref().err(), Some(&ErrorKind::ReferenceNotSet));
}

#[test]
fn reference_can_be_reseeded_at_runtime() {
    let mut orch = naive_orchestrator();
    orch.handle_set_reference(captured(frame(1, 1, vec![0, 0, 0]), 0));
    let probe = vec![100, 0, 0];
    let out = orch.handle_generate_image(
        captured(frame(1, 1, probe.clone()), 1),
        &ApplyInput::FrameOnly,
        1,
    );
    assert_eq!(out.mask.expect("geometry matches").data, vec![true]);

    // Reseed against the probe: the same probe is background now.
    orch.handle_set_reference(captured(frame(1, 1, probe.clone()), 2));
    let out2 = orch.handle_generate_image(
        captured(frame(1, 1, probe), 3),
        &ApplyInput::FrameOnly,
        3,
    );
    assert_eq!(out2.mask.expect("geometry matches").data, vec![false]);
}

#[test]
fn mismatched_capture_is_a_compute_failure() {
    let mut orch = naive_orchestrator();
    orch.handle_set_reference(captured(frame(2, 1, vec![0; 6]), 0));
    let out = orch.handle_generate_image(
        captured(frame(1, 2, vec![0; 6]), 1),
        &ApplyInput::FrameOnly,
        1,
    );
    assert_eq!(out.mask.as_ref().err(), Some(&ErrorKind::ComputeFailed));
    assert_eq!(orch.state, OrchestratorState::Ready);
}

#[test]
fn quit_is_terminal_and_mutates_nothing() {
    let mut orch = naive_orchestrator();
    orch.handle_set_reference(captured(frame(1, 1, vec![9, 9, 9]), 0));
    let (quit, out) = orch.handle_message(
        PipelineMessage::Quit,
        captured(frame(1, 1, vec![0, 0, 0]), 1),
        &ApplyInput::FrameOnly,
        1,
    );
    assert!(quit);
    assert!(out.is_none());
    assert_eq!(orch.state, OrchestratorState::Ready);
}

#[test]
fn handle_message_dispatches_all_three_commands() {
    let mut orch = naive_orchestrator();
    let data = vec![1, 2, 3];

    let (quit, out) = orch.handle_message(
        PipelineMessage::GenerateImage,
        captured(frame(1, 1, data.clone()), 0),
        &ApplyInput::FrameOnly,
        10,
    );
    assert!(!quit);
    let out = out.expect("a frame request always answers");
    assert_eq!(out.mask.as_ref().err(), Some(&ErrorKind::ReferenceNotSet));

    let (quit, out) = orch.handle_message(
        PipelineMessage::SetReference,
        captured(frame(1, 1, data.clone()), 1),
        &ApplyInput::FrameOnly,
        11,
    );
    assert!(!quit);
    assert!(out.is_none());
    assert_eq!(orch.state, OrchestratorState::Ready);

    let (quit, out) = orch.handle_message(
        PipelineMessage::GenerateImage,
        captured(frame(1, 1, data), 2),
        &ApplyInput::FrameOnly,
        12,
    );
    assert!(!quit);
    let out = out.expect("a frame request always answers");
    assert_eq!(out.mask.expect("same frame").data, vec![false]);
}

#[test]
fn test_pattern_pipeline_needs_no_real_scene() {
    // The test-pattern strategy validates the pipeline without a camera:
    // whatever the frames hold, the mask is the configured box.
    let mut settings = BGSubtracSettings::default();
    settings.test_settings.test_box_pos = (0, 0);
    settings.test_settings.test_box_size = (1, 1);
    let mut orch = Orchestrator::new(create_bg_selector(SubtractorType::Test, &settings));
    orch.handle_set_reference(captured(frame(2, 1, vec![0; 6]), 0));
    let out = orch.handle_generate_image(
        captured(frame(2, 1, vec![50; 6]), 1),
        &ApplyInput::FrameOnly,
        1,
    );
    assert_eq!(out.mask.expect("the test pattern always succeeds").data, vec![true, false]);
}

#[test]
fn handle_message_reports_capture_failure_when_ready() {
    let mut orch = naive_orchestrator();
    orch.handle_set_reference(captured(frame(1, 1, vec![0, 0, 0]), 0));
    let (quit, out) = orch.handle_message(
        PipelineMessage::GenerateImage,
        capture_failed(),
        &ApplyInput::FrameOnly,
        21,
    );
    assert!(!quit);
    let out = out.expect("a frame request always answers");
    assert_eq!(out.mask.as_ref().err(), Some(&ErrorKind::CaptureFailed));
    assert!(out.image.is_none());
    assert_eq!(out.timestamp, 21);
    assert_eq!(orch.state, OrchestratorState::Ready);
}
