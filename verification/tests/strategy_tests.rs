use plato::frame::{Frame, GrayImage};
use plato::mog::{MogSettings, MogSubtractor};
use plato::optical_flow::{grayscale, FlowField, OfOutputType, OfSettings, OfSubtractor};
use plato::subtractor::{create_bg_selector, ApplyInput, BGSubtracSettings, Subtractor, SubtractorType};
use plato::test_pattern::{TestSettings, TestSubtractor};

fn frame(width: usize, height: usize, data: Vec<u8>) -> Frame {
    Frame::new(width, height, data, 0).expect("geometry must match the buffer")
}

fn gray(width: usize, height: usize, data: Vec<u8>) -> GrayImage {
    GrayImage::new(width, height, data).expect("geometry must match the buffer")
}

fn flow(width: usize, height: usize, dx: Vec<i32>, dy: Vec<i32>) -> FlowField {
    FlowField::new(width, height, dx, dy).expect("geometry must match the buffers")
}

#[test]
fn test_pattern_draws_the_configured_box() {
    let settings = TestSettings { test_box_pos: (1, 1), test_box_size: (2, 1) };
    let mut s = TestSubtractor::new(settings);
    let mask = s.apply(&frame(4, 3, vec![0; 36])).expect("always succeeds");
    let expected = vec![
        false, false, false, false,
        false, true, true, false,
        false, false, false, false,
    ];
    assert_eq!(mask.data, expected);
}

#[test]
fn test_pattern_clips_at_the_frame_edges() {
    let settings = TestSettings { test_box_pos: (-1, -1), test_box_size: (2, 2) };
    let mut s = TestSubtractor::new(settings);
    let mask = s.apply(&frame(2, 2, vec![0; 12])).expect("always succeeds");
    assert_eq!(mask.data, vec![true, false, false, false]);
}

#[test]
fn test_pattern_empty_box_marks_nothing() {
    let settings = TestSettings { test_box_pos: (0, 0), test_box_size: (0, 0) };
    let mut s = TestSubtractor::new(settings);
    let mask = s.apply(&frame(2, 2, vec![0; 12])).expect("always succeeds");
    assert_eq!(mask.count_foreground(), 0);
}

#[test]
fn test_pattern_default_box() {
    let d = TestSettings::default();
    assert_eq!(d.test_box_pos, (0, 0));
    assert_eq!(d.test_box_size, (200, 200));
}

#[test]
fn grayscale_uses_luma_weights() {
    // Blue 100, green 50, red 200: (299*200 + 587*50 + 114*100) / 1000 = 100.
    let g = grayscale(&frame(1, 1, vec![100, 50, 200]));
    assert_eq!(g.data, vec![100]);
    // Pure white stays white, pure black stays black.
    let g2 = grayscale(&frame(2, 1, vec![255, 255, 255, 0, 0, 0]));
    assert_eq!(g2.data, vec![255, 0]);
}

#[test]
fn of_defaults() {
    let d = OfSettings::default();
    assert_eq!(d.mode, OfOutputType::YDirection);
    assert_eq!(d.scales, 3);
    assert_eq!(d.win_size, 15);
    assert_eq!(d.iterations, 3);
    assert_eq!(d.poly_n, 5);
    assert_eq!(d.poly_sigma_milli, 1200);
    assert_eq!(d.flags, 0);
    assert_eq!(d.threshold, 15);
}

#[test]
fn of_first_apply_succeeds_with_empty_mask() {
    // Boundary: the first-ever apply has no previous frame; flow of the
    // frame against itself is zero, and the call must not fail.
    let mut s = OfSubtractor::new(OfSettings::default());
    assert!(s.prev_img.is_none());
    let f = frame(2, 2, vec![7; 12]);
    let zero = flow(2, 2, vec![0; 4], vec![0; 4]);
    let mask = s.apply(&f, &zero).expect("first apply must not fail");
    assert_eq!(mask.width, 2);
    assert_eq!(mask.height, 2);
    assert_eq!(mask.count_foreground(), 0);
    // The grayscale input became the new previous frame.
    let prev = s.prev_img.as_ref().expect("previous frame stored");
    assert_eq!(prev.data, vec![7, 7, 7, 7]);
}

#[test]
fn of_magnitude_mode_thresholds_the_squared_norm() {
    let mut settings = OfSettings::default();
    settings.mode = OfOutputType::Magnitude;
    settings.threshold = 4;
    let mut s = OfSubtractor::new(settings);
    // Magnitudes: 5 (3,4), 4 (0,-4), 0.
    let f = flow(3, 1, vec![3, 0, 0], vec![4, -4, 0]);
    let mask = s.apply(&frame(3, 1, vec![0; 9]), &f).expect("geometry matches");
    assert_eq!(mask.data, vec![true, false, false]);
}

#[test]
fn of_negative_magnitude_threshold_marks_everything() {
    let mut settings = OfSettings::default();
    settings.mode = OfOutputType::Magnitude;
    settings.threshold = -1;
    let mut s = OfSubtractor::new(settings);
    let f = flow(1, 1, vec![0], vec![0]);
    let mask = s.apply(&frame(1, 1, vec![0; 3]), &f).expect("geometry matches");
    assert_eq!(mask.data, vec![true]);
}

#[test]
fn of_ydirection_marks_upward_motion_only() {
    // Default threshold 15: upward displacement (negative dy) beyond 15
    // counts; downward motion never does.
    let mut s = OfSubtractor::new(OfSettings::default());
    let f = flow(3, 1, vec![0, 0, 0], vec![-16, -15, 16]);
    let mask = s.apply(&frame(3, 1, vec![0; 9]), &f).expect("geometry matches");
    assert_eq!(mask.data, vec![true, false, false]);
}

#[test]
fn of_dimension_mismatch_fails_and_keeps_state() {
    let mut s = OfSubtractor::new(OfSettings::default());
    let f = flow(2, 1, vec![0; 2], vec![0; 2]);
    assert!(s.apply(&frame(1, 2, vec![0; 6]), &f).is_err());
    assert!(s.prev_img.is_none());
}

#[test]
fn of_reset_clears_the_previous_frame() {
    let mut s = OfSubtractor::new(OfSettings::default());
    let f = frame(1, 1, vec![1, 2, 3]);
    let zero = flow(1, 1, vec![0], vec![0]);
    s.apply(&f, &zero).expect("geometry matches");
    assert!(s.prev_img.is_some());
    s.reset();
    assert!(s.prev_img.is_none());
    assert_eq!(s.settings, OfSettings::default());
}

#[test]
fn mog_defaults() {
    let d = MogSettings::default();
    assert_eq!(d.history, 250);
    assert_eq!(d.mixtures, 5);
    assert_eq!(d.background_ratio_milli, 650);
    assert_eq!(d.noise_sigma_milli, 5200);
    assert_eq!(d.learning_rate_milli, 50);
}

#[test]
fn mog_thresholds_the_model_estimate_at_one_half() {
    let mut s = MogSubtractor::new(MogSettings::default());
    let estimate = gray(3, 1, vec![0, 1, 255]);
    let mask = s.apply(&frame(3, 1, vec![0; 9]), &estimate).expect("geometry matches");
    assert_eq!(mask.data, vec![false, true, true]);
}

#[test]
fn mog_dimension_mismatch_fails() {
    let mut s = MogSubtractor::new(MogSettings::default());
    let estimate = gray(2, 1, vec![0, 0]);
    assert!(s.apply(&frame(1, 2, vec![0; 6]), &estimate).is_err());
}

#[test]
fn mog_reset_keeps_the_settings() {
    let mut s = MogSubtractor::new(MogSettings::default());
    s.reset();
    assert_eq!(s.settings, MogSettings::default());
}

#[test]
fn selector_builds_the_requested_variant() {
    let settings = BGSubtracSettings::default();
    assert!(matches!(
        create_bg_selector(SubtractorType::Naive, &settings),
        Subtractor::Naive(_)
    ));
    assert!(matches!(create_bg_selector(SubtractorType::Mog, &settings), Subtractor::Mog(_)));
    assert!(matches!(
        create_bg_selector(SubtractorType::OpticalFlow, &settings),
        Subtractor::OpticalFlow(_)
    ));
    assert!(matches!(create_bg_selector(SubtractorType::Test, &settings), Subtractor::Test(_)));
}

#[test]
fn dispatch_rejects_the_wrong_companion() {
    let settings = BGSubtracSettings::default();
    let mut s = create_bg_selector(SubtractorType::Naive, &settings);
    let f = frame(1, 1, vec![0, 0, 0]);
    s.reset(frame(1, 1, vec![0, 0, 0]));
    // The naive variant needs the frame alone; handing it a flow field is a
    // compute failure for that cycle.
    let wrong = ApplyInput::DenseFlow(flow(1, 1, vec![0], vec![0]));
    assert!(s.apply(&f, &wrong).is_err());
    assert!(s.apply(&f, &ApplyInput::FrameOnly).is_ok());
}

#[test]
fn dispatch_feeds_each_variant_its_companion() {
    let settings = BGSubtracSettings::default();

    let mut mog = create_bg_selector(SubtractorType::Mog, &settings);
    let estimate = ApplyInput::ModelForeground(gray(1, 1, vec![200]));
    let mask = mog.apply(&frame(1, 1, vec![0; 3]), &estimate).expect("geometry matches");
    assert_eq!(mask.data, vec![true]);
    assert!(mog.apply(&frame(1, 1, vec![0; 3]), &ApplyInput::FrameOnly).is_err());

    let mut of = create_bg_selector(SubtractorType::OpticalFlow, &settings);
    let field = ApplyInput::DenseFlow(flow(1, 1, vec![0], vec![-20]));
    let mask = of.apply(&frame(1, 1, vec![0; 3]), &field).expect("geometry matches");
    assert_eq!(mask.data, vec![true]);
    assert!(of.apply(&frame(1, 1, vec![0; 3]), &ApplyInput::FrameOnly).is_err());
}

#[test]
fn aggregate_defaults_match_the_per_variant_defaults() {
    let d = BGSubtracSettings::default();
    assert_eq!(d.naive_settings, plato::naive::NaiveSettings::default());
    assert_eq!(d.mog_settings, MogSettings::default());
    assert_eq!(d.of_settings, OfSettings::default());
    assert_eq!(d.test_settings, TestSettings::default());
}
