use plato::errors::{CaptureError, MALFORMED_FRAME};
use plato::frame::{Frame, GrayImage, Mask, CHANNELS};
use plato::messages::CameraResult;
use plato::optical_flow::FlowField;

#[test]
fn channels_are_three() {
    assert_eq!(CHANNELS, 3);
}

#[test]
fn frame_new_checks_the_geometry() {
    let f = Frame::new(2, 2, vec![0; 12], 99).expect("12 bytes fit 2x2x3");
    assert_eq!(f.width, 2);
    assert_eq!(f.height, 2);
    assert_eq!(f.timestamp, 99);
    assert!(Frame::new(2, 2, vec![0; 11], 0).is_none());
    assert!(Frame::new(0, 0, vec![], 0).is_some());
}

#[test]
fn gray_image_new_checks_the_geometry() {
    assert!(GrayImage::new(3, 2, vec![0; 6]).is_some());
    assert!(GrayImage::new(3, 2, vec![0; 5]).is_none());
}

#[test]
fn flow_field_new_checks_both_buffers() {
    assert!(FlowField::new(2, 1, vec![0, 0], vec![0, 0]).is_some());
    assert!(FlowField::new(2, 1, vec![0], vec![0, 0]).is_none());
    assert!(FlowField::new(2, 1, vec![0, 0], vec![0]).is_none());
}

#[test]
fn count_foreground_counts_true_bits() {
    let m = Mask { width: 2, height: 2, data: vec![true, false, true, false] };
    assert_eq!(m.count_foreground(), 2);
    let empty = Mask { width: 2, height: 2, data: vec![false; 4] };
    assert_eq!(empty.count_foreground(), 0);
}

#[test]
fn validated_demotes_malformed_replies() {
    // A sound reply passes through unchanged.
    let good = CameraResult {
        data: Ok(Frame::new(1, 1, vec![1, 2, 3], 5).expect("geometry matches")),
        timestamp: 9,
    };
    let v = good.validated();
    assert_eq!(v.timestamp, 9);
    assert_eq!(v.data.expect("stays a frame").data, vec![1, 2, 3]);

    // A frame whose buffer belies its header becomes a failed read.
    let bad = CameraResult {
        data: Ok(Frame { width: 2, height: 2, data: vec![0; 5], timestamp: 0 }),
        timestamp: 10,
    };
    let v = bad.validated();
    assert_eq!(v.timestamp, 10);
    assert_eq!(v.data.err(), Some(CaptureError { code: MALFORMED_FRAME }));

    // A failed read stays itself.
    let failed = CameraResult { data: Err(CaptureError { code: -10 }), timestamp: 11 };
    let v = failed.validated();
    assert_eq!(v.data.err(), Some(CaptureError { code: -10 }));
}
