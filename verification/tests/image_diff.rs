use rust_core_sensiomotor_functions::Frame;
use rust_core_sensiomotor_functions::ImageDiff;

#[test]
fn test_image_diff_new() {
    let width = 10;
    let height = 8;
    let depth = 3;
    let diff = ImageDiff::new(width, height, depth);

    // Check that the shape is as expected
    let shape = diff.shape();
    assert_eq!(shape, (depth, height, width));
}

#[test]
fn test_get_new_delta_from_new_frame() {
    let width = 2;
    let height = 2;
    let depth = 1;
    let mut diff = ImageDiff::new(width, height, depth);

    // Create a new frame with all zeros
    let zeros = Frame::zeros(depth, height, width);

    // First frame should produce all zeros as diff
    let result = diff.get_new_delta_from_new_frame(&zeros);
    assert!(result.is_ok());
    let delta = result.unwrap();
    let mut sum: u32 = 0;
    for c in 0..depth {
        for y in 0..height {
            for x in 0..width {
                sum += delta.sample(c, y, x) as u32;
            }
        }
    }
    assert_eq!(sum, 0);

    // Create a new frame with some values
    let mut new_frame = Frame::zeros(depth, height, width);
    new_frame.set_sample(0, 0, 0, 100);
    new_frame.set_sample(0, 1, 1, 50);

    // Second frame should produce non-zero diff
    let result = diff.get_new_delta_from_new_frame(&new_frame);
    assert!(result.is_ok());
    let delta = result.unwrap();
    assert_eq!(delta.sample(0, 0, 0), 100);
    assert_eq!(delta.sample(0, 1, 1), 50);

    // Passing a new frame with wrong dimensions should fail
    let wrong_frame = Frame::zeros(depth + 1, height, width);
    let result = diff.get_new_delta_from_new_frame(&wrong_frame);
    assert!(result.is_err());
}

#[test]
fn test_saturating_subtraction() {
    let width = 1;
    let height = 1;
    let depth = 1;
    let mut diff = ImageDiff::new(width, height, depth);

    // Set initial frame with higher values
    let mut first_frame = Frame::zeros(depth, height, width);
    first_frame.set_sample(0, 0, 0, 100);
    diff.get_new_delta_from_new_frame(&first_frame).unwrap();

    // New frame with lower values
    let mut second_frame = Frame::zeros(depth, height, width);
    second_frame.set_sample(0, 0, 0, 50);

    // Result should be 0 (not underflow)
    let result = diff.get_new_delta_from_new_frame(&second_frame);
    assert!(result.is_ok());
    let delta = result.unwrap();
    assert_eq!(delta.sample(0, 0, 0), 0);
}
