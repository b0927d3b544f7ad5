use playrust::report::FailureCategory;
use playrust::visual::{
    compare, compare_pictures, encode_png, validate_dimensions, visual_verdict, Picture,
    VisualError, MAX_IMAGE_BYTES, MAX_IMAGE_DIMENSION,
};

fn picture(width: u32, height: u32, pixel: [u8; 4]) -> Picture {
    Picture {
        width,
        height,
        pixels: pixel.repeat((width * height) as usize),
    }
}

#[test]
fn compares_per_channel_and_marks_changed_pixels_red() {
    let expected = picture(2, 1, [10, 20, 30, 255]);
    let baseline = encode_png(&expected).unwrap();
    let mut actual = expected;
    actual.pixels[4] = 13;

    let within = compare(&baseline, &encode_png(&actual).unwrap(), 3).unwrap();
    assert_eq!(within.changed_pixels, 0);
    let changed = compare(&baseline, &encode_png(&actual).unwrap(), 2).unwrap();
    assert_eq!(changed.changed_pixels, 1);
    assert_eq!(changed.diff.pixels[4..8], [255, 0, 0, 255]);
    assert_eq!(changed.diff.pixels[0..4], [10, 20, 30, 255]);
    assert_eq!(changed.total_pixels, 2);
    assert!(changed.dimensions_match);
}

#[test]
fn rejects_non_png_and_unbounded_dimensions() {
    assert!(matches!(
        compare(b"not png", b"not png", 0),
        Err(VisualError::BaselineDecode)
    ));
    let baseline = encode_png(&picture(1, 1, [0; 4])).unwrap();
    assert!(matches!(
        compare(&baseline, b"not png", 0),
        Err(VisualError::ActualDecode)
    ));
    assert!(validate_dimensions(MAX_IMAGE_DIMENSION + 1, 1).is_err());
    assert!(validate_dimensions(4097, 4097).is_err());
    assert!(validate_dimensions(0, 1).is_err());
    assert!(validate_dimensions(4096, 4096).is_ok());
    assert_eq!(
        validate_dimensions(1, 0).unwrap_err(),
        "visual image dimensions must not exceed 8192 per axis or 16777216 pixels"
    );
    assert!(matches!(
        compare(&vec![0; MAX_IMAGE_BYTES + 1], &baseline, 0),
        Err(VisualError::BaselineDecode)
    ));
}

#[test]
fn pictures_that_are_too_large_are_not_read() {
    let large = encode_png(&picture(8193, 1, [1; 4])).unwrap();
    let small = encode_png(&picture(1, 1, [1; 4])).unwrap();
    assert!(matches!(
        compare(&small, &large, 0),
        Err(VisualError::ActualDecode)
    ));
}

#[test]
fn pictures_of_different_sizes_differ_everywhere() {
    let compared = compare_pictures(&picture(1, 2, [0; 4]), &picture(2, 1, [0; 4]), 255);
    assert!(!compared.dimensions_match);
    assert_eq!(compared.changed_pixels, 2);
    assert_eq!(compared.diff.pixels, [255, 0, 0, 255].repeat(2));
}

#[test]
fn a_picture_matches_its_own_file() {
    let shown = picture(3, 2, [1, 2, 3, 4]);
    let file = encode_png(&shown).unwrap();
    let compared = compare(&file, &file, 0).unwrap();
    assert_eq!(compared.changed_pixels, 0);
    assert_eq!(compared.diff, shown);
}

#[test]
fn failed_comparisons_tell_their_ratios_and_keep_both_pictures() {
    let compared = compare_pictures(&picture(2, 1, [0; 4]), &picture(2, 1, [9; 4]), 0);
    assert!(visual_verdict(&compared, true, "1.000000", "0.100000", 3, "out", vec![7]).is_ok());
    let error = visual_verdict(&compared, false, "1.000000", "0.100000", 3, "out", vec![7]).unwrap_err();
    assert_eq!(error.category, FailureCategory::Assertion);
    assert_eq!(
        error.last_observed.as_deref(),
        Some("2 of 2 pixels changed (1.000000); maximum changed ratio is 0.100000")
    );
    let kept = error.visual_artifacts.unwrap();
    assert_eq!(kept.actual_path, "out/__visual-3-actual.png");
    assert_eq!(kept.diff_path, "out/__visual-3-diff.png");
    assert_eq!(kept.actual_png, vec![7]);
    assert_eq!(kept.diff_png, encode_png(&compared.diff).unwrap());
    let sizes = compare_pictures(&picture(1, 1, [0; 4]), &picture(2, 1, [0; 4]), 0);
    assert_eq!(
        visual_verdict(&sizes, true, "1", "1", 1, "out", vec![])
            .unwrap_err()
            .last_observed
            .as_deref(),
        Some("baseline and actual dimensions differ")
    );
}

#[test]
fn errors_of_comparisons_have_their_category() {
    for (error, category, message) in [
        (
            VisualError::BaselineRead,
            FailureCategory::Assertion,
            "visual baseline could not be read",
        ),
        (
            VisualError::BaselineDecode,
            FailureCategory::Assertion,
            "visual baseline is not a valid bounded PNG",
        ),
        (
            VisualError::ActualDecode,
            FailureCategory::Protocol,
            "captured screenshot is not a valid bounded PNG",
        ),
        (
            VisualError::DiffEncode,
            FailureCategory::Protocol,
            "visual diff could not be encoded",
        ),
    ] {
        let told = error.step_error();
        assert_eq!(told.category, category);
        assert_eq!(told.message, message);
    }
}
