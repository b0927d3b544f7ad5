//! Comparing screenshots with baselines.

use crate::paths::{join_path, joined_path};
use crate::report::FailureCategory;
use crate::step_error::{plain_error, protocol, StepError};
use crate::text::{decimal, decimal_text};
use vstd::prelude::*;
use vstd::string::*;

verus! {

/// The largest number of bytes of a picture that is read.
pub const MAX_IMAGE_BYTES: usize = 67_108_864;

/// The largest width and height of a picture.
pub const MAX_IMAGE_DIMENSION: u32 = 8192;

/// The largest number of pixels of a picture.
pub const MAX_IMAGE_PIXELS: u64 = 16_777_216;

/// The largest number of bytes that decoding a picture may take.
pub const MAX_IMAGE_ALLOCATION: u64 = 67_108_864;

/// Why pictures cannot be compared.
#[derive(Debug, Clone, Copy, PartialEq, Eq, Structural)]
pub enum VisualError {
    BaselineRead,
    BaselineDecode,
    ActualDecode,
    DiffEncode,
}

/// The text of an error.
pub open spec fn visual_error_text(error: VisualError) -> Seq<char> {
    match error {
        VisualError::BaselineRead => "visual baseline could not be read"@,
        VisualError::BaselineDecode => "visual baseline is not a valid bounded PNG"@,
        VisualError::ActualDecode => "captured screenshot is not a valid bounded PNG"@,
        VisualError::DiffEncode => "visual diff could not be encoded"@,
    }
}

impl VisualError {
    /// The text of the error.
    pub fn message(self) -> (message: &'static str)
        ensures
            message@ == visual_error_text(self),
    {
        match self {
            VisualError::BaselineRead => "visual baseline could not be read",
            VisualError::BaselineDecode => "visual baseline is not a valid bounded PNG",
            VisualError::ActualDecode => "captured screenshot is not a valid bounded PNG",
            VisualError::DiffEncode => "visual diff could not be encoded",
        }
    }

    /// The error of a step that compared pictures.
    pub fn step_error(self) -> (error: StepError)
        ensures
            plain_error(
                error,
                if self is ActualDecode || self is DiffEncode {
                    FailureCategory::Protocol
                } else {
                    FailureCategory::Assertion
                },
                visual_error_text(self),
            ),
    {
        match self {
            VisualError::ActualDecode | VisualError::DiffEncode => protocol(self.message()),
            _ => StepError::assertion(self.message()),
        }
    }
}

/// A picture: its pixels row by row, each as red, green, blue and alpha.
#[derive(Debug, Clone, PartialEq, Eq)]
pub struct Picture {
    pub width: u32,
    pub height: u32,
    pub pixels: Vec<u8>,
}

/// What a picture shows.
pub ghost struct PictureModel {
    pub width: u32,
    pub height: u32,
    pub pixels: Seq<u8>,
}

impl View for Picture {
    type V = PictureModel;

    open spec fn view(&self) -> PictureModel {
        PictureModel { width: self.width, height: self.height, pixels: self.pixels@ }
    }
}

impl PictureModel {
    /// There are four bytes for each pixel.
    pub open spec fn wf(self) -> bool {
        self.pixels.len() == 4 * (self.width * self.height)
    }
}

/// What an optional picture shows.
pub open spec fn optional_picture(picture: Option<Picture>) -> Option<PictureModel> {
    match picture {
        Some(picture) => Some(picture@),
        None => None,
    }
}

/// The picture that the image crate reads from the bytes of a PNG file within limits on its width,
/// its height and the bytes it takes.
pub uninterp spec fn png_decoded(
    bytes: Seq<u8>,
    max_width: u32,
    max_height: u32,
    max_alloc: u64,
) -> Option<PictureModel>;

/// Calls `image::ImageReader::decode` for the format PNG with the given limits, and
/// `image::DynamicImage::to_rgba8` on its result. The contract claims that the result depends on
/// the bytes and the limits alone, and that a picture has four bytes for each of its pixels.
#[verifier::external_body]
fn decode_png(bytes: &[u8], max_width: u32, max_height: u32, max_alloc: u64) -> (picture: Option<
    Picture,
>)
    ensures
        optional_picture(picture) == png_decoded(bytes@, max_width, max_height, max_alloc),
        match picture {
            Some(picture) => picture@.wf(),
            None => true,
        },
{
    let mut limits = image::Limits::default();
    limits.max_image_width = Some(max_width);
    limits.max_image_height = Some(max_height);
    limits.max_alloc = Some(max_alloc);
    let source = std::io::Cursor::new(bytes);
    let mut reader = image::ImageReader::with_format(source, image::ImageFormat::Png);
    reader.limits(limits);
    match reader.decode() {
        Ok(image) => {
            let image = image.to_rgba8();
            Some(Picture { width: image.width(), height: image.height(), pixels: image.into_raw() })
        },
        Err(_) => None,
    }
}

/// The bytes of the PNG file that the image crate makes of a picture, if it makes one.
pub uninterp spec fn png_encoded(picture: PictureModel) -> Option<Seq<u8>>;

/// The bytes of an optional file.
pub open spec fn optional_bytes(bytes: Option<Vec<u8>>) -> Option<Seq<u8>> {
    match bytes {
        Some(bytes) => Some(bytes@),
        None => None,
    }
}

/// Calls `write_image` of `image::codecs::png::PngEncoder` with the colours as `Rgba8`. The contract
/// claims that the bytes depend on the picture alone. The number of bytes has to fit the size of
/// the picture, or the call panics.
#[verifier::external_body]
fn png_bytes(picture: &Picture) -> (bytes: Option<Vec<u8>>)
    requires
        picture@.wf(),
    ensures
        optional_bytes(bytes) == png_encoded(picture@),
{
    let mut bytes = Vec::new();
    let encoder = image::codecs::png::PngEncoder::new(&mut bytes);
    let colours = image::ExtendedColorType::Rgba8;
    match image::ImageEncoder::write_image(
        encoder,
        &picture.pixels,
        picture.width,
        picture.height,
        colours,
    ) {
        Ok(_) => Some(bytes),
        Err(_) => None,
    }
}

/// Whether a picture of a size is read.
pub open spec fn size_fits(width: u32, height: u32) -> bool {
    &&& 0 < width <= MAX_IMAGE_DIMENSION
    &&& 0 < height <= MAX_IMAGE_DIMENSION
    &&& width * height <= MAX_IMAGE_PIXELS
}

/// Refuses sizes that are empty or too large.
pub fn validate_dimensions(width: u32, height: u32) -> (result: Result<(), String>)
    ensures
        match result {
            Ok(_) => size_fits(width, height),
            Err(message) => {
                &&& !size_fits(width, height)
                &&& message@
                    == "visual image dimensions must not exceed 8192 per axis or 16777216 pixels"@
            },
        },
{
    if width == 0 || height == 0 || width > MAX_IMAGE_DIMENSION || height > MAX_IMAGE_DIMENSION {
        return Err(
            "visual image dimensions must not exceed 8192 per axis or 16777216 pixels".to_owned(),
        );
    }
    assert(width * height <= 8192 * 8192) by (nonlinear_arith)
        requires
            width <= 8192,
            height <= 8192,
    ;
    let pixels: u64 = width as u64 * height as u64;
    if pixels > MAX_IMAGE_PIXELS {
        return Err(
            "visual image dimensions must not exceed 8192 per axis or 16777216 pixels".to_owned(),
        );
    }
    Ok(())
}

/// The picture that bytes hold, where it is within bounds.
pub open spec fn bounded_picture(bytes: Seq<u8>) -> Option<PictureModel> {
    if bytes.len() > MAX_IMAGE_BYTES {
        None
    } else {
        match png_decoded(bytes, MAX_IMAGE_DIMENSION, MAX_IMAGE_DIMENSION, MAX_IMAGE_ALLOCATION) {
            Some(picture) => if size_fits(picture.width, picture.height) {
                Some(picture)
            } else {
                None
            },
            None => None,
        }
    }
}

/// Reads a picture within bounds.
fn decode(bytes: &[u8]) -> (picture: Option<Picture>)
    ensures
        optional_picture(picture) == bounded_picture(bytes@),
        match picture {
            Some(picture) => picture@.wf() && size_fits(picture.width, picture.height),
            None => true,
        },
{
    if bytes.len() > MAX_IMAGE_BYTES {
        return None;
    }
    match decode_png(bytes, MAX_IMAGE_DIMENSION, MAX_IMAGE_DIMENSION, MAX_IMAGE_ALLOCATION) {
        Some(picture) => match validate_dimensions(picture.width, picture.height) {
            Ok(_) => Some(picture),
            Err(_) => None,
        },
        None => None,
    }
}

/// The outcome of a comparison. Changed pixels of the picture are red.
#[derive(Debug, Clone, PartialEq, Eq)]
pub struct Comparison {
    pub changed_pixels: u64,
    pub total_pixels: u64,
    pub dimensions_match: bool,
    pub diff: Picture,
}

/// By how much two channels differ.
pub open spec fn distance(left: u8, right: u8) -> int {
    if left < right {
        right - left
    } else {
        left - right
    }
}

/// Whether two pictures differ in a pixel: in one of its channels, by more than the tolerance.
pub open spec fn pixel_changed(
    expected: Seq<u8>,
    actual: Seq<u8>,
    tolerance: u8,
    pixel: int,
) -> bool {
    exists|channel: int|
        0 <= channel < 4 && distance(
            #[trigger] expected[4 * pixel + channel],
            actual[4 * pixel + channel],
        ) > tolerance
}

/// How many of the first pixels are changed.
pub open spec fn changed_count(
    expected: Seq<u8>,
    actual: Seq<u8>,
    tolerance: u8,
    count: nat,
) -> nat
    decreases count,
{
    if count == 0 {
        0
    } else {
        changed_count(expected, actual, tolerance, (count - 1) as nat) + if pixel_changed(
            expected,
            actual,
            tolerance,
            count - 1,
        ) {
            1nat
        } else {
            0nat
        }
    }
}

/// The channels of a red pixel.
pub open spec fn red(channel: int) -> u8 {
    if channel == 0 || channel == 3 {
        255
    } else {
        0
    }
}

/// The actual picture with its changed pixels in red.
pub open spec fn marked(expected: Seq<u8>, actual: Seq<u8>, tolerance: u8) -> Seq<u8> {
    Seq::new(
        actual.len(),
        |i: int|
            if pixel_changed(expected, actual, tolerance, i / 4) {
                red(i % 4)
            } else {
                actual[i]
            },
    )
}

/// Whether this is the outcome of a comparison. Pictures of different sizes differ in every pixel.
pub open spec fn compared(
    baseline: PictureModel,
    actual: PictureModel,
    tolerance: u8,
    comparison: Comparison,
) -> bool {
    let total = (actual.width * actual.height) as nat;
    let alike = baseline.width == actual.width && baseline.height == actual.height;
    &&& comparison.total_pixels == total
    &&& comparison.dimensions_match == alike
    &&& comparison.diff.width == actual.width
    &&& comparison.diff.height == actual.height
    &&& comparison.changed_pixels == if alike {
        changed_count(baseline.pixels, actual.pixels, tolerance, total)
    } else {
        total
    }
    &&& comparison.diff.pixels@ == if alike {
        marked(baseline.pixels, actual.pixels, tolerance)
    } else {
        Seq::new(4 * total, |i: int| red(i % 4))
    }
}

fn channel_differs(expected: u8, actual: u8, tolerance: u8) -> (differs: bool)
    ensures
        differs == (distance(expected, actual) > tolerance),
{
    if expected < actual {
        actual - expected > tolerance
    } else {
        expected - actual > tolerance
    }
}

fn push_red(pixels: &mut Vec<u8>)
    ensures
        final(pixels)@ == old(pixels)@ + seq![255u8, 0u8, 0u8, 255u8],
{
    pixels.push(255);
    pixels.push(0);
    pixels.push(0);
    pixels.push(255);
    assert(pixels@ =~= old(pixels)@ + seq![255u8, 0u8, 0u8, 255u8]);
}

/// Compares two pictures. A channel may differ by the tolerance.
pub fn compare_pictures(baseline: &Picture, actual: &Picture, channel_tolerance: u8) -> (comparison:
    Comparison)
    requires
        baseline@.wf(),
        actual@.wf(),
        size_fits(actual.width, actual.height),
    ensures
        compared(baseline@, actual@, channel_tolerance, comparison),
{
    let total_pixels: u64 = actual.width as u64 * actual.height as u64;
    let ghost total = (actual.width * actual.height) as nat;
    let dimensions_match = baseline.width == actual.width && baseline.height == actual.height;
    let mut pixels: Vec<u8> = Vec::new();
    let mut changed_pixels: u64 = 0;
    let mut done: u64 = 0;
    let ghost expected_pixels = baseline@.pixels;
    let ghost actual_pixels = actual@.pixels;
    if !dimensions_match {
        while done < total_pixels
            invariant
                done <= total_pixels,
                pixels@.len() == 4 * done,
                forall|i: int| 0 <= i < pixels@.len() ==> #[trigger] pixels@[i] == red(i % 4),
            decreases total_pixels - done,
        {
            push_red(&mut pixels);
            done += 1;
        }
        assert(pixels@ =~= Seq::new(4 * total, |i: int| red(i % 4)));
        return Comparison {
            changed_pixels: total_pixels,
            total_pixels,
            dimensions_match,
            diff: Picture { width: actual.width, height: actual.height, pixels },
        };
    }
    let mut at: usize = 0;
    while done < total_pixels
        invariant
            done <= total_pixels,
            total_pixels == total,
            total <= MAX_IMAGE_PIXELS,
            at == 4 * done,
            expected_pixels == baseline.pixels@,
            actual_pixels == actual.pixels@,
            expected_pixels.len() == 4 * total,
            actual_pixels.len() == 4 * total,
            changed_pixels <= done,
            changed_pixels == changed_count(
                expected_pixels,
                actual_pixels,
                channel_tolerance,
                done as nat,
            ),
            pixels@.len() == 4 * done,
            forall|i: int|
                0 <= i < pixels@.len() ==> #[trigger] pixels@[i] == marked(
                    expected_pixels,
                    actual_pixels,
                    channel_tolerance,
                )[i],
        decreases total_pixels - done,
    {
        let first = channel_differs(baseline.pixels[at], actual.pixels[at], channel_tolerance);
        let second = channel_differs(
            baseline.pixels[at + 1],
            actual.pixels[at + 1],
            channel_tolerance,
        );
        let third = channel_differs(
            baseline.pixels[at + 2],
            actual.pixels[at + 2],
            channel_tolerance,
        );
        let fourth = channel_differs(
            baseline.pixels[at + 3],
            actual.pixels[at + 3],
            channel_tolerance,
        );
        let changed = first || second || third || fourth;
        proof {
            let pixel = done as int;
            assert(expected_pixels[4 * pixel + 0] == baseline.pixels@[at as int]);
            assert(expected_pixels[4 * pixel + 1] == baseline.pixels@[at + 1]);
            assert(expected_pixels[4 * pixel + 2] == baseline.pixels@[at + 2]);
            assert(expected_pixels[4 * pixel + 3] == baseline.pixels@[at + 3]);
            if pixel_changed(expected_pixels, actual_pixels, channel_tolerance, pixel) {
                let channel = choose|channel: int|
                    0 <= channel < 4 && distance(
                        #[trigger] expected_pixels[4 * pixel + channel],
                        actual_pixels[4 * pixel + channel],
                    ) > channel_tolerance;
                assert(channel == 0 || channel == 1 || channel == 2 || channel == 3);
            }
            assert(changed == pixel_changed(
                expected_pixels,
                actual_pixels,
                channel_tolerance,
                pixel,
            ));
        }
        if changed {
            changed_pixels += 1;
            push_red(&mut pixels);
        } else {
            pixels.push(actual.pixels[at]);
            pixels.push(actual.pixels[at + 1]);
            pixels.push(actual.pixels[at + 2]);
            pixels.push(actual.pixels[at + 3]);
        }
        proof {
            assert forall|i: int| 0 <= i < pixels@.len() implies #[trigger] pixels@[i] == marked(
                expected_pixels,
                actual_pixels,
                channel_tolerance,
            )[i] by {
                if i >= at {
                    assert(i / 4 == done);
                }
            }
        }
        done += 1;
        at += 4;
    }
    assert(pixels@ =~= marked(expected_pixels, actual_pixels, channel_tolerance));
    Comparison {
        changed_pixels,
        total_pixels,
        dimensions_match,
        diff: Picture { width: actual.width, height: actual.height, pixels },
    }
}

/// Compares a screenshot with a baseline, both as PNG files.
pub fn compare(baseline_png: &[u8], actual_png: &[u8], channel_tolerance: u8) -> (result: Result<
    Comparison,
    VisualError,
>)
    ensures
        match (bounded_picture(baseline_png@), bounded_picture(actual_png@)) {
            (None, _) => result == Err::<Comparison, VisualError>(VisualError::BaselineDecode),
            (Some(_), None) => result == Err::<Comparison, VisualError>(VisualError::ActualDecode),
            (Some(baseline), Some(actual)) => {
                &&& result is Ok
                &&& compared(baseline, actual, channel_tolerance, result->Ok_0)
            },
        },
{
    match decode(baseline_png) {
        Some(baseline) => match decode(actual_png) {
            Some(actual) => Ok(compare_pictures(&baseline, &actual, channel_tolerance)),
            None => Err(VisualError::ActualDecode),
        },
        None => Err(VisualError::BaselineDecode),
    }
}

/// Makes a PNG file of a picture.
pub fn encode_png(image: &Picture) -> (result: Result<Vec<u8>, VisualError>)
    requires
        image@.wf(),
    ensures
        match result {
            Ok(bytes) => png_encoded(image@) == Some(bytes@),
            Err(error) => png_encoded(image@) is None && error is DiffEncode,
        },
{
    match png_bytes(image) {
        Some(bytes) => Ok(bytes),
        None => Err(VisualError::DiffEncode),
    }
}

/// The file of the picture of a failed visual assertion.
pub open spec fn visual_file(step: usize, part: Seq<char>) -> Seq<char> {
    "__visual-"@ + decimal(step as nat) + part
}

fn visual_file_name(step: usize, part: &str) -> (name: String)
    ensures
        name@ == visual_file(step, part@),
{
    let mut name = "__visual-".to_owned();
    let number = decimal_text(step as u64);
    name.append(number.as_str());
    name.append(part);
    name
}

/// What is told of a comparison that did not match. The ratios are given as text.
pub open spec fn comparison_text(
    comparison: Comparison,
    ratio: Seq<char>,
    maximum: Seq<char>,
) -> Seq<char> {
    if comparison.dimensions_match {
        decimal(comparison.changed_pixels as nat) + " of "@ + decimal(
            comparison.total_pixels as nat,
        ) + " pixels changed ("@ + ratio + "); maximum changed ratio is "@ + maximum
    } else {
        "baseline and actual dimensions differ"@
    }
}

fn tell_comparison(comparison: &Comparison, ratio: &str, maximum: &str) -> (text: String)
    ensures
        text@ == comparison_text(*comparison, ratio@, maximum@),
{
    if comparison.dimensions_match {
        let mut text = decimal_text(comparison.changed_pixels);
        text.append(" of ");
        let total = decimal_text(comparison.total_pixels);
        text.append(total.as_str());
        text.append(" pixels changed (");
        text.append(ratio);
        text.append("); maximum changed ratio is ");
        text.append(maximum);
        text
    } else {
        "baseline and actual dimensions differ".to_owned()
    }
}

/// Decides a visual assertion from its comparison and from whether the changed ratio is within the
/// maximum. A failure tells the ratios, which are given as text, and carries both pictures, to be
/// kept in the directory of artifacts under names made from the number of the step.
pub fn visual_verdict(
    comparison: &Comparison,
    within: bool,
    ratio: &str,
    maximum: &str,
    step: usize,
    directory: &str,
    actual_png: Vec<u8>,
) -> (result: Result<(), StepError>)
    requires
        comparison.diff@.wf(),
    ensures
        match result {
            Ok(_) => comparison.dimensions_match && within,
            Err(error) => {
                &&& !(comparison.dimensions_match && within)
                &&& match png_encoded(comparison.diff@) {
                    None => plain_error(
                        error,
                        FailureCategory::Protocol,
                        visual_error_text(VisualError::DiffEncode),
                    ),
                    Some(diff_png) => {
                        &&& error.category == FailureCategory::Assertion
                        &&& error.message@ == "visual screenshot assertion did not match"@
                        &&& !error.deadline_based
                        &&& error.last_observed is Some
                        &&& error.last_observed->0@ == comparison_text(
                            *comparison,
                            ratio@,
                            maximum@,
                        )
                        &&& error.visual_artifacts is Some
                        &&& error.visual_artifacts->0.actual_path@ == joined_path(
                            directory@,
                            visual_file(step, "-actual.png"@),
                        )
                        &&& error.visual_artifacts->0.diff_path@ == joined_path(
                            directory@,
                            visual_file(step, "-diff.png"@),
                        )
                        &&& error.visual_artifacts->0.actual_png@ == actual_png@
                        &&& error.visual_artifacts->0.diff_png@ == diff_png
                    },
                }
            },
        },
{
    if comparison.dimensions_match && within {
        return Ok(());
    }
    match encode_png(&comparison.diff) {
        Ok(diff_png) => {
            let actual_name = visual_file_name(step, "-actual.png");
            let diff_name = visual_file_name(step, "-diff.png");
            let actual_path = join_path(directory, actual_name.as_str());
            let diff_path = join_path(directory, diff_name.as_str());
            let observed = tell_comparison(comparison, ratio, maximum);
            Err(
                StepError::assertion("visual screenshot assertion did not match").observed(
                    observed,
                ).visual_artifacts(actual_path, diff_path, actual_png, diff_png),
            )
        },
        Err(error) => Err(error.step_error()),
    }
}

/// A picture compared with itself is unchanged, whatever the tolerance.
pub proof fn a_picture_matches_itself(picture: PictureModel, tolerance: u8, comparison: Comparison)
    requires
        picture.wf(),
        compared(picture, picture, tolerance, comparison),
    ensures
        comparison.dimensions_match,
        comparison.changed_pixels == 0,
        comparison.diff@ == picture,
{
    nothing_changes(picture.pixels, tolerance, (picture.width * picture.height) as nat);
    assert forall|i: int| 0 <= i < picture.pixels.len() implies #[trigger] marked(
        picture.pixels,
        picture.pixels,
        tolerance,
    )[i] == picture.pixels[i] by {
        assert(!pixel_changed(picture.pixels, picture.pixels, tolerance, i / 4));
    }
    assert(comparison.diff.pixels@ =~= picture.pixels);
}

proof fn nothing_changes(pixels: Seq<u8>, tolerance: u8, count: nat)
    ensures
        changed_count(pixels, pixels, tolerance, count) == 0,
    decreases count,
{
    if count > 0 {
        nothing_changes(pixels, tolerance, (count - 1) as nat);
    }
}

/// A larger tolerance never finds more changed pixels, and never more than there are.
pub proof fn tolerance_only_forgives(
    expected: Seq<u8>,
    actual: Seq<u8>,
    smaller: u8,
    larger: u8,
    count: nat,
)
    requires
        smaller <= larger,
    ensures
        changed_count(expected, actual, larger, count) <= changed_count(
            expected,
            actual,
            smaller,
            count,
        ) <= count,
    decreases count,
{
    if count > 0 {
        tolerance_only_forgives(expected, actual, smaller, larger, (count - 1) as nat);
        if pixel_changed(expected, actual, larger, count - 1) {
            let channel = choose|channel: int|
                0 <= channel < 4 && distance(
                    #[trigger] expected[4 * (count - 1) + channel],
                    actual[4 * (count - 1) + channel],
                ) > larger;
            assert(distance(
                expected[4 * (count - 1) + channel],
                actual[4 * (count - 1) + channel],
            ) > smaller);
        }
    }
}

/// A pixel counts as changed exactly if one of its four bytes differs by more than the tolerance. It is red
/// in the picture of the difference, and every other pixel is as in the screenshot.
pub proof fn changed_bytes_make_red_pixels(
    baseline: Picture,
    actual: Picture,
    tolerance: u8,
    comparison: Comparison,
    i: int,
)
    requires
        call_ensures(compare_pictures, (&baseline, &actual, tolerance), comparison),
        baseline@.wf(),
        actual@.wf(),
        baseline.width == actual.width,
        baseline.height == actual.height,
        0 <= i < actual.pixels@.len(),
    ensures
        ({
            let differs = |k: int|
                baseline.pixels@[k] - actual.pixels@[k] > tolerance || actual.pixels@[k]
                    - baseline.pixels@[k] > tolerance;
            let start = i - i % 4;
            let changed = differs(start) || differs(start + 1) || differs(start + 2) || differs(
                start + 3,
            );
            let diff = comparison.diff.pixels@;
            &&& comparison.dimensions_match
            &&& comparison.diff.width == actual.width
            &&& comparison.diff.height == actual.height
            &&& diff.len() == actual.pixels@.len()
            &&& (changed ==> comparison.changed_pixels > 0)
            &&& (changed ==> diff[start] == 255 && diff[start + 1] == 0 && diff[start + 2] == 0
                && diff[start + 3] == 255)
            &&& (!changed ==> diff[i] == actual.pixels@[i])
        }),
{
    let expected = baseline.pixels@;
    let seen = actual.pixels@;
    let pixel = i / 4;
    let total = (actual.width * actual.height) as nat;
    let start = 4 * pixel;
    assert(start == i - i % 4);
    assert(seen.len() == 4 * total);
    assert(start + 3 < seen.len());
    assert(start / 4 == pixel && (start + 1) / 4 == pixel && (start + 2) / 4 == pixel && (start + 3)
        / 4 == pixel);
    assert(start % 4 == 0 && (start + 1) % 4 == 1 && (start + 2) % 4 == 2 && (start + 3) % 4 == 3);
    let differs = |k: int|
        expected[k] - seen[k] > tolerance || seen[k] - expected[k] > tolerance;
    let changed = differs(start) || differs(start + 1) || differs(start + 2) || differs(start + 3);
    assert(changed == pixel_changed(expected, seen, tolerance, pixel)) by {
        if differs(start) {
            assert(distance(expected[4 * pixel + 0], seen[4 * pixel + 0]) > tolerance);
        }
        if differs(start + 1) {
            assert(distance(expected[4 * pixel + 1], seen[4 * pixel + 1]) > tolerance);
        }
        if differs(start + 2) {
            assert(distance(expected[4 * pixel + 2], seen[4 * pixel + 2]) > tolerance);
        }
        if differs(start + 3) {
            assert(distance(expected[4 * pixel + 3], seen[4 * pixel + 3]) > tolerance);
        }
        if pixel_changed(expected, seen, tolerance, pixel) {
            let channel = choose|channel: int|
                0 <= channel < 4 && distance(
                    #[trigger] expected[4 * pixel + channel],
                    seen[4 * pixel + channel],
                ) > tolerance;
            assert(channel == 0 || channel == 1 || channel == 2 || channel == 3);
        }
    }
    if changed {
        changed_pixels_are_counted(expected, seen, tolerance, total, pixel);
    }
}

proof fn changed_pixels_are_counted(
    expected: Seq<u8>,
    actual: Seq<u8>,
    tolerance: u8,
    count: nat,
    pixel: int,
)
    requires
        0 <= pixel < count,
        pixel_changed(expected, actual, tolerance, pixel),
    ensures
        changed_count(expected, actual, tolerance, count) > 0,
    decreases count,
{
    if pixel < count - 1 {
        changed_pixels_are_counted(expected, actual, tolerance, (count - 1) as nat, pixel);
    }
}

/// A comparison counts each changed pixel once: the count is the number of red pixels that were marked, it is
/// never above the number of pixels, and with no changed pixel every byte is within the tolerance. Pictures of
/// different sizes differ in every pixel.
pub proof fn changed_pixels_are_counted_once(
    baseline: Picture,
    actual: Picture,
    tolerance: u8,
    comparison: Comparison,
    i: int,
)
    requires
        call_ensures(compare_pictures, (&baseline, &actual, tolerance), comparison),
        baseline@.wf(),
        actual@.wf(),
    ensures
        comparison.total_pixels == actual.width * actual.height,
        comparison.changed_pixels <= comparison.total_pixels,
        comparison.dimensions_match <==> baseline.width == actual.width && baseline.height
            == actual.height,
        !comparison.dimensions_match ==> comparison.changed_pixels == comparison.total_pixels,
        !comparison.dimensions_match ==> comparison.diff.pixels@.len() == 4
            * comparison.total_pixels && (0 <= i < comparison.total_pixels ==> {
            let diff = comparison.diff.pixels@;
            &&& diff[4 * i] == 255
            &&& diff[4 * i + 1] == 0
            &&& diff[4 * i + 2] == 0
            &&& diff[4 * i + 3] == 255
        }),
        comparison.dimensions_match && comparison.changed_pixels == 0 && 0 <= i
            < actual.pixels@.len() ==> {
            &&& baseline.pixels@[i] - actual.pixels@[i] <= tolerance
            &&& actual.pixels@[i] - baseline.pixels@[i] <= tolerance
            &&& comparison.diff.pixels@ == actual.pixels@
        },
{
    let total = (actual.width * actual.height) as nat;
    let same = baseline.width == actual.width && baseline.height == actual.height;
    if same {
        counts_stay_below(baseline.pixels@, actual.pixels@, tolerance, total);
        if comparison.changed_pixels == 0 {
            assert forall|k: int| 0 <= k < actual.pixels@.len() implies comparison.diff.pixels@[k]
                == actual.pixels@[k] && baseline.pixels@[k] - actual.pixels@[k] <= tolerance
                && actual.pixels@[k] - baseline.pixels@[k] <= tolerance by {
                changed_bytes_make_red_pixels(baseline, actual, tolerance, comparison, k);
                let start = k - k % 4;
                assert(k == start || k == start + 1 || k == start + 2 || k == start + 3);
            }
            assert(comparison.diff.pixels@ =~= actual.pixels@);
        }
    } else if 0 <= i < total {
        let diff = comparison.diff.pixels@;
        assert((4 * i) % 4 == 0 && (4 * i + 1) % 4 == 1 && (4 * i + 2) % 4 == 2 && (4 * i + 3) % 4
            == 3);
    }
}

proof fn counts_stay_below(expected: Seq<u8>, actual: Seq<u8>, tolerance: u8, count: nat)
    ensures
        changed_count(expected, actual, tolerance, count) <= count,
    decreases count,
{
    if count > 0 {
        counts_stay_below(expected, actual, tolerance, (count - 1) as nat);
    }
}

/// A changed pixel more is counted as one more: pictures that are the same but for one pixel, with more than the
/// tolerance between them there, differ in exactly one pixel.
pub proof fn one_changed_pixel_counts_as_one(
    expected: Seq<u8>,
    actual: Seq<u8>,
    tolerance: u8,
    count: nat,
    pixel: int,
)
    requires
        0 <= pixel < count,
        forall|other: int|
            0 <= other < count && other != pixel ==> !#[trigger] pixel_changed(
                expected,
                actual,
                tolerance,
                other,
            ),
        pixel_changed(expected, actual, tolerance, pixel),
    ensures
        changed_count(expected, actual, tolerance, count) == 1,
    decreases count,
{
    if pixel < count - 1 {
        one_changed_pixel_counts_as_one(expected, actual, tolerance, (count - 1) as nat, pixel);
    } else {
        no_changed_pixel_counts_as_none(expected, actual, tolerance, (count - 1) as nat);
    }
}

proof fn no_changed_pixel_counts_as_none(
    expected: Seq<u8>,
    actual: Seq<u8>,
    tolerance: u8,
    count: nat,
)
    requires
        forall|other: int|
            0 <= other < count ==> !#[trigger] pixel_changed(expected, actual, tolerance, other),
    ensures
        changed_count(expected, actual, tolerance, count) == 0,
    decreases count,
{
    if count > 0 {
        assert(!pixel_changed(expected, actual, tolerance, count - 1));
        no_changed_pixel_counts_as_none(expected, actual, tolerance, (count - 1) as nat);
    }
}

/// Sizes are read up to the largest on each side and the largest number of pixels, and none that is empty.
pub proof fn sizes_are_bounded(width: u32, height: u32, result: Result<(), String>)
    requires
        call_ensures(validate_dimensions, (width, height), result),
    ensures
        result is Ok <==> 1 <= width <= 8192 && 1 <= height <= 8192 && width * height <= 16_777_216,
{
}

/// A comparison is refused for the picture that cannot be read, the baseline first, and else made of what both
/// hold.
pub proof fn unreadable_pictures_are_told(
    baseline_png: &[u8],
    actual_png: &[u8],
    tolerance: u8,
    result: Result<Comparison, VisualError>,
)
    requires
        call_ensures(compare, (baseline_png, actual_png, tolerance), result),
    ensures
        baseline_png@.len() > 67_108_864 ==> result is Err && result->Err_0 is BaselineDecode,
        result is Err && result->Err_0 is BaselineDecode <==> bounded_picture(baseline_png@) is None,
        result is Err && result->Err_0 is ActualDecode <==> bounded_picture(baseline_png@) is Some
            && bounded_picture(actual_png@) is None,
        result is Err ==> result->Err_0 is BaselineDecode || result->Err_0 is ActualDecode,
        result matches Ok(comparison) ==> {
            let actual = bounded_picture(actual_png@)->0;
            let baseline = bounded_picture(baseline_png@)->0;
            &&& comparison.diff.width == actual.width
            &&& comparison.diff.height == actual.height
            &&& comparison.total_pixels == actual.width * actual.height
            &&& (comparison.dimensions_match <==> baseline.width == actual.width && baseline.height
                == actual.height)
        },
{
}

/// A visual assertion passes exactly if the sizes match and the ratio is within its maximum.
pub proof fn visual_assertions_pass_within_their_maximum(
    comparison: Comparison,
    within: bool,
    ratio: &str,
    maximum: &str,
    step: usize,
    directory: &str,
    actual_png: Vec<u8>,
    result: Result<(), StepError>,
)
    requires
        call_ensures(
            visual_verdict,
            (&comparison, within, ratio, maximum, step, directory, actual_png),
            result,
        ),
    ensures
        result is Ok <==> comparison.dimensions_match && within,
        result matches Err(error) ==> error.category == FailureCategory::Assertion || error.category
            == FailureCategory::Protocol,
        result matches Err(error) ==> (error.visual_artifacts matches Some(kept)
            ==> kept.actual_png@ == actual_png@ && kept.actual_path@ != kept.diff_path@
            && png_encoded(comparison.diff@) == Some(kept.diff_png@)),
{
    if let Err(error) = result {
        if error.visual_artifacts is Some {
            let start = "__visual-"@ + decimal(step as nat);
            reveal_strlit("-actual.png");
            reveal_strlit("-diff.png");
            reveal_strlit("__visual-");
            let actual = visual_file(step, "-actual.png"@);
            let diff = visual_file(step, "-diff.png"@);
            assert(actual.len() == start.len() + 11);
            assert(diff.len() == start.len() + 9);
            assert("__visual-"@[0] == '_');
            assert(actual[0] == '_' && diff[0] == '_');
            let whole = joined_path(directory@, actual);
            let other = joined_path(directory@, diff);
            assert(whole.len() == other.len() + 2);
            assert(error.visual_artifacts->0.actual_path@ == whole);
            assert(error.visual_artifacts->0.diff_path@ == other);
        }
    }
}

/// A baseline that cannot be used fails the assertion; anything else that goes wrong with a picture is of the
/// protocol.
pub proof fn unusable_baselines_fail_the_assertion(cause: VisualError, error: StepError)
    requires
        call_ensures(VisualError::step_error, (cause,), error),
    ensures
        error.category is Assertion <==> cause is BaselineRead || cause is BaselineDecode,
        error.category is Protocol <==> cause is ActualDecode || cause is DiffEncode,
        !error.deadline_based && error.visual_artifacts is None,
{
}

/// A failed comparison tells how many pixels changed of how many, or that the sizes differ.
pub proof fn comparisons_are_told_by_their_counts(
    comparison: Comparison,
    ratio: Seq<char>,
    maximum: Seq<char>,
)
    ensures
        comparison.dimensions_match ==> comparison_text(comparison, ratio, maximum) == decimal(
            comparison.changed_pixels as nat,
        ) + " of "@ + decimal(comparison.total_pixels as nat) + " pixels changed ("@ + ratio
            + "); maximum changed ratio is "@ + maximum,
        !comparison.dimensions_match ==> comparison_text(comparison, ratio, maximum)
            == "baseline and actual dimensions differ"@,
{
}

} // verus!
