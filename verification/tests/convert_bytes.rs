use vtracer_capi::config::{
    vtracer_default_config, ColorMode, EngineConfig, Hierarchical, PathMode, VtracerConfig,
};
use vtracer_capi::convert::{
    finish_convert_bytes, vtracer_convert_bytes, vtracer_free_string, BufferJob,
};
use vtracer_capi::status::BufferError;
use vtracer_capi::text::OwnedText;

fn record() -> VtracerConfig {
    vtracer_default_config()
}

fn engine_config(c: &EngineConfig) -> vtracer::Config {
    vtracer::Config {
        color_mode: match c.color_mode {
            ColorMode::Color => vtracer::ColorMode::Color,
            ColorMode::Binary => vtracer::ColorMode::Binary,
        },
        hierarchical: match c.hierarchical {
            Hierarchical::Stacked => vtracer::Hierarchical::Stacked,
            Hierarchical::Cutout => vtracer::Hierarchical::Cutout,
        },
        filter_speckle: c.filter_speckle,
        color_precision: c.color_precision,
        layer_difference: c.layer_difference,
        mode: match c.mode {
            PathMode::Pixel => visioncortex::PathSimplifyMode::None,
            PathMode::Polygon => visioncortex::PathSimplifyMode::Polygon,
            PathMode::Spline => visioncortex::PathSimplifyMode::Spline,
        },
        corner_threshold: c.corner_threshold,
        length_threshold: f64::from_bits(c.length_threshold_bits),
        max_iterations: c.max_iterations,
        splice_threshold: c.splice_threshold,
        path_precision: c.path_precision,
    }
}

fn run_engine(job: BufferJob) -> Result<Vec<u8>, String> {
    let config = engine_config(&job.config);
    let width = job.image.width();
    let height = job.image.height();
    let image = visioncortex::ColorImage { pixels: job.image.into_pixels(), width, height };
    vtracer::convert(image, config).map(|svg| svg.to_string().into_bytes())
}

fn convert(data: &[u8], width: usize, height: usize, c: &VtracerConfig) -> (i32, Option<OwnedText>) {
    let mut slot = None;
    let code = match vtracer_convert_bytes(Some(data), width, height, Some(c), true) {
        Ok(job) => finish_convert_bytes(run_engine(job), &mut slot),
        Err(e) => e.code(),
    };
    (code, slot)
}

#[test]
fn buffer_of_15_bytes_for_2_by_2_is_a_size_mismatch() {
    let c = record();
    let r = vtracer_convert_bytes(Some(&[0u8; 15]), 2, 2, Some(&c), true);
    assert_eq!(r.unwrap_err(), BufferError::SizeMismatch);
    assert_eq!(BufferError::SizeMismatch.code(), -2);
    let (code, slot) = convert(&[0u8; 15], 2, 2, &c);
    assert_eq!(code, -2);
    assert!(slot.is_none());
}

#[test]
fn buffer_longer_than_its_dimensions_is_a_size_mismatch() {
    let c = record();
    let r = vtracer_convert_bytes(Some(&[0u8; 17]), 2, 2, Some(&c), true);
    assert_eq!(r.unwrap_err(), BufferError::SizeMismatch);
}

#[test]
fn dimensions_beyond_the_machine_word_are_a_size_mismatch() {
    let c = record();
    let r = vtracer_convert_bytes(Some(&[]), usize::MAX / 4 + 1, 1, Some(&c), true);
    assert_eq!(r.unwrap_err(), BufferError::SizeMismatch);
    let r = vtracer_convert_bytes(Some(&[0u8; 4]), usize::MAX, usize::MAX, Some(&c), true);
    assert_eq!(r.unwrap_err(), BufferError::SizeMismatch);
}

#[test]
fn buffer_with_absent_pixels_is_an_invalid_parameter() {
    let c = record();
    let r = vtracer_convert_bytes(None, 1, 1, Some(&c), true);
    assert_eq!(r.unwrap_err(), BufferError::InvalidParameter);
    assert_eq!(BufferError::InvalidParameter.code(), -1);
}

#[test]
fn buffer_with_absent_configuration_is_an_invalid_parameter() {
    let r = vtracer_convert_bytes(Some(&[255, 0, 0, 255]), 1, 1, None, true);
    assert_eq!(r.unwrap_err(), BufferError::InvalidParameter);
}

#[test]
fn buffer_with_absent_output_slot_is_an_invalid_parameter() {
    let c = record();
    let r = vtracer_convert_bytes(Some(&[255, 0, 0, 255]), 1, 1, Some(&c), false);
    assert_eq!(r.unwrap_err(), BufferError::InvalidParameter);
}

#[test]
fn absence_is_reported_before_a_size_mismatch() {
    let c = record();
    let r = vtracer_convert_bytes(Some(&[0u8; 15]), 2, 2, Some(&c), false);
    assert_eq!(r.unwrap_err(), BufferError::InvalidParameter);
    let r = vtracer_convert_bytes(Some(&[0u8; 15]), 2, 2, None, true);
    assert_eq!(r.unwrap_err(), BufferError::InvalidParameter);
}

#[test]
fn accepted_buffer_request_becomes_a_job_with_its_own_pixels() {
    let mut c = record();
    c.mode = 9;
    c.hierarchical = 3;
    let mut data = vec![1u8, 2, 3, 4, 5, 6, 7, 8];
    let job = vtracer_convert_bytes(Some(&data), 1, 2, Some(&c), true).unwrap();
    data.clear();
    assert_eq!(job.image.width(), 1);
    assert_eq!(job.image.height(), 2);
    assert_eq!(job.image.pixels(), &[1u8, 2, 3, 4, 5, 6, 7, 8]);
    assert_eq!(job.config, EngineConfig::from(c));
    assert_eq!(job.config.mode, PathMode::Spline);
    assert_eq!(job.config.hierarchical, Hierarchical::Cutout);
}

#[test]
fn empty_image_is_an_accepted_request() {
    let c = record();
    let job = vtracer_convert_bytes(Some(&[]), 0, 0, Some(&c), true).unwrap();
    assert_eq!(job.image.width(), 0);
    assert_eq!(job.image.height(), 0);
    assert!(job.image.pixels().is_empty());
}

#[test]
fn engine_failure_is_a_conversion_failure_and_leaves_the_slot() {
    let mut slot = None;
    let code = finish_convert_bytes(
        Err(String::from("unable to find unused color in image to use as key")),
        &mut slot,
    );
    assert_eq!(code, -4);
    assert_eq!(BufferError::ConversionFailed.code(), -4);
    assert!(slot.is_none());
}

#[test]
fn engine_failure_keeps_what_the_slot_held() {
    let mut slot = Some(OwnedText::new(b"kept".to_vec()).unwrap());
    assert_eq!(finish_convert_bytes(Err(String::new()), &mut slot), -4);
    assert_eq!(slot.unwrap().as_bytes(), b"kept");
}

#[test]
fn rendered_text_with_a_zero_byte_is_an_encoding_failure() {
    let mut slot = None;
    let code = finish_convert_bytes(Ok(vec![60, 115, 118, 0, 103, 62]), &mut slot);
    assert_eq!(code, -3);
    assert_eq!(BufferError::EncodingFailed.code(), -3);
    assert!(slot.is_none());
}

#[test]
fn encoding_failure_keeps_what_the_slot_held() {
    let mut slot = Some(OwnedText::new(b"kept".to_vec()).unwrap());
    assert_eq!(finish_convert_bytes(Ok(vec![0]), &mut slot), -3);
    assert_eq!(slot.unwrap().as_bytes(), b"kept");
}

#[test]
fn rendered_text_is_handed_over_on_success() {
    let mut slot = None;
    let code = finish_convert_bytes(Ok(b"<svg></svg>\n".to_vec()), &mut slot);
    assert_eq!(code, 0);
    assert_eq!(slot.unwrap().into_bytes(), b"<svg></svg>\n".to_vec());
}

#[test]
fn success_replaces_what_the_slot_held() {
    let mut slot = Some(OwnedText::new(b"old".to_vec()).unwrap());
    assert_eq!(finish_convert_bytes(Ok(b"new".to_vec()), &mut slot), 0);
    assert_eq!(slot.unwrap().as_bytes(), b"new");
}

#[test]
fn empty_rendering_is_a_success() {
    let mut slot = None;
    assert_eq!(finish_convert_bytes(Ok(Vec::new()), &mut slot), 0);
    assert_eq!(slot.unwrap().len(), 0);
}

#[test]
fn one_red_pixel_converts_to_an_svg_filled_red() {
    let c = record();
    let (code, slot) = convert(&[255, 0, 0, 255], 1, 1, &c);
    assert_eq!(code, 0);
    let text = String::from_utf8(slot.unwrap().into_bytes()).unwrap();
    assert!(text.contains("<svg"));
    assert!(text.contains("</svg>"));
    assert!(text.contains("width=\"1\" height=\"1\""));
    assert!(text.contains("fill=\"#FF0000\""));
}

#[test]
fn two_by_two_image_converts_in_binary_mode() {
    let mut c = record();
    c.color_mode = 200;
    c.filter_speckle = 0;
    let data = [0u8, 0, 0, 255, 0, 0, 0, 255, 0, 0, 0, 255, 0, 0, 0, 255];
    let (code, slot) = convert(&data, 2, 2, &c);
    assert_eq!(code, 0);
    let text = String::from_utf8(slot.unwrap().into_bytes()).unwrap();
    assert!(text.contains("width=\"2\" height=\"2\""));
    assert!(text.contains("fill=\"#000000\""));
}

#[test]
fn released_text_is_gone_and_releasing_nothing_is_allowed() {
    let c = record();
    let (code, slot) = convert(&[255, 0, 0, 255], 1, 1, &c);
    assert_eq!(code, 0);
    assert!(slot.is_some());
    vtracer_free_string(slot);
    vtracer_free_string(None);
}
