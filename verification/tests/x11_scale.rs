use jellium_platform::x11::scale::display_scale;
use jellium_platform::x11::scale::quantize_dpi;

/// A scale in half steps as the ratio it stands for.
fn ratio(halves: Option<i32>) -> Option<f32> {
    halves.map(|s| s as f32 / 2.0)
}

#[test]
fn xft_dpi_uses_mpv_half_step_quantization() {
    assert_eq!(ratio(quantize_dpi(144)), Some(1.5));
    assert_eq!(ratio(quantize_dpi(168)), Some(2.0));
    assert_eq!(ratio(quantize_dpi(192)), Some(2.0));
    assert_eq!(ratio(quantize_dpi(288)), Some(3.0));
}

#[test]
fn unscaled_or_invalid_dpi_is_ignored() {
    assert_eq!(ratio(quantize_dpi(96)), None);
    assert_eq!(ratio(quantize_dpi(120)), None);
    assert_eq!(ratio(quantize_dpi(0)), None);
    assert_eq!(ratio(quantize_dpi(-144)), None);
    assert_eq!(ratio(quantize_dpi(i64::MIN)), None);
    assert_eq!(ratio(quantize_dpi(i64::MAX)), None);
}

#[test]
fn screen_dpi_fallback_requires_matching_axes() {
    assert_eq!(quantize_dpi(144), Some(3));
    assert_ne!(quantize_dpi(144), quantize_dpi(192));
    assert_eq!(display_scale(None, Some(3), Some(3)), Some(3));
    assert_eq!(display_scale(None, Some(3), Some(4)), None);
    assert_eq!(display_scale(None, Some(3), None), None);
}

#[test]
fn the_resource_database_wins() {
    assert_eq!(display_scale(Some(192), Some(3), Some(3)), Some(4));
    assert_eq!(display_scale(Some(96), Some(3), Some(3)), Some(3));
    assert_eq!(quantize_dpi(935), Some(19));
    assert_eq!(quantize_dpi(936), None);
}
