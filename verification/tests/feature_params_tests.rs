use impressy::animation::Playback;
use impressy::feature_params::{
    CollageMode, EditParams, FeatureParams, NumericField, ParamAction, QrParams, ResizeMode,
    FREE_RATIO_INDEX,
};
use impressy::format::{OutputFormat, PngCompression};
use impressy::raster::Color;
use impressy::transform::AspectRatio;

#[test]
fn numeric_controls_stay_inside_supported_ranges() {
    let mut params = FeatureParams::default();
    params.apply(ParamAction::SetGifDelay(0));
    params.apply(ParamAction::SetSliceRows(0));
    params.apply(ParamAction::SetBatchOpacity(0));
    params.apply(ParamAction::SetBatchPercentage(0));
    params.apply(ParamAction::SetBatchLongestSide(0));
    assert_eq!(params.gif.delay_ms, 100);
    assert_eq!(params.slice.rows, 1);
    assert_eq!(params.batch.watermark_opacity_percent, 5);
    assert_eq!(params.batch.percentage, 1);
    assert_eq!(params.batch.longest_side, 16);

    params.apply(ParamAction::SetGifDelay(9_000));
    params.apply(ParamAction::SetSliceRows(9_000));
    params.apply(ParamAction::SetBatchOpacity(255));
    assert_eq!(params.gif.delay_ms, 800);
    assert_eq!(params.slice.rows, 100);
    assert_eq!(params.batch.watermark_opacity_percent, 100);
}

#[test]
fn enum_and_ratio_choices_set_exactly() {
    let mut params = FeatureParams::default();
    params.apply(ParamAction::SetBatchWatermarkEnabled(true));
    params.apply(ParamAction::SetCollageMode(CollageMode::Grid));
    params.apply(ParamAction::SetGifPlayback(Playback::PingPong));
    params.apply(ParamAction::SetBatchPngCompression(PngCompression::Best));
    params.apply(ParamAction::SetEditRatio(FREE_RATIO_INDEX));
    assert!(params.batch.watermark_enabled);
    assert_eq!(params.collage.mode, CollageMode::Grid);
    assert_eq!(params.gif.playback, Playback::PingPong);
    assert_eq!(params.batch.png_compression, PngCompression::Best);
    assert_eq!(params.edit.ratio(), None);

    params.apply(ParamAction::SetEditRatio(0));
    assert_eq!(params.edit.ratio(), Some(AspectRatio::square()));
}

#[test]
fn batch_steps_and_output_settings_are_independent() {
    let mut params = FeatureParams::default();
    params.apply(ParamAction::SetBatchFormat(OutputFormat::Png));
    params.apply(ParamAction::SetBatchResizeEnabled(true));
    params.apply(ParamAction::SetBatchWatermarkEnabled(true));
    params.apply(ParamAction::SetBatchResizeFirst(false));
    params.apply(ParamAction::SetBatchResizeMode(ResizeMode::LongestSide));
    params.apply(ParamAction::SetBatchLongestSide(2048));
    params.apply(ParamAction::SetBatchPercentage(75));
    assert_eq!(params.batch.format, OutputFormat::Png);
    assert!(params.batch.resize_enabled);
    assert!(params.batch.watermark_enabled);
    assert!(!params.batch.resize_first);
    assert_eq!(params.batch.resize_mode, ResizeMode::LongestSide);
    assert_eq!(params.batch.longest_side, 2048);
    assert_eq!(params.batch.percentage, 75);
}

#[test]
fn qr_options_preserve_independent_custom_colors() {
    let params = QrParams {
        foreground: Color { r: 12, g: 34, b: 56, a: 255 },
        background: Color { r: 210, g: 220, b: 230, a: 255 },
        ..QrParams::default()
    };
    let options = params.options();
    assert_eq!(options.foreground, params.foreground);
    assert_eq!(options.background, params.background);
}

#[test]
fn resize_defaults_to_locked_source_dimensions_and_supports_relative_modes() {
    let mut edit = EditParams::default();
    edit.set_source_dimensions(1_920, 1_080);
    assert_eq!(edit.output_dimensions(), (1_920, 1_080));

    edit.set_width(960);
    assert_eq!(edit.output_dimensions(), (960, 540));

    edit.mode = ResizeMode::Percentage;
    edit.percentage = 25;
    assert_eq!(edit.output_dimensions(), (480, 270));

    edit.mode = ResizeMode::LongestSide;
    edit.longest_side = 800;
    assert_eq!(edit.output_dimensions(), (800, 450));
}

#[test]
fn prevent_enlarge_keeps_source_dimensions() {
    let mut edit = EditParams::default();
    edit.set_source_dimensions(640, 480);
    edit.mode = ResizeMode::LongestSide;
    edit.longest_side = 2_000;
    edit.prevent_enlarge = true;
    assert_eq!(edit.output_dimensions(), (640, 480));
}

#[test]
fn locked_width_keeps_the_source_ratio() {
    let mut edit = EditParams::default();
    edit.set_source_dimensions(1_000, 500);
    edit.set_height(100);
    assert_eq!(edit.output_dimensions(), (200, 100));
    edit.aspect_locked = false;
    edit.set_width(300);
    assert_eq!(edit.output_dimensions(), (300, 100));
}

#[test]
fn free_ratio_is_the_only_index_without_a_ratio() {
    for index in 0..FREE_RATIO_INDEX {
        assert!(AspectRatio::preset(index).is_some());
    }
    assert_eq!(AspectRatio::preset(FREE_RATIO_INDEX), None);
}

#[test]
fn numeric_fields_read_step_and_write_their_parameter() {
    let params = FeatureParams::default();
    assert_eq!(NumericField::all().len(), 16);
    assert_eq!(NumericField::QrSize.step(), 64);
    assert_eq!(NumericField::GifDelay.step(), 50);
    assert_eq!(NumericField::SliceRows.step(), 1);
    assert_eq!(NumericField::SliceRows.current(&params), params.slice.rows);
    assert_eq!(NumericField::BatchOpacity.current(&params), u32::from(params.batch.watermark_opacity_percent));
    assert_eq!(NumericField::GifWidth.action(320), ParamAction::SetGifWidth(320));
    assert_eq!(NumericField::BatchOpacity.action(300), ParamAction::SetBatchOpacity(44));
}
