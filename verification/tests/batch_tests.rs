use impressy::batch::{process, process_pipeline, BatchOp, BatchPipeline, BatchResizeMode, BatchStep};
use impressy::format::{decode, EncodeSettings, OutputFormat, PngCompression, Quality};
use impressy::raster::Raster;
use impressy::transform::ResizeFilter;

fn filled(width: u32, height: u32, rgba: [u8; 4]) -> Raster {
    let mut pixels = Vec::new();
    for _ in 0..width * height {
        pixels.extend_from_slice(&rgba);
    }
    Raster { width, height, pixels }
}

fn patterned(width: u32, height: u32, seed: u32) -> Raster {
    let mut pixels = Vec::new();
    for index in 0..width * height * 4 {
        pixels.push(((index * 37 + seed * 11) % 251) as u8);
    }
    Raster { width, height, pixels }
}

fn sample_images() -> Vec<Raster> {
    vec![patterned(1, 1, 1), patterned(24, 3, 2), patterned(5, 17, 3), patterned(24, 24, 4)]
}

fn png() -> EncodeSettings {
    EncodeSettings::Png { compression: PngCompression::default() }
}

fn resize_pipeline(mode: BatchResizeMode, prevent_enlarge: bool) -> BatchPipeline {
    BatchPipeline {
        steps: vec![BatchStep::Resize { mode, filter: ResizeFilter::Nearest, prevent_enlarge }],
        output: png(),
    }
}

#[test]
fn batch_failure_path_preserves_count() {
    let imgs = vec![filled(4, 4, [1, 1, 1, 255]); 3];
    let op = BatchOp::Resize { width: 0, height: 0, filter: ResizeFilter::default() };
    let res = process(&imgs, &op);
    assert_eq!(res.total(), 3);
    assert_eq!(res.failures.len(), 3);
    assert!(res.successes.is_empty());
}

#[test]
fn batch_convert_keeps_count_order_and_dimensions() {
    let imgs = sample_images();
    let op = BatchOp::Convert {
        format: OutputFormat::Jpeg,
        settings: EncodeSettings::Jpeg { quality: Quality::new(75).unwrap() },
    };
    let res = process(&imgs, &op);
    assert_eq!(res.total(), imgs.len());
    assert!(res.failures.is_empty());
    for (k, (idx, out)) in res.successes.iter().enumerate() {
        assert_eq!(*idx, k);
        let decoded = decode(&out.bytes).expect("decode output");
        assert_eq!((decoded.width, decoded.height), (imgs[k].width, imgs[k].height));
    }
}

#[test]
fn batch_compression_preserves_dimensions() {
    let imgs = sample_images();
    for quality in [1u8, 50, 100] {
        let op = BatchOp::Convert {
            format: OutputFormat::Jpeg,
            settings: EncodeSettings::Jpeg { quality: Quality::new(quality).unwrap() },
        };
        let res = process(&imgs, &op);
        assert!(res.failures.is_empty());
        for (index, output) in &res.successes {
            let decoded = decode(&output.bytes).expect("decode compressed output");
            assert_eq!((decoded.width, decoded.height), (imgs[*index].width, imgs[*index].height));
        }
    }
}

#[test]
fn batch_resize_keeps_count() {
    let imgs = sample_images();
    let op = BatchOp::Resize { width: 8, height: 8, filter: ResizeFilter::Nearest };
    let res = process(&imgs, &op);
    assert_eq!(res.successes.len(), imgs.len());
    assert_eq!(res.total(), imgs.len());
    for (_, output) in &res.successes {
        assert_eq!((output.width, output.height), (8, 8));
    }
}

#[test]
fn relative_batch_resize_resolves_per_input() {
    for (width, height, percentage, longest) in [(2u32, 63u32, 1u32, 2u32), (63, 2, 200, 96), (10, 10, 33, 7), (40, 25, 150, 50)] {
        let input = vec![filled(width, height, [1, 2, 3, 255])];
        let result = process_pipeline(&input, &resize_pipeline(BatchResizeMode::Percentage(percentage), false));
        let output = &result.successes[0].1;
        let expected = |value: u32| ((u64::from(value) * u64::from(percentage) + 50) / 100).max(1) as u32;
        assert_eq!((output.width, output.height), (expected(width), expected(height)));

        let result = process_pipeline(&input, &resize_pipeline(BatchResizeMode::LongestSide(longest), false));
        let output = &result.successes[0].1;
        assert_eq!(output.width.max(output.height), longest);
        if width >= height {
            assert_eq!(output.width, longest);
        } else {
            assert_eq!(output.height, longest);
        }
    }
}

#[test]
fn pipeline_prevent_enlarge_keeps_smaller_input_dimensions() {
    let input = vec![filled(8, 4, [10, 20, 30, 255])];
    let pipeline = resize_pipeline(BatchResizeMode::Pixels { width: 80, height: 40, preserve_aspect: true }, true);
    let result = process_pipeline(&input, &pipeline);
    let decoded = decode(&result.successes[0].1.bytes).expect("decode pipeline output");
    assert_eq!((decoded.width, decoded.height), (8, 4));
}

#[test]
fn pipeline_longest_side_and_percentage_preserve_each_input_ratio() {
    let inputs = vec![filled(400, 200, [1, 2, 3, 255]), filled(100, 300, [1, 2, 3, 255])];
    let longest = process_pipeline(&inputs, &resize_pipeline(BatchResizeMode::LongestSide(100), false));
    assert_eq!(
        longest.successes.iter().map(|(_, output)| (output.width, output.height)).collect::<Vec<_>>(),
        vec![(100, 50), (33, 100)]
    );

    let percentage = process_pipeline(&inputs, &resize_pipeline(BatchResizeMode::Percentage(50), false));
    assert_eq!(
        percentage.successes.iter().map(|(_, output)| (output.width, output.height)).collect::<Vec<_>>(),
        vec![(200, 100), (50, 150)]
    );
}

#[test]
fn pipeline_output_uses_the_selected_encoder_after_every_step() {
    let input = vec![filled(8, 4, [10, 20, 30, 255])];
    let pipeline = BatchPipeline {
        steps: vec![BatchStep::Resize {
            mode: BatchResizeMode::Pixels { width: 4, height: 2, preserve_aspect: true },
            filter: ResizeFilter::Nearest,
            prevent_enlarge: true,
        }],
        output: EncodeSettings::Jpeg { quality: Quality::new(90).unwrap() },
    };
    let result = process_pipeline(&input, &pipeline);
    let output = &result.successes[0].1;
    let decoded = decode(&output.bytes).expect("decode pipeline output");
    assert_eq!(output.format, OutputFormat::Jpeg);
    assert_eq!((decoded.width, decoded.height), (4, 2));
}
