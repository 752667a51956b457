use improc_engine::cli::ConvertToBinaryConfig;
use improc_engine::cli::ConvertToBinaryHandler;
use improc_engine::cli::SkeletonizeConfig;
use improc_engine::cli::SkeletonizeHandler;
use improc_engine::engine::commit;
use improc_engine::engine::prepare;
use improc_engine::engine::TransformationError;
use improc_engine::history::History;
use improc_engine::request::AdjacencyMode;
use improc_engine::request::SkeletonizationAlgorithm;
use improc_engine::request::TransformationRequest;

fn sample_image(w: u32, h: u32) -> image::RgbImage {
    let mut img = image::RgbImage::new(w, h);
    for x in 0..w {
        for y in 0..h {
            let r = ((x * 37 + y * 11) % 256) as u8;
            let g = ((x * 5 + y * 91) % 256) as u8;
            let b = ((x * 13 + y * 29) % 256) as u8;
            img.put_pixel(x, y, image::Rgb([r, g, b]));
        }
    }
    img
}

fn png_bytes_of(img: &image::RgbImage) -> Vec<u8> {
    let d = image::DynamicImage::ImageRgb8(img.clone());
    let mut cursor = std::io::Cursor::new(Vec::new());
    d.write_to(&mut cursor, image::ImageFormat::Png).unwrap();
    cursor.into_inner()
}

/// Plays the outside strategy's part: turns every pixel black or white by
/// comparing its red channel with the threshold.
fn fake_binarize(img: &mut image::RgbImage, threshold: u8) {
    for p in img.pixels_mut() {
        let v = if p.0[0] >= threshold { 255 } else { 0 };
        *p = image::Rgb([v, v, v]);
    }
}

fn loaded_history() -> (History, Vec<u8>) {
    let baseline = png_bytes_of(&sample_image(8, 6));
    let mut h = History::new();
    h.set_original_image(baseline.clone());
    (h, baseline)
}

#[test]
fn out_of_range_threshold_is_a_validation_error_and_changes_nothing() {
    let (h, baseline) = loaded_history();
    let req = TransformationRequest::ConvertToBinary { threshold: 9999 };
    let r = prepare(&h, &req);
    assert!(matches!(r, Err(TransformationError::Validation)));
    assert_eq!(h.snapshot_count(), 0);
    assert_eq!(h.get_latest_image(), &baseline);
}

#[test]
fn rosenfeld_without_adjacency_mode_is_a_validation_error() {
    let (h, baseline) = loaded_history();
    let req = TransformationRequest::Skeletonize {
        algorithm: SkeletonizationAlgorithm::Rosenfeld,
        adjacency_mode: None,
    };
    let r = prepare(&h, &req);
    assert!(matches!(r, Err(TransformationError::Validation)));
    assert_eq!(h.snapshot_count(), 0);
    assert_eq!(h.get_latest_image(), &baseline);
}

#[test]
fn unreadable_current_image_is_a_decode_error() {
    let mut h = History::new();
    h.set_original_image(vec![1, 2, 3, 4]);
    let req = TransformationRequest::ConvertToBinary { threshold: 150 };
    let r = prepare(&h, &req);
    assert!(matches!(r, Err(TransformationError::Decode)));
    assert_eq!(h.snapshot_count(), 0);
}

#[test]
fn binarization_pushes_a_distinct_snapshot_and_undo_restores_it() {
    let (mut h, baseline) = loaded_history();
    let req = TransformationRequest::ConvertToBinary { threshold: 150 };
    let mut p = prepare(&h, &req).unwrap();
    fake_binarize(&mut p.buffer.img, 150);
    commit(&mut h, p.description, p.buffer).unwrap();
    assert_eq!(h.snapshot_count(), 1);
    assert_ne!(h.get_latest_image(), &baseline);
    assert_eq!(
        h.latest_description().unwrap(),
        "Converted to binary with threshold: 150"
    );
    let popped = h.pop_snapshot().unwrap();
    assert_eq!(popped.description, "Converted to binary with threshold: 150");
    assert_eq!(h.get_latest_image(), &baseline);
}

#[test]
fn committed_bytes_decode_back_to_the_committed_buffer() {
    let (mut h, _baseline) = loaded_history();
    let req = TransformationRequest::ConvertToBinary { threshold: 100 };
    let mut p = prepare(&h, &req).unwrap();
    fake_binarize(&mut p.buffer.img, 100);
    let transformed = p.buffer.img.clone();
    commit(&mut h, p.description, p.buffer).unwrap();
    let reloaded = image::load_from_memory(h.get_latest_image()).unwrap().to_rgb8();
    assert_eq!(reloaded.dimensions(), transformed.dimensions());
    assert_eq!(reloaded.into_raw(), transformed.into_raw());
}

#[test]
fn prepared_buffer_holds_the_decoded_pixels() {
    let source = sample_image(5, 4);
    let mut h = History::new();
    h.set_original_image(png_bytes_of(&source));
    let req = TransformationRequest::ConvertToBinary { threshold: 10 };
    let p = prepare(&h, &req).unwrap();
    assert_eq!(p.buffer.img.dimensions(), source.dimensions());
    assert_eq!(p.buffer.img.into_raw(), source.into_raw());
}

#[test]
fn end_to_end_two_transformations_then_three_undos() {
    let (mut h, baseline) = loaded_history();

    let bin = TransformationRequest::ConvertToBinary { threshold: 150 };
    let mut p1 = prepare(&h, &bin).unwrap();
    assert_eq!(p1.description, "Converted to binary with threshold: 150");
    fake_binarize(&mut p1.buffer.img, 150);
    commit(&mut h, p1.description, p1.buffer).unwrap();
    let b1 = h.get_latest_image().clone();

    let skel = TransformationRequest::Skeletonize {
        algorithm: SkeletonizationAlgorithm::Rosenfeld,
        adjacency_mode: Some(AdjacencyMode::Eight),
    };
    let mut p2 = prepare(&h, &skel).unwrap();
    assert_eq!(p2.description, "Skeletonized the image with the Rosenfeld algorithm");
    // play the strategy's part: thin everything to black
    for px in p2.buffer.img.pixels_mut() {
        *px = image::Rgb([0, 0, 0]);
    }
    commit(&mut h, p2.description, p2.buffer).unwrap();
    assert_eq!(h.snapshot_count(), 2);

    assert!(h.pop_snapshot().is_some());
    assert_eq!(h.get_latest_image(), &b1);
    assert!(h.pop_snapshot().is_some());
    assert_eq!(h.get_latest_image(), &baseline);
    assert!(h.pop_snapshot().is_none());
    assert_eq!(h.get_latest_image(), &baseline);
}

#[test]
fn convert_to_binary_handler_decodes_and_names_its_request() {
    let source = sample_image(6, 6);
    let input = png_bytes_of(&source);
    let config = ConvertToBinaryConfig::new("in.png".to_string(), "out.png".to_string(), "210");
    let (buffer, req) = ConvertToBinaryHandler::execute(&config, &input).unwrap();
    assert_eq!(req, TransformationRequest::ConvertToBinary { threshold: 210 });
    assert_eq!(buffer.img.into_raw(), source.into_raw());

    let garbage = vec![9, 9, 9];
    let r = ConvertToBinaryHandler::execute(&config, &garbage);
    assert!(matches!(r, Err(TransformationError::Decode)));
}

#[test]
fn skeletonize_handler_reports_a_missing_adjacency_mode() {
    let input = png_bytes_of(&sample_image(3, 3));
    let config = SkeletonizeConfig::new(
        "in.png".to_string(),
        "out.png".to_string(),
        SkeletonizationAlgorithm::Rosenfeld,
        None,
    );
    let r = SkeletonizeHandler::execute(&config, &input);
    assert!(matches!(r, Err(TransformationError::Validation)));
}

#[test]
fn skeletonize_handler_decodes_and_names_its_request() {
    let source = sample_image(4, 7);
    let input = png_bytes_of(&source);
    let config = SkeletonizeConfig::new(
        "in.png".to_string(),
        "out.png".to_string(),
        SkeletonizationAlgorithm::ZhangSuen,
        None,
    );
    let (buffer, req) = SkeletonizeHandler::execute(&config, &input).unwrap();
    assert_eq!(
        req,
        TransformationRequest::Skeletonize {
            algorithm: SkeletonizationAlgorithm::ZhangSuen,
            adjacency_mode: None,
        }
    );
    assert_eq!(buffer.img.into_raw(), source.into_raw());
}

#[test]
fn encode_is_not_the_identity_on_its_input() {
    let (mut h, _) = loaded_history();
    let req = TransformationRequest::ConvertToBinary { threshold: 128 };
    let mut p = prepare(&h, &req).unwrap();
    fake_binarize(&mut p.buffer.img, 128);
    let raw = p.buffer.img.clone().into_raw();
    commit(&mut h, p.description, p.buffer).unwrap();
    // the committed snapshot holds encoded PNG bytes, not the raw pixels
    assert_ne!(h.get_latest_image(), &raw);
    assert!(h.get_latest_image().starts_with(&[0x89, b'P', b'N', b'G']));
}

#[test]
fn commit_either_pushes_or_reports_encode_and_leaves_history_alone() {
    // a degenerate zero-by-zero buffer: whichever way the encoder decides,
    // the history must honour commit's contract
    let (mut h, baseline) = loaded_history();
    let empty = improc_engine::codec::PixelBuffer { img: image::RgbImage::new(0, 0) };
    match commit(&mut h, "degenerate".to_string(), empty) {
        Ok(()) => {
            assert_eq!(h.snapshot_count(), 1);
            assert_eq!(h.latest_description().unwrap(), "degenerate");
        }
        Err(e) => {
            assert_eq!(e, TransformationError::Encode);
            assert_eq!(h.snapshot_count(), 0);
            assert_eq!(h.get_latest_image(), &baseline);
        }
    }
}
