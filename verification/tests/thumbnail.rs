use thumbnailify::provenance::{
    find_text, read_text_chunks, write_failed_thumbnail, write_out_thumbnail, PngImage,
    SourceMeta,
};
use thumbnailify::thumbnail::{
    create_thumbnails, generate_thumbnail, is_thumbnail_up_to_date, parse_file, render_decoded,
    render_thumbnail, target_dimensions, Planned, Pixels,
};
use thumbnailify::{ThumbnailError, ThumbnailSize};

fn meta() -> SourceMeta {
    SourceMeta { mtime: 1700000000, len: 77 }
}

fn png_of(width: u32, height: u32, rgba: [u8; 4]) -> Vec<u8> {
    let mut data = Vec::new();
    for _ in 0..(width as usize * height as usize) {
        data.extend_from_slice(&rgba);
    }
    PngImage { width, height, color_type: 6, bit_depth: 8, text: vec![], data }.encode().unwrap()
}

fn broken_png() -> Vec<u8> {
    let mut bytes = vec![137, 80, 78, 71, 13, 10, 26, 10];
    bytes.resize(64, 0);
    bytes
}

#[test]
fn square_source_becomes_a_square_of_the_target() {
    assert_eq!(target_dimensions(4019, 4019, 128), Ok((128, 128)));
    assert_eq!(target_dimensions(1, 1, 256), Ok((256, 256)));
}

#[test]
fn the_longer_side_becomes_the_target() {
    assert_eq!(target_dimensions(1920, 1080, 128), Ok((128, 72)));
    assert_eq!(target_dimensions(1080, 1920, 128), Ok((72, 128)));
    assert_eq!(target_dimensions(640, 480, 64), Ok((64, 48)));
    assert_eq!(target_dimensions(100, 50, 256), Ok((256, 128)));
}

#[test]
fn the_shorter_side_is_rounded_to_the_nearest() {
    // 3 * 128 / 7 = 54.86, 2 * 128 / 3 = 85.33, 5 * 128 / 256 = 2.5
    assert_eq!(target_dimensions(7, 3, 128), Ok((128, 55)));
    assert_eq!(target_dimensions(3, 2, 128), Ok((128, 85)));
    assert_eq!(target_dimensions(256, 5, 128), Ok((128, 3)));
    assert_eq!(target_dimensions(1000, 10, 128), Ok((128, 1)));
    assert_eq!(target_dimensions(1000, 1, 128), Ok((128, 0)));
}

#[test]
fn extreme_sizes_do_not_overflow() {
    assert_eq!(target_dimensions(u32::MAX, u32::MAX, u32::MAX), Ok((u32::MAX, u32::MAX)));
    assert_eq!(target_dimensions(u32::MAX, 1, u32::MAX), Ok((u32::MAX, 1)));
    assert_eq!(target_dimensions(u32::MAX, 1, 128), Ok((128, 0)));
    assert_eq!(target_dimensions(5, 5, 0), Ok((0, 0)));
}

#[test]
fn a_source_without_size_is_a_bad_image() {
    assert_eq!(target_dimensions(0, 10, 128), Err(ThumbnailError::BadImage));
    assert_eq!(target_dimensions(10, 0, 128), Err(ThumbnailError::BadImage));
    assert_eq!(target_dimensions(0, 0, 128), Err(ThumbnailError::BadImage));
    let empty = Pixels::new(0, 5, vec![]).unwrap();
    assert_eq!(generate_thumbnail(&empty, 128).err(), Some(ThumbnailError::BadImage));
}

#[test]
fn thumbnail_dimensions_fit_and_keep_the_proportions() {
    for (w, h) in [(4019u32, 4019u32), (1920, 1080), (1080, 1920), (7, 3), (3, 2), (500, 499), (2, 1)] {
        for max in [64u32, 128, 256] {
            let (dw, dh) = target_dimensions(w, h, max).unwrap();
            assert!(dw.max(dh) <= max);
            assert!(dw.max(dh) >= max - 1);
            assert!(dw >= 1 && dh >= 1);
            // |dw/dh - w/h| <= 1/min(dw, dh), without division
            let cross = (dw as i64 * h as i64 - dh as i64 * w as i64).abs();
            assert!(cross * (dw.min(dh) as i64) <= dh as i64 * h as i64);
            assert!(2 * cross <= w.max(h) as i64);
        }
    }
}

fn ratio_within_bound(w: u32, h: u32, max: u32) -> bool {
    let (dw, dh) = target_dimensions(w, h, max).unwrap();
    let cross = (dw as i64 * h as i64 - dh as i64 * w as i64).abs();
    cross * (dw.min(dh) as i64) <= dh as i64 * h as i64
}

#[test]
fn a_long_flat_source_loses_its_ratio_of_width_to_height() {
    // 1000 x 10 becomes 128 x 1: the ratio goes from 100 to 128.
    assert_eq!(target_dimensions(1000, 10, 128), Ok((128, 1)));
    assert!(!ratio_within_bound(1000, 10, 128));
    // 200 x 3 becomes 128 x 2: the ratio goes from 66.7 to 64.
    assert_eq!(target_dimensions(200, 3, 128), Ok((128, 2)));
    assert!(!ratio_within_bound(200, 3, 128));
    // Cross-multiplied, the sides still agree to within half the longer side.
    assert!(2 * (128i64 * 3 - 2 * 200).abs() <= 200);
}

#[test]
fn a_wide_source_keeps_its_ratio_where_the_scaled_height_is_close() {
    // 400 x 100 at 200 is 200 x 50, exactly.
    assert_eq!(target_dimensions(400, 100, 200), Ok((200, 50)));
    assert!(ratio_within_bound(400, 100, 200));
    // The exact condition for width > height: |max * h - dh * w| <= h.
    for (w, h, max) in [(400u32, 100u32, 200u32), (200, 3, 128), (1000, 10, 128), (300, 100, 64), (7, 3, 128), (1000, 7, 256)] {
        let (_, dh) = target_dimensions(w, h, max).unwrap();
        let exact = (max as i64 * h as i64 - dh as i64 * w as i64).abs() <= h as i64;
        assert_eq!(ratio_within_bound(w, h, max), exact);
    }
    // No source that is higher than wide leaves the bound.
    for (w, h, max) in [(3u32, 200u32, 128u32), (10, 1000, 128), (1, 5, 64), (99, 100, 256)] {
        assert!(ratio_within_bound(w, h, max));
    }
}

#[test]
fn pixels_need_four_bytes_for_each_pixel() {
    assert!(Pixels::new(2, 2, vec![0; 16]).is_some());
    assert!(Pixels::new(2, 2, vec![0; 15]).is_none());
    assert!(Pixels::new(2, 2, vec![0; 17]).is_none());
    let p = Pixels::new(3, 1, vec![5; 12]).unwrap();
    assert_eq!((p.width(), p.height()), (3, 1));
    assert_eq!(p.data(), &vec![5; 12]);
    assert_eq!(p.into_data(), vec![5; 12]);
}

#[test]
fn decoding_a_source_gives_its_rgba_pixels() {
    let pixels = parse_file(&png_of(3, 2, [10, 20, 30, 255])).unwrap();
    assert_eq!((pixels.width(), pixels.height()), (3, 2));
    assert_eq!(pixels.data(), &[10, 20, 30, 255].repeat(6));
}

#[test]
fn a_truncated_source_is_a_bad_image() {
    assert_eq!(parse_file(&broken_png()).err(), Some(ThumbnailError::BadImage));
    assert_eq!(parse_file(b"").err(), Some(ThumbnailError::BadImage));
}

#[test]
fn resizing_scales_down_to_the_target() {
    let source = Pixels::new(256, 128, [200, 100, 50, 255].repeat(256 * 128)).unwrap();
    let thumb = generate_thumbnail(&source, 64).unwrap();
    assert_eq!((thumb.width(), thumb.height()), (64, 32));
    assert_eq!(thumb.data().len(), 64 * 32 * 4);
    assert_eq!(thumb.data(), &[200, 100, 50, 255].repeat(64 * 32));
}

#[test]
fn resizing_averages_what_falls_into_a_pixel() {
    // Two columns, black and white, become one grey pixel.
    let source = Pixels::new(2, 1, vec![0, 0, 0, 255, 255, 255, 255, 255]).unwrap();
    let thumb = generate_thumbnail(&source, 1).unwrap();
    assert_eq!((thumb.width(), thumb.height()), (1, 1));
    let grey = thumb.data()[0];
    assert!((127..=128).contains(&grey));
    assert_eq!(thumb.data(), &vec![grey, grey, grey, 255]);
}

#[test]
fn resizing_scales_small_sources_up() {
    let source = Pixels::new(2, 1, [1, 2, 3, 255].repeat(2)).unwrap();
    let thumb = generate_thumbnail(&source, 64).unwrap();
    assert_eq!((thumb.width(), thumb.height()), (64, 32));
}

#[test]
fn rendering_gives_a_thumbnail_with_provenance() {
    let source = png_of(40, 20, [1, 2, 3, 255]);
    let image = render_thumbnail(&source, ThumbnailSize::Small, "file:///tmp/s.png", meta()).unwrap();
    assert_eq!((image.width, image.height), (64, 32));
    assert_eq!((image.color_type, image.bit_depth), (6, 8));
    assert_eq!(image.data.len(), 64 * 32 * 4);
    assert_eq!(find_text(&image.text, "Thumb::URI"), Some(&"file:///tmp/s.png".to_string()));
    assert_eq!(find_text(&image.text, "Thumb::Size"), Some(&"77".to_string()));
    assert_eq!(find_text(&image.text, "Thumb::MTime"), Some(&"1700000000".to_string()));
    assert_eq!(
        render_thumbnail(&broken_png(), ThumbnailSize::Small, "file:///tmp/s.png", meta()).err(),
        Some(ThumbnailError::BadImage)
    );
}

fn stored(outcome: &Planned) -> Option<&Vec<u8>> {
    match outcome {
        Planned::Store(bytes) => Some(bytes),
        _ => None,
    }
}

fn failure(outcome: &Planned) -> Option<ThumbnailError> {
    match outcome {
        Planned::Failed(e) => Some(*e),
        _ => None,
    }
}

#[test]
fn a_decoded_source_is_rendered_for_each_size() {
    let decoded = parse_file(&png_of(40, 20, [1, 2, 3, 255]));
    let small = render_decoded(&decoded, ThumbnailSize::Small, "file:///tmp/s.png", meta()).unwrap();
    let large = render_decoded(&decoded, ThumbnailSize::Large, "file:///tmp/s.png", meta()).unwrap();
    assert_eq!((small.width, small.height), (64, 32));
    assert_eq!((large.width, large.height), (256, 128));
    let broken = parse_file(&broken_png());
    assert_eq!(
        render_decoded(&broken, ThumbnailSize::Small, "file:///tmp/s.png", meta()).err(),
        Some(ThumbnailError::BadImage)
    );
}

#[test]
fn only_missing_and_stale_sizes_are_rendered() {
    let source = png_of(40, 20, [1, 2, 3, 255]);
    let fresh = write_out_thumbnail(1, 1, vec![0; 4], "file:///tmp/s.png", meta()).encode().unwrap();
    let stale = write_out_thumbnail(
        1,
        1,
        vec![0; 4],
        "file:///tmp/s.png",
        SourceMeta { mtime: 1600000000, len: 77 },
    )
    .encode()
    .unwrap();
    let sizes = vec![ThumbnailSize::Small, ThumbnailSize::Normal, ThumbnailSize::Large, ThumbnailSize::Small];
    let existing = vec![Some(fresh.clone()), None, Some(stale.clone())];

    let batch = create_thumbnails(&sizes, &existing, None, Some(meta()), Some(&source), "file:///tmp/s.png");

    assert_eq!(batch.outcomes.len(), 4);
    assert!(matches!(batch.outcomes[0], Planned::Cached));
    let normal = PngImage::decode(stored(&batch.outcomes[1]).unwrap()).unwrap();
    assert_eq!((normal.width, normal.height), (128, 64));
    let large = PngImage::decode(stored(&batch.outcomes[2]).unwrap()).unwrap();
    assert_eq!((large.width, large.height), (256, 128));
    // The size asked for a second time has no entry of its own: it is rendered.
    let small = PngImage::decode(stored(&batch.outcomes[3]).unwrap()).unwrap();
    assert_eq!((small.width, small.height), (64, 32));
    assert!(batch.marker.is_none());
    // A stale fail marker does not stop the batch.
    let old_marker = write_failed_thumbnail("file:///tmp/s.png", SourceMeta { mtime: 1, len: 77 }).encode().unwrap();
    let batch = create_thumbnails(&sizes, &existing, Some(&old_marker), Some(meta()), Some(&source), "file:///tmp/s.png");
    assert!(matches!(batch.outcomes[0], Planned::Cached));
    assert!(stored(&batch.outcomes[1]).is_some());
}

#[test]
fn a_batch_that_is_up_to_date_needs_no_source() {
    let fresh = write_out_thumbnail(1, 1, vec![0; 4], "file:///tmp/s.png", meta()).encode().unwrap();
    let sizes = vec![ThumbnailSize::Small, ThumbnailSize::Normal];
    let existing = vec![Some(fresh.clone()), Some(fresh.clone())];
    for source in [None, Some(&broken_png()[..])] {
        let batch = create_thumbnails(&sizes, &existing, None, Some(meta()), source, "file:///tmp/s.png");
        assert!(batch.outcomes.iter().all(|o| matches!(o, Planned::Cached)));
        assert!(batch.marker.is_none());
    }
    let nothing = create_thumbnails(&vec![], &existing, None, Some(meta()), None, "file:///tmp/s.png");
    assert!(nothing.outcomes.is_empty());
}

#[test]
fn a_fresh_fail_marker_stops_a_batch() {
    let marker = write_failed_thumbnail("file:///tmp/s.png", meta()).encode().unwrap();
    let source = png_of(4, 4, [0, 0, 0, 255]);
    let sizes = vec![ThumbnailSize::Small, ThumbnailSize::Normal];
    let batch = create_thumbnails(&sizes, &vec![None, None], Some(&marker), Some(meta()), Some(&source), "file:///tmp/s.png");
    assert_eq!(
        batch.outcomes.iter().map(failure).collect::<Vec<_>>(),
        vec![Some(ThumbnailError::NegativeCached), Some(ThumbnailError::NegativeCached)]
    );
    assert!(batch.marker.is_none());
    let touched = SourceMeta { mtime: 1700000001, len: 77 };
    let batch = create_thumbnails(&sizes, &vec![None, None], Some(&marker), Some(touched), Some(&source), "file:///tmp/s.png");
    assert!(batch.outcomes.iter().all(|o| stored(o).is_some()));
}

#[test]
fn a_batch_without_metadata_or_bytes_fails_for_each_stale_size() {
    let source = png_of(4, 4, [0, 0, 0, 255]);
    let sizes = vec![ThumbnailSize::Small, ThumbnailSize::Normal];
    let batch = create_thumbnails(&sizes, &vec![], None, None, Some(&source), "file:///tmp/s.png");
    assert_eq!(
        batch.outcomes.iter().map(failure).collect::<Vec<_>>(),
        vec![Some(ThumbnailError::MissingSource), Some(ThumbnailError::MissingSource)]
    );
    assert!(batch.marker.is_none());
    let batch = create_thumbnails(&sizes, &vec![], None, Some(meta()), None, "file:///tmp/s.png");
    assert_eq!(
        batch.outcomes.iter().map(failure).collect::<Vec<_>>(),
        vec![Some(ThumbnailError::Io), Some(ThumbnailError::Io)]
    );
    assert!(batch.marker.is_none());
}

#[test]
fn test_create_thumbnails_broken() {
    let broken_image = "file:///tests/images/broken.png";
    let sizes = vec![ThumbnailSize::Normal];

    // Call create_thumbnails on the broken image.
    let batch = create_thumbnails(&sizes, &vec![None], None, Some(meta()), Some(&broken_png()), broken_image);

    // Verify that the failure marker now exists.
    assert_eq!(failure(&batch.outcomes[0]), Some(ThumbnailError::BadImage));
    let marker = batch.marker.expect("Failure marker was not created for broken image");
    let chunks = read_text_chunks(&marker).unwrap();
    assert_eq!(find_text(&chunks, "Thumb::MTime"), Some(&"1700000000".to_string()));

    // Call create_thumbnails again on the broken image.
    let again = create_thumbnails(&sizes, &vec![None], Some(&marker), Some(meta()), Some(&broken_png()), broken_image);

    // The marker is not written again since it is up to date.
    assert!(again.marker.is_none(), "Failure marker was updated even though it should be up-to-date.");
    assert_eq!(failure(&again.outcomes[0]), Some(ThumbnailError::NegativeCached));
}

#[test]
fn test_create_thumbnails_valid() {
    let image = "file:///tests/images/nasa-4019x4019.png";
    let source = PngImage {
        width: 4019,
        height: 4019,
        color_type: 0,
        bit_depth: 8,
        text: vec![],
        data: vec![120; 4019 * 4019],
    }
    .encode()
    .unwrap();
    let sizes = vec![ThumbnailSize::Small, ThumbnailSize::Normal];

    // Generate thumbnails for the image.
    let batch = create_thumbnails(&sizes, &vec![None, None], None, Some(meta()), Some(&source), image);

    // Verify that each expected thumbnail exists.
    assert!(batch.marker.is_none());
    let mut written = Vec::new();
    for (outcome, side) in batch.outcomes.iter().zip([64u32, 128]) {
        let bytes = stored(outcome).expect("Thumbnail does not exist");
        let thumb = PngImage::decode(bytes).unwrap();
        assert_eq!((thumb.width, thumb.height), (side, side));
        assert!(is_thumbnail_up_to_date(Some(bytes), Some(meta())));
        written.push(Some(bytes.clone()));
    }

    // Call create_thumbnails again, which should skip updating up-to-date thumbnails.
    let again = create_thumbnails(&sizes, &written, None, Some(meta()), Some(&source), image);
    for outcome in &again.outcomes {
        assert!(matches!(outcome, Planned::Cached), "Thumbnail was recreated unexpectedly.");
    }
}
