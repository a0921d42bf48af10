use tela::image::{
    check_rgba8_upload, downsample_rgba8, mip_level_count, rgba8_mip_chain, ImageUploadError,
    RenderStats, RetainedFrameTarget,
};

#[test]
fn upload_dimensions_and_length_are_checked() {
    assert_eq!(check_rgba8_upload(0, 4, 0), Err(ImageUploadError::InvalidDimensions));
    assert_eq!(check_rgba8_upload(4, 0, 0), Err(ImageUploadError::InvalidDimensions));
    assert_eq!(
        check_rgba8_upload(2, 3, 23),
        Err(ImageUploadError::InvalidByteLength { expected: 24, actual: 23 })
    );
    assert_eq!(check_rgba8_upload(2, 3, 24), Ok(24));
}

#[test]
fn mip_count_is_log2_of_the_longer_side_plus_one() {
    assert_eq!(mip_level_count(1, 1), 1);
    assert_eq!(mip_level_count(2, 1), 2);
    assert_eq!(mip_level_count(3, 3), 2);
    assert_eq!(mip_level_count(4, 1), 3);
    assert_eq!(mip_level_count(256, 17), 9);
    assert_eq!(mip_level_count(u32::MAX, 1), 32);
}

#[test]
fn downsample_averages_two_by_two_boxes() {
    // 2x2 image, one channel pattern per pixel.
    let pixels = vec![
        10, 20, 30, 255, 20, 30, 40, 255, //
        30, 40, 50, 255, 41, 50, 60, 255,
    ];
    let (next, w, h) = downsample_rgba8(&pixels, 2, 2);
    assert_eq!((w, h), (1, 1));
    assert_eq!(next, vec![25, 35, 45, 255]);
}

#[test]
fn odd_edges_average_only_existing_pixels() {
    // 3x1 image: the last column is dropped, the row stays one pixel high.
    let pixels = vec![0, 0, 0, 0, 100, 100, 100, 100, 7, 7, 7, 7];
    let (next, w, h) = downsample_rgba8(&pixels, 3, 1);
    assert_eq!((w, h), (1, 1));
    assert_eq!(next, vec![50, 50, 50, 50]);
    // 1x3 image: one column, two rows averaged.
    let (next, w, h) = downsample_rgba8(&pixels, 1, 3);
    assert_eq!((w, h), (1, 1));
    assert_eq!(next, vec![50, 50, 50, 50]);
}

#[test]
fn mip_chain_halves_down_to_one_pixel() {
    let pixels: Vec<u8> = (0..4 * 4 * 4).map(|i| (i % 251) as u8).collect();
    let levels = rgba8_mip_chain(4, 4, &pixels).expect("valid upload");
    assert_eq!(levels.len(), 3);
    assert_eq!((levels[0].width, levels[0].height), (4, 4));
    assert_eq!(levels[0].pixels, pixels);
    assert_eq!((levels[1].width, levels[1].height), (2, 2));
    assert_eq!((levels[2].width, levels[2].height), (1, 1));
    assert_eq!(levels[2].pixels.len(), 4);
    assert_eq!(
        rgba8_mip_chain(4, 4, &pixels[1..]).err(),
        Some(ImageUploadError::InvalidByteLength { expected: 64, actual: 63 })
    );
}

#[test]
fn retained_target_rebuilds_only_on_resize() {
    let mut built = Vec::new();
    let mut target = RetainedFrameTarget::new(0, 0, |w, h| (w, h));
    assert_eq!(*target.attachment(), (1, 1));
    assert!(target.begin_frame(0, 0, false, |w, h| (w, h)), "a fresh target repaints fully");
    assert!(!target.begin_frame(0, 0, false, |w, h| (w, h)), "an unchanged target repaints damage");
    assert!(target.begin_frame(1, 1, true, |w, h| (w, h)), "covering damage repaints fully");
    assert!(target.ensure_size(8, 6, |w, h| {
        built.push((w, h));
        (w, h)
    }));
    assert_eq!(built, vec![(8, 6)]);
    assert!(!target.ensure_size(8, 6, |w, h| (w, h)));
    assert!(target.begin_frame(8, 6, false, |w, h| (w, h)), "a rebuilt target holds no frame");
    assert_eq!(*target.attachment(), (8, 6));
}

#[test]
fn render_stats_start_at_zero() {
    let stats = RenderStats::default();
    assert_eq!(stats.draw_calls, 0);
    assert_eq!(stats, RenderStats { ..stats });
}
