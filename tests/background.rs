use ui_overlay::background::{BackgroundProcessor, ImageCache, RgbaBuffer};

#[test]
fn test_tint_background() {
    let bg = vec![255, 128, 64, 255, 200, 100, 50, 255];
    let overlay_color = [0, 0, 0, 128];
    let tinted = BackgroundProcessor::tint_background(&bg, overlay_color);
    assert_eq!(tinted.len(), bg.len());
    assert!(tinted[0] < bg[0]);
    assert!(tinted[4] < bg[4]);
}

#[test]
fn tint_uses_blend_formula() {
    let bg = vec![255, 128, 64, 7, 0, 0, 0, 0, 9, 9];
    let tinted = BackgroundProcessor::tint_background(&bg, [0, 0, 0, 128]);
    assert_eq!(tinted, vec![127, 63, 31, 255, 0, 0, 0, 255, 0, 0]);
    let white = BackgroundProcessor::tint_background(&[0, 100, 200, 0], [255, 255, 255, 51]);
    assert_eq!(white, vec![51, 131, 211, 255]);
    assert_eq!(BackgroundProcessor::tint_channel(200, 10, 255), 10);
    assert_eq!(BackgroundProcessor::tint_channel(200, 10, 0), 200);
}

#[test]
fn rgb_to_rgba_reuses_buffer() {
    let mut buf = RgbaBuffer::new();
    let out = buf.convert_rgb_to_rgba(&[1, 2, 3, 4, 5, 6], 2, 1);
    assert_eq!(out, vec![1, 2, 3, 255, 4, 5, 6, 255]);
    let out = buf.convert_rgb_to_rgba(&[9, 9, 9], 1, 1);
    assert_eq!(out, vec![9, 9, 9, 255]);
    let out = buf.convert_rgb_to_rgba(&[7, 7, 7], 2, 1);
    assert_eq!(out, vec![7, 7, 7, 255, 4, 5, 6, 255]);
}

#[test]
fn image_cache_is_built_once() {
    let mut cache = ImageCache::new();
    assert!(cache.get_tinted_image().is_none());
    assert!(cache.get_original_image().is_none());
    cache.ensure_images_cached(&[1, 2, 3, 4], &[5, 6, 7, 8], 1, 1);
    let first = cache.get_tinted_image().unwrap().clone();
    cache.ensure_images_cached(&[0, 0, 0, 0], &[0, 0, 0, 0], 1, 1);
    let second = cache.get_tinted_image().unwrap().clone();
    assert_eq!(*first, vec![5, 6, 7, 8]);
    assert_eq!(first, second);
    assert!(std::sync::Arc::ptr_eq(&first, &second));
    assert_eq!(**cache.get_original_image().unwrap(), vec![1, 2, 3, 4]);
}

#[test]
fn test_image_cache_initialization() {
    let cache = ImageCache::new();
    assert!(cache.get_tinted_image().is_none());
    assert!(cache.get_original_image().is_none());
}
