use ui_overlay::canvas::Image;
use ui_overlay::render::{Background, RenderContext, SelectionRenderer};

fn px(buf: &[u8], width: usize, x: usize, y: usize) -> [u8; 4] {
    let i = (y * width + x) * 4;
    [buf[i], buf[i + 1], buf[i + 2], buf[i + 3]]
}

#[test]
fn image_fill_rect_clips_to_image() {
    let mut img = Image::new(4, 3);
    assert_eq!(img.pixels.len(), 48);
    img.fill_rgba(1, 2, 3, 4);
    img.fill_rect(-1, 1, 3, 10, 9, 8, 7, 6);
    assert_eq!(px(&img.pixels, 4, 0, 0), [1, 2, 3, 4]);
    assert_eq!(px(&img.pixels, 4, 0, 1), [9, 8, 7, 6]);
    assert_eq!(px(&img.pixels, 4, 1, 2), [9, 8, 7, 6]);
    assert_eq!(px(&img.pixels, 4, 2, 2), [1, 2, 3, 4]);
}

#[test]
fn border_is_drawn_in_window_coordinates() {
    let ctx = RenderContext { width: 6, height: 5, virtual_x: 100, virtual_y: 0, virtual_bounds: Some((0, 0, 106, 5)) };
    let mut frame = vec![0u8; 6 * 5 * 4];
    SelectionRenderer::render_selection_border(&ctx, &mut frame, (101, 1, 105, 4));
    let white = [255, 255, 255, 255];
    assert_eq!(px(&frame, 6, 1, 1), white);
    assert_eq!(px(&frame, 6, 4, 3), white);
    assert_eq!(px(&frame, 6, 1, 2), white);
    assert_eq!(px(&frame, 6, 2, 2), [0, 0, 0, 0]);
    assert_eq!(px(&frame, 6, 5, 1), [0, 0, 0, 0]);
    let mut untouched = vec![7u8; 6 * 5 * 4];
    SelectionRenderer::render_selection_border(&ctx, &mut untouched, (0, 0, 50, 3));
    assert!(untouched.iter().all(|b| *b == 7));
}

#[test]
fn solid_background_fills_whole_pixels() {
    let mut frame = vec![0u8; 10];
    SelectionRenderer::render_solid_background(&mut frame, 1, 2, 3, 4);
    assert_eq!(frame, vec![1, 2, 3, 4, 1, 2, 3, 4, 0, 0]);
}

fn numbered_background(w: usize, h: usize) -> Vec<u8> {
    let mut v = Vec::new();
    for y in 0..h {
        for x in 0..w {
            v.extend_from_slice(&[(10 * y + x) as u8, 0, 0, 255]);
        }
    }
    v
}

#[test]
fn virtual_background_follows_window_offset() {
    let data = numbered_background(4, 2);
    let bg = Background { data: &data, width: 4, height: 2 };
    let ctx = RenderContext { width: 2, height: 2, virtual_x: 2, virtual_y: 0, virtual_bounds: Some((0, 0, 4, 2)) };
    let mut frame = vec![0u8; 16];
    SelectionRenderer::render_virtual_background(&ctx, &mut frame, &bg);
    assert_eq!(px(&frame, 2, 0, 0), [2, 0, 0, 255]);
    assert_eq!(px(&frame, 2, 1, 1), [13, 0, 0, 255]);
}

#[test]
fn scaled_background_stretches_nearest_pixel() {
    let data = numbered_background(2, 1);
    let bg = Background { data: &data, width: 2, height: 1 };
    let ctx = RenderContext { width: 4, height: 2, virtual_x: 0, virtual_y: 0, virtual_bounds: None };
    let mut frame = vec![0u8; 32];
    SelectionRenderer::render_virtual_background(&ctx, &mut frame, &bg);
    assert_eq!(px(&frame, 4, 1, 0), [0, 0, 0, 255]);
    assert_eq!(px(&frame, 4, 2, 1), [1, 0, 0, 255]);
    assert_eq!(px(&frame, 4, 3, 1), [1, 0, 0, 255]);
}

#[test]
fn selection_background_restores_original_inside_selection() {
    let data = numbered_background(4, 2);
    let bg = Background { data: &data, width: 4, height: 2 };
    let ctx = RenderContext { width: 2, height: 2, virtual_x: 2, virtual_y: 0, virtual_bounds: Some((0, 0, 4, 2)) };
    let mut frame = vec![0u8; 16];
    SelectionRenderer::render_selection_background(&ctx, &mut frame, &bg, (3, 0, 4, 2));
    assert_eq!(px(&frame, 2, 1, 0), [3, 0, 0, 255]);
    assert_eq!(px(&frame, 2, 1, 1), [13, 0, 0, 255]);
    assert_eq!(px(&frame, 2, 0, 0), [0, 0, 0, 0]);
    let single = RenderContext { width: 4, height: 2, virtual_x: 0, virtual_y: 0, virtual_bounds: None };
    let mut frame = vec![0u8; 32];
    SelectionRenderer::render_selection_background(&single, &mut frame, &bg, (1, 1, 2, 2));
    assert_eq!(px(&frame, 4, 1, 1), [11, 0, 0, 255]);
    assert_eq!(px(&frame, 4, 0, 1), [0, 0, 0, 0]);
}

#[test]
fn frame_is_composed_in_order() {
    let tinted_data = numbered_background(4, 2);
    let original_data: Vec<u8> = numbered_background(4, 2).iter().map(|b| b.wrapping_add(100)).collect();
    let tinted = Background { data: &tinted_data, width: 4, height: 2 };
    let original = Background { data: &original_data, width: 4, height: 2 };
    let ctx = RenderContext { width: 2, height: 2, virtual_x: 2, virtual_y: 0, virtual_bounds: Some((0, 0, 4, 2)) };
    let mut frame = vec![0u8; 16];
    SelectionRenderer::render_frame(&ctx, &mut frame, [0, 0, 0, 128], Some(&tinted), Some(&original), (3, 0, 4, 2), true);
    assert_eq!(px(&frame, 2, 0, 0), [2, 0, 0, 255]);
    assert_eq!(px(&frame, 2, 1, 1), [255, 255, 255, 255]);
    let mut plain = vec![0u8; 16];
    SelectionRenderer::render_frame(&ctx, &mut plain, [0, 0, 0, 128], None, Some(&original), (3, 0, 4, 2), false);
    assert_eq!(px(&plain, 2, 1, 1), [0, 0, 0, 128]);
}
