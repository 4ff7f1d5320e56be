use desktop_pet::app::render_sheet_frame;
use desktop_pet::pet::entity::{load_sprite, load_sprite_sheet, rgba_to_bgra, DecodedImage, FrameRect, Pet};
use desktop_pet::renderer::draw::{FrameBuffer, SpriteImage};

const M: [u8; 4] = [0xFF, 0x00, 0xFF, 0xFF];

#[test]
fn rgba_to_bgra_swaps_red_and_blue() {
    let v = vec![1, 2, 3, 4, 5, 6, 7, 8];
    let w = rgba_to_bgra(&v);
    assert_eq!(w, vec![3, 2, 1, 4, 7, 6, 5, 8]);
    assert_eq!(rgba_to_bgra(&w), v);
}

#[test]
fn sprite_is_resized_and_converted() {
    let img = DecodedImage { width: 1, height: 1, pixels: vec![10, 20, 30, 40] };
    let s = load_sprite(img, 2, 2);
    assert_eq!(s.width, 2);
    assert_eq!(s.height, 2);
    assert_eq!(s.pixels, vec![30, 20, 10, 40, 30, 20, 10, 40, 30, 20, 10, 40, 30, 20, 10, 40]);
}

#[test]
fn sprite_downscale_picks_nearest() {
    // 2x1 image, shrink to 1x1: one of the two pixels comes out unchanged
    let img = DecodedImage { width: 2, height: 1, pixels: vec![1, 2, 3, 255, 9, 8, 7, 255] };
    let s = load_sprite(img, 1, 1);
    assert_eq!(s.pixels.len(), 4);
    assert!(s.pixels == vec![3, 2, 1, 255] || s.pixels == vec![7, 8, 9, 255]);
}

#[test]
fn sprite_same_size_is_a_copy() {
    let img = DecodedImage { width: 1, height: 2, pixels: vec![1, 2, 3, 4, 5, 6, 7, 8] };
    let s = load_sprite(img, 1, 2);
    assert_eq!(s.pixels, vec![3, 2, 1, 4, 7, 6, 5, 8]);
}

#[test]
fn sheet_is_cut_row_by_row() {
    let img = DecodedImage { width: 9, height: 5, pixels: vec![0; 9 * 5 * 4] };
    let (sheet, frames) = load_sprite_sheet(img, 4, 2);
    assert_eq!(sheet.width, 9);
    assert_eq!(sheet.height, 5);
    assert_eq!(frames.len(), 8);
    assert_eq!(frames[0], FrameRect { x: 0, y: 0, w: 2, h: 2 });
    assert_eq!(frames[3], FrameRect { x: 6, y: 0, w: 2, h: 2 });
    assert_eq!(frames[5], FrameRect { x: 2, y: 2, w: 2, h: 2 });
    for f in &frames {
        assert!(f.x + f.w <= 9 && f.y + f.h <= 5);
    }
}

#[test]
fn new_frame_buffer_is_zero_and_clears_to_magenta() {
    let mut fb = FrameBuffer::new(2, 1);
    assert_eq!(fb.pixels, vec![0; 8]);
    fb.clear_to_magenta();
    assert_eq!(fb.pixels, [M, M].concat());
}

#[test]
fn sprite_is_stretched_over_buffer() {
    // 2x1 sprite: left pixel opaque red, right pixel transparent
    let sprite = SpriteImage::from_bgra(2, 1, vec![0, 0, 255, 255, 9, 9, 9, 0]);
    let mut fb = FrameBuffer::new(4, 2);
    fb.prepare_sprite(&sprite);
    let red = [0u8, 0, 255, 255];
    let row = [red, red, M, M].concat();
    assert_eq!(fb.pixels, [row.clone(), row].concat());
}

#[test]
fn frame_is_cut_from_sheet() {
    // 2x2 sheet; frame (1,1) of size 1x1 is blue
    let sheet = SpriteImage::from_bgra(
        2,
        2,
        vec![1, 1, 1, 255, 2, 2, 2, 255, 3, 3, 3, 255, 255, 0, 0, 200],
    );
    let mut fb = FrameBuffer::new(2, 1);
    fb.prepare_frame(&sheet, 1, 1, 1, 1, true);
    assert_eq!(fb.pixels, vec![255, 0, 0, 200, 255, 0, 0, 200]);
    // an empty frame leaves just the background
    fb.prepare_frame(&sheet, 1, 1, 0, 1, false);
    assert_eq!(fb.pixels, [M, M].concat());
}

#[test]
fn pet_frame_is_picked_by_state_and_frame() {
    // 2 frames per row, 7 rows of 1x1 frames; frame k has colour k
    let mut px = Vec::new();
    for k in 0..14u8 {
        px.extend_from_slice(&[k, k, k, 255]);
    }
    let img = DecodedImage { width: 2, height: 7, pixels: px };
    let (sheet, frames) = load_sprite_sheet(img, 2, 7);
    let mut pet = Pet::new(2);
    pet.update(true, false, false); // walk right, frame 1 -> index 3
    let mut fb = FrameBuffer::new(1, 1);
    render_sheet_frame(&mut fb, &sheet, &frames, &pet);
    assert_eq!(fb.pixels, vec![3, 3, 3, 255]);
    let mut fb2 = FrameBuffer::new(1, 1);
    render_sheet_frame(&mut fb2, &sheet, &Vec::new(), &pet);
    assert_eq!(fb2.pixels, vec![0, 0, 0, 0]);
}

#[test]
fn same_size_opaque_sprite_is_copied() {
    let px = vec![1, 2, 3, 255, 4, 5, 6, 9, 7, 8, 9, 1, 10, 11, 12, 128];
    let sprite = SpriteImage::from_bgra(2, 2, px.clone());
    let mut fb = FrameBuffer::new(2, 2);
    fb.prepare_sprite(&sprite);
    assert_eq!(fb.pixels, px);
}

#[test]
fn transparent_sprite_leaves_background() {
    let sprite = SpriteImage::from_bgra(1, 1, vec![1, 2, 3, 0]);
    let mut fb = FrameBuffer::new(3, 2);
    fb.prepare_sprite(&sprite);
    assert_eq!(fb.pixels, [M, M, M, M, M, M].concat());
}

#[test]
fn empty_frame_off_the_sheet_is_all_background() {
    let sheet = SpriteImage::from_bgra(1, 1, vec![1, 2, 3, 255]);
    let mut fb = FrameBuffer::new(2, 1);
    fb.prepare_frame(&sheet, 50, 60, 0, 4, true);
    assert_eq!(fb.pixels, [M, M].concat());
    fb.prepare_frame(&sheet, 7, 0, 3, 0, false);
    assert_eq!(fb.pixels, [M, M].concat());
}

#[test]
fn facing_does_not_change_the_frame() {
    let sheet = SpriteImage::from_bgra(2, 1, vec![1, 2, 3, 255, 4, 5, 6, 255]);
    let mut a = FrameBuffer::new(2, 1);
    let mut b = FrameBuffer::new(2, 1);
    a.prepare_frame(&sheet, 0, 0, 2, 1, true);
    b.prepare_frame(&sheet, 0, 0, 2, 1, false);
    assert_eq!(a.pixels, b.pixels);
    assert_eq!(a.pixels, vec![1, 2, 3, 255, 4, 5, 6, 255]);
}

#[test]
fn empty_image_resizes_to_blank_pixels() {
    let img = DecodedImage { width: 0, height: 3, pixels: vec![] };
    let s = load_sprite(img, 2, 1);
    assert_eq!(s.pixels.len(), 8);
}
