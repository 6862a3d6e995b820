use fsdk::canvas::{
    draw_face_frame, draw_frame, draw_text_pass, draw_text_simple, scale_buffer_proportional,
    set_pixel, Glyph, SHADOW_COLOR, TEXT_COLOR,
};

fn at(buf: &[u32], width: usize, x: usize, y: usize) -> u32 {
    buf[y * width + x]
}

#[test]
fn set_pixel_changes_one_pixel() {
    let mut buf = vec![0u32; 12];
    set_pixel(&mut buf, 4, 3, 2, 1, 9);
    assert_eq!(buf[6], 9);
    assert_eq!(buf.iter().filter(|p| **p != 0).count(), 1);
}

#[test]
fn frame_bands_are_three_pixels_inside_the_box() {
    let mut buf = vec![0u32; 400];
    draw_frame(&mut buf, 20, 20, 2, 2, 15, 15, 7);
    for (x, y, painted) in [
        (2, 2, true),
        (8, 4, true),
        (8, 5, false),
        (8, 12, false),
        (8, 13, true),
        (15, 15, true),
        (4, 8, true),
        (5, 8, false),
        (12, 8, false),
        (13, 8, true),
        (16, 8, false),
        (1, 8, false),
        (8, 8, false),
        (8, 1, false),
    ] {
        assert_eq!(at(&buf, 20, x, y) == 7, painted, "pixel ({}, {})", x, y);
    }
}

#[test]
fn face_frame_clamps_and_places_labels() {
    let mut buf = vec![0u32; 400];
    let a = draw_face_frame(&mut buf, 20, 20, (-5, 3, 100, 10), 0xFF0000);
    assert_eq!((a.name_x, a.name_y, a.status_x, a.status_y), (0, 0, 0, 15));
    assert_eq!(at(&buf, 20, 0, 3), 0xFF0000);
    assert_eq!(at(&buf, 20, 19, 10), 0xFF0000);
    assert_eq!(at(&buf, 20, 10, 7), 0);
    assert_eq!(at(&buf, 20, 10, 2), 0);

    let mut buf = vec![1u32; 400];
    let a = draw_face_frame(&mut buf, 20, 20, (4, 30, 10, 200), 5);
    assert_eq!((a.name_x, a.name_y, a.status_x, a.status_y), (4, 5, 4, 24));
    assert!(buf.iter().all(|p| *p == 1));
}

fn glyph(x: i32) -> Glyph {
    Glyph { x, ymin: 0, width: 2, height: 2, bitmap: vec![255, 128, 0, 255] }
}

#[test]
fn text_with_shadow_blends_partial_coverage() {
    let mut buf = vec![0x808080u32; 100];
    draw_text_simple(&mut buf, 10, 0, 5, &vec![glyph(2)], &vec![glyph(1)]);
    assert_eq!(at(&buf, 10, 1, 3), TEXT_COLOR);
    assert_eq!(at(&buf, 10, 2, 3), 0xBFBFBF);
    assert_eq!(at(&buf, 10, 2, 4), TEXT_COLOR);
    assert_eq!(at(&buf, 10, 3, 4), 0x3F3F3F);
    assert_eq!(at(&buf, 10, 3, 5), SHADOW_COLOR);
    assert_eq!(at(&buf, 10, 1, 4), 0x808080);
    assert_eq!(at(&buf, 10, 0, 0), 0x808080);
}

#[test]
fn text_outside_the_buffer_is_clipped() {
    let mut buf = vec![0u32; 16];
    let g = Glyph { x: -1, ymin: 0, width: 3, height: 1, bitmap: vec![255, 255, 255] };
    draw_text_pass(&mut buf, 4, 4, -9, 10, &vec![g], 0xABCDEF);
    assert_eq!(&buf[0..4], &[0xABCDEF, 0xABCDEF, 0, 0]);
    let far = Glyph { x: 0, ymin: 0, width: 1, height: 1, bitmap: vec![255] };
    draw_text_pass(&mut buf, 4, 4, 10, 0, &vec![far], 1);
    assert_eq!(buf.iter().filter(|p| **p == 1).count(), 0);
}

#[test]
fn scale_centers_with_black_borders() {
    let src = vec![1, 2, 3, 4];
    let mut dst = vec![9u32; 3];
    let placed = scale_buffer_proportional(&src, 2, 2, 4, 2, (2, 2), &mut dst);
    assert_eq!(placed, (1, 0, 2, 2));
    assert_eq!(dst, vec![0, 1, 2, 0, 0, 3, 4, 0]);
}

#[test]
fn scale_up_repeats_nearest_pixels() {
    let src = vec![5, 6];
    let mut dst = Vec::new();
    let placed = scale_buffer_proportional(&src, 2, 1, 4, 2, (4, 2), &mut dst);
    assert_eq!(placed, (0, 0, 4, 2));
    assert_eq!(dst, vec![5, 5, 6, 6, 5, 5, 6, 6]);
}

#[test]
fn scale_of_empty_image_is_empty() {
    let mut dst = vec![1u32, 2];
    assert_eq!(scale_buffer_proportional(&vec![], 0, 3, 4, 4, (0, 0), &mut dst), (0, 0, 0, 0));
    assert!(dst.is_empty());
}
