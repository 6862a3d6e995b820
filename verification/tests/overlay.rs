use fsdk::overlay::{
    default_output_name, dialog_name, display_name, face_color, face_hit, face_label,
    jpeg_payload_bounds, name_dialog_default, name_dialog_title, rgb_to_display, Liveness,
    COLOR_HOVERED, COLOR_LIVE, COLOR_LIVENESS_ERROR, COLOR_SPOOF,
};

#[test]
fn face_labels() {
    assert_eq!(face_label(7, ""), "ID:7");
    assert_eq!(face_label(12, "Alice"), "ID:12 Alice");
    assert_eq!(face_label(-3, "x"), "ID:-3 x");
}

#[test]
fn name_dialog_texts() {
    assert_eq!(name_dialog_title(42), "Name Face ID 42");
    assert_eq!(name_dialog_default(""), " ");
    assert_eq!(name_dialog_default("Bob"), "Bob");
}

#[test]
fn dialog_name_trims_and_drops_empty() {
    assert_eq!(dialog_name(None), None);
    assert_eq!(dialog_name(Some("   ".to_string())), None);
    assert_eq!(dialog_name(Some("".to_string())), None);
    assert_eq!(dialog_name(Some("  Carol \n".to_string())), Some("Carol".to_string()));
}

#[test]
fn display_name_is_first_non_empty() {
    assert_eq!(display_name(&vec![]), "");
    assert_eq!(display_name(&vec!["".to_string(), "Dan".to_string(), "Eve".to_string()]), "Dan");
    assert_eq!(display_name(&vec!["".to_string()]), "");
}

#[test]
fn default_output_file_name() {
    assert_eq!(default_output_name("photo.jpg"), "face.photo.jpg");
    assert_eq!(default_output_name(""), "face.");
}

#[test]
fn jpeg_bounds_cut_around_markers() {
    let raw = [0x00, 0x11, 0xff, 0xd8, 0x01, 0x02, 0xff, 0xd9, 0x33];
    assert_eq!(jpeg_payload_bounds(&raw), (2, 8));
    let plain = [1, 2, 3];
    assert_eq!(jpeg_payload_bounds(&plain), (0, 3));
    let two_ends = [0xff, 0xd8, 0xff, 0xd9, 0x00, 0xff, 0xd9, 0x00];
    assert_eq!(jpeg_payload_bounds(&two_ends), (0, 7));
    assert_eq!(jpeg_payload_bounds(&[]), (0, 0));
}

#[test]
fn rgb_frame_to_display_pixels() {
    let rgb = vec![0x12, 0x34, 0x56, 0xff, 0x00, 0x80];
    let mut display = vec![7u32; 3];
    rgb_to_display(&rgb, 2, 1, &mut display);
    assert_eq!(display, vec![0x123456, 0xff0080, 7]);
}

#[test]
fn face_hit_includes_borders() {
    let rect = (10, 20, 30, 40);
    assert!(face_hit(rect, 10, 20));
    assert!(face_hit(rect, 30, 40));
    assert!(face_hit(rect, 15, 25));
    assert!(!face_hit(rect, 9, 25));
    assert!(!face_hit(rect, 15, 41));
}

#[test]
fn face_colors() {
    assert_eq!(face_color(true, true, Liveness::Spoof), COLOR_HOVERED);
    assert_eq!(face_color(false, true, Liveness::Live), COLOR_LIVENESS_ERROR);
    assert_eq!(face_color(false, false, Liveness::Spoof), COLOR_SPOOF);
    assert_eq!(face_color(false, false, Liveness::Live), COLOR_LIVE);
    assert_eq!(face_color(false, false, Liveness::Unknown), COLOR_SPOOF);
    assert_eq!(COLOR_HOVERED, 0x4488FF);
    assert_eq!(COLOR_SPOOF, 0xFF0000);
}
