use fsdk::geometry::{BBox, Eyes, Face, FacePosition, FaceTemplate, Point};
use fsdk::platform::{get_library_path, library_candidates, Platform, TargetOs};

fn face(x0: i32, y0: i32, x1: i32, y1: i32) -> Face {
    let p = Point { x: 0, y: 0 };
    Face { bbox: BBox { p0: Point { x: x0, y: y0 }, p1: Point { x: x1, y: y1 } }, features: [p; 5] }
}

#[test]
fn face_rect_is_the_bounding_box() {
    let f = face(10, 20, 110, 170);
    assert_eq!(f.rect(), (10, 20, 110, 170));
    assert_eq!(f.width(), 100);
    assert_eq!(f.height(), 150);
}

#[test]
fn face_center_rounds_toward_zero() {
    let c = face(10, 20, 111, 171).center();
    assert_eq!((c.x, c.y), (60, 95));
    let c = face(-11, -21, 0, 0).center();
    assert_eq!((c.x, c.y), (-5, -10));
}

#[test]
fn face_position_rect_is_a_square_around_the_center() {
    let fp = FacePosition { xc: 100, yc: 80, w: 41 };
    assert_eq!(fp.rect(), (80, 60, 120, 100));
    let fp = FacePosition { xc: 0, yc: 0, w: -5 };
    assert_eq!(fp.rect(), (2, 2, -2, -2));
}

#[test]
fn defaults_are_zero() {
    let p = Point::default();
    assert_eq!((p.x, p.y), (0, 0));
    let e = Eyes::default();
    assert_eq!((e.left.x, e.left.y, e.right.x, e.right.y), (0, 0, 0, 0));
    let t = FaceTemplate::default();
    assert_eq!(t.data.len(), 2068);
    assert!(t.data.iter().all(|b| *b == 0));
}

#[test]
fn library_path_per_platform() {
    let p = |os, aarch64, w64| Platform { os, aarch64, pointer_width_64: w64 };
    assert_eq!(get_library_path(p(TargetOs::MacOs, true, true)), "fsdk/osx_arm64/libfsdk.dylib");
    assert_eq!(get_library_path(p(TargetOs::MacOs, false, true)), "fsdk/osx_x86_64/libfsdk.dylib");
    assert_eq!(get_library_path(p(TargetOs::Linux, false, true)), "fsdk/linux64/libfsdk.so");
    assert_eq!(get_library_path(p(TargetOs::Linux, false, false)), "fsdk/linux32/libfsdk.so");
    assert_eq!(get_library_path(p(TargetOs::Windows, false, true)), "fsdk/win64/facesdk.dll");
    assert_eq!(get_library_path(p(TargetOs::Windows, false, false)), "fsdk/win32/facesdk.dll");
}

#[test]
fn library_candidates_try_the_parent_directory_second() {
    let c = library_candidates("fsdk/linux64/libfsdk.so");
    assert_eq!(c, vec!["fsdk/linux64/libfsdk.so".to_string(), "../fsdk/linux64/libfsdk.so".to_string()]);
}
