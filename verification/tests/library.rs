use std::cell::RefCell;

use fsdk::consts::{FSDKE_FACE_NOT_FOUND, FSDKE_FAILED, FSDKE_OK};
use fsdk::error::FsdkError;
use fsdk::geometry::{BBox, Face, Point};
use fsdk::native::{Native, NativeCall, NativeReply};
use fsdk::{Camera, Image, Tracker, FSDK};

type NativeFn = fn(&NativeCall) -> NativeReply;

fn describe(c: &NativeCall) -> String {
    let text = |b: &Vec<u8>| String::from_utf8_lossy(b).into_owned();
    match c {
        NativeCall::ActivateLibrary { license_key } => format!("ActivateLibrary({})", text(license_key)),
        NativeCall::Initialize => "Initialize".to_string(),
        NativeCall::GetLicenseInfo => "GetLicenseInfo".to_string(),
        NativeCall::SetParameter { name, value } => format!("SetParameter({}={})", text(name), text(value)),
        NativeCall::CreateEmptyImage => "CreateEmptyImage".to_string(),
        NativeCall::FreeImage { image } => format!("FreeImage({})", image),
        NativeCall::LoadImageFromFile { path } => format!("LoadImageFromFile({})", text(path)),
        NativeCall::SaveImageToFile { image, path } => format!("SaveImageToFile({},{})", image, text(path)),
        NativeCall::SetJpegCompressionQuality { quality } => format!("SetJpegCompressionQuality({})", quality),
        NativeCall::CopyImage { src, dst } => format!("CopyImage({},{})", src, dst),
        NativeCall::CopyRect { src, x1, y1, x2, y2, dst } => {
            format!("CopyRect({},{},{},{},{},{})", src, x1, y1, x2, y2, dst)
        }
        NativeCall::GetImageBufferSize { image, image_mode } => format!("GetImageBufferSize({},{})", image, image_mode),
        NativeCall::SaveImageToBuffer { image, size, image_mode } => {
            format!("SaveImageToBuffer({},{},{})", image, size, image_mode)
        }
        NativeCall::GetImageWidth { image } => format!("GetImageWidth({})", image),
        NativeCall::GetImageHeight { image } => format!("GetImageHeight({})", image),
        NativeCall::DetectMultipleFaces2 { image, max_faces } => format!("DetectMultipleFaces2({},{})", image, max_faces),
        NativeCall::OpenIpVideoCamera { url, .. } => format!("OpenIpVideoCamera({})", text(url)),
        NativeCall::CloseVideoCamera { camera } => format!("CloseVideoCamera({})", camera),
        NativeCall::CreateTracker => "CreateTracker".to_string(),
        NativeCall::FreeTracker { tracker } => format!("FreeTracker({})", tracker),
        NativeCall::FeedFrame { tracker, camera_idx, image, max_ids } => {
            format!("FeedFrame({},{},{},{})", tracker, camera_idx, image, max_ids)
        }
        NativeCall::GetAllNames { tracker, id } => format!("GetAllNames({},{})", tracker, id),
        NativeCall::SetName { tracker, id, name } => format!("SetName({},{},{})", tracker, id, text(name)),
        NativeCall::GetSimilarIdCount { tracker, id } => format!("GetSimilarIdCount({},{})", tracker, id),
        NativeCall::GetSimilarIdList { tracker, id, count } => format!("GetSimilarIdList({},{},{})", tracker, id, count),
        _ => "other".to_string(),
    }
}

fn numbered(status: i32, number: i64) -> NativeReply {
    let mut r = NativeReply::new(status);
    r.number = number;
    r
}

#[test]
fn activation_passes_the_key_and_succeeds() {
    let log = RefCell::new(Vec::new());
    let native = |c: &NativeCall| {
        log.borrow_mut().push(describe(c));
        NativeReply::new(FSDKE_OK)
    };
    let mut native = Native::loaded(native);
    assert!(FSDK::activate_library(&mut native, "KEY-123").is_ok());
    assert_eq!(*log.borrow(), vec!["ActivateLibrary(KEY-123)".to_string()]);
}

#[test]
fn text_with_nul_is_refused_before_any_call() {
    let log = RefCell::new(Vec::new());
    let native = |c: &NativeCall| {
        log.borrow_mut().push(describe(c));
        NativeReply::new(FSDKE_OK)
    };
    let mut native = Native::loaded(native);
    match FSDK::set_parameter(&mut native, "Name", "a\0b") {
        Err(FsdkError::InvalidString(m)) => assert_eq!(m, "nul byte found in provided data at position: 1"),
        _ => panic!("expected an invalid string error"),
    }
    assert!(log.borrow().is_empty());
}

#[test]
fn library_load_error_is_returned() {
    let r = FSDK::initialize(&mut Native::<NativeFn>::failed("no library".to_string()));
    match r {
        Err(FsdkError::LibraryLoadError(m)) => assert_eq!(m, "no library"),
        _ => panic!("expected the load error"),
    }
}

#[test]
fn license_info_is_read_up_to_nul() {
    let native = |_c: &NativeCall| {
        let mut r = NativeReply::new(FSDKE_OK);
        r.bytes = b"Licensed to Example\0\0garbage".to_vec();
        r
    };
    let mut native = Native::loaded(native);
    assert_eq!(FSDK::get_license_info(&mut native).unwrap(), "Licensed to Example");
}

#[test]
fn failing_status_names_the_function() {
    let native = |_c: &NativeCall| NativeReply::new(-2);
    let mut native = Native::loaded(native);
    match FSDK::get_license_info(&mut native) {
        Err(FsdkError::FsdkError { func, code, name }) => {
            assert_eq!((func, code, name), ("GetLicenseInfo", -2, "FSDKE_NOT_ACTIVATED"));
        }
        _ => panic!("expected an FSDK error"),
    }
}

#[test]
fn image_release_frees_once() {
    let log = RefCell::new(Vec::new());
    let native = |c: &NativeCall| {
        log.borrow_mut().push(describe(c));
        numbered(FSDKE_OK, 5)
    };
    let mut native = Native::loaded(native);
    let mut img = Image::new(&mut native).unwrap();
    assert_eq!(img.handle(), 5);
    img.release(&mut native);
    assert_eq!(img.handle(), -1);
    img.release(&mut native);
    assert_eq!(*log.borrow(), vec!["CreateEmptyImage".to_string(), "FreeImage(5)".to_string()]);
    assert_eq!(Image::default().handle(), -1);
}

#[test]
fn image_paths_must_be_unicode() {
    let native = |_c: &NativeCall| numbered(FSDKE_OK, 3);
    let mut native = Native::loaded(native);
    match Image::from_file(&mut native, None) {
        Err(FsdkError::InvalidString(m)) => assert_eq!(m, "Invalid path"),
        _ => panic!("expected an invalid path error"),
    }
    assert_eq!(Image::from_file(&mut native, Some("in.jpg")).unwrap().handle(), 3);
}

#[test]
fn failed_copy_frees_the_new_image() {
    let log = RefCell::new(Vec::new());
    let native = |c: &NativeCall| {
        log.borrow_mut().push(describe(c));
        match c {
            NativeCall::CreateEmptyImage => numbered(FSDKE_OK, 9),
            NativeCall::CopyImage { .. } => NativeReply::new(FSDKE_FAILED),
            _ => NativeReply::new(FSDKE_OK),
        }
    };
    let mut native = Native::loaded(native);
    let src = Image::default();
    match src.copy(&mut native) {
        Err(FsdkError::FsdkError { func, code, .. }) => assert_eq!((func, code), ("CopyImage", -1)),
        _ => panic!("expected the copy error"),
    }
    assert_eq!(
        *log.borrow(),
        vec!["CreateEmptyImage".to_string(), "CopyImage(-1,9)".to_string(), "FreeImage(9)".to_string()]
    );
}

#[test]
fn crop_fills_a_new_image() {
    let log = RefCell::new(Vec::new());
    let native = |c: &NativeCall| {
        log.borrow_mut().push(describe(c));
        numbered(FSDKE_OK, 4)
    };
    let mut native = Native::loaded(native);
    let img = Image::default();
    let cropped = img.crop(&mut native, 1, 2, 30, 40).unwrap();
    assert_eq!(cropped.handle(), 4);
    assert_eq!(*log.borrow(), vec!["CreateEmptyImage".to_string(), "CopyRect(-1,1,2,30,40,4)".to_string()]);
}

#[test]
fn image_to_buffer_asks_the_size_first() {
    let log = RefCell::new(Vec::new());
    let native = |c: &NativeCall| {
        log.borrow_mut().push(describe(c));
        match c {
            NativeCall::GetImageBufferSize { .. } => numbered(FSDKE_OK, 6),
            _ => {
                let mut r = NativeReply::new(FSDKE_OK);
                r.bytes = vec![1, 2, 3, 4, 5, 6];
                r
            }
        }
    };
    let mut native = Native::loaded(native);
    let img = Image::default();
    assert_eq!(img.to_buffer(&mut native, 1).unwrap(), vec![1, 2, 3, 4, 5, 6]);
    assert_eq!(
        *log.borrow(),
        vec!["GetImageBufferSize(-1,1)".to_string(), "SaveImageToBuffer(-1,6,1)".to_string()]
    );
}

#[test]
fn image_size_reads_width_then_height() {
    let native = |c: &NativeCall| match c {
        NativeCall::GetImageWidth { .. } => numbered(FSDKE_OK, 640),
        _ => numbered(FSDKE_OK, 480),
    };
    let mut native = Native::loaded(native);
    assert_eq!(Image::default().size(&mut native).unwrap(), (640, 480));
    let failing = |c: &NativeCall| match c {
        NativeCall::GetImageWidth { .. } => numbered(FSDKE_OK, 640),
        _ => NativeReply::new(-4),
    };
    let mut failing = Native::loaded(failing);
    match Image::default().size(&mut failing) {
        Err(FsdkError::FsdkError { func, .. }) => assert_eq!(func, "GetImageHeight"),
        _ => panic!("expected the height error"),
    }
}

#[test]
fn save_with_quality_sets_quality_then_saves() {
    let log = RefCell::new(Vec::new());
    let native = |c: &NativeCall| {
        log.borrow_mut().push(describe(c));
        NativeReply::new(FSDKE_OK)
    };
    let mut native = Native::loaded(native);
    Image::default().save_to_file_with_quality(&mut native, Some("out.jpg"), 85).unwrap();
    assert_eq!(
        *log.borrow(),
        vec!["SetJpegCompressionQuality(85)".to_string(), "SaveImageToFile(-1,out.jpg)".to_string()]
    );
}

fn face_at(x: i32) -> Face {
    let p = Point { x, y: x };
    Face { bbox: BBox { p0: p, p1: p }, features: [p; 5] }
}

#[test]
fn detection_lists_keep_the_reported_count() {
    let native = |_c: &NativeCall| {
        let mut r = numbered(FSDKE_OK, 2);
        r.faces = vec![face_at(1), face_at(2), face_at(3)];
        r
    };
    let mut native = Native::loaded(native);
    let faces = Image::default().detect_multiple_faces2(&mut native, 3).unwrap();
    assert_eq!(faces.len(), 2);
    assert_eq!((faces[0].bbox.p0.x, faces[1].bbox.p0.x), (1, 2));
    let none = |_c: &NativeCall| NativeReply::new(FSDKE_FACE_NOT_FOUND);
    let mut none = Native::loaded(none);
    assert!(Image::default().detect_multiple_faces2(&mut none, 3).unwrap().is_empty());
    let broken = |_c: &NativeCall| NativeReply::new(-6);
    let mut broken = Native::loaded(broken);
    assert!(Image::default().detect_multiple_faces2(&mut broken, 3).is_err());
}

#[test]
fn camera_close_is_idempotent() {
    let log = RefCell::new(Vec::new());
    let native = |c: &NativeCall| {
        log.borrow_mut().push(describe(c));
        numbered(FSDKE_OK, 2)
    };
    let mut native = Native::loaded(native);
    let mut cam = Camera::open_ip(&mut native, 0, "http://cam", "u", "p", 10).unwrap();
    assert!(cam.close(&mut native).is_ok());
    assert!(cam.close(&mut native).is_ok());
    cam.release(&mut native);
    assert_eq!(
        *log.borrow(),
        vec!["OpenIpVideoCamera(http://cam)".to_string(), "CloseVideoCamera(2)".to_string()]
    );
}

#[test]
fn tracker_names_and_ids() {
    let log = RefCell::new(Vec::new());
    let native = |c: &NativeCall| {
        log.borrow_mut().push(describe(c));
        match c {
            NativeCall::CreateTracker => numbered(FSDKE_OK, 8),
            NativeCall::GetAllNames { .. } => {
                let mut r = NativeReply::new(FSDKE_OK);
                r.bytes = b"Ann;;Ben;\0xx".to_vec();
                r
            }
            NativeCall::FeedFrame { .. } => {
                let mut r = numbered(FSDKE_OK, 2);
                r.ids = vec![11, 12, 0, 0];
                r
            }
            _ => NativeReply::new(FSDKE_OK),
        }
    };
    let mut native = Native::loaded(native);
    let mut tracker = Tracker::new(&mut native).unwrap();
    assert_eq!(tracker.handle(), 8);
    assert_eq!(tracker.get_all_names(&mut native, 11).unwrap(), vec!["Ann".to_string(), "Ben".to_string()]);
    let frame = Image::default();
    assert_eq!(tracker.feed_frame(&mut native, 0, &frame, 4).unwrap(), vec![11, 12]);
    tracker.set_name(&mut native, 11, "Ann").unwrap();
    tracker.release(&mut native);
    tracker.release(&mut native);
    assert_eq!(
        *log.borrow(),
        vec![
            "CreateTracker".to_string(),
            "GetAllNames(8,11)".to_string(),
            "FeedFrame(8,0,-1,4)".to_string(),
            "SetName(8,11,Ann)".to_string(),
            "FreeTracker(8)".to_string(),
        ]
    );
}

#[test]
fn similar_ids_are_listed_after_counting() {
    let log = RefCell::new(Vec::new());
    let native = |c: &NativeCall| {
        log.borrow_mut().push(describe(c));
        match c {
            NativeCall::CreateTracker => numbered(FSDKE_OK, 1),
            NativeCall::GetSimilarIdCount { id, .. } => numbered(FSDKE_OK, if *id == 5 { 0 } else { 2 }),
            _ => {
                let mut r = NativeReply::new(FSDKE_OK);
                r.ids = vec![21, 22];
                r
            }
        }
    };
    let mut native = Native::loaded(native);
    let tracker = Tracker::new(&mut native).unwrap();
    assert!(tracker.get_similar_id_list(&mut native, 5).unwrap().is_empty());
    assert_eq!(tracker.get_similar_id_list(&mut native, 6).unwrap(), vec![21, 22]);
    assert_eq!(
        *log.borrow(),
        vec![
            "CreateTracker".to_string(),
            "GetSimilarIdCount(1,5)".to_string(),
            "GetSimilarIdCount(1,6)".to_string(),
            "GetSimilarIdList(1,6,2)".to_string(),
        ]
    );
}

#[test]
fn camera_with_nul_in_url_is_not_opened() {
    let log = RefCell::new(Vec::new());
    let native = |c: &NativeCall| {
        log.borrow_mut().push(describe(c));
        numbered(FSDKE_OK, 2)
    };
    let mut native = Native::loaded(native);
    assert!(matches!(
        Camera::open_ip(&mut native, 0, "http://cam\0", "u", "p", 10),
        Err(FsdkError::InvalidString(_))
    ));
    let mut closed = Camera::open_ip(&mut native, 0, "http://cam", "u", "p", 10).unwrap();
    closed.release(&mut native);
    assert!(closed.close(&mut native).is_ok());
    assert_eq!(
        *log.borrow(),
        vec!["OpenIpVideoCamera(http://cam)".to_string(), "CloseVideoCamera(2)".to_string()]
    );
}

#[test]
fn feed_frame_never_exceeds_max_ids() {
    let native = |c: &NativeCall| match c {
        NativeCall::CreateTracker => numbered(FSDKE_OK, 1),
        _ => {
            let mut r = numbered(FSDKE_OK, 10);
            r.ids = vec![1, 2, 3, 4, 5];
            r
        }
    };
    let mut native = Native::loaded(native);
    let tracker = Tracker::new(&mut native).unwrap();
    assert_eq!(tracker.feed_frame(&mut native, 0, &Image::default(), 3).unwrap(), vec![1, 2, 3]);
}

#[test]
fn no_known_ids_lists_nothing_after_one_call() {
    let log = RefCell::new(Vec::new());
    let native = |c: &NativeCall| {
        log.borrow_mut().push(describe(c));
        numbered(FSDKE_OK, 0)
    };
    let mut native = Native::loaded(native);
    let tracker = Tracker::new(&mut native).unwrap();
    assert!(tracker.get_all_ids(&mut native).unwrap().is_empty());
    assert_eq!(log.borrow().len(), 2);
}

#[test]
fn unloaded_library_makes_no_call_and_reports_its_message() {
    let mut native = Native::<NativeFn>::failed("Could not load".to_string());
    let mut img = Image::default();
    img.release(&mut native);
    match Image::new(&mut native) {
        Err(e) => assert_eq!(e.message(), "FSDK library loading error: Could not load"),
        Ok(_) => panic!("expected the load error"),
    }
}
