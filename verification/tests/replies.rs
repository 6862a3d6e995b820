use fsdk::consts::{FSDKE_FACE_NOT_FOUND, FSDKE_OK};
use fsdk::error::FsdkError;
use fsdk::geometry::{BBox, Face, Point};
use fsdk::native::{
    found_list, keep_at_most, keep_counted, reply_counted_ids, reply_faces_and_features, reply_i32,
    reply_ids, reply_names, reply_text, reply_unit, NativeReply,
};

#[test]
fn keep_counted_truncates_like_vec_truncate() {
    assert_eq!(keep_counted(vec![1, 2, 3], 2), vec![1, 2]);
    assert_eq!(keep_counted(vec![1, 2, 3], 0), Vec::<i32>::new());
    assert_eq!(keep_counted(vec![1, 2, 3], 3), vec![1, 2, 3]);
    assert_eq!(keep_counted(vec![1, 2, 3], 9), vec![1, 2, 3]);
    assert_eq!(keep_counted(vec![1, 2, 3], -1), vec![1, 2, 3]);
}

#[test]
fn found_list_outcomes() {
    assert_eq!(found_list("DetectMultipleFaces", FSDKE_FACE_NOT_FOUND, 5, vec![1, 2], 2).unwrap(), Vec::<i32>::new());
    assert_eq!(found_list("DetectMultipleFaces", FSDKE_OK, 1, vec![1, 2], 2).unwrap(), vec![1]);
    match found_list("DetectMultipleFaces", -5, 1, vec![1, 2], 2) {
        Err(FsdkError::FsdkError { func, code, name }) => {
            assert_eq!((func, code, name), ("DetectMultipleFaces", -5, "FSDKE_IO_ERROR"));
        }
        _ => panic!("expected an FSDK error"),
    }
}

#[test]
fn found_list_never_exceeds_the_buffer() {
    assert_eq!(found_list("DetectMultipleFaces", FSDKE_OK, 5, vec![1, 2, 3, 4], 2).unwrap(), vec![1, 2]);
    assert_eq!(found_list("DetectMultipleFaces", FSDKE_OK, -1, vec![1, 2, 3], 9).unwrap(), vec![1, 2, 3]);
    assert_eq!(keep_at_most(vec![1, 2, 3], 1), vec![1]);
    assert_eq!(keep_at_most(vec![1, 2, 3], 7), vec![1, 2, 3]);
}

#[test]
fn faces_and_features_stay_paired() {
    let p = Point { x: 0, y: 0 };
    let face = Face { bbox: BBox { p0: p, p1: p }, features: [p; 5] };
    let mut r = NativeReply::new(FSDKE_OK);
    r.number = 3;
    r.faces = vec![face; 4];
    r.feature_sets = vec![[p; 70]; 2];
    let (faces, sets) = reply_faces_and_features("DetectMultipleFacesAndFeatures2", r, 4).unwrap();
    assert_eq!((faces.len(), sets.len()), (2, 2));
    let mut r = NativeReply::new(FSDKE_OK);
    r.number = 9;
    r.faces = vec![face; 4];
    r.feature_sets = vec![[p; 70]; 4];
    let (faces, sets) = reply_faces_and_features("DetectMultipleFacesAndFeatures2", r, 3).unwrap();
    assert_eq!((faces.len(), sets.len()), (3, 3));
}

#[test]
fn listed_ids_are_cut_to_the_count() {
    let mut r = NativeReply::new(FSDKE_OK);
    r.ids = vec![7, 8, 9];
    assert_eq!(reply_ids("GetTrackerAllIDs", r, 2).unwrap(), vec![7, 8]);
}

#[test]
fn decoded_text_holds_no_nul() {
    let mut r = NativeReply::new(FSDKE_OK);
    r.bytes = b"Male=0.95;Female=0.05\0\0\0".to_vec();
    let s = reply_text("DetectFacialAttributeUsingFeatures", &r).unwrap();
    assert_eq!(s, "Male=0.95;Female=0.05");
    assert!(!s.contains('\0'));
}

#[test]
fn replies_to_values() {
    let mut r = NativeReply::new(FSDKE_OK);
    r.number = 77;
    assert_eq!(reply_i32("GetNumThreads", &r).unwrap(), 77);
    assert!(reply_unit("Finalize", &r).is_ok());
    r.bytes = b"a;b\0".to_vec();
    assert_eq!(reply_text("GetName", &r).unwrap(), "a;b");
    assert_eq!(reply_names("GetAllNames", &r).unwrap(), vec!["a".to_string(), "b".to_string()]);
    r.ids = vec![4, 5, 6];
    r.number = 1;
    assert_eq!(reply_counted_ids("FeedFrame", r, 5).unwrap(), vec![4]);
    let failed = NativeReply::new(-18);
    match reply_text("GetName", &failed) {
        Err(FsdkError::FsdkError { func, code, name }) => {
            assert_eq!((func, code, name), ("GetName", -18, "FSDKE_ID_NOT_FOUND"));
        }
        _ => panic!("expected an FSDK error"),
    }
}
