use fsdk::consts::{error_name, FSDKE_FACE_NOT_FOUND, FSDKE_INVALID_ARGUMENT, FSDKE_OK};
use fsdk::error::{check_result, FsdkError};

#[test]
fn error_name_of_known_codes() {
    assert_eq!(error_name(0), "FSDKE_OK");
    assert_eq!(error_name(-1), "FSDKE_FAILED");
    assert_eq!(error_name(-4), "FSDKE_INVALID_ARGUMENT");
    assert_eq!(error_name(-7), "FSDKE_FACE_NOT_FOUND");
    assert_eq!(error_name(-18), "FSDKE_ID_NOT_FOUND");
    assert_eq!(error_name(-33), "FSDKE_FACEIMAGE_NOT_FOUND");
}

#[test]
fn error_name_of_unknown_codes() {
    assert_eq!(error_name(1), "FSDKE_UNKNOWN");
    assert_eq!(error_name(-34), "FSDKE_UNKNOWN");
    assert_eq!(error_name(i32::MIN), "FSDKE_UNKNOWN");
}

#[test]
fn from_code_carries_function_code_and_name() {
    let e = FsdkError::from_code("DetectFace", FSDKE_FACE_NOT_FOUND);
    match e {
        FsdkError::FsdkError { func, code, name } => {
            assert_eq!(func, "DetectFace");
            assert_eq!(code, -7);
            assert_eq!(name, "FSDKE_FACE_NOT_FOUND");
        }
        _ => panic!("wrong variant"),
    }
}

#[test]
fn face_not_found_is_recognized() {
    assert!(FsdkError::from_code("DetectFace", FSDKE_FACE_NOT_FOUND).is_face_not_found());
    assert!(!FsdkError::from_code("DetectFace", FSDKE_INVALID_ARGUMENT).is_face_not_found());
    assert!(!FsdkError::LibraryLoadError("missing".to_string()).is_face_not_found());
    assert!(!FsdkError::InvalidString("bad".to_string()).is_face_not_found());
}

#[test]
fn check_result_ok_only_on_success() {
    assert!(check_result("Initialize", FSDKE_OK).is_ok());
    match check_result("Initialize", -2) {
        Err(FsdkError::FsdkError { func, code, name }) => {
            assert_eq!(func, "Initialize");
            assert_eq!(code, -2);
            assert_eq!(name, "FSDKE_NOT_ACTIVATED");
        }
        _ => panic!("expected an FSDK error"),
    }
    assert!(check_result("Initialize", 5).is_err());
}

#[test]
fn error_messages() {
    assert_eq!(
        FsdkError::from_code("DetectFace", FSDKE_FACE_NOT_FOUND).message(),
        "FSDK function DetectFace failed with error -7 (FSDKE_FACE_NOT_FOUND)"
    );
    assert_eq!(
        FsdkError::LibraryLoadError("missing".to_string()).message(),
        "FSDK library loading error: missing"
    );
    assert_eq!(FsdkError::InvalidString("Invalid path".to_string()).message(), "Invalid string: Invalid path");
    assert_eq!(FsdkError::from_code("X", 12).message(), "FSDK function X failed with error 12 (FSDKE_UNKNOWN)");
}
