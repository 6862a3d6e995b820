//! Constants of the FaceSDK C interface: error codes, image modes and sizes.

use vstd::prelude::*;

verus! {

/// Number of points in a full set of facial features.
pub const FSDK_FACIAL_FEATURE_COUNT: usize = 70;

/// Size in bytes of a face template.
pub const FSDK_FACE_TEMPLATE_SIZE: usize = 2068;

/// Image mode: 8-bit grayscale.
pub const FSDK_IMAGE_GRAYSCALE_8BIT: i32 = 0;

/// Image mode: 24-bit color (RGB).
pub const FSDK_IMAGE_COLOR_24BIT: i32 = 1;

/// Image mode: 32-bit color (RGBA).
pub const FSDK_IMAGE_COLOR_32BIT: i32 = 2;

/// IP camera compression: Motion JPEG.
pub const FSDK_MJPEG: i32 = 0;

pub const FSDKE_OK: i32 = 0;
pub const FSDKE_FAILED: i32 = -1;
pub const FSDKE_NOT_ACTIVATED: i32 = -2;
pub const FSDKE_OUT_OF_MEMORY: i32 = -3;
pub const FSDKE_INVALID_ARGUMENT: i32 = -4;
pub const FSDKE_IO_ERROR: i32 = -5;
pub const FSDKE_IMAGE_TOO_SMALL: i32 = -6;
pub const FSDKE_FACE_NOT_FOUND: i32 = -7;
pub const FSDKE_INSUFFICIENT_BUFFER_SIZE: i32 = -8;
pub const FSDKE_UNSUPPORTED_IMAGE_EXTENSION: i32 = -9;
pub const FSDKE_CANNOT_OPEN_FILE: i32 = -10;
pub const FSDKE_CANNOT_CREATE_FILE: i32 = -11;
pub const FSDKE_BAD_FILE_FORMAT: i32 = -12;
pub const FSDKE_FILE_NOT_FOUND: i32 = -13;
pub const FSDKE_CONNECTION_CLOSED: i32 = -14;
pub const FSDKE_CONNECTION_FAILED: i32 = -15;
pub const FSDKE_IP_INIT_FAILED: i32 = -16;
pub const FSDKE_NEED_SERVER_ACTIVATION: i32 = -17;
pub const FSDKE_ID_NOT_FOUND: i32 = -18;
pub const FSDKE_ATTRIBUTE_NOT_DETECTED: i32 = -19;
pub const FSDKE_INSUFFICIENT_TRACKER_MEMORY_LIMIT: i32 = -20;
pub const FSDKE_UNKNOWN_ATTRIBUTE: i32 = -21;
pub const FSDKE_UNSUPPORTED_FILE_VERSION: i32 = -22;
pub const FSDKE_SYNTAX_ERROR: i32 = -23;
pub const FSDKE_PARAMETER_NOT_FOUND: i32 = -24;
pub const FSDKE_INVALID_TEMPLATE: i32 = -25;
pub const FSDKE_UNSUPPORTED_TEMPLATE_VERSION: i32 = -26;
pub const FSDKE_CAMERA_INDEX_DOES_NOT_EXIST: i32 = -27;
pub const FSDKE_PLATFORM_NOT_LICENSED: i32 = -28;
pub const FSDKE_TENSORFLOW_NOT_INITIALIZED: i32 = -29;
pub const FSDKE_PLUGIN_NOT_LOADED: i32 = -30;
pub const FSDKE_PLUGIN_NO_PERMISSION: i32 = -31;
pub const FSDKE_FACEID_NOT_FOUND: i32 = -32;
pub const FSDKE_FACEIMAGE_NOT_FOUND: i32 = -33;

/// The symbolic name of a FaceSDK error code; codes outside the documented range
/// are named `FSDKE_UNKNOWN`.
pub open spec fn error_name_of(code: i32) -> &'static str {
    match code {
        0i32 => "FSDKE_OK",
        -1i32 => "FSDKE_FAILED",
        -2i32 => "FSDKE_NOT_ACTIVATED",
        -3i32 => "FSDKE_OUT_OF_MEMORY",
        -4i32 => "FSDKE_INVALID_ARGUMENT",
        -5i32 => "FSDKE_IO_ERROR",
        -6i32 => "FSDKE_IMAGE_TOO_SMALL",
        -7i32 => "FSDKE_FACE_NOT_FOUND",
        -8i32 => "FSDKE_INSUFFICIENT_BUFFER_SIZE",
        -9i32 => "FSDKE_UNSUPPORTED_IMAGE_EXTENSION",
        -10i32 => "FSDKE_CANNOT_OPEN_FILE",
        -11i32 => "FSDKE_CANNOT_CREATE_FILE",
        -12i32 => "FSDKE_BAD_FILE_FORMAT",
        -13i32 => "FSDKE_FILE_NOT_FOUND",
        -14i32 => "FSDKE_CONNECTION_CLOSED",
        -15i32 => "FSDKE_CONNECTION_FAILED",
        -16i32 => "FSDKE_IP_INIT_FAILED",
        -17i32 => "FSDKE_NEED_SERVER_ACTIVATION",
        -18i32 => "FSDKE_ID_NOT_FOUND",
        -19i32 => "FSDKE_ATTRIBUTE_NOT_DETECTED",
        -20i32 => "FSDKE_INSUFFICIENT_TRACKER_MEMORY_LIMIT",
        -21i32 => "FSDKE_UNKNOWN_ATTRIBUTE",
        -22i32 => "FSDKE_UNSUPPORTED_FILE_VERSION",
        -23i32 => "FSDKE_SYNTAX_ERROR",
        -24i32 => "FSDKE_PARAMETER_NOT_FOUND",
        -25i32 => "FSDKE_INVALID_TEMPLATE",
        -26i32 => "FSDKE_UNSUPPORTED_TEMPLATE_VERSION",
        -27i32 => "FSDKE_CAMERA_INDEX_DOES_NOT_EXIST",
        -28i32 => "FSDKE_PLATFORM_NOT_LICENSED",
        -29i32 => "FSDKE_TENSORFLOW_NOT_INITIALIZED",
        -30i32 => "FSDKE_PLUGIN_NOT_LOADED",
        -31i32 => "FSDKE_PLUGIN_NO_PERMISSION",
        -32i32 => "FSDKE_FACEID_NOT_FOUND",
        -33i32 => "FSDKE_FACEIMAGE_NOT_FOUND",
        _ => "FSDKE_UNKNOWN",
    }
}

/// Returns the symbolic name of a FaceSDK error code.
pub fn error_name(code: i32) -> (name: &'static str)
    ensures
        name == error_name_of(code),
{
    match code {
        0i32 => "FSDKE_OK",
        -1i32 => "FSDKE_FAILED",
        -2i32 => "FSDKE_NOT_ACTIVATED",
        -3i32 => "FSDKE_OUT_OF_MEMORY",
        -4i32 => "FSDKE_INVALID_ARGUMENT",
        -5i32 => "FSDKE_IO_ERROR",
        -6i32 => "FSDKE_IMAGE_TOO_SMALL",
        -7i32 => "FSDKE_FACE_NOT_FOUND",
        -8i32 => "FSDKE_INSUFFICIENT_BUFFER_SIZE",
        -9i32 => "FSDKE_UNSUPPORTED_IMAGE_EXTENSION",
        -10i32 => "FSDKE_CANNOT_OPEN_FILE",
        -11i32 => "FSDKE_CANNOT_CREATE_FILE",
        -12i32 => "FSDKE_BAD_FILE_FORMAT",
        -13i32 => "FSDKE_FILE_NOT_FOUND",
        -14i32 => "FSDKE_CONNECTION_CLOSED",
        -15i32 => "FSDKE_CONNECTION_FAILED",
        -16i32 => "FSDKE_IP_INIT_FAILED",
        -17i32 => "FSDKE_NEED_SERVER_ACTIVATION",
        -18i32 => "FSDKE_ID_NOT_FOUND",
        -19i32 => "FSDKE_ATTRIBUTE_NOT_DETECTED",
        -20i32 => "FSDKE_INSUFFICIENT_TRACKER_MEMORY_LIMIT",
        -21i32 => "FSDKE_UNKNOWN_ATTRIBUTE",
        -22i32 => "FSDKE_UNSUPPORTED_FILE_VERSION",
        -23i32 => "FSDKE_SYNTAX_ERROR",
        -24i32 => "FSDKE_PARAMETER_NOT_FOUND",
        -25i32 => "FSDKE_INVALID_TEMPLATE",
        -26i32 => "FSDKE_UNSUPPORTED_TEMPLATE_VERSION",
        -27i32 => "FSDKE_CAMERA_INDEX_DOES_NOT_EXIST",
        -28i32 => "FSDKE_PLATFORM_NOT_LICENSED",
        -29i32 => "FSDKE_TENSORFLOW_NOT_INITIALIZED",
        -30i32 => "FSDKE_PLUGIN_NOT_LOADED",
        -31i32 => "FSDKE_PLUGIN_NO_PERMISSION",
        -32i32 => "FSDKE_FACEID_NOT_FOUND",
        -33i32 => "FSDKE_FACEIMAGE_NOT_FOUND",
        _ => "FSDKE_UNKNOWN",
    }
}

} // verus!
