//! Where the native FaceSDK library is found on each platform.

use vstd::prelude::*;

use crate::text::{append_chars, string_from};

verus! {

/// The operating systems that FaceSDK ships a library for.
#[derive(Debug, Clone, Copy, PartialEq, Eq, Structural)]
pub enum TargetOs {
    MacOs,
    Linux,
    Windows,
}

/// The platform the program is built for.
#[derive(Debug, Clone, Copy)]
pub struct Platform {
    pub os: TargetOs,
    /// Whether the processor is a 64-bit ARM (aarch64).
    pub aarch64: bool,
    /// Whether pointers are 64 bits wide.
    pub pointer_width_64: bool,
}

/// The relative path of the FaceSDK library for `platform`.
pub open spec fn library_path_of(platform: Platform) -> &'static str {
    match platform.os {
        TargetOs::MacOs => if platform.aarch64 {
            "fsdk/osx_arm64/libfsdk.dylib"
        } else {
            "fsdk/osx_x86_64/libfsdk.dylib"
        },
        TargetOs::Linux => if platform.pointer_width_64 {
            "fsdk/linux64/libfsdk.so"
        } else {
            "fsdk/linux32/libfsdk.so"
        },
        TargetOs::Windows => if platform.pointer_width_64 {
            "fsdk/win64/facesdk.dll"
        } else {
            "fsdk/win32/facesdk.dll"
        },
    }
}

/// Returns the relative path of the FaceSDK library for `platform`.
pub fn get_library_path(platform: Platform) -> (path: &'static str)
    ensures
        path == library_path_of(platform),
{
    match platform.os {
        TargetOs::MacOs => if platform.aarch64 {
            "fsdk/osx_arm64/libfsdk.dylib"
        } else {
            "fsdk/osx_x86_64/libfsdk.dylib"
        },
        TargetOs::Linux => if platform.pointer_width_64 {
            "fsdk/linux64/libfsdk.so"
        } else {
            "fsdk/linux32/libfsdk.so"
        },
        TargetOs::Windows => if platform.pointer_width_64 {
            "fsdk/win64/facesdk.dll"
        } else {
            "fsdk/win32/facesdk.dll"
        },
    }
}

/// The paths tried, in order, when loading the library found at `path`: the path
/// itself, then the same path one directory up.
pub fn library_candidates(path: &str) -> (paths: Vec<String>)
    ensures
        paths@.len() == 2,
        paths@[0]@ == path@,
        paths@[1]@ == "../"@ + path@,
{
    let mut up = string_from("../");
    append_chars(&mut up, path);
    proof {
        reveal_strlit("../");
    }
    let mut paths: Vec<String> = Vec::new();
    paths.push(string_from(path));
    paths.push(up);
    paths
}

} // verus!
