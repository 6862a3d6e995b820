//! The FaceSDK interface: library-wide functions, images, cameras and trackers.
//!
//! Every operation reaches the native library through a [`Native`]: the function
//! that performs one [`NativeCall`] and returns the library's [`NativeReply`], or
//! the message of the error that loading the library reported. Each operation
//! states exactly which calls it makes, in order and with which arguments (none on
//! its error paths before the first call), and what it returns for every reply.

use vstd::prelude::*;
use vstd::slice::slice_to_vec;
use vstd::string::StringSliceAdditionalSpecFns;

use crate::consts::FSDKE_OK;
use crate::error::{FsdkError, Result};
use crate::geometry::{Eyes, Face, FaceTemplate, Features};
use crate::native::{
    bytes_reply, call_at, called, counted_ids_reply, eyes_reply, face_features_reply, face_reply,
    faces_features_reply, faces_reply, features_reply, i32_reply, i64_reply, ids_reply, load_failed,
    names_reply, no_call, reply_at, reply_bytes, reply_counted_ids, reply_error, reply_eyes,
    reply_face, reply_face_and_features, reply_faces, reply_faces_and_features, reply_features,
    reply_i32, reply_i64, reply_ids, reply_names, reply_template, reply_text, reply_unit,
    template_reply, text_reply, unit_reply, Native, NativeCall, NativeReply,
};
use crate::text::{c_string_bytes, c_text_ok, string_from, text_error};

verus! {

/// Whether `r` fails with the error for a path that is not valid Unicode.
pub open spec fn invalid_path<T>(r: Result<T>) -> bool {
    r matches Err(e) && (e matches FsdkError::InvalidString(m) && m@ == "Invalid path"@)
}

/// The library-wide functions of FaceSDK.
pub struct FSDK;

impl FSDK {

    /// Activates the FaceSDK library with the given license key
    pub fn activate_library<N: Fn(&NativeCall) -> NativeReply>(native: &mut Native<N>, license_key: &str) -> (r: Result<()>)
        ensures
            !old(native).is_loaded() ==> load_failed(*old(native), r) && no_call(*old(native), *final(native)),
            old(native).is_loaded() && !c_text_ok(license_key) ==> text_error(license_key, r) && no_call(*old(native), *final(native)),
            old(native).is_loaded() && c_text_ok(license_key) ==> called(*old(native), *final(native), 1)
                && (call_at(*old(native), *final(native), 0) matches NativeCall::ActivateLibrary { license_key: v_license_key } && (v_license_key@ == license_key.spec_bytes()))
                && unit_reply("ActivateLibrary", reply_at(*old(native), *final(native), 0), r),
    {
        if !native.is_available() {
            return native.load_failure();
        }
        let c_license_key = c_string_bytes(license_key)?;
        let call = NativeCall::ActivateLibrary { license_key: c_license_key };
        let reply = native.call(call);
        reply_unit("ActivateLibrary", &reply)
    }

    /// Returns the hardware ID for license activation
    pub fn get_hardware_id<N: Fn(&NativeCall) -> NativeReply>(native: &mut Native<N>) -> (r: Result<String>)
        ensures
            !old(native).is_loaded() ==> load_failed(*old(native), r) && no_call(*old(native), *final(native)),
            old(native).is_loaded() ==> called(*old(native), *final(native), 1)
                && (call_at(*old(native), *final(native), 0) matches NativeCall::GetHardwareId)
                && text_reply("GetHardware_ID", reply_at(*old(native), *final(native), 0), r),
    {
        if !native.is_available() {
            return native.load_failure();
        }
        let call = NativeCall::GetHardwareId;
        let reply = native.call(call);
        reply_text("GetHardware_ID", &reply)
    }

    /// Initializes the FaceSDK library
    pub fn initialize<N: Fn(&NativeCall) -> NativeReply>(native: &mut Native<N>) -> (r: Result<()>)
        ensures
            !old(native).is_loaded() ==> load_failed(*old(native), r) && no_call(*old(native), *final(native)),
            old(native).is_loaded() ==> called(*old(native), *final(native), 1)
                && (call_at(*old(native), *final(native), 0) matches NativeCall::Initialize)
                && unit_reply("Initialize", reply_at(*old(native), *final(native), 0), r),
    {
        if !native.is_available() {
            return native.load_failure();
        }
        let call = NativeCall::Initialize;
        let reply = native.call(call);
        reply_unit("Initialize", &reply)
    }

    /// Finalizes the FaceSDK library
    pub fn finalize<N: Fn(&NativeCall) -> NativeReply>(native: &mut Native<N>) -> (r: Result<()>)
        ensures
            !old(native).is_loaded() ==> load_failed(*old(native), r) && no_call(*old(native), *final(native)),
            old(native).is_loaded() ==> called(*old(native), *final(native), 1)
                && (call_at(*old(native), *final(native), 0) matches NativeCall::Finalize)
                && unit_reply("Finalize", reply_at(*old(native), *final(native), 0), r),
    {
        if !native.is_available() {
            return native.load_failure();
        }
        let call = NativeCall::Finalize;
        let reply = native.call(call);
        reply_unit("Finalize", &reply)
    }

    /// Returns license information
    pub fn get_license_info<N: Fn(&NativeCall) -> NativeReply>(native: &mut Native<N>) -> (r: Result<String>)
        ensures
            !old(native).is_loaded() ==> load_failed(*old(native), r) && no_call(*old(native), *final(native)),
            old(native).is_loaded() ==> called(*old(native), *final(native), 1)
                && (call_at(*old(native), *final(native), 0) matches NativeCall::GetLicenseInfo)
                && text_reply("GetLicenseInfo", reply_at(*old(native), *final(native), 0), r),
    {
        if !native.is_available() {
            return native.load_failure();
        }
        let call = NativeCall::GetLicenseInfo;
        let reply = native.call(call);
        reply_text("GetLicenseInfo", &reply)
    }

    /// Gets the number of threads used by FaceSDK
    pub fn get_num_threads<N: Fn(&NativeCall) -> NativeReply>(native: &mut Native<N>) -> (r: Result<i32>)
        ensures
            !old(native).is_loaded() ==> load_failed(*old(native), r) && no_call(*old(native), *final(native)),
            old(native).is_loaded() ==> called(*old(native), *final(native), 1)
                && (call_at(*old(native), *final(native), 0) matches NativeCall::GetNumThreads)
                && i32_reply("GetNumThreads", reply_at(*old(native), *final(native), 0), r),
    {
        if !native.is_available() {
            return native.load_failure();
        }
        let call = NativeCall::GetNumThreads;
        let reply = native.call(call);
        reply_i32("GetNumThreads", &reply)
    }

    /// Sets the number of threads used by FaceSDK
    pub fn set_num_threads<N: Fn(&NativeCall) -> NativeReply>(native: &mut Native<N>, num: i32) -> (r: Result<()>)
        ensures
            !old(native).is_loaded() ==> load_failed(*old(native), r) && no_call(*old(native), *final(native)),
            old(native).is_loaded() ==> called(*old(native), *final(native), 1)
                && (call_at(*old(native), *final(native), 0) matches NativeCall::SetNumThreads { num: v_num } && (v_num == num))
                && unit_reply("SetNumThreads", reply_at(*old(native), *final(native), 0), r),
    {
        if !native.is_available() {
            return native.load_failure();
        }
        let call = NativeCall::SetNumThreads { num };
        let reply = native.call(call);
        reply_unit("SetNumThreads", &reply)
    }

    /// Sets multiple parameters at once (format: "param1=value1;param2=value2")
    pub fn set_parameters<N: Fn(&NativeCall) -> NativeReply>(native: &mut Native<N>, params: &str) -> (r: Result<()>)
        ensures
            !old(native).is_loaded() ==> load_failed(*old(native), r) && no_call(*old(native), *final(native)),
            old(native).is_loaded() && !c_text_ok(params) ==> text_error(params, r) && no_call(*old(native), *final(native)),
            old(native).is_loaded() && c_text_ok(params) ==> called(*old(native), *final(native), 1)
                && (call_at(*old(native), *final(native), 0) matches NativeCall::SetParameters { params: v_params } && (v_params@ == params.spec_bytes()))
                && unit_reply("SetParameters", reply_at(*old(native), *final(native), 0), r),
    {
        if !native.is_available() {
            return native.load_failure();
        }
        let c_params = c_string_bytes(params)?;
        let call = NativeCall::SetParameters { params: c_params };
        let reply = native.call(call);
        reply_unit("SetParameters", &reply)
    }

    /// Sets a single parameter
    pub fn set_parameter<N: Fn(&NativeCall) -> NativeReply>(native: &mut Native<N>, name: &str, value: &str) -> (r: Result<()>)
        ensures
            !old(native).is_loaded() ==> load_failed(*old(native), r) && no_call(*old(native), *final(native)),
            old(native).is_loaded() && !c_text_ok(name) ==> text_error(name, r) && no_call(*old(native), *final(native)),
            old(native).is_loaded() && c_text_ok(name) && !c_text_ok(value) ==> text_error(value, r) && no_call(*old(native), *final(native)),
            old(native).is_loaded() && c_text_ok(name) && c_text_ok(value) ==> called(*old(native), *final(native), 1)
                && (call_at(*old(native), *final(native), 0) matches NativeCall::SetParameter { name: v_name, value: v_value } && (v_name@ == name.spec_bytes() && v_value@ == value.spec_bytes()))
                && unit_reply("SetParameter", reply_at(*old(native), *final(native), 0), r),
    {
        if !native.is_available() {
            return native.load_failure();
        }
        let c_name = c_string_bytes(name)?;
        let c_value = c_string_bytes(value)?;
        let call = NativeCall::SetParameter { name: c_name, value: c_value };
        let reply = native.call(call);
        reply_unit("SetParameter", &reply)
    }

    /// Sets face detection parameters
    pub fn set_face_detection_parameters<N: Fn(&NativeCall) -> NativeReply>(native: &mut Native<N>, handle_arbitrary_rotations: bool, determine_face_rotation_angle: bool, internal_resize_width: i32) -> (r: Result<()>)
        ensures
            !old(native).is_loaded() ==> load_failed(*old(native), r) && no_call(*old(native), *final(native)),
            old(native).is_loaded() ==> called(*old(native), *final(native), 1)
                && (call_at(*old(native), *final(native), 0) matches NativeCall::SetFaceDetectionParameters { handle_arbitrary_rotations: v_handle_arbitrary_rotations, determine_face_rotation_angle: v_determine_face_rotation_angle, internal_resize_width: v_internal_resize_width } && (v_handle_arbitrary_rotations == handle_arbitrary_rotations && v_determine_face_rotation_angle == determine_face_rotation_angle && v_internal_resize_width == internal_resize_width))
                && unit_reply("SetFaceDetectionParameters", reply_at(*old(native), *final(native), 0), r),
    {
        if !native.is_available() {
            return native.load_failure();
        }
        let call = NativeCall::SetFaceDetectionParameters { handle_arbitrary_rotations, determine_face_rotation_angle, internal_resize_width };
        let reply = native.call(call);
        reply_unit("SetFaceDetectionParameters", &reply)
    }

    /// Sets face detection threshold (default 5, lower = more faces detected)
    pub fn set_face_detection_threshold<N: Fn(&NativeCall) -> NativeReply>(native: &mut Native<N>, threshold: i32) -> (r: Result<()>)
        ensures
            !old(native).is_loaded() ==> load_failed(*old(native), r) && no_call(*old(native), *final(native)),
            old(native).is_loaded() ==> called(*old(native), *final(native), 1)
                && (call_at(*old(native), *final(native), 0) matches NativeCall::SetFaceDetectionThreshold { threshold: v_threshold } && (v_threshold == threshold))
                && unit_reply("SetFaceDetectionThreshold", reply_at(*old(native), *final(native), 0), r),
    {
        if !native.is_available() {
            return native.load_failure();
        }
        let call = NativeCall::SetFaceDetectionThreshold { threshold };
        let reply = native.call(call);
        reply_unit("SetFaceDetectionThreshold", &reply)
    }

    /// Gets confidence of the last detected face
    pub fn get_detected_face_confidence<N: Fn(&NativeCall) -> NativeReply>(native: &mut Native<N>) -> (r: Result<i32>)
        ensures
            !old(native).is_loaded() ==> load_failed(*old(native), r) && no_call(*old(native), *final(native)),
            old(native).is_loaded() ==> called(*old(native), *final(native), 1)
                && (call_at(*old(native), *final(native), 0) matches NativeCall::GetDetectedFaceConfidence)
                && i32_reply("GetDetectedFaceConfidence", reply_at(*old(native), *final(native), 0), r),
    {
        if !native.is_available() {
            return native.load_failure();
        }
        let call = NativeCall::GetDetectedFaceConfidence;
        let reply = native.call(call);
        reply_i32("GetDetectedFaceConfidence", &reply)
    }

    /// Sets JPEG compression quality (0-100)
    pub fn set_jpeg_compression_quality<N: Fn(&NativeCall) -> NativeReply>(native: &mut Native<N>, quality: i32) -> (r: Result<()>)
        ensures
            !old(native).is_loaded() ==> load_failed(*old(native), r) && no_call(*old(native), *final(native)),
            old(native).is_loaded() ==> called(*old(native), *final(native), 1)
                && (call_at(*old(native), *final(native), 0) matches NativeCall::SetJpegCompressionQuality { quality: v_quality } && (v_quality == quality))
                && unit_reply("SetJpegCompressionQuality", reply_at(*old(native), *final(native), 0), r),
    {
        if !native.is_available() {
            return native.load_failure();
        }
        let call = NativeCall::SetJpegCompressionQuality { quality };
        let reply = native.call(call);
        reply_unit("SetJpegCompressionQuality", &reply)
    }

    /// Initializes video capturing subsystem
    pub fn initialize_capturing<N: Fn(&NativeCall) -> NativeReply>(native: &mut Native<N>) -> (r: Result<()>)
        ensures
            !old(native).is_loaded() ==> load_failed(*old(native), r) && no_call(*old(native), *final(native)),
            old(native).is_loaded() ==> called(*old(native), *final(native), 1)
                && (call_at(*old(native), *final(native), 0) matches NativeCall::InitializeCapturing)
                && unit_reply("InitializeCapturing", reply_at(*old(native), *final(native), 0), r),
    {
        if !native.is_available() {
            return native.load_failure();
        }
        let call = NativeCall::InitializeCapturing;
        let reply = native.call(call);
        reply_unit("InitializeCapturing", &reply)
    }

    /// Finalizes video capturing subsystem
    pub fn finalize_capturing<N: Fn(&NativeCall) -> NativeReply>(native: &mut Native<N>) -> (r: Result<()>)
        ensures
            !old(native).is_loaded() ==> load_failed(*old(native), r) && no_call(*old(native), *final(native)),
            old(native).is_loaded() ==> called(*old(native), *final(native), 1)
                && (call_at(*old(native), *final(native), 0) matches NativeCall::FinalizeCapturing)
                && unit_reply("FinalizeCapturing", reply_at(*old(native), *final(native), 0), r),
    {
        if !native.is_available() {
            return native.load_failure();
        }
        let call = NativeCall::FinalizeCapturing;
        let reply = native.call(call);
        reply_unit("FinalizeCapturing", &reply)
    }

    /// Sets HTTP proxy for IP cameras
    pub fn set_http_proxy<N: Fn(&NativeCall) -> NativeReply>(native: &mut Native<N>, server: &str, port: u16, username: &str, password: &str) -> (r: Result<()>)
        ensures
            !old(native).is_loaded() ==> load_failed(*old(native), r) && no_call(*old(native), *final(native)),
            old(native).is_loaded() && !c_text_ok(server) ==> text_error(server, r) && no_call(*old(native), *final(native)),
            old(native).is_loaded() && c_text_ok(server) && !c_text_ok(username) ==> text_error(username, r) && no_call(*old(native), *final(native)),
            old(native).is_loaded() && c_text_ok(server) && c_text_ok(username) && !c_text_ok(password) ==> text_error(password, r) && no_call(*old(native), *final(native)),
            old(native).is_loaded() && c_text_ok(server) && c_text_ok(username) && c_text_ok(password) ==> called(*old(native), *final(native), 1)
                && (call_at(*old(native), *final(native), 0) matches NativeCall::SetHttpProxy { server: v_server, port: v_port, username: v_username, password: v_password } && (v_server@ == server.spec_bytes() && v_port == port && v_username@ == username.spec_bytes() && v_password@ == password.spec_bytes()))
                && unit_reply("SetHTTPProxy", reply_at(*old(native), *final(native), 0), r),
    {
        if !native.is_available() {
            return native.load_failure();
        }
        let c_server = c_string_bytes(server)?;
        let c_username = c_string_bytes(username)?;
        let c_password = c_string_bytes(password)?;
        let call = NativeCall::SetHttpProxy { server: c_server, port, username: c_username, password: c_password };
        let reply = native.call(call);
        reply_unit("SetHTTPProxy", &reply)
    }

}

// ---------------------------------------------------------------------------
// Handles
// ---------------------------------------------------------------------------

/// `r` is the result of `reply` for a call that creates an image: the image with the
/// returned handle.
pub open spec fn image_reply(func: &'static str, reply: NativeReply, r: Result<Image>) -> bool {
    if reply.status == FSDKE_OK {
        r matches Ok(img) && img@ == reply.number as i32
    } else {
        r == reply_error::<Image>(func, reply)
    }
}

/// `r` is the result of `reply` for a call that opens a camera.
pub open spec fn camera_reply(func: &'static str, reply: NativeReply, r: Result<Camera>) -> bool {
    if reply.status == FSDKE_OK {
        r matches Ok(cam) && cam@ == reply.number as i32
    } else {
        r == reply_error::<Camera>(func, reply)
    }
}

/// `r` is the result of `reply` for a call that creates a tracker.
pub open spec fn tracker_reply(func: &'static str, reply: NativeReply, r: Result<Tracker>) -> bool {
    if reply.status == FSDKE_OK {
        r matches Ok(t) && t@ == reply.number as i32
    } else {
        r == reply_error::<Tracker>(func, reply)
    }
}

fn reply_image(func: &'static str, reply: &NativeReply) -> (r: Result<Image>)
    ensures
        image_reply(func, *reply, r),
{
    let handle = reply_i32(func, reply)?;
    Ok(Image { handle })
}

fn reply_camera(func: &'static str, reply: &NativeReply) -> (r: Result<Camera>)
    ensures
        camera_reply(func, *reply, r),
{
    let handle = reply_i32(func, reply)?;
    Ok(Camera { handle })
}

fn reply_tracker(func: &'static str, reply: &NativeReply) -> (r: Result<Tracker>)
    ensures
        tracker_reply(func, *reply, r),
{
    let handle = reply_i32(func, reply)?;
    Ok(Tracker { handle })
}

/// `r` is the result of filling the new image `dest` with `call`, the first call
/// made between `old` and `new`: the image on success; on failure the error, the
/// image being freed by a second call.
pub open spec fn dest_filled<N: Fn(&NativeCall) -> NativeReply>(
    old: Native<N>,
    new: Native<N>,
    func: &'static str,
    call: NativeCall,
    dest: i32,
    r: Result<Image>,
) -> bool {
    &&& call_at(old, new, 0) == call
    &&& if reply_at(old, new, 0).status == FSDKE_OK {
        called(old, new, 1) && (r matches Ok(img) && img@ == dest)
    } else if dest != -1 {
        &&& called(old, new, 2)
        &&& call_at(old, new, 1) == (NativeCall::FreeImage { image: dest })
        &&& r == reply_error::<Image>(func, reply_at(old, new, 0))
    } else {
        called(old, new, 1) && r == reply_error::<Image>(func, reply_at(old, new, 0))
    }
}

/// `r` is the result of creating an empty image and filling it with the call that
/// `fill` makes for its handle, the calls made between `old` and `new`.
pub open spec fn created_and_filled<N: Fn(&NativeCall) -> NativeReply>(
    old: Native<N>,
    new: Native<N>,
    func: &'static str,
    fill: spec_fn(i32) -> NativeCall,
    r: Result<Image>,
) -> bool {
    let created = reply_at(old, new, 0);
    let dest = created.number as i32;
    &&& call_at(old, new, 0) == NativeCall::CreateEmptyImage
    &&& if created.status != FSDKE_OK {
        called(old, new, 1) && r == reply_error::<Image>("CreateEmptyImage", created)
    } else {
        &&& call_at(old, new, 1) == fill(dest)
        &&& if reply_at(old, new, 1).status == FSDKE_OK {
            called(old, new, 2) && (r matches Ok(img) && img@ == dest)
        } else if dest != -1 {
            &&& called(old, new, 3)
            &&& call_at(old, new, 2) == (NativeCall::FreeImage { image: dest })
            &&& r == reply_error::<Image>(func, reply_at(old, new, 1))
        } else {
            called(old, new, 2) && r == reply_error::<Image>(func, reply_at(old, new, 1))
        }
    }
}

// ---------------------------------------------------------------------------
// Images
// ---------------------------------------------------------------------------

/// Safe wrapper for FSDK Image handle
pub struct Image {
    handle: i32,
}

impl View for Image {
    type V = i32;

    closed spec fn view(&self) -> i32 {
        self.handle
    }
}

impl Default for Image {
    fn default() -> (img: Self)
        ensures
            img@ == -1,
    {
        Image { handle: -1 }
    }
}

impl Image {
    /// Returns the raw handle
    pub fn handle(&self) -> (h: i32)
        ensures
            h == self@,
    {
        self.handle
    }

    /// Fills the new image `dest` with `call`; frees it when that fails.
    fn fill_dest<N: Fn(&NativeCall) -> NativeReply>(
        native: &mut Native<N>,
        func: &'static str,
        call: NativeCall,
        dest: Image,
    ) -> (r: Result<Image>)
        requires
            old(native).is_loaded(),
        ensures
            dest_filled(*old(native), *final(native), func, call, dest@, r),
    {
        let mut dest = dest;
        let reply = native.call(call);
        match reply_unit(func, &reply) {
            Ok(()) => Ok(dest),
            Err(e) => {
                dest.release_with(native);
                Err(e)
            },
        }
    }

    /// Frees the native image, if there is one, through a loaded library.
    fn release_with<N: Fn(&NativeCall) -> NativeReply>(&mut self, native: &mut Native<N>)
        requires
            old(native).is_loaded(),
        ensures
            final(self)@ == -1,
            old(self)@ == -1 ==> no_call(*old(native), *final(native)),
            old(self)@ != -1 ==> called(*old(native), *final(native), 1) && call_at(
                *old(native),
                *final(native),
                0,
            ) == (NativeCall::FreeImage { image: old(self)@ }),
    {
        if self.handle != -1 {
            let _ = native.call(NativeCall::FreeImage { image: self.handle });
            self.handle = -1;
        }
    }

    /// Frees the native image, if there is one and the library was loaded, and leaves
    /// no image behind.
    pub fn release<N: Fn(&NativeCall) -> NativeReply>(&mut self, native: &mut Native<N>)
        ensures
            final(self)@ == -1,
            old(self)@ == -1 || !old(native).is_loaded() ==> no_call(*old(native), *final(native)),
            old(self)@ != -1 && old(native).is_loaded() ==> called(*old(native), *final(native), 1)
                && call_at(*old(native), *final(native), 0) == (NativeCall::FreeImage {
                image: old(self)@,
            }),
    {
        if self.handle != -1 {
            if native.is_available() {
                self.release_with(native);
            }
            self.handle = -1;
        }
    }


    /// Creates a new empty image
    pub fn new<N: Fn(&NativeCall) -> NativeReply>(native: &mut Native<N>) -> (r: Result<Image>)
        ensures
            !old(native).is_loaded() ==> load_failed(*old(native), r) && no_call(*old(native), *final(native)),
            old(native).is_loaded() ==> called(*old(native), *final(native), 1)
                && (call_at(*old(native), *final(native), 0) matches NativeCall::CreateEmptyImage)
                && image_reply("CreateEmptyImage", reply_at(*old(native), *final(native), 0), r),
    {
        if !native.is_available() {
            return native.load_failure();
        }
        let call = NativeCall::CreateEmptyImage;
        let reply = native.call(call);
        reply_image("CreateEmptyImage", &reply)
    }

    /// Loads an image from a file
    pub fn from_file<N: Fn(&NativeCall) -> NativeReply>(native: &mut Native<N>, path: Option<&str>) -> (r: Result<Image>)
        ensures
            path is None ==> invalid_path(r) && no_call(*old(native), *final(native)),
            path is Some && !old(native).is_loaded() ==> load_failed(*old(native), r) && no_call(*old(native), *final(native)),
            path is Some && old(native).is_loaded() && !c_text_ok(path.unwrap()) ==> text_error(path.unwrap(), r) && no_call(*old(native), *final(native)),
            path is Some && old(native).is_loaded() && c_text_ok(path.unwrap()) ==> called(*old(native), *final(native), 1)
                && (call_at(*old(native), *final(native), 0) matches NativeCall::LoadImageFromFile { path: v_path } && (v_path@ == path.unwrap().spec_bytes()))
                && image_reply("LoadImageFromFile", reply_at(*old(native), *final(native), 0), r),
    {
        let path = match path {
            Some(p) => p,
            None => return Err(FsdkError::InvalidString(string_from("Invalid path"))),
        };
        if !native.is_available() {
            return native.load_failure();
        }
        let c_path = c_string_bytes(path)?;
        let call = NativeCall::LoadImageFromFile { path: c_path };
        let reply = native.call(call);
        reply_image("LoadImageFromFile", &reply)
    }

    /// Loads an image from raw pixel buffer
    pub fn from_buffer<N: Fn(&NativeCall) -> NativeReply>(native: &mut Native<N>, buffer: &[u8], width: i32, height: i32, scan_line: i32, image_mode: i32) -> (r: Result<Image>)
        ensures
            !old(native).is_loaded() ==> load_failed(*old(native), r) && no_call(*old(native), *final(native)),
            old(native).is_loaded() ==> called(*old(native), *final(native), 1)
                && (call_at(*old(native), *final(native), 0) matches NativeCall::LoadImageFromBuffer { buffer: v_buffer, width: v_width, height: v_height, scan_line: v_scan_line, image_mode: v_image_mode } && (v_buffer@ == buffer@ && v_width == width && v_height == height && v_scan_line == scan_line && v_image_mode == image_mode))
                && image_reply("LoadImageFromBuffer", reply_at(*old(native), *final(native), 0), r),
    {
        if !native.is_available() {
            return native.load_failure();
        }
        let call = NativeCall::LoadImageFromBuffer { buffer: slice_to_vec(buffer), width, height, scan_line, image_mode };
        let reply = native.call(call);
        reply_image("LoadImageFromBuffer", &reply)
    }

    /// Loads an image from JPEG buffer
    pub fn from_jpeg_buffer<N: Fn(&NativeCall) -> NativeReply>(native: &mut Native<N>, buffer: &[u8]) -> (r: Result<Image>)
        ensures
            !old(native).is_loaded() ==> load_failed(*old(native), r) && no_call(*old(native), *final(native)),
            old(native).is_loaded() ==> called(*old(native), *final(native), 1)
                && (call_at(*old(native), *final(native), 0) matches NativeCall::LoadImageFromJpegBuffer { buffer: v_buffer } && (v_buffer@ == buffer@))
                && image_reply("LoadImageFromJpegBuffer", reply_at(*old(native), *final(native), 0), r),
    {
        if !native.is_available() {
            return native.load_failure();
        }
        let call = NativeCall::LoadImageFromJpegBuffer { buffer: slice_to_vec(buffer) };
        let reply = native.call(call);
        reply_image("LoadImageFromJpegBuffer", &reply)
    }

    /// Loads an image from PNG buffer
    pub fn from_png_buffer<N: Fn(&NativeCall) -> NativeReply>(native: &mut Native<N>, buffer: &[u8]) -> (r: Result<Image>)
        ensures
            !old(native).is_loaded() ==> load_failed(*old(native), r) && no_call(*old(native), *final(native)),
            old(native).is_loaded() ==> called(*old(native), *final(native), 1)
                && (call_at(*old(native), *final(native), 0) matches NativeCall::LoadImageFromPngBuffer { buffer: v_buffer } && (v_buffer@ == buffer@))
                && image_reply("LoadImageFromPngBuffer", reply_at(*old(native), *final(native), 0), r),
    {
        if !native.is_available() {
            return native.load_failure();
        }
        let call = NativeCall::LoadImageFromPngBuffer { buffer: slice_to_vec(buffer) };
        let reply = native.call(call);
        reply_image("LoadImageFromPngBuffer", &reply)
    }

    /// Saves the image to a file
    pub fn save_to_file<N: Fn(&NativeCall) -> NativeReply>(&self, native: &mut Native<N>, path: Option<&str>) -> (r: Result<()>)
        ensures
            path is None ==> invalid_path(r) && no_call(*old(native), *final(native)),
            path is Some && !old(native).is_loaded() ==> load_failed(*old(native), r) && no_call(*old(native), *final(native)),
            path is Some && old(native).is_loaded() && !c_text_ok(path.unwrap()) ==> text_error(path.unwrap(), r) && no_call(*old(native), *final(native)),
            path is Some && old(native).is_loaded() && c_text_ok(path.unwrap()) ==> called(*old(native), *final(native), 1)
                && (call_at(*old(native), *final(native), 0) matches NativeCall::SaveImageToFile { image: v_image, path: v_path } && (v_image == self@ && v_path@ == path.unwrap().spec_bytes()))
                && unit_reply("SaveImageToFile", reply_at(*old(native), *final(native), 0), r),
    {
        let path = match path {
            Some(p) => p,
            None => return Err(FsdkError::InvalidString(string_from("Invalid path"))),
        };
        if !native.is_available() {
            return native.load_failure();
        }
        let c_path = c_string_bytes(path)?;
        let call = NativeCall::SaveImageToFile { image: self.handle, path: c_path };
        let reply = native.call(call);
        reply_unit("SaveImageToFile", &reply)
    }

    /// Gets the buffer size needed to save image in given mode
    pub fn get_buffer_size<N: Fn(&NativeCall) -> NativeReply>(&self, native: &mut Native<N>, image_mode: i32) -> (r: Result<i32>)
        ensures
            !old(native).is_loaded() ==> load_failed(*old(native), r) && no_call(*old(native), *final(native)),
            old(native).is_loaded() ==> called(*old(native), *final(native), 1)
                && (call_at(*old(native), *final(native), 0) matches NativeCall::GetImageBufferSize { image: v_image, image_mode: v_image_mode } && (v_image == self@ && v_image_mode == image_mode))
                && i32_reply("GetImageBufferSize", reply_at(*old(native), *final(native), 0), r),
    {
        if !native.is_available() {
            return native.load_failure();
        }
        let call = NativeCall::GetImageBufferSize { image: self.handle, image_mode };
        let reply = native.call(call);
        reply_i32("GetImageBufferSize", &reply)
    }

    /// Returns the width of the image
    pub fn width<N: Fn(&NativeCall) -> NativeReply>(&self, native: &mut Native<N>) -> (r: Result<i32>)
        ensures
            !old(native).is_loaded() ==> load_failed(*old(native), r) && no_call(*old(native), *final(native)),
            old(native).is_loaded() ==> called(*old(native), *final(native), 1)
                && (call_at(*old(native), *final(native), 0) matches NativeCall::GetImageWidth { image: v_image } && (v_image == self@))
                && i32_reply("GetImageWidth", reply_at(*old(native), *final(native), 0), r),
    {
        if !native.is_available() {
            return native.load_failure();
        }
        let call = NativeCall::GetImageWidth { image: self.handle };
        let reply = native.call(call);
        reply_i32("GetImageWidth", &reply)
    }

    /// Returns the height of the image
    pub fn height<N: Fn(&NativeCall) -> NativeReply>(&self, native: &mut Native<N>) -> (r: Result<i32>)
        ensures
            !old(native).is_loaded() ==> load_failed(*old(native), r) && no_call(*old(native), *final(native)),
            old(native).is_loaded() ==> called(*old(native), *final(native), 1)
                && (call_at(*old(native), *final(native), 0) matches NativeCall::GetImageHeight { image: v_image } && (v_image == self@))
                && i32_reply("GetImageHeight", reply_at(*old(native), *final(native), 0), r),
    {
        if !native.is_available() {
            return native.load_failure();
        }
        let call = NativeCall::GetImageHeight { image: self.handle };
        let reply = native.call(call);
        reply_i32("GetImageHeight", &reply)
    }

    /// Mirrors the image (horizontal by default, vertical if use_vertical is true)
    pub fn mirror<N: Fn(&NativeCall) -> NativeReply>(&mut self, native: &mut Native<N>, use_vertical: bool) -> (r: Result<()>)
        ensures
            final(self)@ == old(self)@,
            !old(native).is_loaded() ==> load_failed(*old(native), r) && no_call(*old(native), *final(native)),
            old(native).is_loaded() ==> called(*old(native), *final(native), 1)
                && (call_at(*old(native), *final(native), 0) matches NativeCall::MirrorImage { image: v_image, use_vertical: v_use_vertical } && (v_image == old(self)@ && v_use_vertical == use_vertical))
                && unit_reply("MirrorImage", reply_at(*old(native), *final(native), 0), r),
    {
        if !native.is_available() {
            return native.load_failure();
        }
        let call = NativeCall::MirrorImage { image: self.handle, use_vertical };
        let reply = native.call(call);
        reply_unit("MirrorImage", &reply)
    }

    /// Detects eye positions in the image
    pub fn detect_eyes<N: Fn(&NativeCall) -> NativeReply>(&self, native: &mut Native<N>) -> (r: Result<Eyes>)
        ensures
            !old(native).is_loaded() ==> load_failed(*old(native), r) && no_call(*old(native), *final(native)),
            old(native).is_loaded() ==> called(*old(native), *final(native), 1)
                && (call_at(*old(native), *final(native), 0) matches NativeCall::DetectEyes { image: v_image } && (v_image == self@))
                && eyes_reply("DetectEyes", reply_at(*old(native), *final(native), 0), r),
    {
        if !native.is_available() {
            return native.load_failure();
        }
        let call = NativeCall::DetectEyes { image: self.handle };
        let reply = native.call(call);
        reply_eyes("DetectEyes", &reply)
    }

    /// Detects facial features (70 points) in the image
    pub fn detect_facial_features<N: Fn(&NativeCall) -> NativeReply>(&self, native: &mut Native<N>) -> (r: Result<Features>)
        ensures
            !old(native).is_loaded() ==> load_failed(*old(native), r) && no_call(*old(native), *final(native)),
            old(native).is_loaded() ==> called(*old(native), *final(native), 1)
                && (call_at(*old(native), *final(native), 0) matches NativeCall::DetectFacialFeatures { image: v_image } && (v_image == self@))
                && features_reply("DetectFacialFeatures", reply_at(*old(native), *final(native), 0), r),
    {
        if !native.is_available() {
            return native.load_failure();
        }
        let call = NativeCall::DetectFacialFeatures { image: self.handle };
        let reply = native.call(call);
        reply_features("DetectFacialFeatures", &reply)
    }

    /// Detects a face using the improved v2 model, returns Face with bounding box and 5 features
    pub fn detect_face2<N: Fn(&NativeCall) -> NativeReply>(&self, native: &mut Native<N>) -> (r: Result<Face>)
        ensures
            !old(native).is_loaded() ==> load_failed(*old(native), r) && no_call(*old(native), *final(native)),
            old(native).is_loaded() ==> called(*old(native), *final(native), 1)
                && (call_at(*old(native), *final(native), 0) matches NativeCall::DetectFace2 { image: v_image } && (v_image == self@))
                && face_reply("DetectFace2", reply_at(*old(native), *final(native), 0), r),
    {
        if !native.is_available() {
            return native.load_failure();
        }
        let call = NativeCall::DetectFace2 { image: self.handle };
        let reply = native.call(call);
        reply_face("DetectFace2", &reply)
    }

    /// Detects multiple faces using the improved v2 model
    pub fn detect_multiple_faces2<N: Fn(&NativeCall) -> NativeReply>(&self, native: &mut Native<N>, max_faces: usize) -> (r: Result<Vec<Face>>)
        ensures
            !old(native).is_loaded() ==> load_failed(*old(native), r) && no_call(*old(native), *final(native)),
            old(native).is_loaded() ==> called(*old(native), *final(native), 1)
                && (call_at(*old(native), *final(native), 0) matches NativeCall::DetectMultipleFaces2 { image: v_image, max_faces: v_max_faces } && (v_image == self@ && v_max_faces == max_faces))
                && faces_reply("DetectMultipleFaces2", reply_at(*old(native), *final(native), 0), max_faces as nat, r),
    {
        if !native.is_available() {
            return native.load_failure();
        }
        let call = NativeCall::DetectMultipleFaces2 { image: self.handle, max_faces };
        let reply = native.call(call);
        reply_faces("DetectMultipleFaces2", reply, max_faces)
    }

    /// Detects a face and 70-point facial features using the improved v2 model
    pub fn detect_face_and_features2<N: Fn(&NativeCall) -> NativeReply>(&self, native: &mut Native<N>) -> (r: Result<(Face, Features)>)
        ensures
            !old(native).is_loaded() ==> load_failed(*old(native), r) && no_call(*old(native), *final(native)),
            old(native).is_loaded() ==> called(*old(native), *final(native), 1)
                && (call_at(*old(native), *final(native), 0) matches NativeCall::DetectFaceAndFeatures2 { image: v_image } && (v_image == self@))
                && face_features_reply("DetectFaceAndFeatures2", reply_at(*old(native), *final(native), 0), r),
    {
        if !native.is_available() {
            return native.load_failure();
        }
        let call = NativeCall::DetectFaceAndFeatures2 { image: self.handle };
        let reply = native.call(call);
        reply_face_and_features("DetectFaceAndFeatures2", &reply)
    }

    /// Detects multiple faces and their 70-point facial features using the improved v2 model
    pub fn detect_multiple_faces_and_features2<N: Fn(&NativeCall) -> NativeReply>(&self, native: &mut Native<N>, max_faces: usize) -> (r: Result<(Vec<Face>, Vec<Features>)>)
        ensures
            !old(native).is_loaded() ==> load_failed(*old(native), r) && no_call(*old(native), *final(native)),
            old(native).is_loaded() ==> called(*old(native), *final(native), 1)
                && (call_at(*old(native), *final(native), 0) matches NativeCall::DetectMultipleFacesAndFeatures2 { image: v_image, max_faces: v_max_faces } && (v_image == self@ && v_max_faces == max_faces))
                && faces_features_reply("DetectMultipleFacesAndFeatures2", reply_at(*old(native), *final(native), 0), max_faces as nat, r),
    {
        if !native.is_available() {
            return native.load_failure();
        }
        let call = NativeCall::DetectMultipleFacesAndFeatures2 { image: self.handle, max_faces };
        let reply = native.call(call);
        reply_faces_and_features("DetectMultipleFacesAndFeatures2", reply, max_faces)
    }

    /// Extracts face template from the image (auto-detects face)
    pub fn get_face_template<N: Fn(&NativeCall) -> NativeReply>(&self, native: &mut Native<N>) -> (r: Result<FaceTemplate>)
        ensures
            !old(native).is_loaded() ==> load_failed(*old(native), r) && no_call(*old(native), *final(native)),
            old(native).is_loaded() ==> called(*old(native), *final(native), 1)
                && (call_at(*old(native), *final(native), 0) matches NativeCall::GetFaceTemplate { image: v_image } && (v_image == self@))
                && template_reply("GetFaceTemplate", reply_at(*old(native), *final(native), 0), r),
    {
        if !native.is_available() {
            return native.load_failure();
        }
        let call = NativeCall::GetFaceTemplate { image: self.handle };
        let reply = native.call(call);
        reply_template("GetFaceTemplate", &reply)
    }

    /// Extracts face template using facial features
    pub fn get_face_template_using_features<N: Fn(&NativeCall) -> NativeReply>(&self, native: &mut Native<N>, features: &Features) -> (r: Result<FaceTemplate>)
        ensures
            !old(native).is_loaded() ==> load_failed(*old(native), r) && no_call(*old(native), *final(native)),
            old(native).is_loaded() ==> called(*old(native), *final(native), 1)
                && (call_at(*old(native), *final(native), 0) matches NativeCall::GetFaceTemplateUsingFeatures { image: v_image, features: v_features } && (v_image == self@ && v_features == *features))
                && template_reply("GetFaceTemplateUsingFeatures", reply_at(*old(native), *final(native), 0), r),
    {
        if !native.is_available() {
            return native.load_failure();
        }
        let call = NativeCall::GetFaceTemplateUsingFeatures { image: self.handle, features: *features };
        let reply = native.call(call);
        reply_template("GetFaceTemplateUsingFeatures", &reply)
    }

    /// Extracts face template using eye positions
    pub fn get_face_template_using_eyes<N: Fn(&NativeCall) -> NativeReply>(&self, native: &mut Native<N>, eyes: &Eyes) -> (r: Result<FaceTemplate>)
        ensures
            !old(native).is_loaded() ==> load_failed(*old(native), r) && no_call(*old(native), *final(native)),
            old(native).is_loaded() ==> called(*old(native), *final(native), 1)
                && (call_at(*old(native), *final(native), 0) matches NativeCall::GetFaceTemplateUsingEyes { image: v_image, eyes: v_eyes } && (v_image == self@ && v_eyes == *eyes))
                && template_reply("GetFaceTemplateUsingEyes", reply_at(*old(native), *final(native), 0), r),
    {
        if !native.is_available() {
            return native.load_failure();
        }
        let call = NativeCall::GetFaceTemplateUsingEyes { image: self.handle, eyes: *eyes };
        let reply = native.call(call);
        reply_template("GetFaceTemplateUsingEyes", &reply)
    }

    /// Extracts face template using the improved v2 model (auto-detects face)
    pub fn get_face_template2<N: Fn(&NativeCall) -> NativeReply>(&self, native: &mut Native<N>) -> (r: Result<FaceTemplate>)
        ensures
            !old(native).is_loaded() ==> load_failed(*old(native), r) && no_call(*old(native), *final(native)),
            old(native).is_loaded() ==> called(*old(native), *final(native), 1)
                && (call_at(*old(native), *final(native), 0) matches NativeCall::GetFaceTemplate2 { image: v_image } && (v_image == self@))
                && template_reply("GetFaceTemplate2", reply_at(*old(native), *final(native), 0), r),
    {
        if !native.is_available() {
            return native.load_failure();
        }
        let call = NativeCall::GetFaceTemplate2 { image: self.handle };
        let reply = native.call(call);
        reply_template("GetFaceTemplate2", &reply)
    }

    /// Extracts face template for a specific Face region using the improved v2 model
    pub fn get_face_template_in_region2<N: Fn(&NativeCall) -> NativeReply>(&self, native: &mut Native<N>, face: &Face) -> (r: Result<FaceTemplate>)
        ensures
            !old(native).is_loaded() ==> load_failed(*old(native), r) && no_call(*old(native), *final(native)),
            old(native).is_loaded() ==> called(*old(native), *final(native), 1)
                && (call_at(*old(native), *final(native), 0) matches NativeCall::GetFaceTemplateInRegion2 { image: v_image, face: v_face } && (v_image == self@ && v_face == *face))
                && template_reply("GetFaceTemplateInRegion2", reply_at(*old(native), *final(native), 0), r),
    {
        if !native.is_available() {
            return native.load_failure();
        }
        let call = NativeCall::GetFaceTemplateInRegion2 { image: self.handle, face: *face };
        let reply = native.call(call);
        reply_template("GetFaceTemplateInRegion2", &reply)
    }

    /// Detects facial attributes using features
    /// Returns a string like "Male=<confidence>;Female=<confidence>" for the Gender attribute
    pub fn detect_facial_attribute<N: Fn(&NativeCall) -> NativeReply>(&self, native: &mut Native<N>, features: &Features, attribute_name: &str) -> (r: Result<String>)
        ensures
            !old(native).is_loaded() ==> load_failed(*old(native), r) && no_call(*old(native), *final(native)),
            old(native).is_loaded() && !c_text_ok(attribute_name) ==> text_error(attribute_name, r) && no_call(*old(native), *final(native)),
            old(native).is_loaded() && c_text_ok(attribute_name) ==> called(*old(native), *final(native), 1)
                && (call_at(*old(native), *final(native), 0) matches NativeCall::DetectFacialAttributeUsingFeatures { image: v_image, features: v_features, attribute: v_attribute } && (v_image == self@ && v_features == *features && v_attribute@ == attribute_name.spec_bytes()))
                && text_reply("DetectFacialAttributeUsingFeatures", reply_at(*old(native), *final(native), 0), r),
    {
        if !native.is_available() {
            return native.load_failure();
        }
        let c_attribute_name = c_string_bytes(attribute_name)?;
        let call = NativeCall::DetectFacialAttributeUsingFeatures { image: self.handle, features: *features, attribute: c_attribute_name };
        let reply = native.call(call);
        reply_text("DetectFacialAttributeUsingFeatures", &reply)
    }



    /// Creates a copy of the image
    pub fn copy<N: Fn(&NativeCall) -> NativeReply>(&self, native: &mut Native<N>) -> (r: Result<Image>)
        ensures
            !old(native).is_loaded() ==> load_failed(*old(native), r) && no_call(*old(native), *final(native)),
            old(native).is_loaded() ==> created_and_filled(
                *old(native),
                *final(native),
                "CopyImage",
                |dst: i32| NativeCall::CopyImage { src: self@, dst },
                r,
            ),
    {
        if !native.is_available() {
            return native.load_failure();
        }
        let src = self.handle;
        let created = native.call(NativeCall::CreateEmptyImage);
        let dest = match reply_image("CreateEmptyImage", &created) {
            Ok(d) => d,
            Err(e) => return Err(e),
        };
        let dst = dest.handle;
        let call = NativeCall::CopyImage { src: src, dst };
        Self::fill_dest(native, "CopyImage", call, dest)
    }

    /// Rotates the image by 90 degrees * multiplier
    pub fn rotate_90<N: Fn(&NativeCall) -> NativeReply>(&self, native: &mut Native<N>, multiplier: i32) -> (r: Result<Image>)
        ensures
            !old(native).is_loaded() ==> load_failed(*old(native), r) && no_call(*old(native), *final(native)),
            old(native).is_loaded() ==> created_and_filled(
                *old(native),
                *final(native),
                "RotateImage90",
                |dst: i32| NativeCall::RotateImage90 { src: self@, multiplier, dst },
                r,
            ),
    {
        if !native.is_available() {
            return native.load_failure();
        }
        let src = self.handle;
        let created = native.call(NativeCall::CreateEmptyImage);
        let dest = match reply_image("CreateEmptyImage", &created) {
            Ok(d) => d,
            Err(e) => return Err(e),
        };
        let dst = dest.handle;
        let call = NativeCall::RotateImage90 { src: src, multiplier, dst };
        Self::fill_dest(native, "RotateImage90", call, dest)
    }

    /// Copies a rectangular region of the image
    pub fn crop<N: Fn(&NativeCall) -> NativeReply>(&self, native: &mut Native<N>, x1: i32, y1: i32, x2: i32, y2: i32) -> (r: Result<Image>)
        ensures
            !old(native).is_loaded() ==> load_failed(*old(native), r) && no_call(*old(native), *final(native)),
            old(native).is_loaded() ==> created_and_filled(
                *old(native),
                *final(native),
                "CopyRect",
                |dst: i32| NativeCall::CopyRect { src: self@, x1, y1, x2, y2, dst },
                r,
            ),
    {
        if !native.is_available() {
            return native.load_failure();
        }
        let src = self.handle;
        let created = native.call(NativeCall::CreateEmptyImage);
        let dest = match reply_image("CreateEmptyImage", &created) {
            Ok(d) => d,
            Err(e) => return Err(e),
        };
        let dst = dest.handle;
        let call = NativeCall::CopyRect { src: src, x1, y1, x2, y2, dst };
        Self::fill_dest(native, "CopyRect", call, dest)
    }

    /// Copies a rectangular region with replicated border
    pub fn crop_replicate_border<N: Fn(&NativeCall) -> NativeReply>(&self, native: &mut Native<N>, x1: i32, y1: i32, x2: i32, y2: i32) -> (r: Result<Image>)
        ensures
            !old(native).is_loaded() ==> load_failed(*old(native), r) && no_call(*old(native), *final(native)),
            old(native).is_loaded() ==> created_and_filled(
                *old(native),
                *final(native),
                "CopyRectReplicateBorder",
                |dst: i32| NativeCall::CopyRectReplicateBorder { src: self@, x1, y1, x2, y2, dst },
                r,
            ),
    {
        if !native.is_available() {
            return native.load_failure();
        }
        let src = self.handle;
        let created = native.call(NativeCall::CreateEmptyImage);
        let dest = match reply_image("CreateEmptyImage", &created) {
            Ok(d) => d,
            Err(e) => return Err(e),
        };
        let dst = dest.handle;
        let call = NativeCall::CopyRectReplicateBorder { src: src, x1, y1, x2, y2, dst };
        Self::fill_dest(native, "CopyRectReplicateBorder", call, dest)
    }


    /// Saves image to a buffer
    pub fn to_buffer<N: Fn(&NativeCall) -> NativeReply>(&self, native: &mut Native<N>, image_mode: i32) -> (r: Result<Vec<u8>>)
        ensures
            !old(native).is_loaded() ==> load_failed(*old(native), r) && no_call(*old(native), *final(native)),
            old(native).is_loaded() ==> {
                let sized = reply_at(*old(native), *final(native), 0);
                &&& call_at(*old(native), *final(native), 0) == (NativeCall::GetImageBufferSize { image: self@, image_mode })
                &&& if sized.status == FSDKE_OK {
                    &&& called(*old(native), *final(native), 2)
                    &&& call_at(*old(native), *final(native), 1) == (NativeCall::SaveImageToBuffer {
                        image: self@,
                        size: (sized.number as i32) as usize,
                        image_mode,
                    })
                    &&& bytes_reply("SaveImageToBuffer", reply_at(*old(native), *final(native), 1), r)
                } else {
                    called(*old(native), *final(native), 1) && r == reply_error::<Vec<u8>>("GetImageBufferSize", sized)
                }
            },
    {
        if !native.is_available() {
            return native.load_failure();
        }
        let sized = native.call(NativeCall::GetImageBufferSize { image: self.handle, image_mode });
        let size = reply_i32("GetImageBufferSize", &sized)?;
        let saved = native.call(NativeCall::SaveImageToBuffer { image: self.handle, size: size as usize, image_mode });
        reply_bytes("SaveImageToBuffer", saved)
    }

    /// Returns the size (width, height) of the image
    pub fn size<N: Fn(&NativeCall) -> NativeReply>(&self, native: &mut Native<N>) -> (r: Result<(i32, i32)>)
        ensures
            !old(native).is_loaded() ==> load_failed(*old(native), r) && no_call(*old(native), *final(native)),
            old(native).is_loaded() ==> {
                let w = reply_at(*old(native), *final(native), 0);
                let h = reply_at(*old(native), *final(native), 1);
                &&& call_at(*old(native), *final(native), 0) == (NativeCall::GetImageWidth { image: self@ })
                &&& if w.status == FSDKE_OK {
                    &&& called(*old(native), *final(native), 2)
                    &&& call_at(*old(native), *final(native), 1) == (NativeCall::GetImageHeight { image: self@ })
                    &&& if h.status == FSDKE_OK {
                        r == Ok::<(i32, i32), FsdkError>((w.number as i32, h.number as i32))
                    } else {
                        r == reply_error::<(i32, i32)>("GetImageHeight", h)
                    }
                } else {
                    called(*old(native), *final(native), 1) && r == reply_error::<(i32, i32)>("GetImageWidth", w)
                }
            },
    {
        if !native.is_available() {
            return native.load_failure();
        }
        let w = native.call(NativeCall::GetImageWidth { image: self.handle });
        let width = reply_i32("GetImageWidth", &w)?;
        let h = native.call(NativeCall::GetImageHeight { image: self.handle });
        let height = reply_i32("GetImageHeight", &h)?;
        Ok((width, height))
    }

    /// Saves the image to a file with specified JPEG quality.
    /// The JPEG quality is a setting of the whole library: callers that save from
    /// several threads hold a lock around this call.
    pub fn save_to_file_with_quality<N: Fn(&NativeCall) -> NativeReply>(&self, native: &mut Native<N>, path: Option<&str>, quality: i32) -> (r: Result<()>)
        ensures
            !old(native).is_loaded() ==> load_failed(*old(native), r) && no_call(*old(native), *final(native)),
            old(native).is_loaded() ==> {
                let q = reply_at(*old(native), *final(native), 0);
                &&& call_at(*old(native), *final(native), 0) == (NativeCall::SetJpegCompressionQuality { quality })
                &&& if q.status != FSDKE_OK {
                    called(*old(native), *final(native), 1) && r == reply_error::<()>("SetJpegCompressionQuality", q)
                } else if path is None {
                    called(*old(native), *final(native), 1) && invalid_path(r)
                } else if !c_text_ok(path.unwrap()) {
                    called(*old(native), *final(native), 1) && text_error(path.unwrap(), r)
                } else {
                    &&& called(*old(native), *final(native), 2)
                    &&& (call_at(*old(native), *final(native), 1) matches NativeCall::SaveImageToFile { image: v_image, path: v_path }
                        && (v_image == self@ && v_path@ == path.unwrap().spec_bytes()))
                    &&& unit_reply("SaveImageToFile", reply_at(*old(native), *final(native), 1), r)
                }
            },
    {
        if !native.is_available() {
            return native.load_failure();
        }
        let q = native.call(NativeCall::SetJpegCompressionQuality { quality });
        reply_unit("SetJpegCompressionQuality", &q)?;
        let path = match path {
            Some(p) => p,
            None => return Err(FsdkError::InvalidString(string_from("Invalid path"))),
        };
        let c_path = c_string_bytes(path)?;
        let saved = native.call(NativeCall::SaveImageToFile { image: self.handle, path: c_path });
        reply_unit("SaveImageToFile", &saved)
    }
}

// ---------------------------------------------------------------------------
// Cameras
// ---------------------------------------------------------------------------

/// Safe wrapper for FSDK Camera handle
pub struct Camera {
    handle: i32,
}

impl View for Camera {
    type V = i32;

    closed spec fn view(&self) -> i32 {
        self.handle
    }
}

impl Camera {

    /// Opens an IP video camera
    pub fn open_ip<N: Fn(&NativeCall) -> NativeReply>(native: &mut Native<N>, compression: i32, url: &str, username: &str, password: &str, timeout_seconds: i32) -> (r: Result<Camera>)
        ensures
            !old(native).is_loaded() ==> load_failed(*old(native), r) && no_call(*old(native), *final(native)),
            old(native).is_loaded() && !c_text_ok(url) ==> text_error(url, r) && no_call(*old(native), *final(native)),
            old(native).is_loaded() && c_text_ok(url) && !c_text_ok(username) ==> text_error(username, r) && no_call(*old(native), *final(native)),
            old(native).is_loaded() && c_text_ok(url) && c_text_ok(username) && !c_text_ok(password) ==> text_error(password, r) && no_call(*old(native), *final(native)),
            old(native).is_loaded() && c_text_ok(url) && c_text_ok(username) && c_text_ok(password) ==> called(*old(native), *final(native), 1)
                && (call_at(*old(native), *final(native), 0) matches NativeCall::OpenIpVideoCamera { compression: v_compression, url: v_url, username: v_username, password: v_password, timeout_seconds: v_timeout_seconds } && (v_compression == compression && v_url@ == url.spec_bytes() && v_username@ == username.spec_bytes() && v_password@ == password.spec_bytes() && v_timeout_seconds == timeout_seconds))
                && camera_reply("OpenIPVideoCamera", reply_at(*old(native), *final(native), 0), r),
    {
        if !native.is_available() {
            return native.load_failure();
        }
        let c_url = c_string_bytes(url)?;
        let c_username = c_string_bytes(username)?;
        let c_password = c_string_bytes(password)?;
        let call = NativeCall::OpenIpVideoCamera { compression, url: c_url, username: c_username, password: c_password, timeout_seconds };
        let reply = native.call(call);
        reply_camera("OpenIPVideoCamera", &reply)
    }

    /// Grabs a frame from the camera
    pub fn grab_frame<N: Fn(&NativeCall) -> NativeReply>(&self, native: &mut Native<N>) -> (r: Result<Image>)
        ensures
            !old(native).is_loaded() ==> load_failed(*old(native), r) && no_call(*old(native), *final(native)),
            old(native).is_loaded() ==> called(*old(native), *final(native), 1)
                && (call_at(*old(native), *final(native), 0) matches NativeCall::GrabFrame { camera: v_camera } && (v_camera == self@))
                && image_reply("GrabFrame", reply_at(*old(native), *final(native), 0), r),
    {
        if !native.is_available() {
            return native.load_failure();
        }
        let call = NativeCall::GrabFrame { camera: self.handle };
        let reply = native.call(call);
        reply_image("GrabFrame", &reply)
    }



    /// Closes the camera
    pub fn close<N: Fn(&NativeCall) -> NativeReply>(&mut self, native: &mut Native<N>) -> (r: Result<()>)
        ensures
            final(self)@ == -1,
            old(self)@ == -1 ==> r == Ok::<(), FsdkError>(()) && no_call(*old(native), *final(native)),
            old(self)@ != -1 && !old(native).is_loaded() ==> load_failed(*old(native), r) && no_call(*old(native), *final(native)),
            old(self)@ != -1 && old(native).is_loaded() ==> called(*old(native), *final(native), 1)
                && call_at(*old(native), *final(native), 0) == (NativeCall::CloseVideoCamera { camera: old(self)@ })
                && unit_reply("CloseVideoCamera", reply_at(*old(native), *final(native), 0), r),
    {
        let h = self.handle;
        self.handle = -1;
        if h != -1 {
            if !native.is_available() {
                return native.load_failure();
            }
            let reply = native.call(NativeCall::CloseVideoCamera { camera: h });
            reply_unit("CloseVideoCamera", &reply)?;
        }
        Ok(())
    }

    /// Closes the camera, if it is open and the library was loaded, ignoring the
    /// outcome, and leaves no camera behind.
    pub fn release<N: Fn(&NativeCall) -> NativeReply>(&mut self, native: &mut Native<N>)
        ensures
            final(self)@ == -1,
            old(self)@ == -1 || !old(native).is_loaded() ==> no_call(*old(native), *final(native)),
            old(self)@ != -1 && old(native).is_loaded() ==> called(*old(native), *final(native), 1)
                && call_at(*old(native), *final(native), 0) == (NativeCall::CloseVideoCamera {
                camera: old(self)@,
            }),
    {
        if self.handle != -1 {
            if native.is_available() {
                let _ = native.call(NativeCall::CloseVideoCamera { camera: self.handle });
            }
            self.handle = -1;
        }
    }
}

// ---------------------------------------------------------------------------
// Trackers
// ---------------------------------------------------------------------------

/// Safe wrapper for FSDK Tracker handle
pub struct Tracker {
    handle: i32,
}

impl View for Tracker {
    type V = i32;

    closed spec fn view(&self) -> i32 {
        self.handle
    }
}

impl Tracker {
    /// Returns the raw handle
    pub fn handle(&self) -> (h: i32)
        ensures
            h == self@,
    {
        self.handle
    }


    /// Creates a new tracker
    pub fn new<N: Fn(&NativeCall) -> NativeReply>(native: &mut Native<N>) -> (r: Result<Tracker>)
        ensures
            !old(native).is_loaded() ==> load_failed(*old(native), r) && no_call(*old(native), *final(native)),
            old(native).is_loaded() ==> called(*old(native), *final(native), 1)
                && (call_at(*old(native), *final(native), 0) matches NativeCall::CreateTracker)
                && tracker_reply("CreateTracker", reply_at(*old(native), *final(native), 0), r),
    {
        if !native.is_available() {
            return native.load_failure();
        }
        let call = NativeCall::CreateTracker;
        let reply = native.call(call);
        reply_tracker("CreateTracker", &reply)
    }

    /// Loads tracker from file
    pub fn from_file<N: Fn(&NativeCall) -> NativeReply>(native: &mut Native<N>, path: Option<&str>) -> (r: Result<Tracker>)
        ensures
            path is None ==> invalid_path(r) && no_call(*old(native), *final(native)),
            path is Some && !old(native).is_loaded() ==> load_failed(*old(native), r) && no_call(*old(native), *final(native)),
            path is Some && old(native).is_loaded() && !c_text_ok(path.unwrap()) ==> text_error(path.unwrap(), r) && no_call(*old(native), *final(native)),
            path is Some && old(native).is_loaded() && c_text_ok(path.unwrap()) ==> called(*old(native), *final(native), 1)
                && (call_at(*old(native), *final(native), 0) matches NativeCall::LoadTrackerMemoryFromFile { path: v_path } && (v_path@ == path.unwrap().spec_bytes()))
                && tracker_reply("LoadTrackerMemoryFromFile", reply_at(*old(native), *final(native), 0), r),
    {
        let path = match path {
            Some(p) => p,
            None => return Err(FsdkError::InvalidString(string_from("Invalid path"))),
        };
        if !native.is_available() {
            return native.load_failure();
        }
        let c_path = c_string_bytes(path)?;
        let call = NativeCall::LoadTrackerMemoryFromFile { path: c_path };
        let reply = native.call(call);
        reply_tracker("LoadTrackerMemoryFromFile", &reply)
    }

    /// Loads tracker from buffer
    pub fn from_buffer<N: Fn(&NativeCall) -> NativeReply>(native: &mut Native<N>, buffer: &[u8]) -> (r: Result<Tracker>)
        ensures
            !old(native).is_loaded() ==> load_failed(*old(native), r) && no_call(*old(native), *final(native)),
            old(native).is_loaded() ==> called(*old(native), *final(native), 1)
                && (call_at(*old(native), *final(native), 0) matches NativeCall::LoadTrackerMemoryFromBuffer { buffer: v_buffer } && (v_buffer@ == buffer@))
                && tracker_reply("LoadTrackerMemoryFromBuffer", reply_at(*old(native), *final(native), 0), r),
    {
        if !native.is_available() {
            return native.load_failure();
        }
        let call = NativeCall::LoadTrackerMemoryFromBuffer { buffer: slice_to_vec(buffer) };
        let reply = native.call(call);
        reply_tracker("LoadTrackerMemoryFromBuffer", &reply)
    }

    /// Clears all tracker memory
    pub fn clear<N: Fn(&NativeCall) -> NativeReply>(&mut self, native: &mut Native<N>) -> (r: Result<()>)
        ensures
            final(self)@ == old(self)@,
            !old(native).is_loaded() ==> load_failed(*old(native), r) && no_call(*old(native), *final(native)),
            old(native).is_loaded() ==> called(*old(native), *final(native), 1)
                && (call_at(*old(native), *final(native), 0) matches NativeCall::ClearTracker { tracker: v_tracker } && (v_tracker == old(self)@))
                && unit_reply("ClearTracker", reply_at(*old(native), *final(native), 0), r),
    {
        if !native.is_available() {
            return native.load_failure();
        }
        let call = NativeCall::ClearTracker { tracker: self.handle };
        let reply = native.call(call);
        reply_unit("ClearTracker", &reply)
    }

    /// Sets a tracker parameter
    pub fn set_parameter<N: Fn(&NativeCall) -> NativeReply>(&self, native: &mut Native<N>, name: &str, value: &str) -> (r: Result<()>)
        ensures
            !old(native).is_loaded() ==> load_failed(*old(native), r) && no_call(*old(native), *final(native)),
            old(native).is_loaded() && !c_text_ok(name) ==> text_error(name, r) && no_call(*old(native), *final(native)),
            old(native).is_loaded() && c_text_ok(name) && !c_text_ok(value) ==> text_error(value, r) && no_call(*old(native), *final(native)),
            old(native).is_loaded() && c_text_ok(name) && c_text_ok(value) ==> called(*old(native), *final(native), 1)
                && (call_at(*old(native), *final(native), 0) matches NativeCall::SetTrackerParameter { tracker: v_tracker, name: v_name, value: v_value } && (v_tracker == self@ && v_name@ == name.spec_bytes() && v_value@ == value.spec_bytes()))
                && unit_reply("SetTrackerParameter", reply_at(*old(native), *final(native), 0), r),
    {
        if !native.is_available() {
            return native.load_failure();
        }
        let c_name = c_string_bytes(name)?;
        let c_value = c_string_bytes(value)?;
        let call = NativeCall::SetTrackerParameter { tracker: self.handle, name: c_name, value: c_value };
        let reply = native.call(call);
        reply_unit("SetTrackerParameter", &reply)
    }

    /// Sets multiple tracker parameters
    pub fn set_parameters<N: Fn(&NativeCall) -> NativeReply>(&self, native: &mut Native<N>, params: &str) -> (r: Result<()>)
        ensures
            !old(native).is_loaded() ==> load_failed(*old(native), r) && no_call(*old(native), *final(native)),
            old(native).is_loaded() && !c_text_ok(params) ==> text_error(params, r) && no_call(*old(native), *final(native)),
            old(native).is_loaded() && c_text_ok(params) ==> called(*old(native), *final(native), 1)
                && (call_at(*old(native), *final(native), 0) matches NativeCall::SetTrackerMultipleParameters { tracker: v_tracker, params: v_params } && (v_tracker == self@ && v_params@ == params.spec_bytes()))
                && unit_reply("SetTrackerMultipleParameters", reply_at(*old(native), *final(native), 0), r),
    {
        if !native.is_available() {
            return native.load_failure();
        }
        let c_params = c_string_bytes(params)?;
        let call = NativeCall::SetTrackerMultipleParameters { tracker: self.handle, params: c_params };
        let reply = native.call(call);
        reply_unit("SetTrackerMultipleParameters", &reply)
    }

    /// Gets a tracker parameter value
    pub fn get_parameter<N: Fn(&NativeCall) -> NativeReply>(&self, native: &mut Native<N>, name: &str) -> (r: Result<String>)
        ensures
            !old(native).is_loaded() ==> load_failed(*old(native), r) && no_call(*old(native), *final(native)),
            old(native).is_loaded() && !c_text_ok(name) ==> text_error(name, r) && no_call(*old(native), *final(native)),
            old(native).is_loaded() && c_text_ok(name) ==> called(*old(native), *final(native), 1)
                && (call_at(*old(native), *final(native), 0) matches NativeCall::GetTrackerParameter { tracker: v_tracker, name: v_name } && (v_tracker == self@ && v_name@ == name.spec_bytes()))
                && text_reply("GetTrackerParameter", reply_at(*old(native), *final(native), 0), r),
    {
        if !native.is_available() {
            return native.load_failure();
        }
        let c_name = c_string_bytes(name)?;
        let call = NativeCall::GetTrackerParameter { tracker: self.handle, name: c_name };
        let reply = native.call(call);
        reply_text("GetTrackerParameter", &reply)
    }

    /// Processes a video frame and returns face IDs
    pub fn feed_frame<N: Fn(&NativeCall) -> NativeReply>(&self, native: &mut Native<N>, camera_idx: i64, image: &Image, max_ids: usize) -> (r: Result<Vec<i64>>)
        ensures
            !old(native).is_loaded() ==> load_failed(*old(native), r) && no_call(*old(native), *final(native)),
            old(native).is_loaded() ==> called(*old(native), *final(native), 1)
                && (call_at(*old(native), *final(native), 0) matches NativeCall::FeedFrame { tracker: v_tracker, camera_idx: v_camera_idx, image: v_image, max_ids: v_max_ids } && (v_tracker == self@ && v_camera_idx == camera_idx && v_image == image@ && v_max_ids == max_ids))
                && counted_ids_reply("FeedFrame", reply_at(*old(native), *final(native), 0), max_ids as nat, r),
    {
        if !native.is_available() {
            return native.load_failure();
        }
        let call = NativeCall::FeedFrame { tracker: self.handle, camera_idx, image: image.handle, max_ids };
        let reply = native.call(call);
        reply_counted_ids("FeedFrame", reply, max_ids)
    }

    /// Gets eye positions for a tracked face
    pub fn get_eyes<N: Fn(&NativeCall) -> NativeReply>(&self, native: &mut Native<N>, camera_idx: i64, id: i64) -> (r: Result<Eyes>)
        ensures
            !old(native).is_loaded() ==> load_failed(*old(native), r) && no_call(*old(native), *final(native)),
            old(native).is_loaded() ==> called(*old(native), *final(native), 1)
                && (call_at(*old(native), *final(native), 0) matches NativeCall::GetTrackerEyes { tracker: v_tracker, camera_idx: v_camera_idx, id: v_id } && (v_tracker == self@ && v_camera_idx == camera_idx && v_id == id))
                && eyes_reply("GetTrackerEyes", reply_at(*old(native), *final(native), 0), r),
    {
        if !native.is_available() {
            return native.load_failure();
        }
        let call = NativeCall::GetTrackerEyes { tracker: self.handle, camera_idx, id };
        let reply = native.call(call);
        reply_eyes("GetTrackerEyes", &reply)
    }

    /// Gets facial features for a tracked face
    pub fn get_facial_features<N: Fn(&NativeCall) -> NativeReply>(&self, native: &mut Native<N>, camera_idx: i64, id: i64) -> (r: Result<Features>)
        ensures
            !old(native).is_loaded() ==> load_failed(*old(native), r) && no_call(*old(native), *final(native)),
            old(native).is_loaded() ==> called(*old(native), *final(native), 1)
                && (call_at(*old(native), *final(native), 0) matches NativeCall::GetTrackerFacialFeatures { tracker: v_tracker, camera_idx: v_camera_idx, id: v_id } && (v_tracker == self@ && v_camera_idx == camera_idx && v_id == id))
                && features_reply("GetTrackerFacialFeatures", reply_at(*old(native), *final(native), 0), r),
    {
        if !native.is_available() {
            return native.load_failure();
        }
        let call = NativeCall::GetTrackerFacialFeatures { tracker: self.handle, camera_idx, id };
        let reply = native.call(call);
        reply_features("GetTrackerFacialFeatures", &reply)
    }

    /// Gets face (Face with bounding box and 5 features) for a tracked face using v2 model
    pub fn get_face<N: Fn(&NativeCall) -> NativeReply>(&self, native: &mut Native<N>, camera_idx: i64, id: i64) -> (r: Result<Face>)
        ensures
            !old(native).is_loaded() ==> load_failed(*old(native), r) && no_call(*old(native), *final(native)),
            old(native).is_loaded() ==> called(*old(native), *final(native), 1)
                && (call_at(*old(native), *final(native), 0) matches NativeCall::GetTrackerFace { tracker: v_tracker, camera_idx: v_camera_idx, id: v_id } && (v_tracker == self@ && v_camera_idx == camera_idx && v_id == id))
                && face_reply("GetTrackerFace", reply_at(*old(native), *final(native), 0), r),
    {
        if !native.is_available() {
            return native.load_failure();
        }
        let call = NativeCall::GetTrackerFace { tracker: self.handle, camera_idx, id };
        let reply = native.call(call);
        reply_face("GetTrackerFace", &reply)
    }

    /// Gets facial attribute for a tracked face
    pub fn get_facial_attribute<N: Fn(&NativeCall) -> NativeReply>(&self, native: &mut Native<N>, camera_idx: i64, id: i64, attribute_name: &str) -> (r: Result<String>)
        ensures
            !old(native).is_loaded() ==> load_failed(*old(native), r) && no_call(*old(native), *final(native)),
            old(native).is_loaded() && !c_text_ok(attribute_name) ==> text_error(attribute_name, r) && no_call(*old(native), *final(native)),
            old(native).is_loaded() && c_text_ok(attribute_name) ==> called(*old(native), *final(native), 1)
                && (call_at(*old(native), *final(native), 0) matches NativeCall::GetTrackerFacialAttribute { tracker: v_tracker, camera_idx: v_camera_idx, id: v_id, attribute: v_attribute } && (v_tracker == self@ && v_camera_idx == camera_idx && v_id == id && v_attribute@ == attribute_name.spec_bytes()))
                && text_reply("GetTrackerFacialAttribute", reply_at(*old(native), *final(native), 0), r),
    {
        if !native.is_available() {
            return native.load_failure();
        }
        let c_attribute_name = c_string_bytes(attribute_name)?;
        let call = NativeCall::GetTrackerFacialAttribute { tracker: self.handle, camera_idx, id, attribute: c_attribute_name };
        let reply = native.call(call);
        reply_text("GetTrackerFacialAttribute", &reply)
    }

    /// Locks an ID to prevent purging
    pub fn lock_id<N: Fn(&NativeCall) -> NativeReply>(&self, native: &mut Native<N>, id: i64) -> (r: Result<()>)
        ensures
            !old(native).is_loaded() ==> load_failed(*old(native), r) && no_call(*old(native), *final(native)),
            old(native).is_loaded() ==> called(*old(native), *final(native), 1)
                && (call_at(*old(native), *final(native), 0) matches NativeCall::LockId { tracker: v_tracker, id: v_id } && (v_tracker == self@ && v_id == id))
                && unit_reply("LockID", reply_at(*old(native), *final(native), 0), r),
    {
        if !native.is_available() {
            return native.load_failure();
        }
        let call = NativeCall::LockId { tracker: self.handle, id };
        let reply = native.call(call);
        reply_unit("LockID", &reply)
    }

    /// Unlocks an ID
    pub fn unlock_id<N: Fn(&NativeCall) -> NativeReply>(&self, native: &mut Native<N>, id: i64) -> (r: Result<()>)
        ensures
            !old(native).is_loaded() ==> load_failed(*old(native), r) && no_call(*old(native), *final(native)),
            old(native).is_loaded() ==> called(*old(native), *final(native), 1)
                && (call_at(*old(native), *final(native), 0) matches NativeCall::UnlockId { tracker: v_tracker, id: v_id } && (v_tracker == self@ && v_id == id))
                && unit_reply("UnlockID", reply_at(*old(native), *final(native), 0), r),
    {
        if !native.is_available() {
            return native.load_failure();
        }
        let call = NativeCall::UnlockId { tracker: self.handle, id };
        let reply = native.call(call);
        reply_unit("UnlockID", &reply)
    }

    /// Purges all data for an ID
    pub fn purge_id<N: Fn(&NativeCall) -> NativeReply>(&self, native: &mut Native<N>, id: i64) -> (r: Result<()>)
        ensures
            !old(native).is_loaded() ==> load_failed(*old(native), r) && no_call(*old(native), *final(native)),
            old(native).is_loaded() ==> called(*old(native), *final(native), 1)
                && (call_at(*old(native), *final(native), 0) matches NativeCall::PurgeId { tracker: v_tracker, id: v_id } && (v_tracker == self@ && v_id == id))
                && unit_reply("PurgeID", reply_at(*old(native), *final(native), 0), r),
    {
        if !native.is_available() {
            return native.load_failure();
        }
        let call = NativeCall::PurgeId { tracker: self.handle, id };
        let reply = native.call(call);
        reply_unit("PurgeID", &reply)
    }

    /// Sets the name for an ID
    pub fn set_name<N: Fn(&NativeCall) -> NativeReply>(&self, native: &mut Native<N>, id: i64, name: &str) -> (r: Result<()>)
        ensures
            !old(native).is_loaded() ==> load_failed(*old(native), r) && no_call(*old(native), *final(native)),
            old(native).is_loaded() && !c_text_ok(name) ==> text_error(name, r) && no_call(*old(native), *final(native)),
            old(native).is_loaded() && c_text_ok(name) ==> called(*old(native), *final(native), 1)
                && (call_at(*old(native), *final(native), 0) matches NativeCall::SetName { tracker: v_tracker, id: v_id, name: v_name } && (v_tracker == self@ && v_id == id && v_name@ == name.spec_bytes()))
                && unit_reply("SetName", reply_at(*old(native), *final(native), 0), r),
    {
        if !native.is_available() {
            return native.load_failure();
        }
        let c_name = c_string_bytes(name)?;
        let call = NativeCall::SetName { tracker: self.handle, id, name: c_name };
        let reply = native.call(call);
        reply_unit("SetName", &reply)
    }

    /// Gets the name for an ID
    pub fn get_name<N: Fn(&NativeCall) -> NativeReply>(&self, native: &mut Native<N>, id: i64) -> (r: Result<String>)
        ensures
            !old(native).is_loaded() ==> load_failed(*old(native), r) && no_call(*old(native), *final(native)),
            old(native).is_loaded() ==> called(*old(native), *final(native), 1)
                && (call_at(*old(native), *final(native), 0) matches NativeCall::GetName { tracker: v_tracker, id: v_id } && (v_tracker == self@ && v_id == id))
                && text_reply("GetName", reply_at(*old(native), *final(native), 0), r),
    {
        if !native.is_available() {
            return native.load_failure();
        }
        let call = NativeCall::GetName { tracker: self.handle, id };
        let reply = native.call(call);
        reply_text("GetName", &reply)
    }

    /// Gets all names for an ID and similar IDs
    pub fn get_all_names<N: Fn(&NativeCall) -> NativeReply>(&self, native: &mut Native<N>, id: i64) -> (r: Result<Vec<String>>)
        ensures
            !old(native).is_loaded() ==> load_failed(*old(native), r) && no_call(*old(native), *final(native)),
            old(native).is_loaded() ==> called(*old(native), *final(native), 1)
                && (call_at(*old(native), *final(native), 0) matches NativeCall::GetAllNames { tracker: v_tracker, id: v_id } && (v_tracker == self@ && v_id == id))
                && names_reply("GetAllNames", reply_at(*old(native), *final(native), 0), r),
    {
        if !native.is_available() {
            return native.load_failure();
        }
        let call = NativeCall::GetAllNames { tracker: self.handle, id };
        let reply = native.call(call);
        reply_names("GetAllNames", &reply)
    }

    /// Gets reassigned ID after merger
    pub fn get_id_reassignment<N: Fn(&NativeCall) -> NativeReply>(&self, native: &mut Native<N>, id: i64) -> (r: Result<i64>)
        ensures
            !old(native).is_loaded() ==> load_failed(*old(native), r) && no_call(*old(native), *final(native)),
            old(native).is_loaded() ==> called(*old(native), *final(native), 1)
                && (call_at(*old(native), *final(native), 0) matches NativeCall::GetIdReassignment { tracker: v_tracker, id: v_id } && (v_tracker == self@ && v_id == id))
                && i64_reply("GetIDReassignment", reply_at(*old(native), *final(native), 0), r),
    {
        if !native.is_available() {
            return native.load_failure();
        }
        let call = NativeCall::GetIdReassignment { tracker: self.handle, id };
        let reply = native.call(call);
        reply_i64("GetIDReassignment", &reply)
    }

    /// Gets count of similar IDs
    pub fn get_similar_id_count<N: Fn(&NativeCall) -> NativeReply>(&self, native: &mut Native<N>, id: i64) -> (r: Result<i64>)
        ensures
            !old(native).is_loaded() ==> load_failed(*old(native), r) && no_call(*old(native), *final(native)),
            old(native).is_loaded() ==> called(*old(native), *final(native), 1)
                && (call_at(*old(native), *final(native), 0) matches NativeCall::GetSimilarIdCount { tracker: v_tracker, id: v_id } && (v_tracker == self@ && v_id == id))
                && i64_reply("GetSimilarIDCount", reply_at(*old(native), *final(native), 0), r),
    {
        if !native.is_available() {
            return native.load_failure();
        }
        let call = NativeCall::GetSimilarIdCount { tracker: self.handle, id };
        let reply = native.call(call);
        reply_i64("GetSimilarIDCount", &reply)
    }

    /// Saves tracker memory to file
    pub fn save_to_file<N: Fn(&NativeCall) -> NativeReply>(&self, native: &mut Native<N>, path: Option<&str>) -> (r: Result<()>)
        ensures
            path is None ==> invalid_path(r) && no_call(*old(native), *final(native)),
            path is Some && !old(native).is_loaded() ==> load_failed(*old(native), r) && no_call(*old(native), *final(native)),
            path is Some && old(native).is_loaded() && !c_text_ok(path.unwrap()) ==> text_error(path.unwrap(), r) && no_call(*old(native), *final(native)),
            path is Some && old(native).is_loaded() && c_text_ok(path.unwrap()) ==> called(*old(native), *final(native), 1)
                && (call_at(*old(native), *final(native), 0) matches NativeCall::SaveTrackerMemoryToFile { tracker: v_tracker, path: v_path } && (v_tracker == self@ && v_path@ == path.unwrap().spec_bytes()))
                && unit_reply("SaveTrackerMemoryToFile", reply_at(*old(native), *final(native), 0), r),
    {
        let path = match path {
            Some(p) => p,
            None => return Err(FsdkError::InvalidString(string_from("Invalid path"))),
        };
        if !native.is_available() {
            return native.load_failure();
        }
        let c_path = c_string_bytes(path)?;
        let call = NativeCall::SaveTrackerMemoryToFile { tracker: self.handle, path: c_path };
        let reply = native.call(call);
        reply_unit("SaveTrackerMemoryToFile", &reply)
    }

    /// Gets buffer size needed to save tracker memory
    pub fn get_buffer_size<N: Fn(&NativeCall) -> NativeReply>(&self, native: &mut Native<N>) -> (r: Result<i64>)
        ensures
            !old(native).is_loaded() ==> load_failed(*old(native), r) && no_call(*old(native), *final(native)),
            old(native).is_loaded() ==> called(*old(native), *final(native), 1)
                && (call_at(*old(native), *final(native), 0) matches NativeCall::GetTrackerMemoryBufferSize { tracker: v_tracker } && (v_tracker == self@))
                && i64_reply("GetTrackerMemoryBufferSize", reply_at(*old(native), *final(native), 0), r),
    {
        if !native.is_available() {
            return native.load_failure();
        }
        let call = NativeCall::GetTrackerMemoryBufferSize { tracker: self.handle };
        let reply = native.call(call);
        reply_i64("GetTrackerMemoryBufferSize", &reply)
    }

    /// Gets count of all known IDs
    pub fn get_ids_count<N: Fn(&NativeCall) -> NativeReply>(&self, native: &mut Native<N>) -> (r: Result<i64>)
        ensures
            !old(native).is_loaded() ==> load_failed(*old(native), r) && no_call(*old(native), *final(native)),
            old(native).is_loaded() ==> called(*old(native), *final(native), 1)
                && (call_at(*old(native), *final(native), 0) matches NativeCall::GetTrackerIdsCount { tracker: v_tracker } && (v_tracker == self@))
                && i64_reply("GetTrackerIDsCount", reply_at(*old(native), *final(native), 0), r),
    {
        if !native.is_available() {
            return native.load_failure();
        }
        let call = NativeCall::GetTrackerIdsCount { tracker: self.handle };
        let reply = native.call(call);
        reply_i64("GetTrackerIDsCount", &reply)
    }



    /// Gets list of similar IDs
    pub fn get_similar_id_list<N: Fn(&NativeCall) -> NativeReply>(&self, native: &mut Native<N>, id: i64) -> (r: Result<Vec<i64>>)
        ensures
            !old(native).is_loaded() ==> load_failed(*old(native), r) && no_call(*old(native), *final(native)),
            old(native).is_loaded() ==> {
                let counted = reply_at(*old(native), *final(native), 0);
                &&& call_at(*old(native), *final(native), 0) == (NativeCall::GetSimilarIdCount { tracker: self@, id })
                &&& if counted.status != FSDKE_OK {
                    called(*old(native), *final(native), 1) && r == reply_error::<Vec<i64>>("GetSimilarIDCount", counted)
                } else if counted.number == 0 {
                    called(*old(native), *final(native), 1) && (r matches Ok(v) && v@.len() == 0)
                } else {
                    &&& called(*old(native), *final(native), 2)
                    &&& call_at(*old(native), *final(native), 1) == (NativeCall::GetSimilarIdList {
                        tracker: self@, id,
                        count: counted.number as usize,
                    })
                    &&& ids_reply("GetSimilarIDList", reply_at(*old(native), *final(native), 1), (counted.number as usize) as nat, r)
                }
            },
    {
        if !native.is_available() {
            return native.load_failure();
        }
        let counted = native.call(NativeCall::GetSimilarIdCount { tracker: self.handle, id });
        let count = reply_i64("GetSimilarIDCount", &counted)?;
        if count == 0 {
            return Ok(Vec::new());
        }
        let listed = native.call(NativeCall::GetSimilarIdList { tracker: self.handle, id, count: count as usize });
        reply_ids("GetSimilarIDList", listed, count as usize)
    }

    /// Gets all known IDs
    pub fn get_all_ids<N: Fn(&NativeCall) -> NativeReply>(&self, native: &mut Native<N>) -> (r: Result<Vec<i64>>)
        ensures
            !old(native).is_loaded() ==> load_failed(*old(native), r) && no_call(*old(native), *final(native)),
            old(native).is_loaded() ==> {
                let counted = reply_at(*old(native), *final(native), 0);
                &&& call_at(*old(native), *final(native), 0) == (NativeCall::GetTrackerIdsCount { tracker: self@ })
                &&& if counted.status != FSDKE_OK {
                    called(*old(native), *final(native), 1) && r == reply_error::<Vec<i64>>("GetTrackerIDsCount", counted)
                } else if counted.number == 0 {
                    called(*old(native), *final(native), 1) && (r matches Ok(v) && v@.len() == 0)
                } else {
                    &&& called(*old(native), *final(native), 2)
                    &&& call_at(*old(native), *final(native), 1) == (NativeCall::GetTrackerAllIds {
                        tracker: self@,
                        count: counted.number as usize,
                    })
                    &&& ids_reply("GetTrackerAllIDs", reply_at(*old(native), *final(native), 1), (counted.number as usize) as nat, r)
                }
            },
    {
        if !native.is_available() {
            return native.load_failure();
        }
        let counted = native.call(NativeCall::GetTrackerIdsCount { tracker: self.handle });
        let count = reply_i64("GetTrackerIDsCount", &counted)?;
        if count == 0 {
            return Ok(Vec::new());
        }
        let listed = native.call(NativeCall::GetTrackerAllIds { tracker: self.handle, count: count as usize });
        reply_ids("GetTrackerAllIDs", listed, count as usize)
    }



    /// Saves tracker memory to buffer
    pub fn to_buffer<N: Fn(&NativeCall) -> NativeReply>(&self, native: &mut Native<N>) -> (r: Result<Vec<u8>>)
        ensures
            !old(native).is_loaded() ==> load_failed(*old(native), r) && no_call(*old(native), *final(native)),
            old(native).is_loaded() ==> {
                let sized = reply_at(*old(native), *final(native), 0);
                &&& call_at(*old(native), *final(native), 0) == (NativeCall::GetTrackerMemoryBufferSize { tracker: self@ })
                &&& if sized.status == FSDKE_OK {
                    &&& called(*old(native), *final(native), 2)
                    &&& call_at(*old(native), *final(native), 1) == (NativeCall::SaveTrackerMemoryToBuffer {
                        tracker: self@,
                        size: sized.number as usize,
                    })
                    &&& bytes_reply("SaveTrackerMemoryToBuffer", reply_at(*old(native), *final(native), 1), r)
                } else {
                    called(*old(native), *final(native), 1) && r == reply_error::<Vec<u8>>("GetTrackerMemoryBufferSize", sized)
                }
            },
    {
        if !native.is_available() {
            return native.load_failure();
        }
        let sized = native.call(NativeCall::GetTrackerMemoryBufferSize { tracker: self.handle });
        let size = reply_i64("GetTrackerMemoryBufferSize", &sized)?;
        let saved = native.call(NativeCall::SaveTrackerMemoryToBuffer { tracker: self.handle, size: size as usize });
        reply_bytes("SaveTrackerMemoryToBuffer", saved)
    }

    /// Frees the native tracker, if there is one and the library was loaded, and
    /// leaves no tracker behind.
    pub fn release<N: Fn(&NativeCall) -> NativeReply>(&mut self, native: &mut Native<N>)
        ensures
            final(self)@ == -1,
            old(self)@ == -1 || !old(native).is_loaded() ==> no_call(*old(native), *final(native)),
            old(self)@ != -1 && old(native).is_loaded() ==> called(*old(native), *final(native), 1)
                && call_at(*old(native), *final(native), 0) == (NativeCall::FreeTracker {
                tracker: old(self)@,
            }),
    {
        if self.handle != -1 {
            if native.is_available() {
                let _ = native.call(NativeCall::FreeTracker { tracker: self.handle });
            }
            self.handle = -1;
        }
    }
}

} // verus!
