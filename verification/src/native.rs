//! The calls that the wrapper makes into the native FaceSDK library, and the rules
//! that turn the library's answers into results.
//!
//! The native library itself is reached by the caller, through a [`Native`]: the
//! function that performs one [`NativeCall`] and returns what the library answered
//! as a [`NativeReply`], together with a record of the calls made. The operations
//! state which calls they make, in which order and with which arguments, and what
//! they return for every possible answer.

use vstd::prelude::*;
use vstd::utf8::{decode_utf8, valid_utf8};

use crate::consts::{FSDKE_FACE_NOT_FOUND, FSDKE_FAILED, FSDKE_OK, FSDK_FACE_TEMPLATE_SIZE};
use crate::error::{check_result, code_error, status_result, FsdkError, Result};
use crate::geometry::{Eyes, Face, FaceTemplate, Features, Point, BBox};
use crate::text::{c_string_content, names_in, read_c_string, split_names, utf8_lossy};

verus! {

/// One call into the native FaceSDK library, with its arguments marshalled: text as
/// NUL-free bytes, images, trackers and cameras as their handles.
pub enum NativeCall {
    ActivateLibrary { license_key: Vec<u8> },
    GetHardwareId,
    GetLicenseInfo,
    Initialize,
    Finalize,
    GetNumThreads,
    SetNumThreads { num: i32 },
    SetParameters { params: Vec<u8> },
    SetParameter { name: Vec<u8>, value: Vec<u8> },
    SetFaceDetectionParameters {
        handle_arbitrary_rotations: bool,
        determine_face_rotation_angle: bool,
        internal_resize_width: i32,
    },
    SetFaceDetectionThreshold { threshold: i32 },
    GetDetectedFaceConfidence,
    SetJpegCompressionQuality { quality: i32 },
    InitializeCapturing,
    FinalizeCapturing,
    SetHttpProxy { server: Vec<u8>, port: u16, username: Vec<u8>, password: Vec<u8> },
    CreateEmptyImage,
    FreeImage { image: i32 },
    LoadImageFromFile { path: Vec<u8> },
    SaveImageToFile { image: i32, path: Vec<u8> },
    LoadImageFromBuffer {
        buffer: Vec<u8>,
        width: i32,
        height: i32,
        scan_line: i32,
        image_mode: i32,
    },
    LoadImageFromJpegBuffer { buffer: Vec<u8> },
    LoadImageFromPngBuffer { buffer: Vec<u8> },
    GetImageBufferSize { image: i32, image_mode: i32 },
    /// Saves the image into a buffer of `size` bytes.
    SaveImageToBuffer { image: i32, size: usize, image_mode: i32 },
    GetImageWidth { image: i32 },
    GetImageHeight { image: i32 },
    CopyImage { src: i32, dst: i32 },
    RotateImage90 { src: i32, multiplier: i32, dst: i32 },
    CopyRect { src: i32, x1: i32, y1: i32, x2: i32, y2: i32, dst: i32 },
    CopyRectReplicateBorder { src: i32, x1: i32, y1: i32, x2: i32, y2: i32, dst: i32 },
    MirrorImage { image: i32, use_vertical: bool },
    DetectEyes { image: i32 },
    DetectFace2 { image: i32 },
    /// Detects up to `max_faces` faces.
    DetectMultipleFaces2 { image: i32, max_faces: usize },
    DetectFaceAndFeatures2 { image: i32 },
    DetectMultipleFacesAndFeatures2 { image: i32, max_faces: usize },
    DetectFacialFeatures { image: i32 },
    GetFaceTemplate { image: i32 },
    GetFaceTemplateUsingFeatures { image: i32, features: Features },
    GetFaceTemplateUsingEyes { image: i32, eyes: Eyes },
    GetFaceTemplate2 { image: i32 },
    GetFaceTemplateInRegion2 { image: i32, face: Face },
    DetectFacialAttributeUsingFeatures { image: i32, features: Features, attribute: Vec<u8> },
    OpenIpVideoCamera {
        compression: i32,
        url: Vec<u8>,
        username: Vec<u8>,
        password: Vec<u8>,
        timeout_seconds: i32,
    },
    CloseVideoCamera { camera: i32 },
    GrabFrame { camera: i32 },
    CreateTracker,
    FreeTracker { tracker: i32 },
    ClearTracker { tracker: i32 },
    SetTrackerParameter { tracker: i32, name: Vec<u8>, value: Vec<u8> },
    SetTrackerMultipleParameters { tracker: i32, params: Vec<u8> },
    GetTrackerParameter { tracker: i32, name: Vec<u8> },
    /// Feeds a frame and asks for up to `max_ids` face IDs.
    FeedFrame { tracker: i32, camera_idx: i64, image: i32, max_ids: usize },
    GetTrackerEyes { tracker: i32, camera_idx: i64, id: i64 },
    GetTrackerFacialFeatures { tracker: i32, camera_idx: i64, id: i64 },
    GetTrackerFace { tracker: i32, camera_idx: i64, id: i64 },
    GetTrackerFacialAttribute { tracker: i32, camera_idx: i64, id: i64, attribute: Vec<u8> },
    LockId { tracker: i32, id: i64 },
    UnlockId { tracker: i32, id: i64 },
    PurgeId { tracker: i32, id: i64 },
    SetName { tracker: i32, id: i64, name: Vec<u8> },
    GetName { tracker: i32, id: i64 },
    GetAllNames { tracker: i32, id: i64 },
    GetIdReassignment { tracker: i32, id: i64 },
    GetSimilarIdCount { tracker: i32, id: i64 },
    /// Lists `count` similar IDs.
    GetSimilarIdList { tracker: i32, id: i64, count: usize },
    SaveTrackerMemoryToFile { tracker: i32, path: Vec<u8> },
    LoadTrackerMemoryFromFile { path: Vec<u8> },
    GetTrackerMemoryBufferSize { tracker: i32 },
    /// Saves the tracker memory into a buffer of `size` bytes.
    SaveTrackerMemoryToBuffer { tracker: i32, size: usize },
    LoadTrackerMemoryFromBuffer { buffer: Vec<u8> },
    GetTrackerIdsCount { tracker: i32 },
    /// Lists `count` IDs.
    GetTrackerAllIds { tracker: i32, count: usize },
}

/// What the native library answered to a call: its status code and the final values
/// of the output parameters that the call uses (the others keep their defaults).
pub struct NativeReply {
    /// The status code; `FSDKE_OK` on success.
    pub status: i32,
    /// A numeric output: a handle, a count, a size or a value.
    pub number: i64,
    /// A byte buffer output: a C text buffer, image data or tracker memory.
    pub bytes: Vec<u8>,
    pub eyes: Eyes,
    pub face: Face,
    pub faces: Vec<Face>,
    pub features: Features,
    pub feature_sets: Vec<Features>,
    pub template: FaceTemplate,
    pub ids: Vec<i64>,
}

impl NativeReply {
    /// A reply with status `status` and all outputs at their defaults.
    pub fn new(status: i32) -> (r: Self)
        ensures
            r.status == status,
            r.number == 0,
            r.bytes@.len() == 0,
            r.faces@.len() == 0,
            r.feature_sets@.len() == 0,
            r.ids@.len() == 0,
    {
        let p = Point { x: 0, y: 0 };
        NativeReply {
            status,
            number: 0,
            bytes: Vec::new(),
            eyes: Eyes { left: p, right: p },
            face: Face { bbox: BBox { p0: p, p1: p }, features: [p, p, p, p, p] },
            faces: Vec::new(),
            features: [p; 70],
            feature_sets: Vec::new(),
            template: FaceTemplate { data: [0u8; FSDK_FACE_TEMPLATE_SIZE] },
            ids: Vec::new(),
        }
    }
}

/// Whether `native` accepts every call.
pub open spec fn callable<N: Fn(&NativeCall) -> NativeReply>(native: &N) -> bool {
    forall|c: &NativeCall| #[trigger] native.requires((c,))
}

/// The native library as the operations reach it: the function that performs calls
/// into the loaded library, or the message of the error that loading it reported;
/// with the record of every call made through it and the library's reply.
pub struct Native<N: Fn(&NativeCall) -> NativeReply> {
    lib: Option<N>,
    load_error: String,
    log: Ghost<Seq<(NativeCall, NativeReply)>>,
}

impl<N: Fn(&NativeCall) -> NativeReply> Native<N> {
    #[verifier::type_invariant]
    spec fn accepts_every_call(self) -> bool {
        self.lib matches Some(f) ==> callable(&f)
    }

    /// Whether the library was loaded.
    pub closed spec fn is_loaded(&self) -> bool {
        self.lib is Some
    }

    /// The function that performs calls, when the library was loaded.
    pub closed spec fn library(&self) -> Option<N> {
        self.lib
    }

    /// The message of the error that loading the library reported.
    pub closed spec fn load_error(&self) -> Seq<char> {
        self.load_error@
    }

    /// Every call made so far, in order, each with the library's reply.
    pub closed spec fn calls(&self) -> Seq<(NativeCall, NativeReply)> {
        self.log@
    }

    /// The loaded library, reached through `f`; no call made yet.
    pub fn loaded(f: N) -> (n: Self)
        requires
            callable(&f),
        ensures
            n.is_loaded(),
            n.library() == Some(f),
            n.calls().len() == 0,
    {
        Native { lib: Some(f), load_error: String::new(), log: Ghost(Seq::empty()) }
    }

    /// A library that could not be loaded, for the reason `message`.
    pub fn failed(message: String) -> (n: Self)
        ensures
            !n.is_loaded(),
            n.load_error() == message@,
            n.calls().len() == 0,
    {
        Native { lib: None, load_error: message, log: Ghost(Seq::empty()) }
    }

    /// Returns whether the library was loaded.
    pub fn is_available(&self) -> (b: bool)
        ensures
            b == self.is_loaded(),
    {
        self.lib.is_some()
    }

    /// The error that the operations report when the library was not loaded.
    pub fn load_failure<T>(&self) -> (r: Result<T>)
        ensures
            load_failed(*self, r),
    {
        Err(FsdkError::LibraryLoadError(self.load_error.clone()))
    }

    /// Performs `call` in the loaded library and returns its reply.
    pub fn call(&mut self, call: NativeCall) -> (reply: NativeReply)
        requires
            old(self).is_loaded(),
        ensures
            same_library(*old(self), *final(self)),
            final(self).calls() == old(self).calls().push((call, reply)),
    {
        proof {
            use_type_invariant(&*self);
        }
        let reply = match &self.lib {
            Some(f) => f(&call),
            None => NativeReply::new(FSDKE_FAILED),
        };
        proof {
            self.log@ = self.log@.push((call, reply));
        }
        reply
    }
}

/// Whether `a` and `b` stand for the same library, loaded or not.
pub open spec fn same_library<N: Fn(&NativeCall) -> NativeReply>(a: Native<N>, b: Native<N>) -> bool {
    a.is_loaded() == b.is_loaded() && a.library() == b.library() && a.load_error() == b.load_error()
}

/// Whether `new` is `old` after exactly `k` more calls.
pub open spec fn called<N: Fn(&NativeCall) -> NativeReply>(old: Native<N>, new: Native<N>, k: nat) -> bool {
    &&& same_library(old, new)
    &&& new.calls().len() == old.calls().len() + k
    &&& forall|i: int| 0 <= i < old.calls().len() ==> #[trigger] new.calls()[i] == old.calls()[i]
}

/// Whether no call was made between `old` and `new`.
pub open spec fn no_call<N: Fn(&NativeCall) -> NativeReply>(old: Native<N>, new: Native<N>) -> bool {
    same_library(old, new) && new.calls() == old.calls()
}

/// The `j`-th call made after `old`.
pub open spec fn call_at<N: Fn(&NativeCall) -> NativeReply>(old: Native<N>, new: Native<N>, j: int) -> NativeCall {
    new.calls()[old.calls().len() + j].0
}

/// The reply to the `j`-th call made after `old`.
pub open spec fn reply_at<N: Fn(&NativeCall) -> NativeReply>(old: Native<N>, new: Native<N>, j: int) -> NativeReply {
    new.calls()[old.calls().len() + j].1
}

/// Whether `r` is the error for a library that could not be loaded: its message.
pub open spec fn load_failed<N: Fn(&NativeCall) -> NativeReply, T>(native: Native<N>, r: Result<T>) -> bool {
    r matches Err(e) && (e matches FsdkError::LibraryLoadError(m) && m@ == native.load_error())
}

// ---------------------------------------------------------------------------
// Results of replies
// ---------------------------------------------------------------------------

/// The error that a reply with a failing status stands for.
pub open spec fn reply_error<T>(func: &'static str, reply: NativeReply) -> Result<T> {
    Err(code_error(func, reply.status))
}

/// `r` is the result of `reply` for a call without output.
pub open spec fn unit_reply(func: &'static str, reply: NativeReply, r: Result<()>) -> bool {
    r == status_result(func, reply.status)
}

/// `r` is the result of `reply` for a call whose output is a C `int`.
pub open spec fn i32_reply(func: &'static str, reply: NativeReply, r: Result<i32>) -> bool {
    if reply.status == FSDKE_OK {
        r == Ok::<i32, FsdkError>(reply.number as i32)
    } else {
        r == reply_error::<i32>(func, reply)
    }
}

/// `r` is the result of `reply` for a call whose output is a C `long long`.
pub open spec fn i64_reply(func: &'static str, reply: NativeReply, r: Result<i64>) -> bool {
    if reply.status == FSDKE_OK {
        r == Ok::<i64, FsdkError>(reply.number)
    } else {
        r == reply_error::<i64>(func, reply)
    }
}

/// `r` is the result of `reply` for a call whose output is a C string written into a
/// buffer: the text before the first NUL, decoded as UTF-8 with invalid sequences
/// replaced.
pub open spec fn text_reply(func: &'static str, reply: NativeReply, r: Result<String>) -> bool {
    if reply.status == FSDKE_OK {
        r matches Ok(s) && (s@ == utf8_lossy(c_string_content(reply.bytes@)) && !s@.contains(
            '\0',
        ) && (valid_utf8(c_string_content(reply.bytes@)) ==> s@ == decode_utf8(
            c_string_content(reply.bytes@),
        )))
    } else {
        r == reply_error::<String>(func, reply)
    }
}

/// `r` is the result of `reply` for a call whose output is a byte buffer.
pub open spec fn bytes_reply(func: &'static str, reply: NativeReply, r: Result<Vec<u8>>) -> bool {
    if reply.status == FSDKE_OK {
        r matches Ok(b) && b@ == reply.bytes@
    } else {
        r == reply_error::<Vec<u8>>(func, reply)
    }
}

/// `r` is the result of `reply` for a call whose output is a pair of eyes.
pub open spec fn eyes_reply(func: &'static str, reply: NativeReply, r: Result<Eyes>) -> bool {
    if reply.status == FSDKE_OK {
        r == Ok::<Eyes, FsdkError>(reply.eyes)
    } else {
        r == reply_error::<Eyes>(func, reply)
    }
}

/// `r` is the result of `reply` for a call whose output is a face.
pub open spec fn face_reply(func: &'static str, reply: NativeReply, r: Result<Face>) -> bool {
    if reply.status == FSDKE_OK {
        r == Ok::<Face, FsdkError>(reply.face)
    } else {
        r == reply_error::<Face>(func, reply)
    }
}

/// `r` is the result of `reply` for a call whose output is a set of facial features.
pub open spec fn features_reply(func: &'static str, reply: NativeReply, r: Result<Features>) -> bool {
    if reply.status == FSDKE_OK {
        r == Ok::<Features, FsdkError>(reply.features)
    } else {
        r == reply_error::<Features>(func, reply)
    }
}

/// `r` is the result of `reply` for a call whose outputs are a face and its features.
pub open spec fn face_features_reply(
    func: &'static str,
    reply: NativeReply,
    r: Result<(Face, Features)>,
) -> bool {
    if reply.status == FSDKE_OK {
        r == Ok::<(Face, Features), FsdkError>((reply.face, reply.features))
    } else {
        r == reply_error::<(Face, Features)>(func, reply)
    }
}

/// `r` is the result of `reply` for a call whose output is a face template.
pub open spec fn template_reply(func: &'static str, reply: NativeReply, r: Result<FaceTemplate>) -> bool {
    if reply.status == FSDKE_OK {
        r == Ok::<FaceTemplate, FsdkError>(reply.template)
    } else {
        r == reply_error::<FaceTemplate>(func, reply)
    }
}

/// `r` is the result of `reply` for a call whose output is a `;`-separated list of
/// names: its non-empty pieces.
pub open spec fn names_reply(func: &'static str, reply: NativeReply, r: Result<Vec<String>>) -> bool {
    if reply.status == FSDKE_OK {
        r matches Ok(names) && ({
            let expected = names_in(utf8_lossy(c_string_content(reply.bytes@)));
            &&& names@.len() == expected.len()
            &&& forall|i: int| 0 <= i < names@.len() ==> #[trigger] names@[i]@ == expected[i]
        })
    } else {
        r == reply_error::<Vec<String>>(func, reply)
    }
}

/// The length of a list of `len` items that the library reports holding `count`
/// valid items: `count` when it is in range, else all of them.
pub open spec fn counted_len(len: nat, count: int) -> nat {
    if 0 <= count < len {
        count as nat
    } else {
        len
    }
}

/// The number of items kept of a list of `len` items that the library reports
/// holding `count` valid items, in a buffer of `max` items: the count, cut to the
/// buffer.
pub open spec fn kept_len(len: nat, count: int, max: nat) -> nat {
    let c = counted_len(len, count);
    if c <= max {
        c
    } else {
        max
    }
}

/// `r` is the result of a detection of up to `max` items that reported `count` items
/// in `items`: no face found is an empty list, another error is returned, and on
/// success the first `count` items are kept, never more than `max`.
pub open spec fn found_list_result<T>(
    func: &'static str,
    status: i32,
    count: i64,
    items: Seq<T>,
    max: nat,
    r: Result<Vec<T>>,
) -> bool {
    if status == FSDKE_FACE_NOT_FOUND {
        r matches Ok(v) && v@.len() == 0
    } else if status == FSDKE_OK {
        r matches Ok(v) && v@ == items.take(kept_len(items.len(), count as int, max) as int)
    } else {
        r == Err::<Vec<T>, FsdkError>(code_error(func, status))
    }
}

/// `r` is the result of `reply` for a detection of up to `max` faces.
pub open spec fn faces_reply(func: &'static str, reply: NativeReply, max: nat, r: Result<Vec<Face>>) -> bool {
    found_list_result(func, reply.status, reply.number, reply.faces@, max, r)
}

/// How many faces, with their feature sets, a detection of up to `max` faces keeps.
pub open spec fn pairs_kept(reply: NativeReply, max: nat) -> nat {
    let a = kept_len(reply.faces@.len(), reply.number as int, max);
    let b = kept_len(reply.feature_sets@.len(), reply.number as int, max);
    if a <= b {
        a
    } else {
        b
    }
}

/// `r` is the result of `reply` for a detection of up to `max` faces and their
/// facial features: two lists of the same length, the `i`-th feature set belonging
/// to the `i`-th face.
pub open spec fn faces_features_reply(
    func: &'static str,
    reply: NativeReply,
    max: nat,
    r: Result<(Vec<Face>, Vec<Features>)>,
) -> bool {
    if reply.status == FSDKE_FACE_NOT_FOUND {
        r matches Ok((f, s)) && (f@.len() == 0 && s@.len() == 0)
    } else if reply.status == FSDKE_OK {
        r matches Ok((f, s)) && (f@ == reply.faces@.take(pairs_kept(reply, max) as int) && s@
            == reply.feature_sets@.take(pairs_kept(reply, max) as int))
    } else {
        r == reply_error::<(Vec<Face>, Vec<Features>)>(func, reply)
    }
}

/// `r` is the result of `reply` for a call that lists up to `max` IDs and reports
/// how many it listed.
pub open spec fn counted_ids_reply(func: &'static str, reply: NativeReply, max: nat, r: Result<Vec<i64>>) -> bool {
    if reply.status == FSDKE_OK {
        r matches Ok(v) && v@ == reply.ids@.take(kept_len(reply.ids@.len(), reply.number as int, max) as int)
    } else {
        r == reply_error::<Vec<i64>>(func, reply)
    }
}

/// `r` is the result of `reply` for a call that lists `count` IDs.
pub open spec fn ids_reply(func: &'static str, reply: NativeReply, count: nat, r: Result<Vec<i64>>) -> bool {
    if reply.status == FSDKE_OK {
        r matches Ok(v) && v@ == reply.ids@.take(
            if count <= reply.ids@.len() {
                count as int
            } else {
                reply.ids@.len() as int
            },
        )
    } else {
        r == reply_error::<Vec<i64>>(func, reply)
    }
}

/// The result of a reply to a call without output: success or the error code.
pub fn reply_unit(func: &'static str, reply: &NativeReply) -> (r: Result<()>)
    ensures
        unit_reply(func, *reply, r),
{
    check_result(func, reply.status)
}

/// The result of a reply whose output is a C `int`.
pub fn reply_i32(func: &'static str, reply: &NativeReply) -> (r: Result<i32>)
    ensures
        i32_reply(func, *reply, r),
{
    check_result(func, reply.status)?;
    Ok(reply.number as i32)
}

/// The result of a reply whose output is a C `long long`.
pub fn reply_i64(func: &'static str, reply: &NativeReply) -> (r: Result<i64>)
    ensures
        i64_reply(func, *reply, r),
{
    check_result(func, reply.status)?;
    Ok(reply.number)
}

/// The result of a reply whose output is a C string written into a buffer.
pub fn reply_text(func: &'static str, reply: &NativeReply) -> (r: Result<String>)
    ensures
        text_reply(func, *reply, r),
{
    check_result(func, reply.status)?;
    Ok(read_c_string(reply.bytes.as_slice()))
}

/// The result of a reply whose output is a byte buffer.
pub fn reply_bytes(func: &'static str, reply: NativeReply) -> (r: Result<Vec<u8>>)
    ensures
        bytes_reply(func, reply, r),
{
    check_result(func, reply.status)?;
    Ok(reply.bytes)
}

/// The result of a reply whose output is a pair of eyes.
pub fn reply_eyes(func: &'static str, reply: &NativeReply) -> (r: Result<Eyes>)
    ensures
        eyes_reply(func, *reply, r),
{
    check_result(func, reply.status)?;
    Ok(reply.eyes)
}

/// The result of a reply whose output is a face.
pub fn reply_face(func: &'static str, reply: &NativeReply) -> (r: Result<Face>)
    ensures
        face_reply(func, *reply, r),
{
    check_result(func, reply.status)?;
    Ok(reply.face)
}

/// The result of a reply whose output is a set of facial features.
pub fn reply_features(func: &'static str, reply: &NativeReply) -> (r: Result<Features>)
    ensures
        features_reply(func, *reply, r),
{
    check_result(func, reply.status)?;
    Ok(reply.features)
}

/// The result of a reply whose outputs are a face and its facial features.
pub fn reply_face_and_features(func: &'static str, reply: &NativeReply) -> (r: Result<
    (Face, Features),
>)
    ensures
        face_features_reply(func, *reply, r),
{
    check_result(func, reply.status)?;
    Ok((reply.face, reply.features))
}

/// The result of a reply whose output is a face template.
pub fn reply_template(func: &'static str, reply: &NativeReply) -> (r: Result<FaceTemplate>)
    ensures
        template_reply(func, *reply, r),
{
    check_result(func, reply.status)?;
    Ok(reply.template)
}

/// The result of a reply whose output is a `;`-separated list of names.
pub fn reply_names(func: &'static str, reply: &NativeReply) -> (r: Result<Vec<String>>)
    ensures
        names_reply(func, *reply, r),
{
    check_result(func, reply.status)?;
    let text = read_c_string(reply.bytes.as_slice());
    Ok(split_names(text.as_str()))
}

/// Keeps the first `count` items of a list that the library filled, as
/// `Vec::truncate(count as usize)` does: a negative or too large count keeps all.
pub fn keep_counted<T>(items: Vec<T>, count: i64) -> (r: Vec<T>)
    ensures
        r@ == items@.take(counted_len(items@.len(), count as int) as int),
{
    let mut items = items;
    if count >= 0 && (count as u128) < (items.len() as u128) {
        items.truncate(count as usize);
    } else {
        assert(items@.take(items@.len() as int) == items@);
    }
    items
}

/// Keeps at most the first `max` items.
pub fn keep_at_most<T>(items: Vec<T>, max: usize) -> (r: Vec<T>)
    ensures
        r@ == items@.take(if max <= items@.len() { max as int } else { items@.len() as int }),
{
    let mut items = items;
    if max < items.len() {
        items.truncate(max);
    } else {
        assert(items@.take(items@.len() as int) == items@);
    }
    items
}

/// The result of a detection of up to `max` items that reports `count` items in
/// `items`.
pub fn found_list<T>(func: &'static str, status: i32, count: i64, items: Vec<T>, max: usize) -> (r: Result<Vec<T>>)
    ensures
        found_list_result(func, status, count, items@, max as nat, r),
{
    if status == FSDKE_FACE_NOT_FOUND {
        return Ok(Vec::new());
    }
    check_result(func, status)?;
    let kept = keep_counted(items, count);
    let r = keep_at_most(kept, max);
    assert(r@ == items@.take(kept_len(items@.len(), count as int, max as nat) as int));
    Ok(r)
}

/// The result of a reply listing up to `max` faces.
pub fn reply_faces(func: &'static str, reply: NativeReply, max: usize) -> (r: Result<Vec<Face>>)
    ensures
        faces_reply(func, reply, max as nat, r),
{
    found_list(func, reply.status, reply.number, reply.faces, max)
}

/// The result of a reply listing up to `max` faces and their facial features.
pub fn reply_faces_and_features(func: &'static str, reply: NativeReply, max: usize) -> (r: Result<
    (Vec<Face>, Vec<Features>),
>)
    ensures
        faces_features_reply(func, reply, max as nat, r),
{
    if reply.status == FSDKE_FACE_NOT_FOUND {
        return Ok((Vec::new(), Vec::new()));
    }
    check_result(func, reply.status)?;
    let ghost n = pairs_kept(reply, max as nat);
    let faces = keep_at_most(keep_counted(reply.faces, reply.number), max);
    let sets = keep_at_most(keep_counted(reply.feature_sets, reply.number), max);
    let k = if faces.len() <= sets.len() { faces.len() } else { sets.len() };
    let faces = keep_at_most(faces, k);
    let sets = keep_at_most(sets, k);
    assert(faces@ == reply.faces@.take(n as int));
    assert(sets@ == reply.feature_sets@.take(n as int));
    Ok((faces, sets))
}

/// The result of a reply listing up to `max` IDs.
pub fn reply_counted_ids(func: &'static str, reply: NativeReply, max: usize) -> (r: Result<Vec<i64>>)
    ensures
        counted_ids_reply(func, reply, max as nat, r),
{
    check_result(func, reply.status)?;
    let ghost ids = reply.ids@;
    let kept = keep_counted(reply.ids, reply.number);
    let r = keep_at_most(kept, max);
    assert(r@ == ids.take(kept_len(ids.len(), reply.number as int, max as nat) as int));
    Ok(r)
}

/// The result of a reply listing `count` IDs.
pub fn reply_ids(func: &'static str, reply: NativeReply, count: usize) -> (r: Result<Vec<i64>>)
    ensures
        ids_reply(func, reply, count as nat, r),
{
    check_result(func, reply.status)?;
    Ok(keep_at_most(reply.ids, count))
}

} // verus!
