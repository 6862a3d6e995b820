//! The logic of the live recognition view: frame decoding bounds, pixel packing,
//! face boxes, labels and hit testing.

use vstd::prelude::*;

use crate::text::{
    append_chars, chars_of, push_signed_decimal, signed_decimal, string_from, string_of, trim,
    trimmed,
};

verus! {

// ---------------------------------------------------------------------------
// Labels and names
// ---------------------------------------------------------------------------

/// The label drawn above a face: `ID:<id>`, followed by a space and the name when
/// there is one.
pub open spec fn face_label_text(id: int, name: Seq<char>) -> Seq<char> {
    if name.len() == 0 {
        "ID:"@ + signed_decimal(id)
    } else {
        "ID:"@ + signed_decimal(id) + " "@ + name
    }
}

/// Returns the label drawn above the face with ID `id` and name `name`.
pub fn face_label(id: i64, name: &str) -> (label: String)
    ensures
        label@ == face_label_text(id as int, name@),
{
    proof {
        reveal_strlit("ID:");
        reveal_strlit(" ");
    }
    let mut label = string_from("ID:");
    push_signed_decimal(&mut label, id);
    if !name.is_empty() {
        append_chars(&mut label, " ");
        append_chars(&mut label, name);
    }
    label
}

/// The title of the dialog that names the face with ID `id`.
pub open spec fn name_dialog_title_text(id: int) -> Seq<char> {
    "Name Face ID "@ + signed_decimal(id)
}

/// Returns the title of the dialog that names the face with ID `id`.
pub fn name_dialog_title(id: i64) -> (title: String)
    ensures
        title@ == name_dialog_title_text(id as int),
{
    let mut title = string_from("Name Face ID ");
    push_signed_decimal(&mut title, id);
    title
}

/// The text the naming dialog starts with: the current name, or a single space when
/// there is none (an empty default would make the dialog hide what is typed).
pub fn name_dialog_default<'a>(current_name: &'a str) -> (d: &'a str)
    ensures
        current_name@.len() == 0 ==> d@ == " "@,
        current_name@.len() != 0 ==> d@ == current_name@,
{
    if current_name.is_empty() {
        " "
    } else {
        current_name
    }
}

/// The name that the naming dialog yields for what was entered: the entry without
/// surrounding white space, if that is not empty; none when the dialog was cancelled.
pub fn dialog_name(entry: Option<String>) -> (name: Option<String>)
    ensures
        entry is None ==> name is None,
        entry matches Some(e) ==> (trim(e@).len() == 0 ==> name is None),
        entry matches Some(e) ==> (trim(e@).len() != 0 ==> (name matches Some(n) && n@ == trim(e@))),
{
    match entry {
        None => None,
        Some(e) => {
            let t = trimmed(e.as_str());
            if t.as_str().is_empty() {
                None
            } else {
                Some(t)
            }
        },
    }
}

/// The index of the first non-empty name in `names`, if any.
pub open spec fn first_named(names: Seq<Seq<char>>) -> Option<int> {
    if exists|i: int| 0 <= i < names.len() && names[i].len() > 0 {
        Some(choose|i: int| 0 <= i < names.len() && names[i].len() > 0 && forall|j: int| 0 <= j < i ==> names[j].len() == 0)
    } else {
        None
    }
}

/// Returns the first non-empty name of a tracker ID, or an empty name.
pub fn display_name(names: &Vec<String>) -> (name: String)
    ensures
        (exists|i: int| 0 <= i < names@.len() && #[trigger] names@[i]@.len() > 0) ==> exists|i: int|
            0 <= i < names@.len() && names@[i]@.len() > 0 && name@ == names@[i]@ && forall|j: int|
                0 <= j < i ==> #[trigger] names@[j]@.len() == 0,
        !(exists|i: int| 0 <= i < names@.len() && #[trigger] names@[i]@.len() > 0) ==> name@.len() == 0,
{
    let mut i: usize = 0;
    while i < names.len()
        invariant
            i <= names@.len(),
            forall|j: int| 0 <= j < i ==> #[trigger] names@[j]@.len() == 0,
        decreases names@.len() - i,
    {
        if !names[i].as_str().is_empty() {
            return string_from(names[i].as_str());
        }
        i = i + 1;
    }
    String::new()
}

/// The name of the file that the portrait sample writes when none is given:
/// `face.<input file>`.
pub fn default_output_name(input: &str) -> (out: String)
    ensures
        out@ == "face."@ + input@,
{
    let mut out = string_from("face.");
    append_chars(&mut out, input);
    out
}

// ---------------------------------------------------------------------------
// Camera frames
// ---------------------------------------------------------------------------

/// Whether a JPEG start-of-image marker (`FF D8`) begins at `i`.
pub open spec fn soi_at(raw: Seq<u8>, i: int) -> bool {
    0 <= i && i + 1 < raw.len() && raw[i] == 0xff && raw[i + 1] == 0xd8
}

/// Whether a JPEG end-of-image marker (`FF D9`) begins at `i`.
pub open spec fn eoi_at(raw: Seq<u8>, i: int) -> bool {
    0 <= i && i + 1 < raw.len() && raw[i] == 0xff && raw[i + 1] == 0xd9
}

/// The bounds `[start, end)` of the JPEG image in a camera frame that may carry other
/// bytes around it: from the first start-of-image marker (or the beginning) to just
/// after the last end-of-image marker (or the end).
pub fn jpeg_payload_bounds(raw: &[u8]) -> (b: (usize, usize))
    ensures
        (exists|i: int| soi_at(raw@, i)) ==> soi_at(raw@, b.0 as int) && forall|i: int|
            0 <= i < b.0 ==> !soi_at(raw@, i),
        !(exists|i: int| soi_at(raw@, i)) ==> b.0 == 0,
        (exists|i: int| eoi_at(raw@, i)) ==> b.1 >= 2 && eoi_at(raw@, b.1 - 2) && forall|i: int|
            b.1 - 2 < i ==> !eoi_at(raw@, i),
        !(exists|i: int| eoi_at(raw@, i)) ==> b.1 == raw@.len(),
{
    let n = raw.len();
    let mut start: usize = 0;
    let mut found_start = false;
    while start < n && n - start >= 2
        invariant_except_break
            !found_start,
        invariant
            n == raw@.len(),
            start <= n,
            forall|i: int| 0 <= i < start ==> !soi_at(raw@, i),
        ensures
            start <= n,
            forall|i: int| 0 <= i < start ==> !soi_at(raw@, i),
            found_start ==> soi_at(raw@, start as int),
            !found_start ==> !(start < n && n - start >= 2),
        decreases n - start,
    {
        if raw[start] == 0xff && raw[start + 1] == 0xd8 {
            found_start = true;
            break;
        }
        start = start + 1;
    }
    proof {
        if !found_start {
            assert forall|i: int| !soi_at(raw@, i) by {
                if soi_at(raw@, i) && i >= start {
                    assert(i + 1 < n);
                }
            }
        }
    }
    let s = if found_start { start } else { 0 };
    let mut end: usize = n;
    let mut found_end = false;
    while end >= 2
        invariant_except_break
            !found_end,
        invariant
            n == raw@.len(),
            end <= n,
            forall|i: int| end - 1 <= i ==> !eoi_at(raw@, i),
        ensures
            end <= n,
            forall|i: int| end - 1 <= i ==> !eoi_at(raw@, i),
            found_end ==> end >= 2 && eoi_at(raw@, end - 2),
            !found_end ==> end < 2,
        decreases end,
    {
        if raw[end - 2] == 0xff && raw[end - 1] == 0xd9 {
            found_end = true;
            break;
        }
        end = end - 1;
    }
    proof {
        if !found_end {
            assert forall|i: int| !eoi_at(raw@, i) by {
                if eoi_at(raw@, i) {
                    assert(i >= 0);
                }
            }
        }
    }
    let e = if found_end { end } else { n };
    (s, e)
}

/// The display value of an RGB pixel: `0x00RRGGBB`.
pub open spec fn packed_rgb(r: u8, g: u8, b: u8) -> int {
    r * 0x10000 + g * 0x100 + b
}

fn pack_rgb(r: u8, g: u8, b: u8) -> (p: u32)
    ensures
        p == packed_rgb(r, g, b),
{
    let (r, g, b) = (r as u32, g as u32, b as u32);
    assert(r < 256 && g < 256 && b < 256);
    assert((r << 16) | (g << 8) | b == r * 0x10000 + g * 0x100 + b) by (bit_vector)
        requires
            r < 256 && g < 256 && b < 256,
    ;
    (r << 16) | (g << 8) | b
}

/// Packing a pixel loses nothing: its red, green and blue components are read back
/// from the display value.
pub proof fn lemma_packed_rgb_components(r: u8, g: u8, b: u8)
    ensures
        packed_rgb(r, g, b) / 0x10000 == r,
        (packed_rgb(r, g, b) / 0x100) % 0x100 == g,
        packed_rgb(r, g, b) % 0x100 == b,
{
}

/// Fills the first `width * height` pixels of `display` from the RGB frame `rgb`
/// (three bytes per pixel, row by row).
pub fn rgb_to_display(rgb: &Vec<u8>, width: usize, height: usize, display: &mut Vec<u32>)
    requires
        width * height * 3 <= rgb@.len(),
        width * height <= old(display)@.len(),
    ensures
        final(display)@.len() == old(display)@.len(),
        forall|i: int|
            0 <= i < width * height ==> #[trigger] final(display)@[i] == packed_rgb(
                rgb@[3 * i],
                rgb@[3 * i + 1],
                rgb@[3 * i + 2],
            ),
        forall|i: int| width * height <= i < old(display)@.len() ==> #[trigger] final(display)@[i] == old(display)@[i],
{
    let len = rgb.len();
    assert(width * height <= rgb@.len()) by (nonlinear_arith)
        requires
            width * height * 3 <= rgb@.len(),
    ;
    let n = width * height;
    let mut i: usize = 0;
    while i < n
        invariant
            n == width * height,
            n * 3 <= rgb@.len(),
            rgb@.len() == len,
            n <= display@.len(),
            i <= n,
            display@.len() == old(display)@.len(),
            forall|k: int|
                0 <= k < i ==> #[trigger] display@[k] == packed_rgb(rgb@[3 * k], rgb@[3 * k + 1], rgb@[3 * k + 2]),
            forall|k: int| i <= k < display@.len() ==> #[trigger] display@[k] == old(display)@[k],
        decreases n - i,
    {
        assert(i * 3 + 2 < n * 3) by (nonlinear_arith)
            requires
                i < n,
        ;
        let src = i * 3;
        display.set(i, pack_rgb(rgb[src], rgb[src + 1], rgb[src + 2]));
        i = i + 1;
    }
}

// ---------------------------------------------------------------------------
// Faces on screen
// ---------------------------------------------------------------------------

/// Whether the point `(x, y)` lies in the rectangle `(x1, y1, x2, y2)`, borders
/// included.
pub open spec fn rect_contains(rect: (i32, i32, i32, i32), x: i32, y: i32) -> bool {
    rect.0 <= x <= rect.2 && rect.1 <= y <= rect.3
}

/// A point hits a face box exactly when it lies between the box's left and right
/// edges and between its top and bottom edges, borders included; a point beyond
/// any one edge misses it.
pub proof fn lemma_face_hit_inside(rect: (i32, i32, i32, i32), x: i32, y: i32)
    ensures
        rect_contains(rect, x, y) ==> rect.0 <= x && x <= rect.2 && rect.1 <= y && y <= rect.3,
        rect.0 <= x && x <= rect.2 && rect.1 <= y && y <= rect.3 ==> rect_contains(rect, x, y),
        x < rect.0 || x > rect.2 || y < rect.1 || y > rect.3 ==> !rect_contains(rect, x, y),
{
}

/// Returns whether the point `(x, y)` lies in the face rectangle `rect`.
pub fn face_hit(rect: (i32, i32, i32, i32), x: i32, y: i32) -> (b: bool)
    ensures
        b == rect_contains(rect, x, y),
        b <==> (rect.0 <= x && x <= rect.2 && rect.1 <= y && y <= rect.3),
{
    x >= rect.0 && x <= rect.2 && y >= rect.1 && y <= rect.3
}

/// How sure the tracker is that a face is live.
#[derive(Debug, Clone, Copy, PartialEq, Eq, Structural)]
pub enum Liveness {
    /// Liveness above one half.
    Live,
    /// Liveness above zero, up to one half.
    Spoof,
    /// Liveness not determined yet.
    Unknown,
}

/// Blue: the mouse is over the face.
pub const COLOR_HOVERED: u32 = 0x4488FF;
/// Yellow: the liveness check reported an error.
pub const COLOR_LIVENESS_ERROR: u32 = 0xFFFF00;
/// Green: a live face (liveness above one half).
pub const COLOR_LIVE: u32 = 0x00FF00;
/// Red: a possible spoof (liveness at most one half).
pub const COLOR_SPOOF: u32 = 0xFF0000;

/// The color of a face box.
pub open spec fn face_color_of(hovered: bool, liveness_error: bool, liveness: Liveness) -> u32 {
    if hovered {
        COLOR_HOVERED
    } else if liveness_error {
        COLOR_LIVENESS_ERROR
    } else {
        match liveness {
            Liveness::Live => COLOR_LIVE,
            _ => COLOR_SPOOF,
        }
    }
}

/// The color of a face box follows the README's table: blue whenever the mouse is
/// over it, whatever the liveness; otherwise yellow on a liveness error; otherwise
/// green for a live face and red for liveness at most one half. Hovering decides
/// alone, and liveness matters only without hover and error.
pub proof fn lemma_face_colors(liveness_error: bool, other_error: bool, liveness: Liveness, other: Liveness)
    ensures
        face_color_of(true, liveness_error, liveness) == 0x4488FF,
        face_color_of(true, liveness_error, liveness) == face_color_of(true, other_error, other),
        face_color_of(false, true, liveness) == 0xFFFF00,
        face_color_of(false, false, Liveness::Live) == 0x00FF00,
        face_color_of(false, false, Liveness::Spoof) == 0xFF0000,
        face_color_of(false, false, Liveness::Unknown) == 0xFF0000,
{
}

/// Returns the color of a face box: blue when hovered, yellow on a liveness error,
/// green for a live face, red otherwise (liveness at most one half).
pub fn face_color(hovered: bool, liveness_error: bool, liveness: Liveness) -> (c: u32)
    ensures
        c == face_color_of(hovered, liveness_error, liveness),
{
    if hovered {
        COLOR_HOVERED
    } else if liveness_error {
        COLOR_LIVENESS_ERROR
    } else {
        match liveness {
            Liveness::Live => COLOR_LIVE,
            Liveness::Spoof => COLOR_SPOOF,
            Liveness::Unknown => COLOR_SPOOF,
        }
    }
}

} // verus!
