//! Geometry of detected faces: points, eye pairs, bounding boxes and face positions.

use vstd::prelude::*;

use crate::consts::{FSDK_FACE_TEMPLATE_SIZE, FSDK_FACIAL_FEATURE_COUNT};

verus! {

/// A point in image coordinates.
#[derive(Debug, Clone, Copy)]
pub struct Point {
    pub x: i32,
    pub y: i32,
}

impl Default for Point {
    fn default() -> (p: Self)
        ensures
            p.x == 0 && p.y == 0,
    {
        Point { x: 0, y: 0 }
    }
}

/// Centers of the left and right eye.
#[derive(Debug, Clone, Copy)]
pub struct Eyes {
    pub left: Point,
    pub right: Point,
}

impl Default for Eyes {
    fn default() -> (e: Self)
        ensures
            e.left == (Point { x: 0, y: 0 }),
            e.right == (Point { x: 0, y: 0 }),
    {
        Eyes { left: Point::default(), right: Point::default() }
    }
}

/// A bounding box given by its top-left corner `p0` and bottom-right corner `p1`.
#[derive(Debug, Clone, Copy)]
pub struct BBox {
    pub p0: Point,
    pub p1: Point,
}

/// A face found by the improved (v2) detector: bounding box and 5 landmarks
/// (eye centers, nose tip, mouth corners).
#[derive(Debug, Clone, Copy)]
pub struct Face {
    pub bbox: BBox,
    pub features: [Point; 5],
}

/// Array of 70 facial feature points
pub type Features = [Point; FSDK_FACIAL_FEATURE_COUNT];

/// The value of `v / 2` as Rust computes it on integers: rounded toward zero.
pub open spec fn half_toward_zero(v: int) -> int {
    if v >= 0 {
        v / 2
    } else {
        -((-v) / 2)
    }
}

/// Whether `v` is a value of `i32`.
pub open spec fn fits_i32(v: int) -> bool {
    i32::MIN <= v <= i32::MAX
}

impl Face {
    /// Whether `width`, `height` and `center` can be computed without overflow.
    pub open spec fn measurable(self) -> bool {
        &&& fits_i32(self.bbox.p1.x - self.bbox.p0.x)
        &&& fits_i32(self.bbox.p1.y - self.bbox.p0.y)
        &&& fits_i32(self.bbox.p0.x + self.bbox.p1.x)
        &&& fits_i32(self.bbox.p0.y + self.bbox.p1.y)
    }

    /// Returns the bounding rectangle (x1, y1, x2, y2) for the face
    pub fn rect(&self) -> (r: (i32, i32, i32, i32))
        ensures
            r == (self.bbox.p0.x, self.bbox.p0.y, self.bbox.p1.x, self.bbox.p1.y),
    {
        (self.bbox.p0.x, self.bbox.p0.y, self.bbox.p1.x, self.bbox.p1.y)
    }

    /// Width of the bounding box.
    pub fn width(&self) -> (w: i32)
        requires
            fits_i32(self.bbox.p1.x - self.bbox.p0.x),
        ensures
            w == self.bbox.p1.x - self.bbox.p0.x,
    {
        self.bbox.p1.x - self.bbox.p0.x
    }

    /// Height of the bounding box.
    pub fn height(&self) -> (h: i32)
        requires
            fits_i32(self.bbox.p1.y - self.bbox.p0.y),
        ensures
            h == self.bbox.p1.y - self.bbox.p0.y,
    {
        self.bbox.p1.y - self.bbox.p0.y
    }

    /// Center of the bounding box, each coordinate rounded toward zero.
    pub fn center(&self) -> (c: Point)
        requires
            fits_i32(self.bbox.p0.x + self.bbox.p1.x),
            fits_i32(self.bbox.p0.y + self.bbox.p1.y),
        ensures
            c.x == half_toward_zero(self.bbox.p0.x + self.bbox.p1.x),
            c.y == half_toward_zero(self.bbox.p0.y + self.bbox.p1.y),
    {
        Point { x: (self.bbox.p0.x + self.bbox.p1.x) / 2, y: (self.bbox.p0.y + self.bbox.p1.y) / 2 }
    }
}

/// The integer part of a face position found by the v1 detector: center
/// `(xc, yc)` and width `w` of a square face region.
#[derive(Debug, Clone, Copy)]
pub struct FacePosition {
    pub xc: i32,
    pub yc: i32,
    pub w: i32,
}

impl FacePosition {
    /// Whether `rect` can be computed without overflow.
    pub open spec fn rect_fits(self) -> bool {
        let h = half_toward_zero(self.w as int);
        &&& fits_i32(self.xc - h)
        &&& fits_i32(self.yc - h)
        &&& fits_i32(self.xc + h)
        &&& fits_i32(self.yc + h)
    }

    /// Returns the bounding rectangle (x1, y1, x2, y2) for the face
    pub fn rect(&self) -> (r: (i32, i32, i32, i32))
        requires
            self.rect_fits(),
        ensures
            r.0 == self.xc - half_toward_zero(self.w as int),
            r.1 == self.yc - half_toward_zero(self.w as int),
            r.2 == self.xc + half_toward_zero(self.w as int),
            r.3 == self.yc + half_toward_zero(self.w as int),
    {
        let half_w = self.w / 2;
        (self.xc - half_w, self.yc - half_w, self.xc + half_w, self.yc + half_w)
    }
}

/// Face template for matching
#[derive(Clone, Copy)]
pub struct FaceTemplate {
    pub data: [u8; FSDK_FACE_TEMPLATE_SIZE],
}

impl Default for FaceTemplate {
    fn default() -> (t: Self)
        ensures
            forall|i: int| 0 <= i < FSDK_FACE_TEMPLATE_SIZE ==> t.data[i] == 0,
    {
        FaceTemplate { data: [0u8; FSDK_FACE_TEMPLATE_SIZE] }
    }
}

/// The square that `FacePosition::rect` returns is centered on the face position:
/// its width equals its height, and for a non-negative width `w` its side is the
/// largest even number not above `w`.
pub proof fn lemma_face_position_rect_square(fp: FacePosition)
    requires
        fp.rect_fits(),
    ensures
        ({
            let h = half_toward_zero(fp.w as int);
            &&& (fp.xc + h) - (fp.xc - h) == (fp.yc + h) - (fp.yc - h)
            &&& fp.w >= 0 ==> (fp.xc + h) - (fp.xc - h) == fp.w - fp.w % 2
            &&& (fp.xc - h) + (fp.xc + h) == 2 * fp.xc
        }),
{
}

/// The center of a face box with `p0` at or above and left of `p1` lies inside the box.
pub proof fn lemma_face_center_inside(face: Face)
    requires
        face.measurable(),
        face.bbox.p0.x <= face.bbox.p1.x,
        face.bbox.p0.y <= face.bbox.p1.y,
    ensures
        face.bbox.p0.x <= half_toward_zero(face.bbox.p0.x + face.bbox.p1.x) <= face.bbox.p1.x,
        face.bbox.p0.y <= half_toward_zero(face.bbox.p0.y + face.bbox.p1.y) <= face.bbox.p1.y,
{
}

} // verus!
