//! Image geometry and the images lent to plugins.

use vstd::prelude::*;
use std::collections::HashMap;
use crate::constants::{IMAGE_PROP_BOUNDS, IMAGE_PROP_DATA};
use crate::properties::{PropertySet, Property, PropertyValue, ValueModel, after_set};

verus! {

/// An integer rectangle: x1 <= x < x2, y1 <= y < y2.
#[derive(Copy, Clone, Debug, PartialEq, Eq, Structural)]
pub struct OfxRectI {
    pub x1: i32,
    pub y1: i32,
    pub x2: i32,
    pub y2: i32,
}

/// The number of bytes of one RGBA pixel of 32-bit floats.
pub const PIXEL_BYTES: usize = 16;

pub open spec fn max_i32(a: i32, b: i32) -> i32 {
    if a >= b { a } else { b }
}

pub open spec fn min_i32(a: i32, b: i32) -> i32 {
    if a <= b { a } else { b }
}

/// The intersection of two rectangles, as the host computes it (an
/// empty intersection gives x2 < x1 or y2 < y1).
pub open spec fn crop_spec(a: OfxRectI, b: OfxRectI) -> OfxRectI {
    OfxRectI {
        x1: max_i32(a.x1, b.x1),
        y1: max_i32(a.y1, b.y1),
        x2: min_i32(a.x2, b.x2),
        y2: min_i32(a.y2, b.y2),
    }
}

/// The rectangle's corners as a property of four integers.
pub open spec fn rect_values(r: OfxRectI) -> Seq<ValueModel> {
    seq![ValueModel::Int(r.x1), ValueModel::Int(r.y1), ValueModel::Int(r.x2), ValueModel::Int(r.y2)]
}

impl OfxRectI {
    /// x2 - x1 as an unsigned width (a negative width wraps, as a
    /// cast to `usize` does).
    pub fn width(&self) -> (r: usize)
        requires
            i32::MIN <= self.x2 - self.x1 <= i32::MAX,
        ensures
            r == (self.x2 - self.x1) as usize,
    {
        #[verifier::truncate]
        ((self.x2 - self.x1) as usize)
    }

    /// y2 - y1 as an unsigned height (a negative height wraps).
    pub fn height(&self) -> (r: usize)
        requires
            i32::MIN <= self.y2 - self.y1 <= i32::MAX,
        ensures
            r == (self.y2 - self.y1) as usize,
    {
        #[verifier::truncate]
        ((self.y2 - self.y1) as usize)
    }

    /// The corners as a property (x1, y1, x2, y2).
    pub fn to_property(&self) -> (r: Property)
        ensures
            r@ == rect_values(*self),
    {
        let r = Property::from_ints(&[self.x1, self.y1, self.x2, self.y2]);
        assert(r@ =~= rect_values(*self));
        r
    }
}

/// The intersection of two rectangles.
pub fn crop(a: OfxRectI, b: OfxRectI) -> (r: OfxRectI)
    ensures
        r == crop_spec(a, b),
{
    OfxRectI {
        x1: if a.x1 >= b.x1 { a.x1 } else { b.x1 },
        y1: if a.y1 >= b.y1 { a.y1 } else { b.y1 },
        x2: if a.x2 <= b.x2 { a.x2 } else { b.x2 },
        y2: if a.y2 <= b.y2 { a.y2 } else { b.y2 },
    }
}

/// Pixels per row: the width, or more when `rowbytes` asks for a wider
/// row (row bytes divided by the pixel size).
pub open spec fn stride_spec(width: usize, rowbytes: Option<usize>) -> usize {
    match rowbytes {
        Some(b) => if b / PIXEL_BYTES >= width { b / PIXEL_BYTES } else { width },
        None => width,
    }
}

/// Number of pixels per row. If rowbytes is given, the pixel count
/// follows it, but is never less than the width.
pub fn get_image_stride(width: usize, rowbytes: Option<usize>) -> (r: usize)
    ensures
        r == stride_spec(width, rowbytes),
        r >= width,
{
    match rowbytes {
        Some(b) => {
            let per_row = b / PIXEL_BYTES;
            if per_row >= width {
                per_row
            } else {
                width
            }
        },
        None => width,
    }
}

/// The index in a bottom-up pixel buffer of the pixel at (x, y)
/// counted from the top row, as image files store them.
pub fn flipped_index(height: usize, stride: usize, x: usize, y: usize) -> (r: usize)
    requires
        y < height,
        (height - 1 - y) * stride + x <= usize::MAX,
    ensures
        r == (height - 1 - y) * stride + x,
{
    let row = height - 1 - y;
    proof {
        assert(row * stride + x <= usize::MAX);
        assert(row * stride <= usize::MAX);
    }
    row * stride + x
}

/// The position, counted in pixels from the image's first pixel, of
/// the pixel (x, y) of an image with bounds `bounds` and `stride`
/// pixels per row.
pub open spec fn pixel_offset(stride: usize, bounds: OfxRectI, x: int, y: int) -> int {
    stride * (y - bounds.y1) + (x - bounds.x1)
}

/// The position of the corner (x1, y1) of the part of an image with
/// bounds `bounds` and `stride` pixels per row that lies in
/// `requested`.
pub open spec fn crop_offset(stride: usize, bounds: OfxRectI, requested: OfxRectI) -> int {
    pixel_offset(stride, bounds, crop_spec(requested, bounds).x1 as int, crop_spec(requested, bounds).y1 as int)
}

/// When an image with bounds `bounds`, `stride` pixels per row and
/// first pixel at address `data` can be shown cropped to `requested`:
/// the address of the crop's corner pixel fits in a `usize`.
pub open spec fn crop_fits(bounds: OfxRectI, stride: usize, data: usize, requested: OfxRectI) -> bool {
    data + crop_offset(stride, bounds, requested) * PIXEL_BYTES <= usize::MAX
}

/// Tells whether `crop_image_properties` can crop an image with bounds
/// `bounds`, `stride` pixels per row and first pixel at `data` to
/// `requested`.
pub fn crop_spec_fits(bounds: OfxRectI, stride: usize, data: usize, requested: OfxRectI) -> (r: bool)
    ensures
        r == crop_fits(bounds, stride, data, requested),
{
    let c = crop(requested, bounds);
    let dx: i64 = c.x1 as i64 - bounds.x1 as i64;
    let dy: i64 = c.y1 as i64 - bounds.y1 as i64;
    proof {
        assert(0 <= stride * dy <= 0xffff_ffff_ffff_ffff * 0xffff_ffff) by (nonlinear_arith)
            requires
                0 <= stride <= 0xffff_ffff_ffff_ffff,
                0 <= dy <= 0xffff_ffff,
        ;
    }
    let off: i128 = (stride as i128) * (dy as i128) + dx as i128;
    let end: i128 = data as i128 + off * 16;
    end <= usize::MAX as i128
}

/// Makes an image appear cropped to `requested` without touching its
/// pixels: the image's bounds property becomes the intersection of
/// `requested` and `bounds`, and its data pointer moves to the pixel
/// at the intersection's corner (x1, y1). `data` is the address of the
/// image's first pixel, and rows hold `stride` pixels.
pub fn crop_image_properties(
    props: &mut PropertySet,
    bounds: OfxRectI,
    stride: usize,
    data: usize,
    requested: OfxRectI,
)
    requires
        crop_fits(bounds, stride, data, requested),
    ensures
        final(props).name_view() == old(props).name_view(),
        final(props).values() == after_set(
            old(props).values().insert(IMAGE_PROP_BOUNDS@, rect_values(crop_spec(requested, bounds))),
            IMAGE_PROP_DATA@,
            0,
            ValueModel::Pointer((data + crop_offset(stride, bounds, requested) * PIXEL_BYTES) as usize),
        ),
{
    let c = crop(requested, bounds);
    let dy64: i64 = c.y1 as i64 - bounds.y1 as i64;
    let dx64: i64 = c.x1 as i64 - bounds.x1 as i64;
    proof {
        let off = crop_offset(stride, bounds, requested);
        assert(off == stride * dy64 + dx64);
        assert(0 <= stride * dy64) by (nonlinear_arith)
            requires
                stride >= 0,
                dy64 >= 0,
        ;
        assert(stride * dy64 <= off);
        assert(dx64 <= off);
        assert(off * 16 <= usize::MAX);
        assert(off <= usize::MAX);
        assert((stride * dy64 + dx64) * 16 == stride * dy64 * 16 + dx64 * 16) by (nonlinear_arith);
    }
    let dy = dy64 as usize;
    let dx = dx64 as usize;
    let offset = stride * dy + dx;
    let addr = data + offset * PIXEL_BYTES;
    props.insert(IMAGE_PROP_BOUNDS, c.to_property());
    props.set(IMAGE_PROP_DATA, 0, PropertyValue::Pointer(addr));
}

/// Cropping is symmetric.
pub proof fn law_crop_commutative(a: OfxRectI, b: OfxRectI)
    ensures
        crop_spec(a, b) == crop_spec(b, a),
{
}

/// Cropping a rectangle to itself leaves it unchanged.
pub proof fn law_crop_idempotent(a: OfxRectI)
    ensures
        crop_spec(a, a) == a,
{
}

/// Cropping in steps is cropping at once.
pub proof fn law_crop_associative(a: OfxRectI, b: OfxRectI, c: OfxRectI)
    ensures
        crop_spec(crop_spec(a, b), c) == crop_spec(a, crop_spec(b, c)),
{
}

/// The crop lies within both rectangles.
pub proof fn law_crop_within(a: OfxRectI, b: OfxRectI)
    ensures
        crop_spec(a, b).x1 >= a.x1 && crop_spec(a, b).x1 >= b.x1,
        crop_spec(a, b).y1 >= a.y1 && crop_spec(a, b).y1 >= b.y1,
        crop_spec(a, b).x2 <= a.x2 && crop_spec(a, b).x2 <= b.x2,
        crop_spec(a, b).y2 <= a.y2 && crop_spec(a, b).y2 <= b.y2,
{
}

/// The images a clip provides.
pub enum ClipImages<I> {
    /// No image (a clip not yet given one).
    NoImage,
    /// One image, the same at every frame.
    Static(I),
    /// One image per frame number.
    Sequence(HashMap<u32, I>),
}

impl<I> ClipImages<I> {
    /// The image of frame `frame`: the static image at every frame, the
    /// frame's image for a sequence, none for a clip without images.
    pub fn image_at_frame(&self, frame: u32) -> (r: Option<&I>)
        ensures
            match self {
                ClipImages::NoImage => r is None,
                ClipImages::Static(img) => r == Some(img),
                ClipImages::Sequence(m) => match r {
                    Some(img) => m@.contains_key(frame) && *img == m@[frame],
                    None => !m@.contains_key(frame),
                },
            },
    {
        proof {
            broadcast use vstd::std_specs::hash::group_hash_axioms;
        }
        match self {
            ClipImages::Static(image) => Some(image),
            ClipImages::Sequence(m) => m.get(&frame),
            ClipImages::NoImage => None,
        }
    }
}

/// The images a plugin has fetched and not yet released, each with the
/// handle it was given.
pub struct ImageTracker<T> {
    entries: Vec<(usize, T)>,
}

impl<T> View for ImageTracker<T> {
    type V = Seq<(usize, T)>;

    closed spec fn view(&self) -> Seq<(usize, T)> {
        self.entries@
    }
}

/// The handles of a list of outstanding images.
pub open spec fn handles_of<T>(s: Seq<(usize, T)>) -> Seq<usize> {
    s.map_values(|e: (usize, T)| e.0)
}

impl<T> ImageTracker<T> {
    /// No image outstanding.
    pub fn new() -> (r: Self)
        ensures
            r@ == Seq::<(usize, T)>::empty(),
    {
        ImageTracker { entries: Vec::new() }
    }

    /// Records that `image` was lent to a plugin under `handle`.
    pub fn acquire(&mut self, handle: usize, image: T)
        ensures
            final(self)@ == old(self)@.push((handle, image)),
    {
        self.entries.push((handle, image));
    }

    /// Ends the loan of the first image lent under `handle`, returning
    /// it; `None` (and no change) when no image is lent under it.
    pub fn release(&mut self, handle: usize) -> (r: Option<T>)
        ensures
            match r {
                Some(img) => exists|i: int|
                    #![trigger old(self)@[i]]
                    0 <= i < old(self)@.len() && old(self)@[i] == (handle, img) && (forall|j: int|
                        0 <= j < i ==> (#[trigger] old(self)@[j]).0 != handle) && final(self)@
                        == old(self)@.remove(i),
                None => final(self)@ == old(self)@ && !handles_of(old(self)@).contains(handle),
            },
    {
        let mut i: usize = 0;
        while i < self.entries.len()
            invariant
                self.entries@ == old(self).entries@,
                i <= self.entries@.len(),
                forall|j: int| 0 <= j < i ==> (#[trigger] self.entries@[j]).0 != handle,
            decreases self.entries@.len() - i,
        {
            if self.entries[i].0 == handle {
                let ghost before = self.entries@;
                let (_h, img) = self.entries.remove(i);
                assert(before[i as int] == (handle, img));
                assert(self.entries@ == before.remove(i as int));
                assert(before == old(self)@);
                assert(old(self)@[i as int] == (handle, img));
                return Some(img);
            }
            i = i + 1;
        }
        proof {
            if handles_of(self.entries@).contains(handle) {
                let j = choose|j: int|
                    0 <= j < handles_of(self.entries@).len() && handles_of(self.entries@)[j] == handle;
                assert(self.entries@[j].0 == handle);
            }
            assert(!handles_of(self.entries@).contains(handle));
        }
        None
    }

    /// True when no image is outstanding.
    pub fn is_empty(&self) -> (r: bool)
        ensures
            r == (self@.len() == 0),
    {
        self.entries.len() == 0
    }

    /// The number of outstanding images.
    pub fn len(&self) -> (r: usize)
        ensures
            r == self@.len(),
    {
        self.entries.len()
    }

    /// The outstanding image at position `i`.
    pub fn get(&self, i: usize) -> (r: &T)
        requires
            i < self@.len(),
        ensures
            *r == self@[i as int].1,
    {
        &self.entries[i].1
    }
}

/// Releasing an image undoes lending it: when no image is lent under
/// `handle`, lending `image` under it and then releasing `handle` gives
/// `image` back and leaves the outstanding images as they were.
pub proof fn law_release_undoes_acquire<T>(q: Seq<(usize, T)>, handle: usize, image: T, i: int)
    requires
        !handles_of(q).contains(handle),
        0 <= i < q.push((handle, image)).len(),
        q.push((handle, image))[i].0 == handle,
    ensures
        i == q.len(),
        q.push((handle, image))[i].1 == image,
        q.push((handle, image)).remove(i) == q,
{
    if i < q.len() {
        assert(q.push((handle, image))[i] == q[i]);
        assert(handles_of(q)[i] == handle);
    }
    assert(q.push((handle, image)).remove(i) =~= q);
}

/// A handle under which no image is lent cannot be released, and
/// lending an image makes its handle releasable.
pub proof fn law_release_needs_acquire<T>(q: Seq<(usize, T)>, handle: usize, image: T)
    ensures
        handles_of(q.push((handle, image))).contains(handle),
{
    assert(handles_of(q.push((handle, image)))[q.len() as int] == handle);
}

} // verus!
