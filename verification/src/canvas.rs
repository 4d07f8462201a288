//! The pixel-grid data model and the pure merge/overlay operation.

use vstd::prelude::*;

verus! {

/// A fixed-size pixel grid, stored row-major. Each pixel is a tri-purpose
/// signed value: `-1` asks a merge to erase the target pixel (reset it to
/// `0`), `0` is transparent (leaves the target pixel unchanged), and any
/// other value paints over the target pixel.
#[derive(Debug)]
pub struct DrawingCanvas {
    pub width: i32,
    pub height: i32,
    pub contents: Vec<i32>,
}

/// What one target pixel becomes when a source pixel is merged onto it.
pub open spec fn merged_pixel(t: i32, s: i32) -> i32 {
    if s == -1 {
        0
    } else if s == 0 {
        t
    } else {
        s
    }
}

/// The contents of a target after a source is overlaid onto it, pixel by
/// pixel. Positions past the end of the source stay unchanged.
pub open spec fn merged_contents(t: Seq<i32>, s: Seq<i32>) -> Seq<i32> {
    Seq::new(t.len(), |i: int| if i < s.len() { merged_pixel(t[i], s[i]) } else { t[i] })
}

/// The number of pixels a target demands of a source before a merge: the
/// product of the target's dimensions, clamped below at zero.
pub open spec fn required_len(w: int, h: int) -> int {
    if w * h >= 0 {
        w * h
    } else {
        0
    }
}

/// The invariants demanded of every externally supplied canvas: positive
/// dimensions, a pixel count that fits a 32-bit signed integer, and contents
/// of exactly that count.
pub open spec fn canvas_valid(c: DrawingCanvas) -> bool {
    &&& c.width >= 1
    &&& c.height >= 1
    &&& c.width * c.height <= i32::MAX
    &&& c.contents@.len() == c.width * c.height
}

/// Two canvases with the same dimensions and the same pixels.
pub open spec fn same_canvas(a: DrawingCanvas, b: DrawingCanvas) -> bool {
    &&& a.width == b.width
    &&& a.height == b.height
    &&& a.contents@ == b.contents@
}

/// A canvas of the given dimensions whose pixels are all zero.
pub open spec fn is_blank(c: DrawingCanvas, w: int, h: int) -> bool {
    &&& c.width == w
    &&& c.height == h
    &&& c.contents@.len() == w * h
    &&& forall|i: int| 0 <= i < c.contents@.len() ==> c.contents@[i] == 0
}

/// Builds a canvas of the given dimensions with every pixel set to zero.
pub fn blank(width: usize, height: usize) -> (r: DrawingCanvas)
    requires
        width * height <= usize::MAX,
        width <= i32::MAX,
        height <= i32::MAX,
    ensures
        is_blank(r, width as int, height as int),
{
    let total: usize = width * height;
    let mut contents: Vec<i32> = Vec::new();
    let mut i: usize = 0;
    while i < total
        invariant
            i <= total,
            contents@.len() == i,
            forall|j: int| 0 <= j < i ==> contents@[j] == 0,
        decreases total - i,
    {
        contents.push(0);
        i = i + 1;
    }
    DrawingCanvas { contents, width: width as i32, height: height as i32 }
}

/// Why a merge was refused: the two canvases disagree on a dimension, or the
/// source does not hold the number of pixels the target's dimensions demand.
/// Each variant carries both disagreeing values.
#[derive(Debug, PartialEq, Eq)]
pub enum MergeError {
    WidthMismatch { source_width: i32, target_width: i32 },
    HeightMismatch { source_height: i32, target_height: i32 },
    ContentsMismatch { source_len: usize, target_width: i32, target_height: i32 },
}

/// Overlays `source` onto `target`, pixel by pixel: `-1` erases, `0` leaves
/// the pixel alone, any other value paints. On any dimension mismatch the
/// target is left untouched and the error names both disagreeing values.
/// The size check multiplies the target's dimensions as 32-bit values, so
/// their product must fit that range; every canvas the registry holds does.
pub fn try_merge_into(target: &mut DrawingCanvas, source: &DrawingCanvas) -> (r: Result<
    (),
    MergeError,
>)
    requires
        i32::MIN <= old(target).width * old(target).height <= i32::MAX,
    ensures
        final(target).width == old(target).width,
        final(target).height == old(target).height,
        match r {
            Ok(()) => {
                &&& source.width == old(target).width
                &&& source.height == old(target).height
                &&& source.contents@.len() == required_len(
                    old(target).width as int,
                    old(target).height as int,
                )
                &&& final(target).contents@ == merged_contents(
                    old(target).contents@,
                    source.contents@,
                )
            },
            Err(MergeError::WidthMismatch { source_width, target_width }) => {
                &&& source.width != old(target).width
                &&& source_width == source.width
                &&& target_width == old(target).width
                &&& final(target).contents@ == old(target).contents@
            },
            Err(MergeError::HeightMismatch { source_height, target_height }) => {
                &&& source.width == old(target).width
                &&& source.height != old(target).height
                &&& source_height == source.height
                &&& target_height == old(target).height
                &&& final(target).contents@ == old(target).contents@
            },
            Err(MergeError::ContentsMismatch { source_len, target_width, target_height }) => {
                &&& source.width == old(target).width
                &&& source.height == old(target).height
                &&& source.contents@.len() != required_len(
                    old(target).width as int,
                    old(target).height as int,
                )
                &&& source_len == source.contents@.len()
                &&& target_width == old(target).width
                &&& target_height == old(target).height
                &&& final(target).contents@ == old(target).contents@
            },
        },
{
    if source.width != target.width {
        return Err(
            MergeError::WidthMismatch { source_width: source.width, target_width: target.width },
        );
    }
    if source.height != target.height {
        return Err(
            MergeError::HeightMismatch {
                source_height: source.height,
                target_height: target.height,
            },
        );
    }
    let source_len: usize = source.contents.len();
    let target_size: i32 = target.width * target.height;
    let required: i32 = if target_size > 0 {
        target_size
    } else {
        0
    };
    if source_len != required as usize {
        return Err(
            MergeError::ContentsMismatch {
                source_len,
                target_width: target.width,
                target_height: target.height,
            },
        );
    }
    let target_len: usize = target.contents.len();
    let bound: usize = if source_len < target_len {
        source_len
    } else {
        target_len
    };
    let mut i: usize = 0;
    while i < bound
        invariant
            i <= bound,
            bound == if source.contents@.len() < old(target).contents@.len() {
                source.contents@.len()
            } else {
                old(target).contents@.len()
            },
            target.width == old(target).width,
            target.height == old(target).height,
            target.contents@.len() == old(target).contents@.len(),
            forall|j: int|
                0 <= j < i ==> target.contents@[j] == merged_pixel(
                    old(target).contents@[j],
                    source.contents@[j],
                ),
            forall|j: int|
                i <= j < target.contents@.len() ==> target.contents@[j] == old(
                    target,
                ).contents@[j],
        decreases bound - i,
    {
        let s: i32 = source.contents[i];
        if s == -1 {
            target.contents[i] = 0;
        } else if s != 0 {
            target.contents[i] = s;
        }
        i = i + 1;
    }
    proof {
        assert(target.contents@ =~= merged_contents(old(target).contents@, source.contents@));
    }
    Ok(())
}

/// The outcome of validating an externally supplied canvas, in the priority
/// order the checks run: width first, then height, then the size product,
/// then the contents length.
#[derive(Debug, PartialEq, Eq)]
pub enum CheckInvariantsResult {
    Fine,
    NegativeWidth,
    NegativeHeight,
    OverflowingSize,
    MismatchedSize,
}

/// Classifies an externally supplied canvas before it enters the system.
/// Pure: no side effects, and each outcome pins down exactly which invariant
/// failed first.
pub fn check_invariants(canvas: &DrawingCanvas) -> (r: CheckInvariantsResult)
    ensures
        match r {
            CheckInvariantsResult::NegativeWidth => canvas.width < 1,
            CheckInvariantsResult::NegativeHeight => canvas.width >= 1 && canvas.height < 1,
            CheckInvariantsResult::OverflowingSize => canvas.width >= 1 && canvas.height >= 1
                && canvas.width * canvas.height > i32::MAX,
            CheckInvariantsResult::MismatchedSize => canvas.width >= 1 && canvas.height >= 1
                && canvas.width * canvas.height <= i32::MAX && canvas.width * canvas.height
                != canvas.contents@.len(),
            CheckInvariantsResult::Fine => canvas_valid(*canvas),
        },
{
    if canvas.width < 1 {
        return CheckInvariantsResult::NegativeWidth;
    }
    if canvas.height < 1 {
        return CheckInvariantsResult::NegativeHeight;
    }
    proof {
        let w = canvas.width as int;
        let h = canvas.height as int;
        assert(1 <= w * h <= 0x7fffffff * 0x7fffffff) by (nonlinear_arith)
            requires
                1 <= w <= 0x7fffffff,
                1 <= h <= 0x7fffffff,
        ;
    }
    let checked_size: i64 = (canvas.width as i64) * (canvas.height as i64);
    if checked_size > (i32::MAX as i64) {
        return CheckInvariantsResult::OverflowingSize;
    }
    if (checked_size as usize) != canvas.contents.len() {
        return CheckInvariantsResult::MismatchedSize;
    }
    CheckInvariantsResult::Fine
}

/// Copies a pixel sequence, element by element.
fn copy_pixels(v: &Vec<i32>) -> (r: Vec<i32>)
    ensures
        r@ == v@,
{
    let mut r: Vec<i32> = Vec::new();
    let mut i: usize = 0;
    while i < v.len()
        invariant
            i <= v@.len(),
            r@ =~= v@.subrange(0, i as int),
        decreases v@.len() - i,
    {
        r.push(v[i]);
        i = i + 1;
    }
    proof {
        assert(r@ =~= v@);
    }
    r
}

impl Clone for DrawingCanvas {
    /// A value copy: same dimensions, same pixels.
    fn clone(&self) -> (r: Self)
        ensures
            same_canvas(r, *self),
    {
        DrawingCanvas {
            width: self.width,
            height: self.height,
            contents: copy_pixels(&self.contents),
        }
    }
}

/// Law: an all-zero source is a true no-op under merge — overlaying it onto
/// any contents gives those contents back unchanged.
pub proof fn lemma_merge_zero_is_noop(t: Seq<i32>, z: Seq<i32>)
    requires
        forall|i: int| 0 <= i < z.len() ==> z[i] == 0,
    ensures
        merged_contents(t, z) == t,
{
    assert(merged_contents(t, z) =~= t);
}

/// Law: for any contents `t` and any source `a`, merging `a` and then
/// merging an all-zero source leaves the result of the first merge
/// unchanged.
pub proof fn lemma_merge_then_blank(t: Seq<i32>, a: Seq<i32>, z: Seq<i32>)
    requires
        forall|i: int| 0 <= i < z.len() ==> z[i] == 0,
    ensures
        merged_contents(merged_contents(t, a), z) == merged_contents(t, a),
{
    lemma_merge_zero_is_noop(merged_contents(t, a), z);
}

/// Law: merge is order-dependent. There are sources whose two orders of
/// application onto the same contents produce different results — painting
/// a pixel and then erasing it leaves zero, erasing and then painting
/// leaves the paint — so merge is not commutative, by design.
pub proof fn lemma_merge_not_commutative()
    ensures
        exists|t: Seq<i32>, a: Seq<i32>, b: Seq<i32>|
            merged_contents(merged_contents(t, a), b) != merged_contents(merged_contents(t, b), a),
{
    let t = seq![0i32];
    let a = seq![1i32];
    let b = seq![-1i32];
    assert(merged_contents(merged_contents(t, a), b)[0] == 0);
    assert(merged_contents(merged_contents(t, b), a)[0] == 1);
    assert(merged_contents(merged_contents(t, a), b) != merged_contents(merged_contents(t, b), a));
}

/// Law: an all-erase source (every pixel `-1`) that covers the whole target
/// resets every pixel of the target to zero.
pub proof fn lemma_merge_erase_all(t: Seq<i32>, e: Seq<i32>)
    requires
        t.len() <= e.len(),
        forall|i: int| 0 <= i < e.len() ==> e[i] == -1,
    ensures
        merged_contents(t, e).len() == t.len(),
        forall|i: int| 0 <= i < t.len() ==> merged_contents(t, e)[i] == 0,
{
}

} // verus!
