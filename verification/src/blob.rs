//! Nearest-object localization. A sample is "near" when its depth value lies
//! below a fixed threshold. The locator finds the leftmost, rightmost, top
//! and bottom extent of the near samples and reports the midpoint of that
//! bounding box, with the midpoints rounded toward zero. A frame with no
//! near sample at all leaves every extreme at zero, so the result `(0, 0)`
//! doubles as the "no detection" sentinel; callers treat it so.

use vstd::prelude::*;
use crate::frame::{FRAME_HEIGHT, FRAME_SAMPLES, FRAME_WIDTH};
use crate::grid::{grid_cols, grid_column, grid_from_row_major, grid_row, grid_rows, grid_seq};

verus! {

/// Depth values strictly below this count as "near".
pub const NEAR_THRESHOLD: u16 = 400;

/// A point in pixel coordinates of the depth frame, origin top-left.
/// `(0, 0)` doubles as the "no detection" sentinel.
#[derive(Clone, Copy, Debug, PartialEq, Eq, Structural)]
pub struct ScreenPosition {
    pub x: u16,
    pub y: u16,
}

/// Whether one depth sample counts as near.
pub open spec fn near(sample: u16) -> bool {
    sample < NEAR_THRESHOLD
}

/// Whether the sample of row `r`, column `c` of a row-major frame is near.
pub open spec fn near_at(s: Seq<u16>, r: int, c: int) -> bool {
    near(s[r * FRAME_WIDTH + c])
}

/// Whether column `c` holds any near sample.
pub open spec fn col_has_near(s: Seq<u16>, c: int) -> bool {
    exists|r: int| 0 <= r < FRAME_HEIGHT && near_at(s, r, c)
}

/// Whether row `r` holds any near sample.
pub open spec fn row_has_near(s: Seq<u16>, r: int) -> bool {
    exists|c: int| 0 <= c < FRAME_WIDTH && near_at(s, r, c)
}

/// Whether the frame holds any near sample at all.
pub open spec fn has_near(s: Seq<u16>) -> bool {
    exists|c: int| 0 <= c < FRAME_WIDTH && col_has_near(s, c)
}

/// `c` is the leftmost column holding a near sample.
pub open spec fn is_left_most(s: Seq<u16>, c: int) -> bool {
    &&& 0 <= c < FRAME_WIDTH
    &&& col_has_near(s, c)
    &&& forall|k: int| 0 <= k < c ==> !col_has_near(s, k)
}

/// `c` is the rightmost column holding a near sample.
pub open spec fn is_right_most(s: Seq<u16>, c: int) -> bool {
    &&& 0 <= c < FRAME_WIDTH
    &&& col_has_near(s, c)
    &&& forall|k: int| c < k < FRAME_WIDTH ==> !col_has_near(s, k)
}

/// `r` is the topmost row holding a near sample.
pub open spec fn is_top_most(s: Seq<u16>, r: int) -> bool {
    &&& 0 <= r < FRAME_HEIGHT
    &&& row_has_near(s, r)
    &&& forall|k: int| 0 <= k < r ==> !row_has_near(s, k)
}

/// `r` is the bottom row holding a near sample.
pub open spec fn is_bottom_most(s: Seq<u16>, r: int) -> bool {
    &&& 0 <= r < FRAME_HEIGHT
    &&& row_has_near(s, r)
    &&& forall|k: int| r < k < FRAME_HEIGHT ==> !row_has_near(s, k)
}

/// The leftmost near column of a frame with a near sample.
pub open spec fn left_most_of(s: Seq<u16>) -> int {
    choose|c: int| is_left_most(s, c)
}

/// The rightmost near column of a frame with a near sample.
pub open spec fn right_most_of(s: Seq<u16>) -> int {
    choose|c: int| is_right_most(s, c)
}

/// The topmost near row of a frame with a near sample.
pub open spec fn top_most_of(s: Seq<u16>) -> int {
    choose|r: int| is_top_most(s, r)
}

/// The bottom near row of a frame with a near sample.
pub open spec fn bottom_most_of(s: Seq<u16>) -> int {
    choose|r: int| is_bottom_most(s, r)
}

/// Horizontal blob center: the midpoint of the leftmost and rightmost near
/// columns, rounded toward zero; zero when nothing is near.
pub open spec fn blob_center_x(s: Seq<u16>) -> int {
    if has_near(s) {
        (left_most_of(s) + right_most_of(s)) / 2
    } else {
        0
    }
}

/// Vertical blob center: the midpoint of the topmost and bottom near rows,
/// rounded toward zero; zero when nothing is near.
pub open spec fn blob_center_y(s: Seq<u16>) -> int {
    if has_near(s) {
        (top_most_of(s) + bottom_most_of(s)) / 2
    } else {
        0
    }
}

/// Two leftmost near columns of one frame are the same column.
pub proof fn lemma_left_most_unique(s: Seq<u16>, a: int, b: int)
    requires
        is_left_most(s, a),
        is_left_most(s, b),
    ensures
        a == b,
{
    if a < b {
        assert(!col_has_near(s, a));
    }
    if b < a {
        assert(!col_has_near(s, b));
    }
}

/// Two rightmost near columns of one frame are the same column.
pub proof fn lemma_right_most_unique(s: Seq<u16>, a: int, b: int)
    requires
        is_right_most(s, a),
        is_right_most(s, b),
    ensures
        a == b,
{
    if a < b {
        assert(!col_has_near(s, b));
    }
    if b < a {
        assert(!col_has_near(s, a));
    }
}

/// Two topmost near rows of one frame are the same row.
pub proof fn lemma_top_most_unique(s: Seq<u16>, a: int, b: int)
    requires
        is_top_most(s, a),
        is_top_most(s, b),
    ensures
        a == b,
{
    if a < b {
        assert(!row_has_near(s, a));
    }
    if b < a {
        assert(!row_has_near(s, b));
    }
}

/// Two bottom near rows of one frame are the same row.
pub proof fn lemma_bottom_most_unique(s: Seq<u16>, a: int, b: int)
    requires
        is_bottom_most(s, a),
        is_bottom_most(s, b),
    ensures
        a == b,
{
    if a < b {
        assert(!row_has_near(s, b));
    }
    if b < a {
        assert(!row_has_near(s, a));
    }
}

/// A frame holds a near sample exactly when some row does.
pub proof fn lemma_has_near_by_rows(s: Seq<u16>)
    ensures
        has_near(s) <==> exists|r: int| 0 <= r < FRAME_HEIGHT && row_has_near(s, r),
{
    if has_near(s) {
        let c = choose|c: int| 0 <= c < FRAME_WIDTH && col_has_near(s, c);
        let r = choose|r: int| 0 <= r < FRAME_HEIGHT && near_at(s, r, c);
        assert(row_has_near(s, r));
    }
    if exists|r: int| 0 <= r < FRAME_HEIGHT && row_has_near(s, r) {
        let r = choose|r: int| 0 <= r < FRAME_HEIGHT && row_has_near(s, r);
        let c = choose|c: int| 0 <= c < FRAME_WIDTH && near_at(s, r, c);
        assert(col_has_near(s, c));
    }
}

/// Whether a row or column, handed out as a plain vector, holds a near
/// sample.
fn scan_near(v: &Vec<u16>) -> (found: bool)
    ensures
        found == exists|j: int| 0 <= j < v@.len() && near(v@[j]),
{
    let mut j: usize = 0;
    while j < v.len()
        invariant
            forall|k: int| 0 <= k < j ==> !near(v@[k]),
        decreases v@.len() - j,
    {
        if v[j] < NEAR_THRESHOLD {
            assert(near(v@[j as int]));
            return true;
        }
        j += 1;
    }
    false
}

/// Scan columns left to right for the first one with a near sample.
fn left_most_col(g: &array2d::Array2D<u16>) -> (c: u16)
    requires
        grid_rows(*g) == FRAME_HEIGHT,
        grid_cols(*g) == FRAME_WIDTH,
        grid_seq(*g).len() == FRAME_SAMPLES,
    ensures
        has_near(grid_seq(*g)) ==> is_left_most(grid_seq(*g), c as int),
        !has_near(grid_seq(*g)) ==> c == 0,
        c < FRAME_WIDTH,
{
    let mut i: usize = 0;
    while i < FRAME_WIDTH
        invariant
            grid_rows(*g) == FRAME_HEIGHT,
            grid_cols(*g) == FRAME_WIDTH,
            grid_seq(*g).len() == FRAME_SAMPLES,
            i <= FRAME_WIDTH,
            forall|k: int| 0 <= k < i ==> !col_has_near(grid_seq(*g), k),
        decreases FRAME_WIDTH - i,
    {
        let col = grid_column(g, i);
        if scan_near(&col) {
            proof {
                let j = choose|j: int| 0 <= j < col@.len() && near(col@[j]);
                assert(col@[j] == grid_seq(*g)[j * FRAME_WIDTH + i]);
                assert(near_at(grid_seq(*g), j, i as int));
                assert(col_has_near(grid_seq(*g), i as int));
                assert(has_near(grid_seq(*g)));
            }
            return i as u16;
        }
        proof {
            assert forall|r: int| 0 <= r < FRAME_HEIGHT implies !near_at(
                grid_seq(*g),
                r,
                i as int,
            ) by {
                assert(col@[r] == grid_seq(*g)[r * FRAME_WIDTH + i]);
                assert(!near(col@[r]));
            };
            assert(!col_has_near(grid_seq(*g), i as int));
        }
        i += 1;
    }
    0
}

/// Scan columns right to left for the last one with a near sample.
fn right_most_col(g: &array2d::Array2D<u16>) -> (c: u16)
    requires
        grid_rows(*g) == FRAME_HEIGHT,
        grid_cols(*g) == FRAME_WIDTH,
        grid_seq(*g).len() == FRAME_SAMPLES,
    ensures
        has_near(grid_seq(*g)) ==> is_right_most(grid_seq(*g), c as int),
        !has_near(grid_seq(*g)) ==> c == 0,
        c < FRAME_WIDTH,
{
    let mut i: usize = FRAME_WIDTH;
    while i > 0
        invariant
            grid_rows(*g) == FRAME_HEIGHT,
            grid_cols(*g) == FRAME_WIDTH,
            grid_seq(*g).len() == FRAME_SAMPLES,
            i <= FRAME_WIDTH,
            forall|k: int| i <= k < FRAME_WIDTH ==> !col_has_near(grid_seq(*g), k),
        decreases i,
    {
        i -= 1;
        let col = grid_column(g, i);
        if scan_near(&col) {
            proof {
                let j = choose|j: int| 0 <= j < col@.len() && near(col@[j]);
                assert(col@[j] == grid_seq(*g)[j * FRAME_WIDTH + i]);
                assert(near_at(grid_seq(*g), j, i as int));
                assert(col_has_near(grid_seq(*g), i as int));
                assert(has_near(grid_seq(*g)));
            }
            return i as u16;
        }
        proof {
            assert forall|r: int| 0 <= r < FRAME_HEIGHT implies !near_at(
                grid_seq(*g),
                r,
                i as int,
            ) by {
                assert(col@[r] == grid_seq(*g)[r * FRAME_WIDTH + i]);
                assert(!near(col@[r]));
            };
            assert(!col_has_near(grid_seq(*g), i as int));
        }
    }
    0
}

/// Scan rows top to bottom for the first one with a near sample.
fn top_most_row(g: &array2d::Array2D<u16>) -> (r: u16)
    requires
        grid_rows(*g) == FRAME_HEIGHT,
        grid_cols(*g) == FRAME_WIDTH,
        grid_seq(*g).len() == FRAME_SAMPLES,
    ensures
        has_near(grid_seq(*g)) ==> is_top_most(grid_seq(*g), r as int),
        !has_near(grid_seq(*g)) ==> r == 0,
        r < FRAME_HEIGHT,
{
    let mut i: usize = 0;
    while i < FRAME_HEIGHT
        invariant
            grid_rows(*g) == FRAME_HEIGHT,
            grid_cols(*g) == FRAME_WIDTH,
            grid_seq(*g).len() == FRAME_SAMPLES,
            i <= FRAME_HEIGHT,
            forall|k: int| 0 <= k < i ==> !row_has_near(grid_seq(*g), k),
        decreases FRAME_HEIGHT - i,
    {
        let row = grid_row(g, i);
        if scan_near(&row) {
            proof {
                let j = choose|j: int| 0 <= j < row@.len() && near(row@[j]);
                assert(row@[j] == grid_seq(*g)[(i as int) * FRAME_WIDTH + j]);
                assert(near_at(grid_seq(*g), i as int, j));
                assert(row_has_near(grid_seq(*g), i as int));
                lemma_has_near_by_rows(grid_seq(*g));
                assert(has_near(grid_seq(*g)));
            }
            return i as u16;
        }
        proof {
            assert forall|c: int| 0 <= c < FRAME_WIDTH implies !near_at(
                grid_seq(*g),
                i as int,
                c,
            ) by {
                assert(row@[c] == grid_seq(*g)[(i as int) * FRAME_WIDTH + c]);
                assert(!near(row@[c]));
            };
            assert(!row_has_near(grid_seq(*g), i as int));
        }
        i += 1;
    }
    proof {
        lemma_has_near_by_rows(grid_seq(*g));
    }
    0
}

/// Scan rows bottom to top for the last one with a near sample.
fn bottom_most_row(g: &array2d::Array2D<u16>) -> (r: u16)
    requires
        grid_rows(*g) == FRAME_HEIGHT,
        grid_cols(*g) == FRAME_WIDTH,
        grid_seq(*g).len() == FRAME_SAMPLES,
    ensures
        has_near(grid_seq(*g)) ==> is_bottom_most(grid_seq(*g), r as int),
        !has_near(grid_seq(*g)) ==> r == 0,
        r < FRAME_HEIGHT,
{
    let mut i: usize = FRAME_HEIGHT;
    while i > 0
        invariant
            grid_rows(*g) == FRAME_HEIGHT,
            grid_cols(*g) == FRAME_WIDTH,
            grid_seq(*g).len() == FRAME_SAMPLES,
            i <= FRAME_HEIGHT,
            forall|k: int| i <= k < FRAME_HEIGHT ==> !row_has_near(grid_seq(*g), k),
        decreases i,
    {
        i -= 1;
        let row = grid_row(g, i);
        if scan_near(&row) {
            proof {
                let j = choose|j: int| 0 <= j < row@.len() && near(row@[j]);
                assert(row@[j] == grid_seq(*g)[(i as int) * FRAME_WIDTH + j]);
                assert(near_at(grid_seq(*g), i as int, j));
                assert(row_has_near(grid_seq(*g), i as int));
                lemma_has_near_by_rows(grid_seq(*g));
                assert(has_near(grid_seq(*g)));
            }
            return i as u16;
        }
        proof {
            assert forall|c: int| 0 <= c < FRAME_WIDTH implies !near_at(
                grid_seq(*g),
                i as int,
                c,
            ) by {
                assert(row@[c] == grid_seq(*g)[(i as int) * FRAME_WIDTH + c]);
                assert(!near(row@[c]));
            };
            assert(!row_has_near(grid_seq(*g), i as int));
        }
    }
    proof {
        lemma_has_near_by_rows(grid_seq(*g));
    }
    0
}

/// Midpoint of the bounding box of the near samples of a complete frame,
/// rounded toward zero; the sentinel `(0, 0)` when no sample is near.
pub fn center_of_close_blob(data: &Vec<u16>) -> (pos: ScreenPosition)
    requires
        data@.len() == FRAME_SAMPLES,
    ensures
        pos.x as int == blob_center_x(data@),
        pos.y as int == blob_center_y(data@),
        pos.x < FRAME_WIDTH,
        pos.y < FRAME_HEIGHT,
        !has_near(data@) ==> pos == (ScreenPosition { x: 0, y: 0 }),
{
    let g = grid_from_row_major(data, FRAME_HEIGHT, FRAME_WIDTH);
    let l = left_most_col(&g);
    let r = right_most_col(&g);
    let t = top_most_row(&g);
    let b = bottom_most_row(&g);
    proof {
        if has_near(data@) {
            assert(is_left_most(data@, left_most_of(data@)));
            lemma_left_most_unique(data@, l as int, left_most_of(data@));
            assert(is_right_most(data@, right_most_of(data@)));
            lemma_right_most_unique(data@, r as int, right_most_of(data@));
            assert(is_top_most(data@, top_most_of(data@)));
            lemma_top_most_unique(data@, t as int, top_most_of(data@));
            assert(is_bottom_most(data@, bottom_most_of(data@)));
            lemma_bottom_most_unique(data@, b as int, bottom_most_of(data@));
        }
    }
    let x = (l + r) / 2;
    let y = (t + b) / 2;
    ScreenPosition { x, y }
}

/// A frame with no sample below the threshold yields the "no detection"
/// sentinel: every extreme stays at zero and the reported center is `(0, 0)`.
pub proof fn lemma_all_far_no_detection(s: Seq<u16>)
    requires
        s.len() == FRAME_SAMPLES,
        forall|i: int| 0 <= i < s.len() ==> !near(s[i]),
    ensures
        !has_near(s),
        blob_center_x(s) == 0,
        blob_center_y(s) == 0,
{
    assert forall|c: int| 0 <= c < FRAME_WIDTH implies !col_has_near(s, c) by {
        if col_has_near(s, c) {
            let r = choose|r: int| 0 <= r < FRAME_HEIGHT && near_at(s, r, c);
            assert(0 <= r * FRAME_WIDTH + c < FRAME_SAMPLES);
            assert(!near(s[r * FRAME_WIDTH + c]));
        }
    };
}

/// A frame whose near samples fill exactly the rectangle of columns
/// `c0 ..= c1` and rows `r0 ..= r1` is located at the midpoint of that
/// rectangle's bounding box, rounded toward zero.
pub proof fn lemma_rect_center(s: Seq<u16>, c0: int, c1: int, r0: int, r1: int)
    requires
        s.len() == FRAME_SAMPLES,
        0 <= c0 <= c1 < FRAME_WIDTH,
        0 <= r0 <= r1 < FRAME_HEIGHT,
        forall|r: int, c: int|
            0 <= r < FRAME_HEIGHT && 0 <= c < FRAME_WIDTH ==> (near_at(s, r, c) <==> (r0 <= r
                <= r1 && c0 <= c <= c1)),
    ensures
        has_near(s),
        blob_center_x(s) == (c0 + c1) / 2,
        blob_center_y(s) == (r0 + r1) / 2,
{
    assert(near_at(s, r0, c0));
    assert(col_has_near(s, c0));
    assert(has_near(s));
    assert(is_left_most(s, c0)) by {
        assert forall|k: int| 0 <= k < c0 implies !col_has_near(s, k) by {
            if col_has_near(s, k) {
                let r = choose|r: int| 0 <= r < FRAME_HEIGHT && near_at(s, r, k);
                assert(!near_at(s, r, k));
            }
        };
    };
    assert(near_at(s, r0, c1));
    assert(col_has_near(s, c1));
    assert(is_right_most(s, c1)) by {
        assert forall|k: int| c1 < k < FRAME_WIDTH implies !col_has_near(s, k) by {
            if col_has_near(s, k) {
                let r = choose|r: int| 0 <= r < FRAME_HEIGHT && near_at(s, r, k);
                assert(!near_at(s, r, k));
            }
        };
    };
    assert(row_has_near(s, r0));
    assert(is_top_most(s, r0)) by {
        assert forall|k: int| 0 <= k < r0 implies !row_has_near(s, k) by {
            if row_has_near(s, k) {
                let c = choose|c: int| 0 <= c < FRAME_WIDTH && near_at(s, k, c);
                assert(!near_at(s, k, c));
            }
        };
    };
    assert(near_at(s, r1, c0));
    assert(row_has_near(s, r1));
    assert(is_bottom_most(s, r1)) by {
        assert forall|k: int| r1 < k < FRAME_HEIGHT implies !row_has_near(s, k) by {
            if row_has_near(s, k) {
                let c = choose|c: int| 0 <= c < FRAME_WIDTH && near_at(s, k, c);
                assert(!near_at(s, k, c));
            }
        };
    };
    assert(is_left_most(s, left_most_of(s)));
    lemma_left_most_unique(s, c0, left_most_of(s));
    assert(is_right_most(s, right_most_of(s)));
    lemma_right_most_unique(s, c1, right_most_of(s));
    assert(is_top_most(s, top_most_of(s)));
    lemma_top_most_unique(s, r0, top_most_of(s));
    assert(is_bottom_most(s, bottom_most_of(s)));
    lemma_bottom_most_unique(s, r1, bottom_most_of(s));
}

} // verus!
