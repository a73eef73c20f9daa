use vstd::prelude::*;

use crate::color::ColorSignature;

verus! {

/// One snapshot of the display: `height` rows of `width` pixels, each pixel
/// four bytes in blue, green, red, alpha order, rows `stride` bytes apart.
pub struct Frame {
    pub width: u32,
    pub height: u32,
    pub stride: usize,
    pub data: Vec<u8>,
}

impl Frame {
    /// Every row fits in its stride and every row lies inside the buffer.
    pub open spec fn wf(&self) -> bool {
        &&& 4 * self.width <= self.stride
        &&& self.stride * self.height <= self.data@.len()
    }

    /// Byte `c` of the pixel at column `x` and row `y`.
    pub open spec fn byte(&self, x: int, y: int, c: int) -> u8 {
        self.data@[y * self.stride + 4 * x + c]
    }

    pub fn is_well_formed(&self) -> (r: bool)
        ensures
            r == self.wf(),
    {
        let row_bytes: u64 = (self.width as u64) * 4;
        proof {
            let (s, h) = (self.stride as int, self.height as int);
            assert(s * h <= 0xffff_ffff_ffff_ffff * 0xffff_ffff) by (nonlinear_arith)
                requires
                    0 <= s <= 0xffff_ffff_ffff_ffff,
                    0 <= h <= 0xffff_ffff,
            ;
        }
        let total: u128 = (self.stride as u128) * (self.height as u128);
        row_bytes <= self.stride as u64 && total <= self.data.len() as u128
    }
}

/// A pixel that matched, with the number of matching pixels in the 3x3
/// neighbourhood centred on it (itself included).
#[derive(Clone, Copy, Debug, PartialEq, Eq, Structural)]
pub struct Match {
    pub x: u32,
    pub y: u32,
    pub density: u8,
}

/// Whether the pixel at (`x`, `y`) matches the signature once its channels
/// are put in red, green, blue order.
pub open spec fn pixel_hit(f: &Frame, sig: ColorSignature, x: int, y: int) -> bool {
    sig.spec_matches_rgba(f.byte(x, y, 2), f.byte(x, y, 1), f.byte(x, y, 0), f.byte(x, y, 3))
}

pub open spec fn hit_value(f: &Frame, sig: ColorSignature, x: int, y: int) -> int {
    if pixel_hit(f, sig, x, y) {
        1
    } else {
        0
    }
}

/// Number of hits among the nine pixels of the 3x3 block centred on (`x`, `y`).
pub open spec fn density_at(f: &Frame, sig: ColorSignature, x: int, y: int) -> int {
    hit_value(f, sig, x - 1, y - 1) + hit_value(f, sig, x, y - 1) + hit_value(f, sig, x + 1, y - 1)
        + hit_value(f, sig, x - 1, y) + hit_value(f, sig, x, y) + hit_value(f, sig, x + 1, y)
        + hit_value(f, sig, x - 1, y + 1) + hit_value(f, sig, x, y + 1) + hit_value(
        f,
        sig,
        x + 1,
        y + 1,
    )
}

/// The eight neighbours of (`x`, `y`) are all hits.
pub open spec fn neighbours_all_hit(f: &Frame, sig: ColorSignature, x: int, y: int) -> bool {
    forall|dx: int, dy: int|
        -1 <= dx <= 1 && -1 <= dy <= 1 ==> #[trigger] pixel_hit(f, sig, x + dx, y + dy)
}

/// Pixels off the outermost ring of the frame.
pub open spec fn interior(f: &Frame, x: int, y: int) -> bool {
    1 <= x < f.width - 1 && 1 <= y < f.height - 1
}

pub open spec fn match_at(f: &Frame, sig: ColorSignature, x: int, y: int) -> Match {
    Match { x: x as u32, y: y as u32, density: density_at(f, sig, x, y) as u8 }
}

/// Matches of row `y` at columns `1..x`, left to right.
pub open spec fn row_matches(f: &Frame, sig: ColorSignature, y: int, x: int) -> Seq<Match>
    decreases x,
{
    if x <= 1 {
        seq![]
    } else {
        let prev = row_matches(f, sig, y, x - 1);
        if pixel_hit(f, sig, x - 1, y) {
            prev.push(match_at(f, sig, x - 1, y))
        } else {
            prev
        }
    }
}

/// Matches of rows `1..y`, top to bottom, each row skipping its first and last column.
pub open spec fn rows_matches(f: &Frame, sig: ColorSignature, y: int) -> Seq<Match>
    decreases y,
{
    if y <= 1 {
        seq![]
    } else {
        rows_matches(f, sig, y - 1) + row_matches(f, sig, y - 1, f.width - 1)
    }
}

/// The scan result of a frame: every interior hit in row-major order, with its density.
pub open spec fn scan_result(f: &Frame, sig: ColorSignature) -> Seq<Match> {
    rows_matches(f, sig, f.height - 1)
}

proof fn lemma_row_matches(f: &Frame, sig: ColorSignature, y: int, x: int)
    requires
        1 <= y < f.height - 1,
        x <= f.width - 1,
    ensures
        forall|k: int|
            0 <= k < row_matches(f, sig, y, x).len() ==> {
                let m = #[trigger] row_matches(f, sig, y, x)[k];
                &&& interior(f, m.x as int, m.y as int)
                &&& m.x < x
                &&& m.y == y
                &&& pixel_hit(f, sig, m.x as int, m.y as int)
                &&& m == match_at(f, sig, m.x as int, m.y as int)
            },
        forall|c: int|
            1 <= c < x && #[trigger] pixel_hit(f, sig, c, y) ==> row_matches(f, sig, y, x).contains(
                match_at(f, sig, c, y),
            ),
    decreases x,
{
    if x > 1 {
        lemma_row_matches(f, sig, y, x - 1);
        let prev = row_matches(f, sig, y, x - 1);
        if pixel_hit(f, sig, x - 1, y) {
            let m = match_at(f, sig, x - 1, y);
            assert(prev.push(m)[prev.len() as int] == m);
            assert forall|c: int|
                1 <= c < x && #[trigger] pixel_hit(f, sig, c, y) implies prev.push(m).contains(
                    match_at(f, sig, c, y),
                ) by {
                if c < x - 1 {
                    let k = choose|k: int| 0 <= k < prev.len() && prev[k] == match_at(f, sig, c, y);
                    assert(prev.push(m)[k] == prev[k]);
                }
            }
        }
    }
}

proof fn lemma_rows_matches(f: &Frame, sig: ColorSignature, y: int)
    requires
        y <= f.height - 1,
    ensures
        forall|k: int|
            0 <= k < rows_matches(f, sig, y).len() ==> {
                let m = #[trigger] rows_matches(f, sig, y)[k];
                &&& interior(f, m.x as int, m.y as int)
                &&& m.y < y
                &&& pixel_hit(f, sig, m.x as int, m.y as int)
                &&& m == match_at(f, sig, m.x as int, m.y as int)
            },
        forall|c: int, r: int|
            1 <= c < f.width - 1 && 1 <= r < y && #[trigger] pixel_hit(f, sig, c, r)
                ==> rows_matches(f, sig, y).contains(match_at(f, sig, c, r)),
    decreases y,
{
    if y > 1 {
        lemma_rows_matches(f, sig, y - 1);
        lemma_row_matches(f, sig, y - 1, f.width - 1);
        let a = rows_matches(f, sig, y - 1);
        let b = row_matches(f, sig, y - 1, f.width - 1);
        assert forall|k: int| 0 <= k < (a + b).len() implies {
            let m = #[trigger] (a + b)[k];
            &&& interior(f, m.x as int, m.y as int)
            &&& m.y < y
            &&& pixel_hit(f, sig, m.x as int, m.y as int)
            &&& m == match_at(f, sig, m.x as int, m.y as int)
        } by {
            if k < a.len() {
                assert((a + b)[k] == a[k]);
            } else {
                assert((a + b)[k] == b[k - a.len()]);
            }
        }
        assert forall|c: int, r: int|
            1 <= c < f.width - 1 && 1 <= r < y && #[trigger] pixel_hit(f, sig, c, r) implies (a
                + b).contains(match_at(f, sig, c, r)) by {
            if r < y - 1 {
                let k = choose|k: int| 0 <= k < a.len() && a[k] == match_at(f, sig, c, r);
                assert((a + b)[k] == a[k]);
            } else {
                assert(b.contains(match_at(f, sig, c, r)));
                let k = choose|k: int| 0 <= k < b.len() && b[k] == match_at(f, sig, c, r);
                assert((a + b)[a.len() + k] == b[k]);
            }
        }
    }
}

/// Each reported match is an interior hit carrying its neighbourhood density,
/// and every interior hit is reported.
pub proof fn lemma_scan_result_exact(f: &Frame, sig: ColorSignature)
    ensures
        forall|k: int|
            0 <= k < scan_result(f, sig).len() ==> {
                let m = #[trigger] scan_result(f, sig)[k];
                &&& interior(f, m.x as int, m.y as int)
                &&& pixel_hit(f, sig, m.x as int, m.y as int)
                &&& m == match_at(f, sig, m.x as int, m.y as int)
            },
        forall|x: int, y: int|
            interior(f, x, y) && #[trigger] pixel_hit(f, sig, x, y) ==> scan_result(
                f,
                sig,
            ).contains(match_at(f, sig, x, y)),
{
    lemma_rows_matches(f, sig, f.height - 1);
}


/// Every density that a scan reports lies between one and nine, and a hit
/// whose eight neighbours also match has density exactly nine.
pub proof fn lemma_scan_density_range(f: &Frame, sig: ColorSignature)
    ensures
        forall|k: int|
            0 <= k < scan_result(f, sig).len() ==> {
                let m = #[trigger] scan_result(f, sig)[k];
                &&& 1 <= m.density <= 9
                &&& neighbours_all_hit(f, sig, m.x as int, m.y as int) ==> m.density == 9
            },
{
    lemma_scan_result_exact(f, sig);
    assert forall|k: int| 0 <= k < scan_result(f, sig).len() implies {
        let m = #[trigger] scan_result(f, sig)[k];
        &&& 1 <= m.density <= 9
        &&& neighbours_all_hit(f, sig, m.x as int, m.y as int) ==> m.density == 9
    } by {
        let m = scan_result(f, sig)[k];
        let (x, y) = (m.x as int, m.y as int);
        if neighbours_all_hit(f, sig, x, y) {
            assert(pixel_hit(f, sig, x + -1, y + -1));
            assert(pixel_hit(f, sig, x + 0, y + -1));
            assert(pixel_hit(f, sig, x + 1, y + -1));
            assert(pixel_hit(f, sig, x + -1, y + 0));
            assert(pixel_hit(f, sig, x + 1, y + 0));
            assert(pixel_hit(f, sig, x + -1, y + 1));
            assert(pixel_hit(f, sig, x + 0, y + 1));
            assert(pixel_hit(f, sig, x + 1, y + 1));
        }
    }
}

/// Two scans of one unchanged frame for one signature give identical results.
pub proof fn lemma_scan_idempotent(f: &Frame, sig: ColorSignature, first: Seq<Match>, second: Seq<Match>)
    requires
        first == scan_result(f, sig),
        second == scan_result(f, sig),
    ensures
        first == second,
{
}

/// Rows of hit flags, one per pixel of the frame.
pub open spec fn hit_table(f: &Frame, sig: ColorSignature, rows: Seq<Vec<bool>>) -> bool {
    &&& rows.len() == f.height
    &&& forall|y: int|
        0 <= y < f.height ==> {
            &&& (#[trigger] rows[y])@.len() == f.width
            &&& forall|x: int| 0 <= x < f.width ==> rows[y]@[x] == pixel_hit(f, sig, x, y)
        }
}

fn hit_rows(f: &Frame, sig: &ColorSignature) -> (rows: Vec<Vec<bool>>)
    requires
        f.wf(),
    ensures
        hit_table(f, *sig, rows@),
{
    let mut rows: Vec<Vec<bool>> = Vec::new();
    let mut y: u32 = 0;
    let mut row_start: usize = 0;
    let len = f.data.len();
    while y < f.height
        invariant
            f.wf(),
            len == f.data@.len(),
            y <= f.height,
            row_start == y * f.stride,
            rows@.len() == y,
            forall|yy: int|
                0 <= yy < y ==> {
                    &&& (#[trigger] rows@[yy])@.len() == f.width
                    &&& forall|x: int|
                        0 <= x < f.width ==> rows@[yy]@[x] == pixel_hit(f, *sig, x, yy)
                },
        decreases f.height - y,
    {
        proof {
            let (s, h, yy) = (f.stride as int, f.height as int, y as int);
            assert(yy * s + s <= s * h) by (nonlinear_arith)
                requires
                    0 <= yy < h,
                    0 <= s,
            ;
            assert((yy + 1) * s == yy * s + s) by (nonlinear_arith);
        }
        let mut row: Vec<bool> = Vec::new();
        let mut x: u32 = 0;
        while x < f.width
            invariant
                f.wf(),
                y < f.height,
                x <= f.width,
                row_start == y * f.stride,
                row_start + f.stride <= f.data@.len(),
                len == f.data@.len(),
                row@.len() == x,
                forall|xx: int| 0 <= xx < x ==> row@[xx] == pixel_hit(f, *sig, xx, y as int),
            decreases f.width - x,
        {
            let o: usize = row_start + 4 * (x as usize);
            let hit = sig.matches_rgba(f.data[o + 2], f.data[o + 1], f.data[o], f.data[o + 3]);
            row.push(hit);
            x = x + 1;
        }
        rows.push(row);
        y = y + 1;
        row_start = row_start + f.stride;
    }
    rows
}

fn hit_count(rows: &Vec<Vec<bool>>, x: usize, y: usize) -> (n: u8)
    requires
        y < rows@.len(),
        x < rows@[y as int]@.len(),
    ensures
        n == (if rows@[y as int]@[x as int] {
            1int
        } else {
            0int
        }),
{
    if rows[y][x] {
        1
    } else {
        0
    }
}

/// Scans one frame for `sig`: every pixel off the outermost ring that matches,
/// in row-major order, with the number of matching pixels around it.
pub fn scan_frame(f: &Frame, sig: &ColorSignature) -> (r: Vec<Match>)
    requires
        f.wf(),
    ensures
        r@ == scan_result(f, *sig),
{
    let rows = hit_rows(f, sig);
    let mut out: Vec<Match> = Vec::new();
    let mut y: u32 = 1;
    while (y as u64) + 1 < f.height as u64
        invariant
            f.wf(),
            hit_table(f, *sig, rows@),
            1 <= y,
            f.height >= 2 ==> y <= f.height - 1,
            f.height < 2 ==> y == 1,
            out@ == rows_matches(f, *sig, y as int),
        decreases f.height - y,
    {
        let yu = y as usize;
        let mut x: u32 = 1;
        while (x as u64) + 1 < f.width as u64
            invariant
                f.wf(),
                hit_table(f, *sig, rows@),
                1 <= y < f.height - 1,
                yu == y,
                1 <= x,
                f.width >= 2 ==> x <= f.width - 1,
                f.width < 2 ==> x == 1,
                out@ == rows_matches(f, *sig, y as int) + row_matches(f, *sig, y as int, x as int),
            decreases f.width - x,
        {
            let xu = x as usize;
            if rows[yu][xu] {
                let d = hit_count(&rows, xu - 1, yu - 1) + hit_count(&rows, xu, yu - 1)
                    + hit_count(&rows, xu + 1, yu - 1) + hit_count(&rows, xu - 1, yu)
                    + hit_count(&rows, xu, yu) + hit_count(&rows, xu + 1, yu)
                    + hit_count(&rows, xu - 1, yu + 1) + hit_count(&rows, xu, yu + 1)
                    + hit_count(&rows, xu + 1, yu + 1);
                let m = Match { x, y, density: d };
                assert(m == match_at(f, *sig, x as int, y as int));
                out.push(m);
            }
            proof {
                let a = rows_matches(f, *sig, y as int);
                let b = row_matches(f, *sig, y as int, x as int);
                assert((a + b).push(match_at(f, *sig, x as int, y as int)) =~= a + b.push(
                    match_at(f, *sig, x as int, y as int),
                ));
            }
            x = x + 1;
        }
        assert(f.width < 2 ==> row_matches(f, *sig, y as int, f.width - 1) =~= seq![]);
        assert(f.width < 2 ==> row_matches(f, *sig, y as int, x as int) =~= seq![]);
        y = y + 1;
    }
    out
}

} // verus!
