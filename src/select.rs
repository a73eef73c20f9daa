use vstd::prelude::*;

use crate::geometry::{clamp_coord, clamp_coord_exec, Point};
use crate::random::draw_between;
use crate::scan::Match;

verus! {

/// Largest jitter applied to each axis of a selected point.
pub const JITTER: i64 = 5;

/// Highest density a 3x3 neighbourhood can have.
pub const MAX_DENSITY: u8 = 9;

/// Every density lies in `1..=9`, as a scan reports them.
pub open spec fn densities_valid(s: Seq<Match>) -> bool {
    forall|k: int| 0 <= k < s.len() ==> 1 <= #[trigger] s[k].density <= MAX_DENSITY
}

/// The matches of `s` whose density is `d`, in their order in `s`.
pub open spec fn with_density(s: Seq<Match>, d: int) -> Seq<Match>
    decreases s.len(),
{
    if s.len() == 0 {
        seq![]
    } else {
        let prev = with_density(s.drop_last(), d);
        if s.last().density == d {
            prev.push(s.last())
        } else {
            prev
        }
    }
}

/// The matches of `s` with density above `d`, densest first; equal densities
/// keep their order in `s`.
pub open spec fn denser_than(s: Seq<Match>, d: int) -> Seq<Match>
    decreases 9 - d,
{
    if d >= 9 {
        seq![]
    } else {
        denser_than(s, d + 1) + with_density(s, d + 1)
    }
}

/// `s` sorted by density, densest first, keeping the order of equal densities.
pub open spec fn by_density(s: Seq<Match>) -> Seq<Match> {
    denser_than(s, 0)
}

/// How many matches the top quartile keeps out of `n`: a quarter, at least one.
pub open spec fn quartile_len(n: int) -> int {
    if n / 4 >= 1 {
        n / 4
    } else {
        1
    }
}

/// The densest quarter of `s` (at least one match when `s` is not empty).
pub open spec fn top_quartile(s: Seq<Match>) -> Seq<Match> {
    if s.len() == 0 {
        seq![]
    } else {
        by_density(s).take(quartile_len(s.len() as int))
    }
}

/// The position of `m` moved by `dx` and `dy`, held to the coordinate range.
pub open spec fn jittered(m: Match, dx: int, dy: int) -> Point {
    Point { x: clamp_coord(m.x + dx), y: clamp_coord(m.y + dy) }
}

pub open spec fn jitter_ok(d: int) -> bool {
    -JITTER <= d <= JITTER
}

/// The point chosen from `s` when `pick` indexes the top quartile and `dx`, `dy`
/// are the jitter drawn for each axis.
pub open spec fn spec_select(s: Seq<Match>, pick: int, dx: int, dy: int) -> Option<Point> {
    if s.len() == 0 {
        None
    } else {
        Some(jittered(top_quartile(s)[pick], dx, dy))
    }
}

proof fn lemma_with_density(s: Seq<Match>, d: int)
    ensures
        forall|k: int|
            0 <= k < with_density(s, d).len() ==> (#[trigger] with_density(s, d)[k]).density == d
                && s.contains(with_density(s, d)[k]),
        forall|k: int|
            0 <= k < s.len() && #[trigger] s[k].density == d ==> with_density(s, d).contains(s[k]),
    decreases s.len(),
{
    if s.len() > 0 {
        let t = s.drop_last();
        lemma_with_density(t, d);
        let p = with_density(t, d);
        assert forall|k: int| 0 <= k < t.len() implies s.contains(#[trigger] t[k]) by {
            assert(s[k] == t[k]);
        }
        if s.last().density == d {
            assert(p.push(s.last())[p.len() as int] == s.last());
            assert forall|k: int| 0 <= k < p.len() implies p.push(s.last())[k] == #[trigger] p[k] by {}
        }
        assert forall|k: int|
            0 <= k < s.len() && #[trigger] s[k].density == d implies with_density(s, d).contains(
                s[k],
            ) by {
            if k < s.len() - 1 {
                assert(s[k] == t[k]);
                let j = choose|j: int| 0 <= j < p.len() && p[j] == t[k];
                if s.last().density == d {
                    assert(p.push(s.last())[j] == p[j]);
                }
            } else {
                assert(p.push(s.last())[p.len() as int] == s.last());
            }
        }
    }
}

/// Number of matches of `s` with density in `d + 1..=9`.
spec fn count_denser(s: Seq<Match>, d: int) -> int
    decreases s.len(),
{
    if s.len() == 0 {
        0
    } else {
        count_denser(s.drop_last(), d) + if d < s.last().density <= 9 {
            1int
        } else {
            0int
        }
    }
}

proof fn lemma_count_step(s: Seq<Match>, d: int)
    requires
        d < 9,
    ensures
        count_denser(s, d) == count_denser(s, d + 1) + with_density(s, d + 1).len(),
    decreases s.len(),
{
    if s.len() > 0 {
        lemma_count_step(s.drop_last(), d);
    }
}

proof fn lemma_denser_than_len(s: Seq<Match>, d: int)
    requires
        0 <= d <= 9,
    ensures
        denser_than(s, d).len() == count_denser(s, d),
    decreases 9 - d,
{
    if d < 9 {
        lemma_denser_than_len(s, d + 1);
        lemma_count_step(s, d);
    } else {
        lemma_count_none(s);
    }
}

proof fn lemma_count_none(s: Seq<Match>)
    ensures
        count_denser(s, 9) == 0,
    decreases s.len(),
{
    if s.len() > 0 {
        lemma_count_none(s.drop_last());
    }
}

proof fn lemma_count_all(s: Seq<Match>)
    requires
        densities_valid(s),
    ensures
        count_denser(s, 0) == s.len(),
    decreases s.len(),
{
    if s.len() > 0 {
        let t = s.drop_last();
        assert forall|k: int| 0 <= k < t.len() implies 1 <= #[trigger] t[k].density <= MAX_DENSITY by {
            assert(t[k] == s[k]);
        }
        lemma_count_all(t);
        assert(s.last() == s[s.len() - 1]);
    }
}

proof fn lemma_denser_than(s: Seq<Match>, d: int)
    requires
        0 <= d <= 9,
    ensures
        forall|k: int|
            0 <= k < denser_than(s, d).len() ==> d < (#[trigger] denser_than(s, d)[k]).density <= 9
                && s.contains(denser_than(s, d)[k]),
        forall|i: int, j: int|
            0 <= i < j < denser_than(s, d).len() ==> (#[trigger] denser_than(s, d)[i]).density
                >= (#[trigger] denser_than(s, d)[j]).density,
        forall|k: int|
            0 <= k < s.len() && d < #[trigger] s[k].density <= 9 ==> denser_than(s, d).contains(
                s[k],
            ),
    decreases 9 - d,
{
    if d < 9 {
        lemma_denser_than(s, d + 1);
        lemma_with_density(s, d + 1);
        let a = denser_than(s, d + 1);
        let b = with_density(s, d + 1);
        assert forall|k: int| 0 <= k < (a + b).len() implies d < (#[trigger] (a + b)[k]).density
            <= 9 && s.contains((a + b)[k]) by {
            if k < a.len() {
                assert((a + b)[k] == a[k]);
            } else {
                assert((a + b)[k] == b[k - a.len()]);
            }
        }
        assert forall|i: int, j: int| 0 <= i < j < (a + b).len() implies (#[trigger] (a
            + b)[i]).density >= (#[trigger] (a + b)[j]).density by {
            if j < a.len() {
                assert((a + b)[i] == a[i]);
                assert((a + b)[j] == a[j]);
            } else if i < a.len() {
                assert((a + b)[i] == a[i]);
                assert((a + b)[j] == b[j - a.len()]);
            } else {
                assert((a + b)[i] == b[i - a.len()]);
                assert((a + b)[j] == b[j - a.len()]);
            }
        }
        assert forall|k: int| 0 <= k < s.len() && d < #[trigger] s[k].density <= 9 implies (a
            + b).contains(s[k]) by {
            if s[k].density > d + 1 {
                let j = choose|j: int| 0 <= j < a.len() && a[j] == s[k];
                assert((a + b)[j] == a[j]);
            } else {
                let j = choose|j: int| 0 <= j < b.len() && b[j] == s[k];
                assert((a + b)[a.len() + j] == b[j]);
            }
        }
    }
}

/// Sorting by density keeps every match and adds none: the result is as long
/// as `s`, holds each match of `s`, holds only matches of `s`, and its
/// densities never increase from one position to the next.
pub proof fn lemma_by_density(s: Seq<Match>)
    requires
        densities_valid(s),
    ensures
        by_density(s).len() == s.len(),
        forall|k: int| 0 <= k < s.len() ==> by_density(s).contains(#[trigger] s[k]),
        forall|k: int| 0 <= k < s.len() ==> s.contains(#[trigger] by_density(s)[k]),
        forall|i: int, j: int|
            0 <= i < j < s.len() ==> (#[trigger] by_density(s)[i]).density >= (
            #[trigger] by_density(s)[j]).density,
{
    lemma_denser_than(s, 0);
    lemma_denser_than_len(s, 0);
    lemma_count_all(s);
    assert forall|k: int| 0 <= k < s.len() implies by_density(s).contains(#[trigger] s[k]) by {
        assert(0 < s[k].density <= 9);
    }
}

/// The top quartile of a non-empty scan is not empty, and no match left out of
/// it is denser than a match kept in it.
pub proof fn lemma_top_quartile(s: Seq<Match>)
    requires
        densities_valid(s),
        s.len() > 0,
    ensures
        1 <= top_quartile(s).len() == quartile_len(s.len() as int) <= s.len(),
        forall|i: int, j: int|
            0 <= i < top_quartile(s).len() <= j < s.len() ==> (#[trigger] top_quartile(s)[i]).density
                >= (#[trigger] by_density(s)[j]).density,
        forall|k: int| 0 <= k < top_quartile(s).len() ==> s.contains(#[trigger] top_quartile(s)[k]),
{
    lemma_by_density(s);
    let q = top_quartile(s);
    assert forall|i: int, j: int| 0 <= i < q.len() <= j < s.len() implies (#[trigger] q[i]).density
        >= (#[trigger] by_density(s)[j]).density by {
        assert(q[i] == by_density(s)[i]);
    }
    assert forall|k: int| 0 <= k < q.len() implies s.contains(#[trigger] q[k]) by {
        assert(q[k] == by_density(s)[k]);
    }
}


/// Whether every density of `s` lies in `1..=9`.
pub fn densities_in_range(s: &Vec<Match>) -> (r: bool)
    ensures
        r == densities_valid(s@),
{
    let mut i: usize = 0;
    while i < s.len()
        invariant
            i <= s@.len(),
            forall|k: int| 0 <= k < i ==> 1 <= #[trigger] s@[k].density <= MAX_DENSITY,
        decreases s@.len() - i,
    {
        if s[i].density < 1 || s[i].density > MAX_DENSITY {
            return false;
        }
        i = i + 1;
    }
    true
}

fn sort_by_density(s: &Vec<Match>) -> (r: Vec<Match>)
    ensures
        r@ == by_density(s@),
{
    let mut out: Vec<Match> = Vec::new();
    let mut d: u8 = MAX_DENSITY;
    while d > 0
        invariant
            d <= 9,
            out@ == denser_than(s@, d as int),
        decreases d,
    {
        let mut i: usize = 0;
        while i < s.len()
            invariant
                1 <= d <= 9,
                i <= s@.len(),
                out@ == denser_than(s@, d as int) + with_density(s@.take(i as int), d as int),
            decreases s@.len() - i,
        {
            proof {
                assert(s@.take(i + 1).drop_last() =~= s@.take(i as int));
                assert(s@.take(i + 1).last() == s@[i as int]);
            }
            if s[i].density == d {
                out.push(s[i]);
            }
            i = i + 1;
        }
        assert(s@.take(s@.len() as int) =~= s@);
        d = d - 1;
    }
    out
}

/// How many matches the top quartile keeps out of `n`.
pub fn quartile_count(n: usize) -> (k: usize)
    requires
        n > 0,
    ensures
        k == quartile_len(n as int),
{
    if n / 4 >= 1 {
        n / 4
    } else {
        1
    }
}

/// Picks the `pick`-th match of the top density quartile of `s` and moves it
/// by `dx` and `dy`; `None` when `s` is empty.
pub fn select_with(s: &Vec<Match>, pick: usize, dx: i64, dy: i64) -> (r: Option<Point>)
    requires
        densities_valid(s@),
        jitter_ok(dx as int),
        jitter_ok(dy as int),
        s@.len() > 0 ==> pick < quartile_len(s@.len() as int),
    ensures
        r == spec_select(s@, pick as int, dx as int, dy as int),
{
    if s.len() == 0 {
        return None;
    }
    let sorted = sort_by_density(s);
    proof {
        lemma_top_quartile(s@);
        lemma_by_density(s@);
        assert(top_quartile(s@)[pick as int] == sorted@[pick as int]);
    }
    let m = sorted[pick];
    let x = clamp_coord_exec(m.x as i64 + dx);
    let y = clamp_coord_exec(m.y as i64 + dy);
    Some(Point { x, y })
}

/// A jitter offset drawn uniformly from `-JITTER..=JITTER`.
pub(crate) fn draw_jitter() -> (d: i64)
    ensures
        jitter_ok(d as int),
{
    draw_between(0, (2 * JITTER) as u64) as i64 - JITTER
}

/// Picks a match uniformly at random from the top density quartile of `s` and
/// jitters it on each axis; `None` exactly when `s` is empty.
pub fn select(s: &Vec<Match>) -> (r: Option<Point>)
    requires
        densities_valid(s@),
    ensures
        r is None <==> s@.len() == 0,
        r matches Some(p) ==> exists|k: int, dx: int, dy: int|
            0 <= k < top_quartile(s@).len() && jitter_ok(dx) && jitter_ok(dy) && p
                == #[trigger] jittered(top_quartile(s@)[k], dx, dy),
{
    if s.len() == 0 {
        return None;
    }
    let k = quartile_count(s.len());
    let pick = draw_between(0, (k - 1) as u64) as usize;
    let dx = draw_jitter();
    let dy = draw_jitter();
    let r = select_with(s, pick, dx, dy);
    proof {
        lemma_top_quartile(s@);
        let p = r.unwrap();
        assert(p == jittered(top_quartile(s@)[pick as int], dx as int, dy as int));
    }
    r
}

} // verus!
