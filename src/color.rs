use vstd::prelude::*;

verus! {

/// The most selective tolerance that still absorbs capture and compression noise.
pub const DEFAULT_TOLERANCE: u8 = 3;

/// True when two channel values differ by at most `tolerance`.
pub open spec fn channel_within(a: u8, b: u8, tolerance: u8) -> bool {
    a - b <= tolerance && b - a <= tolerance
}

/// Two colors match when each of their first three channels lies within
/// `tolerance` of the other's; the fourth channel (alpha) is not compared.
pub open spec fn spec_color_matches(a: (u8, u8, u8, u8), b: (u8, u8, u8, u8), tolerance: u8) -> bool {
    &&& channel_within(a.0, b.0, tolerance)
    &&& channel_within(a.1, b.1, tolerance)
    &&& channel_within(a.2, b.2, tolerance)
}

fn within(a: u8, b: u8, tolerance: u8) -> (r: bool)
    ensures
        r == channel_within(a, b, tolerance),
{
    if a >= b {
        a - b <= tolerance
    } else {
        b - a <= tolerance
    }
}

/// Compares two colors channel by channel within `tolerance`.
pub fn color_matches(a: (u8, u8, u8, u8), b: (u8, u8, u8, u8), tolerance: u8) -> (r: bool)
    ensures
        r == spec_color_matches(a, b, tolerance),
{
    within(a.0, b.0, tolerance) && within(a.1, b.1, tolerance) && within(a.2, b.2, tolerance)
}

/// Two colors that differ by more than `tolerance` in some compared channel never match.
pub proof fn lemma_distant_colors_never_match(a: (u8, u8, u8, u8), b: (u8, u8, u8, u8), tolerance: u8)
    requires
        a.0 - b.0 > tolerance || b.0 - a.0 > tolerance || a.1 - b.1 > tolerance || b.1 - a.1
            > tolerance || a.2 - b.2 > tolerance || b.2 - a.2 > tolerance,
    ensures
        !spec_color_matches(a, b, tolerance),
{
}

/// A color always matches itself, whatever the tolerance.
pub proof fn lemma_color_matches_itself(a: (u8, u8, u8, u8), tolerance: u8)
    ensures
        spec_color_matches(a, a, tolerance),
{
}

/// A color to look for on screen, with the tolerance used to compare pixels against it.
#[derive(Clone, Copy, Debug)]
pub struct ColorSignature {
    /// Red, green and blue, in that order.
    pub color: [u8; 3],
    pub tolerance: u8,
}

impl ColorSignature {
    pub open spec fn spec_new(color: [u8; 3]) -> ColorSignature {
        ColorSignature { color, tolerance: DEFAULT_TOLERANCE }
    }

    /// A signature for `color` with the default tolerance.
    pub fn new(color: [u8; 3]) -> (r: ColorSignature)
        ensures
            r == ColorSignature::spec_new(color),
    {
        ColorSignature { color, tolerance: DEFAULT_TOLERANCE }
    }

    /// The signature as a color tuple in red, green, blue, alpha order.
    pub open spec fn target(&self) -> (u8, u8, u8, u8) {
        (self.color[0], self.color[1], self.color[2], 0u8)
    }

    /// Whether a pixel given as red, green, blue and alpha matches the signature.
    pub open spec fn spec_matches_rgba(&self, r: u8, g: u8, b: u8, a: u8) -> bool {
        spec_color_matches((r, g, b, a), self.target(), self.tolerance)
    }

    pub fn matches_rgba(&self, r: u8, g: u8, b: u8, a: u8) -> (res: bool)
        ensures
            res == self.spec_matches_rgba(r, g, b, a),
    {
        let target = (self.color[0], self.color[1], self.color[2], 0u8);
        color_matches((r, g, b, a), target, self.tolerance)
    }
}

} // verus!
