//! The gesture engine: percentage parsing and percentage-to-pixel mapping.
//!
//! A swipe position is written in a flow document as a textual pair such as
//! `"50, 20"`: two comma-separated numbers, each an integer count of percent
//! with an optional fraction of at most two digits (hundredths of a percent),
//! optionally followed by `%` signs and surrounded by spaces.  Both numbers
//! must lie in `[0, 100]`; anything else is rejected before any backend call.
//!
//! A percentage is mapped to device pixels by
//! `pixel = round(dimension * percentage / 100)`, computed here exactly in
//! hundredths of a percent.

use vstd::prelude::*;

use crate::flow::{ScreenPercentages, SwipeOptions};

verus! {

/// The device viewport, captured once at session start.
#[derive(Debug, Clone, Copy, PartialEq)]
pub struct Viewport {
    pub width: u64,
    pub height: u64,
}

/// Both viewport dimensions fit in 32 bits, as the backend reports them.
pub open spec fn wf_viewport(v: Viewport) -> bool {
    v.width <= u32::MAX && v.height <= u32::MAX
}

/// A decimal digit.
pub open spec fn is_digit(c: char) -> bool {
    48 <= c as u32 && c as u32 <= 57
}

/// The value of a decimal digit.
pub open spec fn digit_val(c: char) -> nat {
    (c as u32 - 48) as nat
}

/// The text with all trailing `'%'` characters removed.
pub open spec fn strip_pct(s: Seq<char>) -> Seq<char>
    decreases s.len(),
{
    if s.len() > 0 && s.last() == '%' {
        strip_pct(s.drop_last())
    } else {
        s
    }
}

/// The text with all trailing spaces removed.
pub open spec fn strip_sp_end(s: Seq<char>) -> Seq<char>
    decreases s.len(),
{
    if s.len() > 0 && s.last() == ' ' {
        strip_sp_end(s.drop_last())
    } else {
        s
    }
}

/// The text with all leading spaces removed.
pub open spec fn strip_sp_start(s: Seq<char>) -> Seq<char>
    decreases s.len(),
{
    if s.len() > 0 && s[0] == ' ' {
        strip_sp_start(s.drop_first())
    } else {
        s
    }
}

/// The index of the first non-digit at or after `x`.
pub open spec fn run_end(t: Seq<char>, x: int) -> int
    decreases t.len() - x,
{
    if x < 0 || x >= t.len() || !is_digit(t[x]) {
        x
    } else {
        run_end(t, x + 1)
    }
}

/// The value of the digits `t[0..i]`.
pub open spec fn digits_prefix_val(t: Seq<char>, i: int) -> nat
    decreases i,
{
    if i <= 0 {
        0
    } else {
        digits_prefix_val(t, i - 1) * 10 + digit_val(t[i - 1])
    }
}

/// The value of one percentage text, in hundredths of a percent, or nothing
/// when the text is not a number of the accepted shape.  The shape, after
/// stripping trailing `'%'` signs and surrounding spaces: one or more digits,
/// optionally followed by `'.'` and at most two more digits.
pub open spec fn spec_percent_hundredths(s: Seq<char>) -> Option<nat> {
    let t = strip_sp_start(strip_sp_end(strip_pct(s)));
    let k = run_end(t, 0);
    if k == 0 {
        None
    } else if k == t.len() {
        Some(digits_prefix_val(t, k) * 100)
    } else if t[k] == '.' {
        let f = t.len() - k - 1;
        if f == 0 {
            Some(digits_prefix_val(t, k) * 100)
        } else if f == 1 && is_digit(t[k + 1]) {
            Some(digits_prefix_val(t, k) * 100 + digit_val(t[k + 1]) * 10)
        } else if f == 2 && is_digit(t[k + 1]) && is_digit(t[k + 2]) {
            Some(digits_prefix_val(t, k) * 100 + digit_val(t[k + 1]) * 10 + digit_val(t[k + 2]))
        } else {
            None
        }
    } else {
        None
    }
}

/// The index of the first `','` at or after `x`.
pub open spec fn first_comma_from(s: Seq<char>, x: int) -> Option<int>
    decreases s.len() - x,
{
    if x < 0 || x >= s.len() {
        None
    } else if s[x] == ',' {
        Some(x)
    } else {
        first_comma_from(s, x + 1)
    }
}

/// The two percentage values of a swipe position text: the text split at its
/// single `','`, each side read as a percentage.  Nothing when there is no
/// comma, more than one, or either side is not a number.
pub open spec fn spec_swipe_pair(s: Seq<char>) -> Option<(nat, nat)> {
    match first_comma_from(s, 0) {
        None => None,
        Some(c) => {
            let left = s.subrange(0, c);
            let right = s.subrange(c + 1, s.len() as int);
            if first_comma_from(right, 0) is Some {
                None
            } else {
                match (spec_percent_hundredths(left), spec_percent_hundredths(right)) {
                    (Some(a), Some(b)) => Some((a, b)),
                    _ => None,
                }
            }
        },
    }
}

/// A swipe position is accepted exactly when both its numbers parse and lie
/// in `[0, 100]` percent.
pub open spec fn spec_swipe_pair_valid(s: Seq<char>) -> bool {
    spec_swipe_pair(s) matches Some(p) && p.0 <= 10000 && p.1 <= 10000
}

/// Saturation of a digit-run value at 101, enough to decide the range check.
spec fn sat101(x: nat) -> nat {
    if x <= 100 {
        x
    } else {
        101
    }
}

/// Reads one percentage from `part[from..to]`, in hundredths of a percent.
///
/// Returns the value exactly when the text parses and lies in `[0, 100]`
/// percent.
fn percent_hundredths_range(part: &str, from: usize, to: usize) -> (r: Option<u64>)
    requires
        from <= to <= part@.len(),
    ensures
        match r {
            Some(v) => spec_percent_hundredths(part@.subrange(from as int, to as int)) == Some(
                v as nat,
            ) && v <= 10000,
            None => !(spec_percent_hundredths(part@.subrange(from as int, to as int)) matches Some(
                v,
            ) && v <= 10000),
        },
{
    let ghost s = part@.subrange(from as int, to as int);
    // Strip trailing '%' signs.
    let mut j: usize = to;
    while j > from && part.get_char(j - 1) == '%'
        invariant
            from <= j <= to <= part@.len(),
            strip_pct(s) == strip_pct(part@.subrange(from as int, j as int)),
        decreases j,
    {
        proof {
            let pre = part@.subrange(from as int, j as int);
            assert(pre.last() == part@[j - 1]);
            assert(pre.drop_last() =~= part@.subrange(from as int, j - 1));
        }
        j = j - 1;
    }
    proof {
        let pre = part@.subrange(from as int, j as int);
        if j > from {
            assert(pre.last() == part@[j - 1]);
        }
        assert(strip_pct(s) == pre);
    }
    // Strip trailing spaces.
    let ghost s1 = strip_pct(s);
    let mut j2: usize = j;
    while j2 > from && part.get_char(j2 - 1) == ' '
        invariant
            from <= j2 <= j <= part@.len(),
            s1 == part@.subrange(from as int, j as int),
            strip_sp_end(s1) == strip_sp_end(part@.subrange(from as int, j2 as int)),
        decreases j2,
    {
        proof {
            let pre = part@.subrange(from as int, j2 as int);
            assert(pre.last() == part@[j2 - 1]);
            assert(pre.drop_last() =~= part@.subrange(from as int, j2 - 1));
        }
        j2 = j2 - 1;
    }
    proof {
        let pre = part@.subrange(from as int, j2 as int);
        if j2 > from {
            assert(pre.last() == part@[j2 - 1]);
        }
        assert(strip_sp_end(s1) == pre);
    }
    // Strip leading spaces.
    let ghost s2 = strip_sp_end(s1);
    let mut i0: usize = from;
    while i0 < j2 && part.get_char(i0) == ' '
        invariant
            from <= i0 <= j2 <= part@.len(),
            s2 == part@.subrange(from as int, j2 as int),
            strip_sp_start(s2) == strip_sp_start(part@.subrange(i0 as int, j2 as int)),
        decreases j2 - i0,
    {
        proof {
            let pre = part@.subrange(i0 as int, j2 as int);
            assert(pre[0] == part@[i0 as int]);
            assert(pre.drop_first() =~= part@.subrange(i0 + 1, j2 as int));
        }
        i0 = i0 + 1;
    }
    let ghost t = strip_sp_start(s2);
    proof {
        let pre = part@.subrange(i0 as int, j2 as int);
        if i0 < j2 {
            assert(pre[0] == part@[i0 as int]);
        }
        assert(t == pre);
    }
    // Parse the integer digit run, saturating above 100 percent.
    let mut i: usize = i0;
    let mut w: u64 = 0;
    let mut done = false;
    while i < j2 && !done
        invariant
            i0 <= i <= j2 <= part@.len(),
            t == part@.subrange(i0 as int, j2 as int),
            run_end(t, 0) == run_end(t, i - i0),
            w == sat101(digits_prefix_val(t, i - i0)),
            done ==> i < j2 && !is_digit(t[i - i0]),
        decreases j2 - i, 1int - if done { 1int } else { 0int },
    {
        let c = part.get_char(i);
        proof {
            assert(t[i - i0] == part@[i as int]);
        }
        let u = c as u32;
        if 48 <= u && u <= 57 {
            let d = (u - 48) as u64;
            let v = w * 10 + d;
            w = if v > 100 {
                101
            } else {
                v
            };
            i = i + 1;
        } else {
            done = true;
        }
    }
    proof {
        if i < j2 {
            assert(t[i - i0] == part@[i as int]);
        }
        assert(run_end(t, i - i0) == i - i0);
    }
    let k = i - i0;
    if k == 0 {
        return None;
    }
    if w > 100 {
        // The integer part alone exceeds 100 percent.
        return None;
    }
    proof {
        assert(digits_prefix_val(t, k as int) == w);
    }
    if i == j2 {
        return Some(w * 100);
    }
    let dot = part.get_char(i);
    proof {
        assert(t[i - i0] == part@[i as int]);
    }
    if dot != '.' {
        return None;
    }
    let f = j2 - i - 1;
    if f == 0 {
        return Some(w * 100);
    }
    let c1 = part.get_char(i + 1);
    proof {
        assert(t[i + 1 - i0] == part@[i + 1]);
    }
    let u1 = c1 as u32;
    if !(48 <= u1 && u1 <= 57) {
        return None;
    }
    let d1 = (u1 - 48) as u64;
    if f == 1 {
        let v = w * 100 + d1 * 10;
        if v > 10000 {
            return None;
        }
        return Some(v);
    }
    if f > 2 {
        return None;
    }
    let c2 = part.get_char(i + 2);
    proof {
        assert(t[i + 2 - i0] == part@[i + 2]);
    }
    let u2 = c2 as u32;
    if !(48 <= u2 && u2 <= 57) {
        return None;
    }
    let d2 = (u2 - 48) as u64;
    let v = w * 100 + d1 * 10 + d2;
    if v > 10000 {
        return None;
    }
    Some(v)
}

impl ScreenPercentages {
    /// Reads the pair of percentages, each in hundredths of a percent.
    ///
    /// Returns the pair exactly when the text holds two comma-separated
    /// numbers, both in `[0, 100]` percent; anything else is rejected.
    pub fn to_hundredths(&self) -> (r: Option<(u64, u64)>)
        ensures
            match r {
                Some(p) => spec_swipe_pair(self.0@) == Some((p.0 as nat, p.1 as nat)) && p.0
                    <= 10000 && p.1 <= 10000,
                None => !spec_swipe_pair_valid(self.0@),
            },
    {
        let s = self.0.as_str();
        let n = s.unicode_len();
        // Find the first comma.
        let mut c: usize = 0;
        let mut found = false;
        while c < n && !found
            invariant
                0 <= c <= n,
                n == s@.len(),
                s@ == self.0@,
                !found ==> first_comma_from(s@, 0) == first_comma_from(s@, c as int),
                found ==> first_comma_from(s@, 0) == Some(c as int) && c < n,
            decreases n - c, 1int - if found { 1int } else { 0int },
    {
            if s.get_char(c) == ',' {
                found = true;
            } else {
                c = c + 1;
            }
        }
        if !found {
            return None;
        }
        // The right side must hold no further comma.
        let ghost right = s@.subrange(c + 1, n as int);
        let mut m: usize = c + 1;
        while m < n
            invariant
                c + 1 <= m <= n,
                n == s@.len(),
                s@ == self.0@,
                first_comma_from(s@, 0) == Some(c as int),
                right == s@.subrange(c + 1, n as int),
                first_comma_from(right, 0) == first_comma_from(right, m - (c + 1)),
                forall|x: int| 0 <= x < m - (c + 1) ==> right[x] != ',',
            decreases n - m,
        {
            proof {
                assert(right[m - (c + 1)] == s@[m as int]);
            }
            if s.get_char(m) == ',' {
                return None;
            }
            m = m + 1;
        }
        proof {
            assert(first_comma_from(right, m - (c + 1)) is None);
        }
        let a = percent_hundredths_range(s, 0, c);
        let b = percent_hundredths_range(s, c + 1, n);
        match (a, b) {
            (Some(x), Some(y)) => Some((x, y)),
            _ => None,
        }
    }
}

/// Rounded percentage-to-pixel mapping: `round(dim * p / 100)` with `p` in
/// hundredths of a percent.
pub open spec fn spec_pixel(dim: nat, hundredths: nat) -> nat {
    (dim * hundredths + 5000) / 10000
}

/// Maps a percentage of a viewport dimension to a pixel coordinate.
pub fn percent_to_pixel(dim: u64, hundredths: u64) -> (r: u64)
    requires
        dim <= u32::MAX,
        hundredths <= 10000,
    ensures
        r == spec_pixel(dim as nat, hundredths as nat),
        r <= dim,
{
    proof {
        assert(dim * hundredths <= 0xffff_ffff * 10000) by (nonlinear_arith)
            requires
                dim <= 0xffff_ffff,
                hundredths <= 10000,
        ;
    }
    let r = (dim * hundredths + 5000) / 10000;
    proof {
        assert(dim * hundredths + 5000 < (dim + 1) * 10000) by (nonlinear_arith)
            requires
                hundredths <= 10000,
                dim >= 0,
        ;
        assert((dim * hundredths + 5000) / 10000 <= dim);
    }
    r
}

/// The pixel start and end points of a swipe.
#[derive(Debug, Clone, Copy, PartialEq)]
pub struct SwipePixels {
    pub from_x: u64,
    pub from_y: u64,
    pub to_x: u64,
    pub to_y: u64,
}

/// The pixel points a valid swipe maps to.
pub open spec fn spec_swipe_pixels(
    start: (nat, nat),
    end: (nat, nat),
    v: Viewport,
) -> SpecSwipePixels {
    SpecSwipePixels {
        from_x: spec_pixel(v.width as nat, start.0),
        from_y: spec_pixel(v.height as nat, start.1),
        to_x: spec_pixel(v.width as nat, end.0),
        to_y: spec_pixel(v.height as nat, end.1),
    }
}

/// The mathematical shape of [`SwipePixels`].
#[verifier::ext_equal]
pub ghost struct SpecSwipePixels {
    pub from_x: nat,
    pub from_y: nat,
    pub to_x: nat,
    pub to_y: nat,
}

impl View for SwipePixels {
    type V = SpecSwipePixels;

    open spec fn view(&self) -> SpecSwipePixels {
        SpecSwipePixels {
            from_x: self.from_x as nat,
            from_y: self.from_y as nat,
            to_x: self.to_x as nat,
            to_y: self.to_y as nat,
        }
    }
}

/// Validates a swipe's percentages and maps them to pixels.
///
/// Returns the pixel gesture exactly when both positions are accepted pairs
/// of in-range percentages; the swipe never leaves the viewport.
pub fn swipe_pixels(opts: &SwipeOptions, v: Viewport) -> (r: Option<SwipePixels>)
    requires
        wf_viewport(v),
    ensures
        match r {
            Some(px) => {
                &&& spec_swipe_pair_valid(opts.start.0@)
                &&& spec_swipe_pair_valid(opts.end.0@)
                &&& px@ == spec_swipe_pixels(
                    spec_swipe_pair(opts.start.0@).unwrap(),
                    spec_swipe_pair(opts.end.0@).unwrap(),
                    v,
                )
                &&& px.from_x <= v.width && px.to_x <= v.width
                &&& px.from_y <= v.height && px.to_y <= v.height
            },
            None => !(spec_swipe_pair_valid(opts.start.0@) && spec_swipe_pair_valid(opts.end.0@)),
        },
{
    let start = match opts.start.to_hundredths() {
        Some(p) => p,
        None => {
            return None;
        },
    };
    let end = match opts.end.to_hundredths() {
        Some(p) => p,
        None => {
            return None;
        },
    };
    let px = SwipePixels {
        from_x: percent_to_pixel(v.width, start.0),
        from_y: percent_to_pixel(v.height, start.1),
        to_x: percent_to_pixel(v.width, end.0),
        to_y: percent_to_pixel(v.height, end.1),
    };
    proof {
        assert(px@ =~= spec_swipe_pixels(
            spec_swipe_pair(opts.start.0@).unwrap(),
            spec_swipe_pair(opts.end.0@).unwrap(),
            v,
        ));
    }
    Some(px)
}

/// The horizontal centre of the viewport, where scroll swipes run.
pub fn scroll_center_x(v: Viewport) -> (r: u64)
    ensures
        r == v.width / 2,
{
    v.width / 2
}

/// The lower start line of a scroll swipe: 80 percent of the height.
pub fn scroll_bottom_y(v: Viewport) -> (r: u64)
    requires
        wf_viewport(v),
    ensures
        r == v.height * 8 / 10,
{
    v.height * 8 / 10
}

/// The upper end line of a scroll swipe: 20 percent of the height.
pub fn scroll_top_y(v: Viewport) -> (r: u64)
    requires
        wf_viewport(v),
    ensures
        r == v.height * 2 / 10,
{
    v.height * 2 / 10
}

} // verus!
