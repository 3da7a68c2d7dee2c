//! Piecewise-linear duty curves over integer millidegrees.
//!
//! An interpolated duty is the exact value on the line between two control
//! points, rounded to the nearest integer, halves away from zero. No
//! intermediate value is rounded.

use vstd::arithmetic::div_mod::{
    lemma_div_is_ordered, lemma_div_pos_is_pos, lemma_fundamental_div_mod_converse,
};
use vstd::arithmetic::mul::lemma_mul_inequality;
use vstd::prelude::*;

verus! {

/// One control point of a curve.
#[derive(Clone, Copy, Debug, PartialEq, Eq, Structural)]
pub struct CurvePoint {
    /// Temperature in millidegrees Celsius.
    pub temp_mc: i64,
    /// Duty in percent at that temperature.
    pub duty: i32,
}

/// `n / d` rounded to the nearest integer, halves upwards, for `n >= 0 < d`.
pub open spec fn half_up_div(n: int, d: int) -> int {
    (2 * n + d) / (2 * d)
}

/// `n / d` rounded to the nearest integer, halves away from zero, for `d > 0`.
pub open spec fn round_div(n: int, d: int) -> int {
    if n >= 0 {
        half_up_div(n, d)
    } else {
        -half_up_div(-n, d)
    }
}

/// The duty on the straight line from `p0` to `p1` at temperature `t`: the
/// exact value `d0 + (t - t0) / (t1 - t0) * (d1 - d0)`, rounded.
pub open spec fn segment_duty(p0: CurvePoint, p1: CurvePoint, t: int) -> int {
    round_div(
        p0.duty * (p1.temp_mc - p0.temp_mc) + (t - p0.temp_mc) * (p1.duty - p0.duty),
        p1.temp_mc - p0.temp_mc,
    )
}

/// Whether `t` lies between control points `i` and `i + 1`, ends included.
pub open spec fn in_segment(c: Seq<CurvePoint>, i: int, t: int) -> bool {
    0 <= i < c.len() - 1 && c[i].temp_mc <= t <= c[i + 1].temp_mc
}

/// The first index at or after `from` whose segment holds `t`, or
/// `c.len() - 1` when there is none.
pub open spec fn first_segment(c: Seq<CurvePoint>, t: int, from: int) -> int
    decreases c.len() - from,
{
    if from < 0 || from >= c.len() - 1 {
        c.len() - 1
    } else if in_segment(c, from, t) {
        from
    } else {
        first_segment(c, t, from + 1)
    }
}

/// The duty that curve `c` assigns to temperature `t`.
///
/// At or below the first point it is the first duty, at or above the last point
/// the last duty; in between, the value on the first segment that holds `t`.
pub open spec fn curve_duty(c: Seq<CurvePoint>, t: int) -> int
    recommends
        c.len() > 0,
{
    if t <= c[0].temp_mc {
        c[0].duty as int
    } else if t >= c.last().temp_mc {
        c.last().duty as int
    } else {
        let i = first_segment(c, t, 0);
        if i < c.len() - 1 {
            segment_duty(c[i], c[i + 1], t)
        } else {
            c.last().duty as int
        }
    }
}

/// Temperatures strictly increase along the curve, which is not empty.
pub open spec fn strictly_rising(c: Seq<CurvePoint>) -> bool {
    &&& c.len() > 0
    &&& forall|i: int, j: int| 0 <= i < j < c.len() ==> c[i].temp_mc < c[j].temp_mc
}

/// Duties never fall along the curve.
pub open spec fn duties_non_decreasing(c: Seq<CurvePoint>) -> bool {
    forall|i: int, j: int| 0 <= i <= j < c.len() ==> c[i].duty <= c[j].duty
}

/// A whole multiple divides back exactly: nothing is lost to rounding.
pub proof fn lemma_half_up_exact(k: int, d: int)
    requires
        d > 0,
    ensures
        half_up_div(k * d, d) == k,
{
    assert(2 * (k * d) + d == k * (2 * d) + d) by (nonlinear_arith);
    lemma_fundamental_div_mod_converse(2 * (k * d) + d, 2 * d, k, d);
}

/// Rounded division keeps the order of its numerators.
pub proof fn lemma_half_up_monotone(n1: int, n2: int, d: int)
    requires
        d > 0,
        n1 <= n2,
    ensures
        half_up_div(n1, d) <= half_up_div(n2, d),
{
    lemma_div_is_ordered(2 * n1 + d, 2 * n2 + d, 2 * d);
}

/// A whole multiple divides back exactly, whatever its sign.
pub proof fn lemma_round_div_exact(m: int, d: int)
    requires
        d > 0,
    ensures
        round_div(m * d, d) == m,
{
    if m >= 0 {
        assert(m * d >= 0) by (nonlinear_arith)
            requires
                m >= 0,
                d > 0,
        ;
        lemma_half_up_exact(m, d);
    } else {
        assert(m * d < 0) by (nonlinear_arith)
            requires
                m < 0,
                d > 0,
        ;
        assert(-(m * d) == (-m) * d) by (nonlinear_arith);
        lemma_half_up_exact(-m, d);
    }
}

/// Rounding keeps the order of the numerators, whatever their signs.
pub proof fn lemma_round_div_monotone(n1: int, n2: int, d: int)
    requires
        d > 0,
        n1 <= n2,
    ensures
        round_div(n1, d) <= round_div(n2, d),
{
    if n1 >= 0 {
        lemma_half_up_monotone(n1, n2, d);
    } else if n2 < 0 {
        lemma_half_up_monotone(-n2, -n1, d);
    } else {
        lemma_div_pos_is_pos(2 * (-n1) + d, 2 * d);
        lemma_div_pos_is_pos(2 * n2 + d, 2 * d);
    }
}

/// The exact numerator of a segment's duty at `offset` from its start lies
/// between those of its two ends.
proof fn lemma_numerator_between(d0: int, d1: int, offset: int, span: int)
    requires
        0 <= offset <= span,
    ensures
        d0 <= d1 ==> d0 * span <= d0 * span + offset * (d1 - d0) <= d1 * span,
        d0 >= d1 ==> d1 * span <= d0 * span + offset * (d1 - d0) <= d0 * span,
{
    let k = d1 - d0;
    assert(d0 * span + span * k == d1 * span) by (nonlinear_arith)
        requires
            k == d1 - d0,
    ;
    if k >= 0 {
        lemma_mul_inequality(0, offset, k);
        lemma_mul_inequality(offset, span, k);
    } else {
        lemma_mul_inequality(0, offset, -k);
        lemma_mul_inequality(offset, span, -k);
        assert(offset * k == -(offset * (-k))) by (nonlinear_arith);
        assert(span * k == -(span * (-k))) by (nonlinear_arith);
    }
}

/// Inside a segment of positive width the duty lies between the duties of its
/// two ends.
pub proof fn lemma_segment_duty_between(p0: CurvePoint, p1: CurvePoint, t: int)
    requires
        p0.temp_mc <= t <= p1.temp_mc,
        p0.temp_mc < p1.temp_mc,
    ensures
        p0.duty <= p1.duty ==> p0.duty <= segment_duty(p0, p1, t) <= p1.duty,
        p0.duty >= p1.duty ==> p1.duty <= segment_duty(p0, p1, t) <= p0.duty,
{
    let d = p1.temp_mc - p0.temp_mc;
    let n = p0.duty * d + (t - p0.temp_mc) * (p1.duty - p0.duty);
    lemma_numerator_between(p0.duty as int, p1.duty as int, t - p0.temp_mc, d);
    lemma_round_div_exact(p0.duty as int, d);
    lemma_round_div_exact(p1.duty as int, d);
    if p0.duty <= p1.duty {
        lemma_round_div_monotone(p0.duty * d, n, d);
        lemma_round_div_monotone(n, p1.duty * d, d);
    } else {
        lemma_round_div_monotone(p1.duty * d, n, d);
        lemma_round_div_monotone(n, p0.duty * d, d);
    }
}

/// Computes the duty at `temp_mc` on the line from `p0` to `p1`.
fn interpolate(p0: CurvePoint, p1: CurvePoint, temp_mc: i64) -> (duty: i32)
    requires
        p0.temp_mc < temp_mc <= p1.temp_mc,
    ensures
        duty == segment_duty(p0, p1, temp_mc as int),
{
    let span: i128 = p1.temp_mc as i128 - p0.temp_mc as i128;
    let offset: i128 = temp_mc as i128 - p0.temp_mc as i128;
    let rise: i128 = p1.duty as i128 - p0.duty as i128;
    let base: i128 = p0.duty as i128;
    proof {
        lemma_segment_duty_between(p0, p1, temp_mc as int);
        assert(-0x1_0000_0000_0000_0000 * 0x1_0000_0000 <= offset * rise
            <= 0x1_0000_0000_0000_0000 * 0x1_0000_0000) by (nonlinear_arith)
            requires
                0 < offset <= 0x1_0000_0000_0000_0000,
                -0x1_0000_0000 <= rise <= 0x1_0000_0000,
        ;
        assert(-0x1_0000_0000_0000_0000 * 0x1_0000_0000 <= base * span
            <= 0x1_0000_0000_0000_0000 * 0x1_0000_0000) by (nonlinear_arith)
            requires
                0 < span <= 0x1_0000_0000_0000_0000,
                -0x1_0000_0000 <= base <= 0x1_0000_0000,
        ;
    }
    let exact: i128 = base * span + offset * rise;
    if exact >= 0 {
        let rounded: i128 = (2 * exact + span) / (2 * span);
        rounded as i32
    } else {
        let rounded: i128 = (2 * (-exact) + span) / (2 * span);
        (-rounded) as i32
    }
}

/// Maps a temperature to a duty by piecewise-linear interpolation over `curve`.
///
/// Control points are scanned from the start and the first segment that holds
/// the temperature decides. Values between two points are rounded to the
/// nearest percent, halves away from zero.
pub fn lerp_curve(temp_mc: i64, curve: &Vec<CurvePoint>) -> (duty: i32)
    requires
        curve@.len() > 0,
    ensures
        duty == curve_duty(curve@, temp_mc as int),
        temp_mc <= curve@[0].temp_mc ==> duty == curve@[0].duty,
        temp_mc > curve@[0].temp_mc && temp_mc >= curve@.last().temp_mc ==> duty
            == curve@.last().duty,
{
    let n = curve.len();
    if temp_mc <= curve[0].temp_mc {
        return curve[0].duty;
    }
    if temp_mc >= curve[n - 1].temp_mc {
        return curve[n - 1].duty;
    }
    let mut i: usize = 0;
    while i + 1 < n
        invariant
            n == curve@.len(),
            i < n,
            curve@[0].temp_mc < temp_mc < curve@.last().temp_mc,
            forall|j: int| 0 <= j <= i ==> curve@[j].temp_mc < temp_mc,
            first_segment(curve@, temp_mc as int, 0) == first_segment(
                curve@,
                temp_mc as int,
                i as int,
            ),
        decreases n - i,
    {
        let p0 = curve[i];
        let p1 = curve[i + 1];
        if temp_mc >= p0.temp_mc && temp_mc <= p1.temp_mc {
            return interpolate(p0, p1, temp_mc);
        }
        i += 1;
    }
    curve[n - 1].duty
}

/// Where every point up to `from` lies below `t` and the last point does not,
/// the scan from `from` finds a segment that holds `t`, and no earlier segment
/// does: the start of the one found lies below `t`, as do all points before
/// it, and its end does not.
pub proof fn lemma_first_segment(c: Seq<CurvePoint>, t: int, from: int)
    requires
        0 <= from < c.len(),
        forall|j: int| 0 <= j <= from ==> c[j].temp_mc < t,
        t <= c.last().temp_mc,
    ensures
        from <= first_segment(c, t, from) < c.len() - 1,
        in_segment(c, first_segment(c, t, from), t),
        forall|j: int| 0 <= j <= first_segment(c, t, from) ==> c[j].temp_mc < t,
        forall|j: int| 0 <= j < first_segment(c, t, from) ==> !in_segment(c, j, t),
    decreases c.len() - from,
{
    if from < c.len() - 1 && !in_segment(c, from, t) {
        lemma_first_segment(c, t, from + 1);
    }
}

/// On a rising curve, a temperature strictly between the first and the last
/// point lies in exactly one segment after its start, and that one decides.
pub proof fn lemma_segment_of(c: Seq<CurvePoint>, t: int, i: int)
    requires
        strictly_rising(c),
        0 <= i < c.len() - 1,
        c[i].temp_mc < t <= c[i + 1].temp_mc,
        t < c.last().temp_mc,
    ensures
        curve_duty(c, t) == segment_duty(c[i], c[i + 1], t),
{
    lemma_first_segment(c, t, 0);
    let k = first_segment(c, t, 0);
    if k < i {
        assert(c[k + 1].temp_mc <= c[i].temp_mc);
    } else if k > i {
        assert(c[i + 1].temp_mc <= c[k].temp_mc);
    }
}

/// On a rising curve, every temperature at or below the first point gets the
/// first duty, and every temperature at or above the last point the last duty.
pub proof fn lemma_curve_duty_at_ends(c: Seq<CurvePoint>, t: int)
    requires
        strictly_rising(c),
    ensures
        t <= c[0].temp_mc ==> curve_duty(c, t) == c[0].duty,
        t >= c.last().temp_mc ==> curve_duty(c, t) == c.last().duty,
{
    if t >= c.last().temp_mc && t <= c[0].temp_mc {
        if c.len() > 1 {
            assert(c[0].temp_mc < c[c.len() - 1].temp_mc);
        }
    }
}

/// On a rising curve, the duty at a control point's own temperature is that
/// point's duty: nothing is lost to rounding.
pub proof fn lemma_curve_duty_at_point(c: Seq<CurvePoint>, i: int)
    requires
        strictly_rising(c),
        0 <= i < c.len(),
    ensures
        curve_duty(c, c[i].temp_mc as int) == c[i].duty,
{
    let t = c[i].temp_mc as int;
    if i == 0 {
    } else if i == c.len() - 1 {
        assert(c[0].temp_mc < c[i].temp_mc);
    } else {
        assert(c[0].temp_mc < c[i].temp_mc);
        assert(c[i].temp_mc < c[c.len() - 1].temp_mc);
        assert(c[i - 1].temp_mc < c[i].temp_mc);
        lemma_segment_of(c, t, i - 1);
        let d = c[i].temp_mc - c[i - 1].temp_mc;
        let d0 = c[i - 1].duty as int;
        let d1 = c[i].duty as int;
        assert(d0 * d + d * (d1 - d0) == d1 * d) by (nonlinear_arith);
        lemma_round_div_exact(d1, d);
    }
}

/// The place of a temperature on a rising curve: at or below the first point,
/// at or above the last, or inside the segment that the result names.
proof fn lemma_locate(c: Seq<CurvePoint>, t: int) -> (i: int)
    requires
        strictly_rising(c),
        duties_non_decreasing(c),
        c[0].temp_mc < t < c.last().temp_mc,
    ensures
        0 <= i < c.len() - 1,
        c[i].temp_mc < t <= c[i + 1].temp_mc,
        curve_duty(c, t) == segment_duty(c[i], c[i + 1], t),
        c[i].duty <= curve_duty(c, t) <= c[i + 1].duty,
{
    lemma_first_segment(c, t, 0);
    let i = first_segment(c, t, 0);
    assert(c[i].temp_mc < c[i + 1].temp_mc);
    assert(c[i].duty <= c[i + 1].duty);
    lemma_segment_duty_between(c[i], c[i + 1], t);
    i
}

/// On a rising curve whose duties never fall, a higher temperature never gets
/// a lower duty.
pub proof fn lemma_curve_duty_monotone(c: Seq<CurvePoint>, t1: int, t2: int)
    requires
        strictly_rising(c),
        duties_non_decreasing(c),
        t1 <= t2,
    ensures
        curve_duty(c, t1) <= curve_duty(c, t2),
{
    let last = c.len() - 1;
    assert(c[0].duty <= c[last].duty);
    lemma_curve_duty_at_ends(c, t1);
    lemma_curve_duty_at_ends(c, t2);
    if t1 <= c[0].temp_mc {
        if c[0].temp_mc < t2 < c[last].temp_mc {
            let i2 = lemma_locate(c, t2);
            assert(c[0].duty <= c[i2].duty);
        }
    } else if t1 >= c[last].temp_mc {
    } else {
        let i1 = lemma_locate(c, t1);
        if t2 >= c[last].temp_mc {
            assert(c[i1 + 1].duty <= c[last].duty);
        } else {
            let i2 = lemma_locate(c, t2);
            if i1 < i2 {
                assert(c[i1 + 1].duty <= c[i2].duty);
            } else if i1 > i2 {
                assert(c[i2 + 1].temp_mc <= c[i1].temp_mc);
            } else {
                let d = c[i1 + 1].temp_mc - c[i1].temp_mc;
                let k = c[i1 + 1].duty - c[i1].duty;
                let a1 = t1 - c[i1].temp_mc;
                let a2 = t2 - c[i1].temp_mc;
                lemma_mul_inequality(a1, a2, k);
                lemma_round_div_monotone(c[i1].duty * d + a1 * k, c[i1].duty * d + a2 * k, d);
            }
        }
    }
}

} // verus!
