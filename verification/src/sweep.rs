//! Swept movement resolution: "move until touching".
//!
//! For a mover carrying a candidate per-tick displacement and a stationary
//! obstacle, each axis yields the two times at which the mover's edge would
//! exactly touch the obstacle's edge (an entry/exit interval, as fractions of
//! the motion).  The binding axis is the one whose entry time falls strictly
//! inside the other axis's interval; its motion is clamped to the entry
//! contact, while the other axis moves to its exit fraction.  An axis with a
//! zero displacement component contributes no motion of its own and leaves
//! the other axis as the binding constraint.
//!
//! All times are exact rationals compared by cross-multiplication, so the
//! computation never divides.  Contact offsets are halves of integers; when
//! an offset is not integral it rounds to the non-overlapping side, so a
//! clamped axis never ends up penetrating.

use vstd::prelude::*;

verus! {

use crate::COORD_LIMIT;
use crate::geometry::Aabb;
use crate::geometry::overlaps_shifted;

/// Floor of `v / 2` over the mathematical integers.
pub open spec fn floor_half(v: int) -> int {
    v / 2
}

/// Ceiling of `v / 2` over the mathematical integers.
pub open spec fn ceil_half(v: int) -> int {
    -((-v) / 2)
}

/// Doubled centre distance from mover to obstacle along one axis.
pub open spec fn dist2(mpos: int, opos: int) -> int {
    2 * (opos - mpos)
}

/// Doubled combined radius along one axis: the sum of the full extents.
pub open spec fn radius2(mext: int, oext: int) -> int {
    mext + oext
}

/// Doubled numerator of the axis's entry time, normalised so that the
/// denominator `den(delta)` is positive.  Meaningful only for `delta != 0`.
pub open spec fn entry_num2(mpos: int, mext: int, opos: int, oext: int, delta: int) -> int {
    if delta > 0 {
        dist2(mpos, opos) - radius2(mext, oext)
    } else {
        -dist2(mpos, opos) - radius2(mext, oext)
    }
}

/// Doubled numerator of the axis's exit time, same normalisation.
pub open spec fn exit_num2(mpos: int, mext: int, opos: int, oext: int, delta: int) -> int {
    if delta > 0 {
        dist2(mpos, opos) + radius2(mext, oext)
    } else {
        -dist2(mpos, opos) + radius2(mext, oext)
    }
}

/// Positive denominator shared by an axis's entry and exit times.
pub open spec fn den(delta: int) -> int {
    if delta > 0 {
        delta
    } else {
        -delta
    }
}

/// Whether the time `na / da` lies strictly inside the interval
/// `(nb / db, xb / db)`; `da` and `db` are positive, so the comparison
/// cross-multiplies.
pub open spec fn strictly_within(na: int, da: int, nb: int, xb: int, db: int) -> bool {
    nb * da < na * db && na * db < xb * da
}

/// The mover's clamped displacement along its binding axis: to the entry
/// contact, rounded away from the obstacle when the exact offset is not an
/// integer.
pub open spec fn entry_disp(mpos: int, mext: int, opos: int, oext: int, delta: int) -> int {
    if delta > 0 {
        floor_half(dist2(mpos, opos) - radius2(mext, oext))
    } else {
        ceil_half(dist2(mpos, opos) + radius2(mext, oext))
    }
}

/// The mover's displacement along the non-binding axis: to the exit contact,
/// rounded past it; an axis without motion stays put.
pub open spec fn exit_disp(mpos: int, mext: int, opos: int, oext: int, delta: int) -> int {
    if delta == 0 {
        0
    } else if delta > 0 {
        ceil_half(dist2(mpos, opos) + radius2(mext, oext))
    } else {
        floor_half(dist2(mpos, opos) - radius2(mext, oext))
    }
}

/// Whether the horizontal axis is the binding constraint for this pair.
/// A zero vertical component never constrains the horizontal motion.
pub open spec fn x_binds(m: Aabb, o: Aabb, dx: int, dy: int) -> bool {
    dx != 0 && (dy == 0 || strictly_within(
        entry_num2(m.x as int, m.w as int, o.x as int, o.w as int, dx),
        den(dx),
        entry_num2(m.y as int, m.h as int, o.y as int, o.h as int, dy),
        exit_num2(m.y as int, m.h as int, o.y as int, o.h as int, dy),
        den(dy),
    ))
}

/// Whether the vertical axis is the binding constraint for this pair.
pub open spec fn y_binds(m: Aabb, o: Aabb, dx: int, dy: int) -> bool {
    dy != 0 && (dx == 0 || strictly_within(
        entry_num2(m.y as int, m.h as int, o.y as int, o.h as int, dy),
        den(dy),
        entry_num2(m.x as int, m.w as int, o.x as int, o.w as int, dx),
        exit_num2(m.x as int, m.w as int, o.x as int, o.w as int, dx),
        den(dx),
    ))
}

/// Resolution of one (mover, obstacle) pair.  `None` means the pair imposes
/// no clamp and the candidate displacement stands; `Some` carries the
/// clamped displacement.  A pair is only consulted when the moved box would
/// overlap the obstacle.
pub open spec fn resolve_pair_spec(m: Aabb, o: Aabb, dx: int, dy: int) -> Option<(int, int)> {
    if !overlaps_shifted(m, o, dx, dy) {
        None
    } else if x_binds(m, o, dx, dy) {
        Some(
            (
                entry_disp(m.x as int, m.w as int, o.x as int, o.w as int, dx),
                exit_disp(m.y as int, m.h as int, o.y as int, o.h as int, dy),
            ),
        )
    } else if y_binds(m, o, dx, dy) {
        Some(
            (
                exit_disp(m.x as int, m.w as int, o.x as int, o.w as int, dx),
                entry_disp(m.y as int, m.h as int, o.y as int, o.h as int, dy),
            ),
        )
    } else {
        None
    }
}

/// Law: a clamped mover never penetrates the obstacle it was clamped
/// against.  Whenever this pair's resolution produced a clamp, the mover's
/// box displaced by the clamped amount does not overlap the obstacle's box
/// (it touches at most along the boundary).
pub proof fn lemma_resolved_no_overlap(m: Aabb, o: Aabb, dx: int, dy: int)
    requires
        resolve_pair_spec(m, o, dx, dy) is Some,
    ensures
        !overlaps_shifted(
            m,
            o,
            resolve_pair_spec(m, o, dx, dy).unwrap().0,
            resolve_pair_spec(m, o, dx, dy).unwrap().1,
        ),
{
    let (rx, ry) = resolve_pair_spec(m, o, dx, dy).unwrap();
    if x_binds(m, o, dx, dy) {
        let v_near = dist2(m.x as int, o.x as int) - radius2(m.w as int, o.w as int);
        let v_far = dist2(m.x as int, o.x as int) + radius2(m.w as int, o.w as int);
        if dx > 0 {
            assert(2 * (v_near / 2) <= v_near);
        } else {
            assert(2 * ((-v_far) / 2) <= -v_far);
        }
    } else {
        let v_near = dist2(m.y as int, o.y as int) - radius2(m.h as int, o.h as int);
        let v_far = dist2(m.y as int, o.y as int) + radius2(m.h as int, o.h as int);
        if dy > 0 {
            assert(2 * (v_near / 2) <= v_near);
        } else {
            assert(2 * ((-v_far) / 2) <= -v_far);
        }
    }
}

/// Law: against a single obstacle, a moving mover whose displaced box would
/// overlap the obstacle is always clamped, except at an exact corner tie
/// (both axes moving with equal entry times), which resolution deliberately
/// leaves alone.
pub proof fn lemma_clamp_triggers(m: Aabb, o: Aabb, dx: int, dy: int)
    requires
        overlaps_shifted(m, o, dx, dy),
        dx != 0 || dy != 0,
        dx != 0 && dy != 0 ==> entry_num2(m.x as int, m.w as int, o.x as int, o.w as int, dx)
            * den(dy) != entry_num2(m.y as int, m.h as int, o.y as int, o.h as int, dy) * den(dx),
    ensures
        resolve_pair_spec(m, o, dx, dy) is Some,
{
    if dx != 0 && dy != 0 {
        let en_x = entry_num2(m.x as int, m.w as int, o.x as int, o.w as int, dx);
        let ex_x = exit_num2(m.x as int, m.w as int, o.x as int, o.w as int, dx);
        let den_x = den(dx);
        let en_y = entry_num2(m.y as int, m.h as int, o.y as int, o.h as int, dy);
        let ex_y = exit_num2(m.y as int, m.h as int, o.y as int, o.h as int, dy);
        let den_y = den(dy);
        assert(en_x < 2 * den_x && 2 * den_x < ex_x);
        assert(en_y < 2 * den_y && 2 * den_y < ex_y);
        if en_y * den_x < en_x * den_y {
            assert(en_x * den_y < 2 * den_x * den_y) by (nonlinear_arith)
                requires
                    en_x < 2 * den_x,
                    den_y > 0,
            ;
            assert(2 * den_x * den_y < ex_y * den_x) by (nonlinear_arith)
                requires
                    2 * den_y < ex_y,
                    den_x > 0,
            ;
            assert(x_binds(m, o, dx, dy));
        } else {
            assert(en_y * den_x < 2 * den_y * den_x) by (nonlinear_arith)
                requires
                    en_y < 2 * den_y,
                    den_x > 0,
            ;
            assert(2 * den_y * den_x < ex_x * den_y) by (nonlinear_arith)
                requires
                    2 * den_x < ex_x,
                    den_y > 0,
            ;
            assert(y_binds(m, o, dx, dy));
        }
    }
}

/// Law: non-penetration under single-obstacle resolution.  One solid mover,
/// one stationary obstacle, a displacement whose end position would overlap
/// the obstacle: resolution clamps the motion and the resolved position does
/// not overlap the obstacle.  The one excluded input is the exact corner
/// tie, where both axes move and reach their entry contacts at the same
/// instant; there the pairwise rule clamps nothing.
pub proof fn lemma_single_obstacle_non_penetration(m: Aabb, o: Aabb, dx: int, dy: int)
    requires
        overlaps_shifted(m, o, dx, dy),
        dx != 0 || dy != 0,
        dx != 0 && dy != 0 ==> entry_num2(m.x as int, m.w as int, o.x as int, o.w as int, dx)
            * den(dy) != entry_num2(m.y as int, m.h as int, o.y as int, o.h as int, dy) * den(dx),
    ensures
        resolve_pair_spec(m, o, dx, dy) is Some,
        !overlaps_shifted(
            m,
            o,
            resolve_pair_spec(m, o, dx, dy).unwrap().0,
            resolve_pair_spec(m, o, dx, dy).unwrap().1,
        ),
{
    lemma_clamp_triggers(m, o, dx, dy);
    lemma_resolved_no_overlap(m, o, dx, dy);
}

/// Bounds the product of two bounded factors, for the cross-multiplied time
/// comparisons.
proof fn lemma_mul_abs_bound(a: int, b: int, ka: int, kb: int)
    by (nonlinear_arith)
    requires
        -ka <= a <= ka,
        -kb <= b <= kb,
        0 <= ka,
        0 <= kb,
    ensures
        -(ka * kb) <= a * b <= ka * kb,
{
}

/// Floor of `v / 2`, computed without signed division.
fn half_floor(v: i64) -> (r: i64)
    requires
        i64::MIN < v,
    ensures
        r as int == floor_half(v as int),
{
    if v >= 0 {
        ((v as u64) / 2) as i64
    } else {
        let m: u64 = (-v) as u64;
        -(((m + 1) / 2) as i64)
    }
}

/// Ceiling of `v / 2`, computed without signed division.
fn half_ceil(v: i64) -> (r: i64)
    requires
        i64::MIN < v,
        v < i64::MAX,
    ensures
        r as int == ceil_half(v as int),
{
    if v >= 0 {
        (((v as u64) + 1) / 2) as i64
    } else {
        let m: u64 = (-v) as u64;
        -((m / 2) as i64)
    }
}

/// Resolves one (mover, obstacle) pair at runtime, exactly as
/// `resolve_pair_spec` states.  `None` leaves the candidate displacement
/// standing; `Some` carries the clamped displacement.
pub fn resolve_pair(m: &Aabb, o: &Aabb, dx: i64, dy: i64) -> (r: Option<(i64, i64)>)
    requires
        m.in_range(),
        o.in_range(),
        -COORD_LIMIT <= dx <= COORD_LIMIT,
        -COORD_LIMIT <= dy <= COORD_LIMIT,
    ensures
        match r {
            None => resolve_pair_spec(*m, *o, dx as int, dy as int) is None,
            Some((rx, ry)) => resolve_pair_spec(*m, *o, dx as int, dy as int) == Some(
                (rx as int, ry as int),
            ),
        },
{
    let fx = m.x + dx;
    let fy = m.y + dy;
    let future_overlap = 2 * fx - m.w < 2 * o.x + o.w && 2 * fx + m.w > 2 * o.x - o.w && 2 * fy
        - m.h < 2 * o.y + o.h && 2 * fy + m.h > 2 * o.y - o.h;
    if !future_overlap {
        return None;
    }
    let d2x = 2 * (o.x - m.x);
    let r2x = m.w + o.w;
    let d2y = 2 * (o.y - m.y);
    let r2y = m.h + o.h;

    let x_is_binding: bool = if dx == 0 {
        false
    } else if dy == 0 {
        true
    } else {
        let en_x = if dx > 0 { d2x - r2x } else { -d2x - r2x };
        let den_x = if dx > 0 { dx } else { -dx };
        let en_y = if dy > 0 { d2y - r2y } else { -d2y - r2y };
        let ex_y = if dy > 0 { d2y + r2y } else { -d2y + r2y };
        let den_y = if dy > 0 { dy } else { -dy };
        proof {
            lemma_mul_abs_bound(en_y as int, den_x as int, 6 * COORD_LIMIT as int, COORD_LIMIT as int);
            lemma_mul_abs_bound(en_x as int, den_y as int, 6 * COORD_LIMIT as int, COORD_LIMIT as int);
            lemma_mul_abs_bound(ex_y as int, den_x as int, 6 * COORD_LIMIT as int, COORD_LIMIT as int);
        }
        (en_y as i128) * (den_x as i128) < (en_x as i128) * (den_y as i128) && (en_x as i128)
            * (den_y as i128) < (ex_y as i128) * (den_x as i128)
    };
    if x_is_binding {
        let rx = if dx > 0 {
            half_floor(d2x - r2x)
        } else {
            half_ceil(d2x + r2x)
        };
        let ry = if dy == 0 {
            0
        } else if dy > 0 {
            half_ceil(d2y + r2y)
        } else {
            half_floor(d2y - r2y)
        };
        return Some((rx, ry));
    }
    let y_is_binding: bool = if dy == 0 {
        false
    } else if dx == 0 {
        true
    } else {
        let en_x = if dx > 0 { d2x - r2x } else { -d2x - r2x };
        let ex_x = if dx > 0 { d2x + r2x } else { -d2x + r2x };
        let den_x = if dx > 0 { dx } else { -dx };
        let en_y = if dy > 0 { d2y - r2y } else { -d2y - r2y };
        let den_y = if dy > 0 { dy } else { -dy };
        proof {
            lemma_mul_abs_bound(en_x as int, den_y as int, 6 * COORD_LIMIT as int, COORD_LIMIT as int);
            lemma_mul_abs_bound(en_y as int, den_x as int, 6 * COORD_LIMIT as int, COORD_LIMIT as int);
            lemma_mul_abs_bound(ex_x as int, den_y as int, 6 * COORD_LIMIT as int, COORD_LIMIT as int);
        }
        (en_x as i128) * (den_y as i128) < (en_y as i128) * (den_x as i128) && (en_y as i128)
            * (den_x as i128) < (ex_x as i128) * (den_y as i128)
    };
    if y_is_binding {
        let rx = if dx == 0 {
            0
        } else if dx > 0 {
            half_ceil(d2x + r2x)
        } else {
            half_floor(d2x - r2x)
        };
        let ry = if dy > 0 {
            half_floor(d2y - r2y)
        } else {
            half_ceil(d2y + r2y)
        };
        return Some((rx, ry));
    }
    None
}

} // verus!

