//! Geographic placement on the unit sphere.
//!
//! Angles are carried in millidegrees (one thousandth of a degree), so a
//! quarter turn is 90_000 and a full turn 360_000. On the quarter-turn
//! lattice — the poles and the equator's axis crossings — sine and cosine
//! are exactly −1, 0 or 1, and the placement convention
//! `(cos lat · sin lon, sin lat, cos lat · cos lon)` can be computed and
//! reasoned about with no rounding at all.

use vstd::prelude::*;
use vstd::arithmetic::div_mod::{
    lemma_fundamental_div_mod, lemma_mod_bound, lemma_mod_mod, lemma_mod_multiples_vanish,
};

verus! {

/// Sine of an angle in millidegrees, exact on the quarter-turn lattice.
pub open spec fn sin_q(a_md: int) -> int {
    let r = a_md % 360000;
    if r == 90000 {
        1
    } else if r == 270000 {
        -1
    } else {
        0
    }
}

/// Cosine of an angle in millidegrees, exact on the quarter-turn lattice.
pub open spec fn cos_q(a_md: int) -> int {
    let r = a_md % 360000;
    if r == 0 {
        1
    } else if r == 180000 {
        -1
    } else {
        0
    }
}

/// The angle lies on the quarter-turn lattice.
pub open spec fn is_quarter_turn(a_md: int) -> bool {
    a_md % 90000 == 0
}

/// Placement convention, x component: `cos(lat) * sin(lon)`.
pub open spec fn placement_x(lat_md: int, lon_md: int) -> int {
    cos_q(lat_md) * sin_q(lon_md)
}

/// Placement convention, y component: `sin(lat)`.
pub open spec fn placement_y(lat_md: int, lon_md: int) -> int {
    sin_q(lat_md)
}

/// Placement convention, z component: `cos(lat) * cos(lon)`.
pub open spec fn placement_z(lat_md: int, lon_md: int) -> int {
    cos_q(lat_md) * cos_q(lon_md)
}

/// A point with exact integer coordinates; placements on the quarter-turn
/// lattice have every component in {−1, 0, 1}.
#[derive(Clone, Copy, PartialEq, Eq, Structural, Debug)]
pub struct SpherePoint {
    pub x: i64,
    pub y: i64,
    pub z: i64,
}

/// Reduce an angle to the canonical range [0, 360000) millidegrees.
pub fn normalize_angle_md(a_md: i64) -> (r: i64)
    ensures
        r == (a_md as int) % 360000,
        0 <= r < 360000,
{
    proof {
        lemma_mod_bound(a_md as int, 360000);
    }
    a_md.checked_rem_euclid(360000).unwrap()
}

/// Exact sine for a millidegree angle, matching `sin_q`.
pub fn quarter_sin_md(a_md: i64) -> (s: i64)
    ensures
        s == sin_q(a_md as int),
{
    let r: i64 = normalize_angle_md(a_md);
    if r == 90000 {
        1
    } else if r == 270000 {
        -1
    } else {
        0
    }
}

/// Exact cosine for a millidegree angle, matching `cos_q`.
pub fn quarter_cos_md(a_md: i64) -> (c: i64)
    ensures
        c == cos_q(a_md as int),
{
    let r: i64 = normalize_angle_md(a_md);
    if r == 0 {
        1
    } else if r == 180000 {
        -1
    } else {
        0
    }
}

/// Exact unit-sphere placement for quarter-turn lattice coordinates, by the
/// convention `(cos lat · sin lon, sin lat, cos lat · cos lon)`.
pub fn placement_cardinal(lat_md: i64, lon_md: i64) -> (p: SpherePoint)
    requires
        is_quarter_turn(lat_md as int),
        is_quarter_turn(lon_md as int),
    ensures
        p.x == placement_x(lat_md as int, lon_md as int),
        p.y == placement_y(lat_md as int, lon_md as int),
        p.z == placement_z(lat_md as int, lon_md as int),
{
    let sin_lat: i64 = quarter_sin_md(lat_md);
    let cos_lat: i64 = quarter_cos_md(lat_md);
    let sin_lon: i64 = quarter_sin_md(lon_md);
    let cos_lon: i64 = quarter_cos_md(lon_md);
    SpherePoint { x: cos_lat * sin_lon, y: sin_lat, z: cos_lat * cos_lon }
}

/// On the quarter-turn lattice, sine and cosine take one of the four exact
/// unit-circle corner values, and obey the Pythagorean identity exactly.
pub proof fn lemma_quarter_sin_cos(a_md: int)
    requires
        is_quarter_turn(a_md),
    ensures
        (sin_q(a_md) == 0 && cos_q(a_md) == 1) || (sin_q(a_md) == 1 && cos_q(a_md) == 0) || (
        sin_q(a_md) == 0 && cos_q(a_md) == -1) || (sin_q(a_md) == -1 && cos_q(a_md) == 0),
        sin_q(a_md) * sin_q(a_md) + cos_q(a_md) * cos_q(a_md) == 1,
{
    lemma_mod_mod(a_md, 90000, 4);
    lemma_mod_bound(a_md, 360000);
    let r = a_md % 360000;
    lemma_fundamental_div_mod(r, 90000);
    let q = r / 90000;
    assert(r == 90000 * q);
    assert(0 <= q < 4);
    assert(r == 0 || r == 90000 || r == 180000 || r == 270000);
}

/// Every placement on the quarter-turn lattice lies exactly on the unit
/// sphere: the squares of its components sum to one.
pub proof fn lemma_placement_unit_magnitude(lat_md: int, lon_md: int)
    requires
        is_quarter_turn(lat_md),
        is_quarter_turn(lon_md),
    ensures
        placement_x(lat_md, lon_md) * placement_x(lat_md, lon_md) + placement_y(lat_md, lon_md)
            * placement_y(lat_md, lon_md) + placement_z(lat_md, lon_md) * placement_z(
            lat_md,
            lon_md,
        ) == 1,
{
    lemma_quarter_sin_cos(lat_md);
    lemma_quarter_sin_cos(lon_md);
    let s1 = sin_q(lat_md);
    let c1 = cos_q(lat_md);
    let s2 = sin_q(lon_md);
    let c2 = cos_q(lon_md);
    assert((c1 * s2) * (c1 * s2) + s1 * s1 + (c1 * c2) * (c1 * c2) == 1) by (nonlinear_arith)
        requires
            s1 * s1 + c1 * c1 == 1,
            s2 * s2 + c2 * c2 == 1,
    ;
}

/// Longitude is periodic: adding a full turn to the longitude leaves every
/// component of the placement unchanged, whatever the latitude.
pub proof fn lemma_placement_periodic(lat_md: int, lon_md: int)
    ensures
        placement_x(lat_md, lon_md + 360000) == placement_x(lat_md, lon_md),
        placement_y(lat_md, lon_md + 360000) == placement_y(lat_md, lon_md),
        placement_z(lat_md, lon_md + 360000) == placement_z(lat_md, lon_md),
{
    lemma_mod_multiples_vanish(1, lon_md, 360000);
    assert((lon_md + 360000) % 360000 == lon_md % 360000);
}

/// The poles collapse: at latitude 90° every longitude is placed at
/// (0, 1, 0), and at latitude −90° at (0, −1, 0).
pub proof fn lemma_pole_collapse(lon_md: int)
    ensures
        placement_x(90000, lon_md) == 0,
        placement_y(90000, lon_md) == 1,
        placement_z(90000, lon_md) == 0,
        placement_x(-90000, lon_md) == 0,
        placement_y(-90000, lon_md) == -1,
        placement_z(-90000, lon_md) == 0,
{
    assert(cos_q(90000) == 0);
    assert(cos_q(-90000) == 0);
}

} // verus!
