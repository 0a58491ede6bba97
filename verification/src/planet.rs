//! One body on a closed elliptical orbit: geometry derived once from a single
//! observed world-space point, and a phase advanced tick by tick.
//!
//! All quantities are fixed-point integers scaled by [`crate::SCALE`].  The
//! ellipse's geometry is kept in the body's own standard frame (origin at the
//! ellipse's centre, major axis along the frame's x-axis); a rotation and a
//! translation, both derived at construction, map that frame to world space.
//! Instead of an angle in radians the body stores the rotation's cosine and
//! sine directly: the construction triangle gives them exactly, and they are
//! all the coordinate transform ever reads.

use vstd::arithmetic::div_mod::{
    lemma_div_basics, lemma_div_is_ordered, lemma_div_multiples_vanish,
};
use vstd::arithmetic::mul::lemma_mul_inequality;
use vstd::prelude::*;

use crate::math::{
    abs_i64, abs_int, div_scale, div_trunc, isqrt, lemma_div_trunc_bound, lemma_sqrt_floor_bounds,
    lemma_sqrt_floor_monotonic, lemma_sqrt_floor_square, sqrt_floor, MAX_COORD,
};
use crate::SCALE;

verus! {

/// First candidate for the per-tick step along the standard frame's x-axis
/// (0.007 world units).
pub const STEP_INIT: i64 = 7_000;

/// Bound on the per-tick displacement along the standard frame's y-axis
/// (0.01 world units): the adaptive step shrinks until it is respected.
pub const STEP_TOLERANCE: i64 = 10_000;

/// Which way the body is moving along the standard frame's x-axis; flips
/// only at the two apsides.
#[derive(Clone, Copy, Debug, PartialEq, Eq, Structural)]
pub enum Direction {
    Decreasing,
    Increasing,
}

/// Construction was asked for an orbit whose perihelion distance reaches the
/// semi-major axis: no bound ellipse passes through such a point.
#[derive(Clone, Copy, Debug, PartialEq, Eq, Structural)]
pub struct InvalidConfiguration;

/// Perihelion distance of the observed point: its distance from the world
/// origin, read directly on the axis when the point lies on it.
pub open spec fn perihelion_of(x: int, y: int) -> int {
    if y == 0 {
        abs_int(x)
    } else {
        sqrt_floor(x * x + y * y)
    }
}

/// Eccentricity (scaled by `SCALE`) from the perihelion distance and the
/// semi-major axis, through the aphelion the two imply.
pub open spec fn eccentricity_of(per: int, a: int) -> int {
    let aphelion = 2 * a - per;
    (aphelion - per) * (SCALE as int) / (aphelion + per)
}

/// Semi-minor axis from the semi-major axis and the scaled eccentricity.
pub open spec fn semi_minor_of(a: int, ecc: int) -> int {
    a * sqrt_floor((SCALE as int) * (SCALE as int) - ecc * ecc) / (SCALE as int)
}

/// Cosine (scaled) of the rotation between the ellipse's major axis and the
/// world x-axis, from the construction triangle's sides.
pub open spec fn rotation_cos_of(x: int, y: int) -> int {
    if y == 0 {
        SCALE as int
    } else {
        abs_int(x) * (SCALE as int) / perihelion_of(x, y)
    }
}

/// Sine (scaled) of the same rotation.
pub open spec fn rotation_sin_of(x: int, y: int) -> int {
    if y == 0 {
        0
    } else {
        abs_int(y) * (SCALE as int) / perihelion_of(x, y)
    }
}

/// Would a step of `step` out of `x` in direction `dir` leave `[-a, a]`?
/// Exactly then the direction flips.
pub open spec fn spec_crosses_apsis(dir: Direction, x: int, step: int, a: int) -> bool {
    match dir {
        Direction::Decreasing => x - step < -a,
        Direction::Increasing => x + step > a,
    }
}

/// The direction after a step of `step`: unchanged away from the apsides,
/// reversed where the step would cross one.
pub open spec fn spec_next_direction(dir: Direction, x: int, step: int, a: int) -> Direction {
    if spec_crosses_apsis(dir, x, step, a) {
        match dir {
            Direction::Decreasing => Direction::Increasing,
            Direction::Increasing => Direction::Decreasing,
        }
    } else {
        dir
    }
}

/// The next standard-frame x: the current one moved by `step`, signed by the
/// direction of travel.
pub open spec fn spec_next_x(x: int, step: int, dir: Direction) -> int {
    match dir {
        Direction::Decreasing => x - step,
        Direction::Increasing => x + step,
    }
}

/// The standard-frame y the ellipse equation assigns to `x`, its sign chosen
/// by which half of the orbit the direction of travel selects.
pub open spec fn spec_y_on_ellipse(a: int, b: int, x: int, dir: Direction) -> int {
    let m = b * sqrt_floor(a * a - x * x) / a;
    match dir {
        Direction::Decreasing => m,
        Direction::Increasing => -m,
    }
}

/// One body: an ellipse fixed at construction and a phase along it.
#[derive(Clone, Copy, Debug)]
pub struct Planet {
    /// Visual size, passed through to the export buffer unchanged.
    pub radius: i64,
    /// Half the ellipse's longest diameter; constant after construction.
    pub semi_major_axis: i64,
    /// Half the ellipse's shortest diameter; constant after construction.
    pub semi_minor_axis: i64,
    /// Scaled eccentricity in `[0, SCALE]`; constant after construction.
    pub eccentricity: i64,
    /// Scaled cosine of the major axis' rotation from the world x-axis.
    pub rotation_cos: i64,
    /// Scaled sine of that rotation.
    pub rotation_sin: i64,
    /// World-space offset subtracted after rotating, x part.
    pub translation_x: i64,
    /// World-space offset subtracted after rotating, y part.
    pub translation_y: i64,
    /// Current standard-frame x, always within the major axis.
    pub standard_x: i64,
    /// Current standard-frame y, always the ellipse equation's value at
    /// `standard_x` for the current direction.
    pub standard_y: i64,
    /// Which way the body is moving along the standard frame's x-axis.
    pub direction: Direction,
}

impl Planet {
    /// The body's invariant: geometry in range, and the phase on the ellipse.
    pub open spec fn wf(self) -> bool {
        &&& 0 < self.semi_major_axis <= MAX_COORD
        &&& 0 <= self.eccentricity <= SCALE
        &&& 0 <= self.semi_minor_axis <= self.semi_major_axis
        &&& 0 <= self.rotation_cos <= SCALE
        &&& 0 <= self.rotation_sin <= SCALE
        &&& -(2 * (MAX_COORD as int)) <= self.translation_x <= 2 * (MAX_COORD as int)
        &&& -(2 * (MAX_COORD as int)) <= self.translation_y <= 2 * (MAX_COORD as int)
        &&& -self.semi_major_axis <= self.standard_x <= self.semi_major_axis
        &&& -self.semi_minor_axis <= self.standard_y <= self.semi_minor_axis
        &&& self.standard_y == spec_y_on_ellipse(
            self.semi_major_axis as int,
            self.semi_minor_axis as int,
            self.standard_x as int,
            self.direction,
        )
    }

    /// The derived fields construction owes for an observation: every field a
    /// pure function of the caller's four inputs.
    pub open spec fn is_derived_from(self, radius: int, x: int, y: int, a: int) -> bool {
        let per = perihelion_of(x, y);
        let ecc = eccentricity_of(per, a);
        &&& self.radius == radius
        &&& self.semi_major_axis == a
        &&& self.eccentricity == ecc
        &&& self.semi_minor_axis == semi_minor_of(a, ecc)
        &&& self.rotation_cos == rotation_cos_of(x, y)
        &&& self.rotation_sin == rotation_sin_of(x, y)
        &&& self.translation_x == div_trunc(a * rotation_cos_of(x, y), SCALE as int) - x
        &&& self.translation_y == div_trunc(a * rotation_sin_of(x, y), SCALE as int) - y
        &&& self.standard_x == a
        &&& self.standard_y == 0
        &&& self.direction == Direction::Decreasing
    }

    /// World-space x of the current phase: rotate, then translate.
    pub open spec fn spec_world_x(self) -> int {
        div_trunc(
            self.standard_x * self.rotation_cos - self.standard_y * self.rotation_sin,
            SCALE as int,
        ) - self.translation_x
    }

    /// World-space y of the current phase.
    pub open spec fn spec_world_y(self) -> int {
        div_trunc(
            self.standard_y * self.rotation_cos + self.standard_x * self.rotation_sin,
            SCALE as int,
        ) - self.translation_y
    }

    /// How far the standard-frame y would move under a step of `step`.
    pub open spec fn spec_y_deviation(self, step: int) -> int {
        let a = self.semi_major_axis as int;
        let nd = spec_next_direction(self.direction, self.standard_x as int, step, a);
        let nx = spec_next_x(self.standard_x as int, step, nd);
        let ny = spec_y_on_ellipse(a, self.semi_minor_axis as int, nx, nd);
        abs_int(ny - self.standard_y)
    }

    /// The largest candidate step: the fixed first candidate, capped by the
    /// semi-major axis so that no step can overshoot an apsis.
    pub open spec fn spec_step_limit(self) -> int {
        if STEP_INIT <= self.semi_major_axis {
            STEP_INIT as int
        } else {
            self.semi_major_axis as int
        }
    }

    /// The adaptive-step search: shrink the candidate by a constant factor
    /// until the y-displacement it causes is within tolerance.
    pub open spec fn spec_step_search(self, step: int) -> int
        decreases step,
    {
        if step <= 0 {
            0
        } else if self.spec_y_deviation(step) < STEP_TOLERANCE {
            step
        } else {
            self.spec_step_search(step * 9 / 10)
        }
    }

    /// The step the next tick takes from this state.
    pub open spec fn spec_step_size(self) -> int {
        self.spec_step_search(self.spec_step_limit())
    }

    /// The state one tick leaves behind: geometry untouched, the phase moved
    /// by the adaptive step, the direction flipped exactly at an apsis.
    pub open spec fn spec_advance(self) -> Planet {
        let a = self.semi_major_axis as int;
        let step = self.spec_step_size();
        let nd = spec_next_direction(self.direction, self.standard_x as int, step, a);
        let nx = spec_next_x(self.standard_x as int, step, nd);
        let ny = spec_y_on_ellipse(a, self.semi_minor_axis as int, nx, nd);
        Planet { standard_x: nx as i64, standard_y: ny as i64, direction: nd, ..self }
    }

    /// The state `n` ticks leave behind.
    pub open spec fn spec_advance_n(self, n: nat) -> Planet
        decreases n,
    {
        if n == 0 {
            self
        } else {
            self.spec_advance_n((n - 1) as nat).spec_advance()
        }
    }
}

/// Distance from the world origin to the observed point, read directly on
/// the axis when the point lies on it.
fn calculate_perihelion(initial_x: i64, initial_y: i64) -> (r: i64)
    requires
        -MAX_COORD <= initial_x <= MAX_COORD,
        -MAX_COORD <= initial_y <= MAX_COORD,
    ensures
        r == perihelion_of(initial_x as int, initial_y as int),
        0 <= r <= 2_000_000_000,
{
    if initial_y == 0 {
        abs_i64(initial_x)
    } else {
        proof {
            let x = initial_x as int;
            let y = initial_y as int;
            assert(abs_int(y) * abs_int(y) + abs_int(x) * abs_int(x) == x * x + y * y)
                by (nonlinear_arith);
        }
        calculate_pythagorean(abs_i64(initial_y), abs_i64(initial_x))
    }
}

/// Hypotenuse (rounded down) of a right triangle with the given legs.
fn calculate_pythagorean(side_a: i64, side_b: i64) -> (r: i64)
    requires
        0 <= side_a <= MAX_COORD,
        0 <= side_b <= MAX_COORD,
    ensures
        r == sqrt_floor(side_a * side_a + side_b * side_b),
        0 <= r <= 2_000_000_000,
{
    assert(side_a * side_a + side_b * side_b <= 2_000_000_000_000_000_000) by (nonlinear_arith)
        requires
            0 <= side_a <= 1_000_000_000 && 0 <= side_b <= 1_000_000_000,
    ;
    isqrt(side_a * side_a + side_b * side_b)
}

/// Scaled eccentricity from the observed point and the semi-major axis.
fn calculate_eccentricity(initial_x: i64, initial_y: i64, semi_major_axis: i64) -> (r: i64)
    requires
        -MAX_COORD <= initial_x <= MAX_COORD,
        -MAX_COORD <= initial_y <= MAX_COORD,
        0 < semi_major_axis <= MAX_COORD,
        perihelion_of(initial_x as int, initial_y as int) < semi_major_axis,
    ensures
        r == eccentricity_of(
            perihelion_of(initial_x as int, initial_y as int),
            semi_major_axis as int,
        ),
        0 <= r <= SCALE,
        perihelion_of(initial_x as int, initial_y as int) >= 1 ==> r < SCALE,
{
    let perihelion = calculate_perihelion(initial_x, initial_y);
    let aphelion = (semi_major_axis * 2) - perihelion;
    let numerator = (aphelion - perihelion) * SCALE;
    let denominator = aphelion + perihelion;
    assert(denominator == 2 * semi_major_axis);
    proof {
        let a = semi_major_axis as int;
        let per = perihelion as int;
        let s = SCALE as int;
        lemma_div_multiples_vanish(s, 2 * a);
        assert((2 * a - 2 * per) * s <= (2 * a) * s) by (nonlinear_arith)
            requires
                0 <= per && 0 < a && s > 0,
        ;
        assert((2 * a) * s == (2 * a * s)) by (nonlinear_arith);
        lemma_div_is_ordered((2 * a - 2 * per) * s, 2 * a * s, 2 * a);
        assert(numerator as int >= 0) by (nonlinear_arith)
            requires
                numerator == (2 * a - 2 * per) * s && per < a && s > 0,
        ;
        vstd::arithmetic::div_mod::lemma_div_pos_is_pos(numerator as int, 2 * a);
        if per >= 1 {
            // numerator <= (2a - 2) * s = 2a * (s - 1) + (2a - 2s), and
            // 2a - 2s < 2a, so the quotient stays under s.
            assert((2 * a - 2 * per) * s <= 2 * a * s - 2 * s) by (nonlinear_arith)
                requires
                    1 <= per && s > 0,
            ;
            lemma_div_is_ordered((2 * a - 2 * per) * s, 2 * a * s - 1, 2 * a);
            vstd::arithmetic::div_mod::lemma_div_multiples_vanish_fancy(s - 1, 2 * a - 1, 2 * a);
            assert((2 * a) * (s - 1) + (2 * a - 1) == 2 * a * s - 1) by (nonlinear_arith);
        }
    }
    numerator / denominator
}

/// Semi-minor axis from the semi-major axis and the scaled eccentricity.
fn calculate_semi_minor_axis(semi_major_axis: i64, eccentricity: i64) -> (r: i64)
    requires
        0 < semi_major_axis <= MAX_COORD,
        0 <= eccentricity <= SCALE,
    ensures
        r == semi_minor_of(semi_major_axis as int, eccentricity as int),
        0 <= r <= semi_major_axis,
{
    proof {
        assert(eccentricity * eccentricity <= (SCALE as int) * (SCALE as int)) by (nonlinear_arith)
            requires
                0 <= eccentricity <= SCALE,
        ;
    }
    let remainder = SCALE * SCALE - eccentricity * eccentricity;
    let root = isqrt(remainder);
    proof {
        // root * root <= SCALE^2 pins root under SCALE.
        assert(root <= SCALE) by (nonlinear_arith)
            requires
                0 <= root && root * root <= (SCALE as int) * (SCALE as int) && SCALE > 0,
        ;
        let a = semi_major_axis as int;
        let s = SCALE as int;
        lemma_mul_inequality(root as int, s, a);
        assert((root as int) * a == a * (root as int)) by (nonlinear_arith);
        assert(s * a == a * s) by (nonlinear_arith);
        lemma_div_multiples_vanish(a, s);
        lemma_div_is_ordered(a * (root as int), s * a, s);
        assert(a * (root as int) >= 0) by (nonlinear_arith)
            requires
                a > 0 && root >= 0,
        ;
        vstd::arithmetic::div_mod::lemma_div_pos_is_pos(a * (root as int), s);
        assert(a * (root as int) <= 1_000_000_000_000_000) by (nonlinear_arith)
            requires
                0 < a <= 1_000_000_000 && 0 <= root <= 1_000_000,
        ;
    }
    (semi_major_axis * root) / SCALE
}

/// Scaled cosine and sine of the rotation between the ellipse's major axis
/// and the world x-axis, from the triangle the observed point spans with the
/// world origin and the axis.
fn calculate_rotation(initial_x: i64, initial_y: i64) -> (r: (i64, i64))
    requires
        -MAX_COORD <= initial_x <= MAX_COORD,
        -MAX_COORD <= initial_y <= MAX_COORD,
    ensures
        r.0 == rotation_cos_of(initial_x as int, initial_y as int),
        r.1 == rotation_sin_of(initial_x as int, initial_y as int),
        0 <= r.0 <= SCALE,
        0 <= r.1 <= SCALE,
{
    if initial_y == 0 {
        (SCALE, 0)
    } else {
        let side_a = abs_i64(initial_y);
        let side_c = abs_i64(initial_x);
        let side_b = calculate_pythagorean(side_a, side_c);
        proof {
            let x = initial_x as int;
            let y = initial_y as int;
            assert(side_a * side_a == y * y && side_c * side_c == x * x) by (nonlinear_arith)
                requires
                    side_a == abs_int(y) && side_c == abs_int(x),
            ;
            assert(side_b == perihelion_of(x, y));
            // The hypotenuse dominates each leg, and is at least 1.
            lemma_sqrt_floor_square(side_a as int);
            lemma_sqrt_floor_square(side_c as int);
            assert(side_a * side_a <= x * x + y * y && side_c * side_c <= x * x + y * y)
                by (nonlinear_arith)
                requires
                    side_a * side_a == y * y && side_c * side_c == x * x,
            ;
            lemma_sqrt_floor_monotonic(side_a * side_a, x * x + y * y);
            lemma_sqrt_floor_monotonic(side_c * side_c, x * x + y * y);
            assert(1 <= side_a * side_a) by (nonlinear_arith)
                requires
                    1 <= side_a,
            ;
            lemma_sqrt_floor_monotonic(1, x * x + y * y);
            lemma_sqrt_floor_square(1);
            let h = side_b as int;
            let s = SCALE as int;
            lemma_mul_inequality(side_c as int, h, s);
            lemma_div_multiples_vanish(s, h);
            assert(h * s == s * h) by (nonlinear_arith);
            lemma_div_is_ordered((side_c as int) * s, h * s, h);
            lemma_mul_inequality(side_a as int, h, s);
            lemma_div_is_ordered((side_a as int) * s, h * s, h);
            assert((side_c as int) * s >= 0 && (side_a as int) * s >= 0) by (nonlinear_arith)
                requires
                    side_c >= 0 && side_a >= 0 && s > 0,
            ;
            vstd::arithmetic::div_mod::lemma_div_pos_is_pos((side_c as int) * s, h);
            vstd::arithmetic::div_mod::lemma_div_pos_is_pos((side_a as int) * s, h);
            assert((side_c as int) * s <= 1_000_000_000_000_000 && (side_a as int) * s
                <= 1_000_000_000_000_000) by (nonlinear_arith)
                requires
                    0 <= side_c <= 1_000_000_000 && 0 <= side_a <= 1_000_000_000 && s == 1_000_000,
            ;
        }
        let rotation_cos = (side_c * SCALE) / side_b;
        let rotation_sin = (side_a * SCALE) / side_b;
        (rotation_cos, rotation_sin)
    }
}

impl Planet {
    /// Does a bound ellipse with this semi-major axis pass through the
    /// observed point?  Exactly when the perihelion distance stays under it.
    fn validate(initial_x: i64, initial_y: i64, semi_major_axis: i64) -> (r: bool)
        requires
            -MAX_COORD <= initial_x <= MAX_COORD,
            -MAX_COORD <= initial_y <= MAX_COORD,
        ensures
            r <==> perihelion_of(initial_x as int, initial_y as int) < semi_major_axis,
    {
        let perihelion = calculate_perihelion(initial_x, initial_y);
        perihelion < semi_major_axis
    }

    /// Rotate a standard-frame point into world space, then subtract the
    /// stored translation.
    fn transform_standard_coords(
        standard_x: i64,
        standard_y: i64,
        translation_x: i64,
        translation_y: i64,
        rotation_cos: i64,
        rotation_sin: i64,
    ) -> (r: (i64, i64))
        requires
            -MAX_COORD <= standard_x <= MAX_COORD,
            -MAX_COORD <= standard_y <= MAX_COORD,
            0 <= rotation_cos <= SCALE,
            0 <= rotation_sin <= SCALE,
            -(2 * (MAX_COORD as int)) <= translation_x <= 2 * (MAX_COORD as int),
            -(2 * (MAX_COORD as int)) <= translation_y <= 2 * (MAX_COORD as int),
        ensures
            r.0 == div_trunc(
                standard_x * rotation_cos - standard_y * rotation_sin,
                SCALE as int,
            ) - translation_x,
            r.1 == div_trunc(
                standard_y * rotation_cos + standard_x * rotation_sin,
                SCALE as int,
            ) - translation_y,
            -(4 * (MAX_COORD as int)) <= r.0 <= 4 * (MAX_COORD as int),
            -(4 * (MAX_COORD as int)) <= r.1 <= 4 * (MAX_COORD as int),
    {
        proof {
            assert(-1_000_000_000_000_000 <= standard_x * rotation_cos <= 1_000_000_000_000_000
                && -1_000_000_000_000_000 <= standard_y * rotation_sin <= 1_000_000_000_000_000
                && -1_000_000_000_000_000 <= standard_y * rotation_cos <= 1_000_000_000_000_000
                && -1_000_000_000_000_000 <= standard_x * rotation_sin <= 1_000_000_000_000_000)
                by (nonlinear_arith)
                requires
                    -1_000_000_000 <= standard_x <= 1_000_000_000,
                    -1_000_000_000 <= standard_y <= 1_000_000_000,
                    0 <= rotation_cos <= 1_000_000,
                    0 <= rotation_sin <= 1_000_000,
            ;
            lemma_div_trunc_bound(
                standard_x * rotation_cos - standard_y * rotation_sin,
                SCALE as int,
                2_000_000_000,
            );
            lemma_div_trunc_bound(
                standard_y * rotation_cos + standard_x * rotation_sin,
                SCALE as int,
                2_000_000_000,
            );
        }
        let rotated_x = div_scale(standard_x * rotation_cos - standard_y * rotation_sin);
        let rotated_y = div_scale(standard_y * rotation_cos + standard_x * rotation_sin);
        (rotated_x - translation_x, rotated_y - translation_y)
    }

    /// Derive an orbit from one observed world-space point, a semi-major
    /// axis and a visual radius.  Fails exactly when the point's perihelion
    /// distance reaches the semi-major axis, which would leave no bound
    /// ellipse.
    pub fn new(radius: i64, initial_x: i64, initial_y: i64, semi_major_axis: i64) -> (r: Result<
        Planet,
        InvalidConfiguration,
    >)
        requires
            -MAX_COORD <= initial_x <= MAX_COORD,
            -MAX_COORD <= initial_y <= MAX_COORD,
            0 < semi_major_axis <= MAX_COORD,
        ensures
            r is Ok <==> perihelion_of(initial_x as int, initial_y as int) < semi_major_axis,
            r matches Ok(p) ==> {
                &&& p.wf()
                &&& p.is_derived_from(
                    radius as int,
                    initial_x as int,
                    initial_y as int,
                    semi_major_axis as int,
                )
                // the returned initial world position is the caller's point, exactly
                &&& p.spec_world_x() == initial_x
                &&& p.spec_world_y() == initial_y
                // a bound orbit: eccentricity in range, minor axis within major
                &&& 0 <= p.eccentricity <= SCALE
                &&& perihelion_of(initial_x as int, initial_y as int) >= 1 ==> p.eccentricity
                    < SCALE
                &&& p.semi_minor_axis <= p.semi_major_axis
            },
    {
        if !Planet::validate(initial_x, initial_y, semi_major_axis) {
            return Err(InvalidConfiguration);
        }
        let eccentricity = calculate_eccentricity(initial_x, initial_y, semi_major_axis);
        let semi_minor_axis = calculate_semi_minor_axis(semi_major_axis, eccentricity);
        let (rotation_cos, rotation_sin) = calculate_rotation(initial_x, initial_y);
        let standard_x = semi_major_axis;
        let standard_y: i64 = 0;

        let transformed = Planet::transform_standard_coords(
            standard_x,
            standard_y,
            0,
            0,
            rotation_cos,
            rotation_sin,
        );
        proof {
            let a = semi_major_axis as int;
            // the rotated start point stays within the major axis, so the
            // translation stays within two coordinate ranges
            assert(a * rotation_cos <= a * SCALE && 0 <= a * rotation_cos) by (nonlinear_arith)
                requires
                    0 < a && 0 <= rotation_cos <= SCALE,
            ;
            assert(a * rotation_sin <= a * SCALE && 0 <= a * rotation_sin) by (nonlinear_arith)
                requires
                    0 < a && 0 <= rotation_sin <= SCALE,
            ;
            assert(a * (SCALE as int) == (SCALE as int) * a) by (nonlinear_arith);
            lemma_div_multiples_vanish(a, SCALE as int);
            lemma_div_is_ordered(a * rotation_cos, (SCALE as int) * a, SCALE as int);
            lemma_div_is_ordered(a * rotation_sin, (SCALE as int) * a, SCALE as int);
            vstd::arithmetic::div_mod::lemma_div_pos_is_pos(a * rotation_cos, SCALE as int);
            vstd::arithmetic::div_mod::lemma_div_pos_is_pos(a * rotation_sin, SCALE as int);
            // the initial phase sits on the ellipse: y = 0 at x = a
            lemma_sqrt_floor_square(a);
            assert(a * a - a * a == 0);
            assert((semi_minor_axis as int) * sqrt_floor(0) == 0) by (nonlinear_arith)
                requires
                    sqrt_floor(0) == 0,
            ;
            lemma_div_basics(a);
        }
        let x_translation = transformed.0 - initial_x;
        let y_translation = transformed.1 - initial_y;

        Ok(
            Planet {
                radius,
                semi_major_axis,
                semi_minor_axis,
                eccentricity,
                rotation_cos,
                rotation_sin,
                translation_x: x_translation,
                translation_y: y_translation,
                standard_x,
                standard_y,
                direction: Direction::Decreasing,
            },
        )
    }

    /// The direction a step of `x_distance` would leave the body with:
    /// reversed exactly where the step would cross an apsis.
    fn get_next_direction(&self, x_distance: i64) -> (d: Direction)
        requires
            self.wf(),
            0 <= x_distance <= self.semi_major_axis,
        ensures
            d == spec_next_direction(
                self.direction,
                self.standard_x as int,
                x_distance as int,
                self.semi_major_axis as int,
            ),
    {
        match self.direction {
            Direction::Decreasing => {
                if self.standard_x - x_distance < -self.semi_major_axis {
                    Direction::Increasing
                } else {
                    Direction::Decreasing
                }
            },
            Direction::Increasing => {
                if self.standard_x + x_distance > self.semi_major_axis {
                    Direction::Decreasing
                } else {
                    Direction::Increasing
                }
            },
        }
    }

    /// The next standard-frame x under a step already signed by `direction`.
    fn get_next_standard_x(&self, x_distance: i64, direction: Direction) -> (r: i64)
        requires
            -MAX_COORD <= self.standard_x <= MAX_COORD,
            0 <= x_distance <= MAX_COORD,
        ensures
            r == spec_next_x(self.standard_x as int, x_distance as int, direction),
    {
        match direction {
            Direction::Decreasing => self.standard_x - x_distance,
            Direction::Increasing => self.standard_x + x_distance,
        }
    }

    /// Solve the ellipse equation for y at `next_standard_x`, sign-selected
    /// by which half of the orbit `direction` traverses.
    fn get_next_standard_y(&self, next_standard_x: i64, direction: Direction) -> (r: i64)
        requires
            0 < self.semi_major_axis <= MAX_COORD,
            0 <= self.semi_minor_axis <= self.semi_major_axis,
            -self.semi_major_axis <= next_standard_x <= self.semi_major_axis,
        ensures
            r == spec_y_on_ellipse(
                self.semi_major_axis as int,
                self.semi_minor_axis as int,
                next_standard_x as int,
                direction,
            ),
            -self.semi_minor_axis <= r <= self.semi_minor_axis,
    {
        let a = self.semi_major_axis;
        let b = self.semi_minor_axis;
        proof {
            assert(0 <= a * a <= 1_000_000_000_000_000_000
                && 0 <= next_standard_x * next_standard_x <= 1_000_000_000_000_000_000
                && next_standard_x * next_standard_x <= a * a) by (nonlinear_arith)
                requires
                    0 < a <= 1_000_000_000 && -a <= next_standard_x <= a,
            ;
        }
        let chord = a * a - next_standard_x * next_standard_x;
        let root = isqrt(chord);
        proof {
            // the root stays within the semi-major axis, so the quotient
            // stays within the semi-minor axis
            lemma_sqrt_floor_square(a as int);
            lemma_sqrt_floor_monotonic(chord as int, (a as int) * (a as int));
            lemma_mul_inequality(root as int, a as int, b as int);
            assert((root as int) * (b as int) == (b as int) * (root as int)) by (nonlinear_arith);
            assert((a as int) * (b as int) == (b as int) * (a as int)) by (nonlinear_arith);
            lemma_div_multiples_vanish(b as int, a as int);
            lemma_div_is_ordered((b as int) * (root as int), (a as int) * (b as int), a as int);
            assert((b as int) * (root as int) >= 0) by (nonlinear_arith)
                requires
                    b >= 0 && root >= 0,
            ;
            vstd::arithmetic::div_mod::lemma_div_pos_is_pos((b as int) * (root as int), a as int);
            assert((b as int) * (root as int) <= 1_000_000_000_000_000_000) by (nonlinear_arith)
                requires
                    0 <= b <= 1_000_000_000 && 0 <= root <= 1_000_000_000,
            ;
        }
        let next_standard_y = (b * root) / a;
        match direction {
            Direction::Decreasing => next_standard_y,
            Direction::Increasing => -next_standard_y,
        }
    }
}

/// A step within the cap keeps the next standard-frame x within the major
/// axis: either no apsis is crossed and the move shrinks the distance to the
/// bound, or the direction flips and the move starts back inward.
pub proof fn lemma_step_stays_in_bounds(p: Planet, step: int)
    requires
        p.wf(),
        0 <= step <= p.semi_major_axis,
    ensures
        -p.semi_major_axis <= spec_next_x(
            p.standard_x as int,
            step,
            spec_next_direction(p.direction, p.standard_x as int, step, p.semi_major_axis as int),
        ) <= p.semi_major_axis,
{
}

/// The ellipse equation's y never leaves the semi-minor axis.
pub proof fn lemma_y_on_ellipse_bounds(a: int, b: int, x: int, dir: Direction)
    requires
        0 < a <= MAX_COORD,
        0 <= b <= a,
        -a <= x <= a,
    ensures
        -b <= spec_y_on_ellipse(a, b, x, dir) <= b,
{
    assert(0 <= a * a - x * x && 0 <= x * x && x * x <= a * a) by (nonlinear_arith)
        requires
            0 < a && -a <= x <= a,
    ;
    lemma_sqrt_floor_bounds(a * a - x * x);
    let root = sqrt_floor(a * a - x * x);
    lemma_sqrt_floor_square(a);
    lemma_sqrt_floor_monotonic(a * a - x * x, a * a);
    lemma_mul_inequality(root, a, b);
    assert(root * b == b * root) by (nonlinear_arith);
    assert(a * b == b * a) by (nonlinear_arith);
    lemma_div_multiples_vanish(b, a);
    lemma_div_is_ordered(b * root, a * b, a);
    assert(b * root >= 0) by (nonlinear_arith)
        requires
            b >= 0 && root >= 0,
    ;
    vstd::arithmetic::div_mod::lemma_div_pos_is_pos(b * root, a);
}

/// The adaptive-step search always lands on a step within its starting
/// candidate whose y-displacement is within tolerance.
pub proof fn lemma_step_search_props(p: Planet, step: int)
    requires
        p.wf(),
        0 <= step,
    ensures
        0 <= p.spec_step_search(step) <= step,
        p.spec_y_deviation(p.spec_step_search(step)) < STEP_TOLERANCE,
    decreases step,
{
    if step <= 0 {
        assert(p.spec_y_deviation(0) == 0);
    } else if p.spec_y_deviation(step) < STEP_TOLERANCE {
    } else {
        lemma_step_search_props(p, step * 9 / 10);
    }
}

/// One advance never touches the geometry and preserves the body's
/// invariant, the phase staying on the ellipse within the major axis.
pub proof fn lemma_advance_preserves_wf(p: Planet)
    requires
        p.wf(),
    ensures
        p.spec_advance().wf(),
        p.spec_advance().radius == p.radius,
        p.spec_advance().semi_major_axis == p.semi_major_axis,
        p.spec_advance().semi_minor_axis == p.semi_minor_axis,
        p.spec_advance().eccentricity == p.eccentricity,
        p.spec_advance().rotation_cos == p.rotation_cos,
        p.spec_advance().rotation_sin == p.rotation_sin,
        p.spec_advance().translation_x == p.translation_x,
        p.spec_advance().translation_y == p.translation_y,
{
    lemma_step_search_props(p, p.spec_step_limit());
    let step = p.spec_step_size();
    lemma_step_stays_in_bounds(p, step);
    let a = p.semi_major_axis as int;
    let nd = spec_next_direction(p.direction, p.standard_x as int, step, a);
    let nx = spec_next_x(p.standard_x as int, step, nd);
    lemma_y_on_ellipse_bounds(a, p.semi_minor_axis as int, nx, nd);
}

/// Across any number of ticks the geometry never changes, the body's
/// invariant holds, and the phase never leaves the major axis.
pub proof fn lemma_geometry_constant_over_ticks(p: Planet, n: nat)
    requires
        p.wf(),
    ensures
        p.spec_advance_n(n).wf(),
        p.spec_advance_n(n).radius == p.radius,
        p.spec_advance_n(n).semi_major_axis == p.semi_major_axis,
        p.spec_advance_n(n).semi_minor_axis == p.semi_minor_axis,
        p.spec_advance_n(n).eccentricity == p.eccentricity,
        p.spec_advance_n(n).rotation_cos == p.rotation_cos,
        p.spec_advance_n(n).rotation_sin == p.rotation_sin,
        p.spec_advance_n(n).translation_x == p.translation_x,
        p.spec_advance_n(n).translation_y == p.translation_y,
        -p.semi_major_axis <= p.spec_advance_n(n).standard_x,
        p.spec_advance_n(n).standard_x <= p.semi_major_axis,
    decreases n,
{
    if n > 0 {
        lemma_geometry_constant_over_ticks(p, (n - 1) as nat);
        lemma_advance_preserves_wf(p.spec_advance_n((n - 1) as nat));
    }
}

/// Each time the direction flips back to `Decreasing` — the body passing
/// again the apsis where its orbit began — the new phase lies within two
/// steps of the starting `(a, 0)` in x and within the y-tolerance in y:
/// every completed loop returns the body close to its starting phase.
pub proof fn lemma_return_to_start_apsis(p: Planet)
    requires
        p.wf(),
        p.direction == Direction::Increasing,
        p.spec_advance().direction == Direction::Decreasing,
    ensures
        p.spec_advance().standard_x > p.semi_major_axis - 2 * p.spec_step_size(),
        p.spec_advance().standard_x > p.semi_major_axis - 2 * STEP_INIT,
        p.spec_advance().standard_x <= p.semi_major_axis,
        0 <= p.spec_advance().standard_y < STEP_TOLERANCE,
{
    lemma_step_search_props(p, p.spec_step_limit());
    let a = p.semi_major_axis as int;
    let b = p.semi_minor_axis as int;
    let x = p.standard_x as int;
    let step = p.spec_step_size();
    lemma_step_stays_in_bounds(p, step);
    let nd = spec_next_direction(p.direction, x, step, a);
    let nx = spec_next_x(x, step, nd);
    // the flip means the step would have crossed the apsis: x + step > a
    assert(spec_crosses_apsis(Direction::Increasing, x, step, a));
    // on the increasing half the phase's y is at or below the axis, on the
    // decreasing half at or above it, so the tolerance on the y-displacement
    // bounds the new y itself
    assert(0 <= a * a - x * x) by (nonlinear_arith)
        requires
            0 < a && -a <= x <= a,
    ;
    assert(0 <= a * a - nx * nx) by (nonlinear_arith)
        requires
            0 < a && -a <= nx <= a,
    ;
    lemma_sqrt_floor_bounds(a * a - x * x);
    lemma_sqrt_floor_bounds(a * a - nx * nx);
    assert(0 <= b * sqrt_floor(a * a - x * x)) by (nonlinear_arith)
        requires
            0 <= b && 0 <= sqrt_floor(a * a - x * x),
    ;
    assert(0 <= b * sqrt_floor(a * a - nx * nx)) by (nonlinear_arith)
        requires
            0 <= b && 0 <= sqrt_floor(a * a - nx * nx),
    ;
    vstd::arithmetic::div_mod::lemma_div_pos_is_pos(b * sqrt_floor(a * a - x * x), a);
    vstd::arithmetic::div_mod::lemma_div_pos_is_pos(b * sqrt_floor(a * a - nx * nx), a);
    assert(p.spec_y_deviation(step) < STEP_TOLERANCE);
}

impl Planet {
    /// Pick the step for this tick under the geometric shrink-until-tolerance
    /// policy: start from the fixed candidate (capped by the semi-major axis
    /// so no apsis crossing can overshoot) and shrink it by a constant factor
    /// until the y-displacement it causes is within tolerance.
    fn get_x_distance(&self) -> (r: i64)
        requires
            self.wf(),
        ensures
            r == self.spec_step_size(),
            0 <= r <= self.spec_step_limit(),
            self.spec_y_deviation(r as int) < STEP_TOLERANCE,
    {
        let mut x_distance: i64 = if STEP_INIT <= self.semi_major_axis {
            STEP_INIT
        } else {
            self.semi_major_axis
        };
        proof {
            lemma_step_search_props(*self, self.spec_step_limit());
        }
        loop
            invariant
                self.wf(),
                0 <= x_distance <= self.spec_step_limit(),
                self.spec_step_search(self.spec_step_limit()) == self.spec_step_search(
                    x_distance as int,
                ),
            decreases x_distance,
        {
            let next_direction = self.get_next_direction(x_distance);
            let next_standard_x = self.get_next_standard_x(x_distance, next_direction);
            proof {
                lemma_step_stays_in_bounds(*self, x_distance as int);
            }
            let next_standard_y = self.get_next_standard_y(next_standard_x, next_direction);

            let y_distance = abs_i64(next_standard_y - self.standard_y);

            if y_distance < STEP_TOLERANCE {
                proof {
                    lemma_step_search_props(*self, x_distance as int);
                }
                return x_distance;
            }
            proof {
                assert(x_distance > 0);
                assert(x_distance * 9 / 10 < x_distance) by (nonlinear_arith)
                    requires
                        x_distance >= 1,
                ;
            }
            x_distance = x_distance * 9 / 10;
        }
    }

    /// Advance the body one tick along its ellipse and return the new
    /// world-space position.  The geometry never changes; the standard-frame
    /// x never leaves the major axis; the direction reverses exactly when the
    /// chosen step would otherwise push x past an apsis; and the per-tick
    /// displacement is bounded by the chosen step and the y-tolerance.
    pub fn tick(&mut self) -> (r: (i64, i64))
        requires
            old(self).wf(),
        ensures
            final(self).wf(),
            *final(self) == old(self).spec_advance(),
            // geometry is constant across any number of ticks
            final(self).radius == old(self).radius,
            final(self).semi_major_axis == old(self).semi_major_axis,
            final(self).semi_minor_axis == old(self).semi_minor_axis,
            final(self).eccentricity == old(self).eccentricity,
            final(self).rotation_cos == old(self).rotation_cos,
            final(self).rotation_sin == old(self).rotation_sin,
            final(self).translation_x == old(self).translation_x,
            final(self).translation_y == old(self).translation_y,
            // the phase stays on the ellipse, within the major axis
            -final(self).semi_major_axis <= final(self).standard_x,
            final(self).standard_x <= final(self).semi_major_axis,
            // the direction flips exactly when the chosen step would cross an apsis
            (final(self).direction != old(self).direction) <==> spec_crosses_apsis(
                old(self).direction,
                old(self).standard_x as int,
                old(self).spec_step_size(),
                old(self).semi_major_axis as int,
            ),
            // per-tick movement is bounded by the step and the tolerance
            abs_int(final(self).standard_x - old(self).standard_x) <= old(self).spec_step_size(),
            old(self).spec_step_size() <= old(self).spec_step_limit(),
            abs_int(final(self).standard_y - old(self).standard_y) < STEP_TOLERANCE,
            // the returned point is the new phase transformed to world space
            r.0 == final(self).spec_world_x(),
            r.1 == final(self).spec_world_y(),
    {
        let x_distance = self.get_x_distance();
        let next_direction = self.get_next_direction(x_distance);
        let next_standard_x = self.get_next_standard_x(x_distance, next_direction);
        proof {
            lemma_step_stays_in_bounds(*self, x_distance as int);
        }
        let next_standard_y = self.get_next_standard_y(next_standard_x, next_direction);
        self.direction = next_direction;
        self.standard_x = next_standard_x;
        self.standard_y = next_standard_y;
        Planet::transform_standard_coords(
            next_standard_x,
            next_standard_y,
            self.translation_x,
            self.translation_y,
            self.rotation_cos,
            self.rotation_sin,
        )
    }

    /// The current phase transformed to world space, without advancing.
    pub fn world_position(&self) -> (r: (i64, i64))
        requires
            self.wf(),
        ensures
            r.0 == self.spec_world_x(),
            r.1 == self.spec_world_y(),
    {
        Planet::transform_standard_coords(
            self.standard_x,
            self.standard_y,
            self.translation_x,
            self.translation_y,
            self.rotation_cos,
            self.rotation_sin,
        )
    }
}

} // verus!
