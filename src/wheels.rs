//! One axle's pair of wheels: slip, traction and wheel spin.
use vstd::prelude::*;
use crate::fixed::{
    adiv, div_away_from_zero, div_toward_zero, in_range, lemma_adiv_sign, lemma_tdiv_bounds, magnitude, tdiv, qadd, qdiv, qmul, qscale, qsub, sat, saturate, q_add,
    q_div, q_mul, q_scale, q_sub, LIMIT, ONE,
};

verus! {

/// Traction per unit of slip ratio at the reference load (N).
pub const SLIP_STIFFNESS: i64 = 200_000_000;

/// The most traction a tire gives at the reference load (N).
pub const PEAK_TRACTION: i64 = 1_200_000_000;

/// The normal load at which `SLIP_STIFFNESS` and `PEAK_TRACTION` hold (N).
pub const REFERENCE_LOAD: i64 = 1_000_000_000;

/// How a tire turns slip ratio and normal load into traction.
#[derive(PartialEq, Eq, Structural, Clone, Copy, Debug)]
pub enum TractionModel {
    /// Traction proportional to slip up to the tire's peak, in either
    /// direction, scaled by the normal load. A car at rest has no slip, so
    /// under this law it never starts to move.
    ClampedLinear,
    /// As `ClampedLinear`, but a driven axle of a car at rest gets the peak
    /// traction, as a tire that grips the road before it starts to roll.
    StartupGrip,
}

/// Moment of inertia of a solid cylinder: `mass * radius^2 / 2`.
pub open spec fn inertia_of(mass: int, radius: int) -> int {
    qscale(qmul(mass, qmul(radius, radius)), 1, 2)
}

/// Slip ratio of a wheel turning at `ang_vel` on a car moving at
/// `velocity`: zero at rest, else the wheel's surface speed less the car's
/// speed, over the car's speed. It is computed in one division, rounded
/// away from zero, so that its sign is always that of the difference.
pub open spec fn slip_of(ang_vel: int, radius: int, velocity: int) -> int {
    if velocity == 0 {
        0
    } else {
        sat(adiv(ang_vel * radius - velocity * ONE, if velocity < 0 { -velocity } else { velocity }))
    }
}

/// `x` held within `[-bound, bound]`.
pub open spec fn clamp_to(x: int, bound: int) -> int {
    if x > bound {
        bound
    } else if x < -bound {
        -bound
    } else {
        x
    }
}

/// Traction at the reference load, before scaling by the actual load.
pub open spec fn grip_of(model: TractionModel, torque: int, slip: int, velocity: int) -> int {
    if model == TractionModel::StartupGrip && velocity == 0 && torque > 0 {
        PEAK_TRACTION as int
    } else {
        clamp_to(qmul(SLIP_STIFFNESS as int, slip), PEAK_TRACTION as int)
    }
}

/// Traction under normal load `load`: the grip scaled by the load over the
/// reference load, rounded toward zero so that it never passes the tire's
/// peak for that load.
pub open spec fn traction_of(model: TractionModel, torque: int, load: int, slip: int, velocity: int) -> int {
    sat(tdiv(grip_of(model, torque, slip, velocity) * load, REFERENCE_LOAD as int))
}

/// Angular velocity after `dt` under the net of the drive, traction and
/// brake torques.
pub open spec fn spun_up(
    ang_vel: int,
    inertia: int,
    torque: int,
    traction_torque: int,
    brake_torque: int,
    dt: int,
) -> int {
    qadd(ang_vel, qmul(qdiv(qsub(qsub(torque, traction_torque), brake_torque), inertia), dt))
}

/// An axle's two wheels, taken together.
pub struct WheelPair {
    pub is_drive_wheel: bool,
    pub mass: i64,
    /// Metres.
    pub radius: i64,
    /// Radians per second.
    pub ang_vel: i64,
    pub inertia: i64,
    /// Newtons.
    pub traction: i64,
    pub slip_ratio: i64,
    pub traction_model: TractionModel,
}

impl WheelPair {
    pub open spec fn wf(&self) -> bool {
        &&& self.inertia > 0
        &&& in_range(self.mass as int)
        &&& in_range(self.radius as int)
        &&& in_range(self.ang_vel as int)
        &&& in_range(self.inertia as int)
        &&& in_range(self.traction as int)
        &&& in_range(self.slip_ratio as int)
    }

    /// The wheels after one tick of `dt` under drive torque `torque`,
    /// normal load `load` and car speed `velocity`. Only a driven axle's
    /// spin changes.
    pub open spec fn stepped(self, torque: int, load: int, velocity: int, dt: int) -> WheelPair {
        let slip = slip_of(self.ang_vel as int, self.radius as int, velocity);
        let traction = traction_of(self.traction_model, torque, load, slip, velocity);
        let ang_vel = if self.is_drive_wheel {
            spun_up(self.ang_vel as int, self.inertia as int, torque, qmul(traction, self.radius as int), 0, dt)
        } else {
            self.ang_vel as int
        };
        WheelPair { slip_ratio: slip as i64, traction: traction as i64, ang_vel: ang_vel as i64, ..self }
    }

    /// The force these wheels push the car with: their traction if driven.
    pub open spec fn pushing_force(&self) -> int {
        if self.is_drive_wheel {
            self.traction as int
        } else {
            0
        }
    }

    /// Wheels at rest, with no slip and no traction, under the
    /// standstill-grip traction law.
    pub open spec fn at_rest(radius: i64, mass: i64, is_drive_wheel: bool) -> WheelPair {
        WheelPair {
            is_drive_wheel,
            mass,
            radius,
            ang_vel: 0,
            inertia: inertia_of(mass as int, radius as int) as i64,
            traction: 0,
            slip_ratio: 0,
            traction_model: TractionModel::StartupGrip,
        }
    }

    /// Wheels at rest, with no slip and no traction, under the
    /// standstill-grip traction law.
    pub fn new(radius: i64, mass: i64, is_drive_wheel: bool) -> (r: WheelPair)
        requires
            in_range(radius as int),
            in_range(mass as int),
            inertia_of(mass as int, radius as int) > 0,
        ensures
            r.wf(),
            r == WheelPair::at_rest(radius, mass, is_drive_wheel),
    {
        WheelPair {
            is_drive_wheel,
            mass,
            radius,
            ang_vel: 0,
            inertia: q_scale(q_mul(mass, q_mul(radius, radius)), 1, 2),
            traction: 0,
            slip_ratio: 0,
            traction_model: TractionModel::StartupGrip,
        }
    }

    /// Advances the wheels by one tick and returns the force they push the
    /// car with; nothing else changes their spin, slip or traction. A
    /// driven axle spins up under the drive torque less the traction's
    /// reaction; an undriven one keeps its spin.
    pub fn get_force(&mut self, torque: i64, load: i64, car_velocity: (i64, i64), dt: i64) -> (r: i64)
        requires
            old(self).wf(),
            in_range(torque as int),
            in_range(load as int),
            in_range(car_velocity.0 as int),
            in_range(dt as int),
        ensures
            *final(self) == old(self).stepped(torque as int, load as int, car_velocity.0 as int, dt as int),
            r == final(self).pushing_force(),
            final(self).wf(),
            magnitude(final(self).traction as int) * REFERENCE_LOAD <= PEAK_TRACTION * magnitude(load as int),
            magnitude(r as int) * REFERENCE_LOAD <= PEAK_TRACTION * magnitude(load as int),
    {
        self.slip_ratio = self.get_slip(car_velocity);
        self.traction = self.get_traction(load, self.slip_ratio, torque, car_velocity);
        if self.is_drive_wheel {
            let traction_torque = q_mul(self.traction, self.radius);
            self.calc_wheel_acceleration(traction_torque, torque, 0, dt);
            self.traction
        } else {
            0
        }
    }

    fn get_slip(&self, car_velocity: (i64, i64)) -> (r: i64)
        requires
            self.wf(),
            in_range(car_velocity.0 as int),
        ensures
            r == slip_of(self.ang_vel as int, self.radius as int, car_velocity.0 as int),
            in_range(r as int),
            car_velocity.0 == 0 ==> r == 0,
            car_velocity.0 != 0 ==> (r > 0 <==> self.ang_vel * self.radius > car_velocity.0 * ONE),
            car_velocity.0 != 0 ==> (r < 0 <==> self.ang_vel * self.radius < car_velocity.0 * ONE),
    {
        proof {
            if car_velocity.0 != 0 {
                lemma_slip_sign(self.ang_vel as int, self.radius as int, car_velocity.0 as int);
            }
        }
        let (vel1, _) = car_velocity;
        if vel1 == 0 {
            0
        } else {
            let speed = if vel1 < 0 { -vel1 } else { vel1 };
            let a = self.ang_vel;
            let r = self.radius;
            assert(-LIMIT * LIMIT <= a * r <= LIMIT * LIMIT) by (nonlinear_arith)
                requires
                    -LIMIT <= a <= LIMIT,
                    -LIMIT <= r <= LIMIT,
            ;
            let difference = a as i128 * r as i128 - vel1 as i128 * ONE as i128;
            saturate(div_away_from_zero(difference, speed as i128))
        }
    }

    fn calc_wheel_acceleration(&mut self, traction_torque: i64, torque: i64, brake_torque: i64, dt: i64)
        requires
            old(self).wf(),
            in_range(traction_torque as int),
            in_range(torque as int),
            in_range(brake_torque as int),
            in_range(dt as int),
        ensures
            *final(self) == (WheelPair {
                ang_vel: spun_up(
                    old(self).ang_vel as int,
                    old(self).inertia as int,
                    torque as int,
                    traction_torque as int,
                    brake_torque as int,
                    dt as int,
                ) as i64,
                ..*old(self)
            }),
            final(self).wf(),
    {
        let total_torque = q_sub(q_sub(torque, traction_torque), brake_torque);
        let wheel_acceleration = q_div(total_torque, self.inertia);
        self.ang_vel = q_add(self.ang_vel, q_mul(wheel_acceleration, dt));
    }

    fn get_traction(&self, load: i64, slip_ratio: i64, torque: i64, car_velocity: (i64, i64)) -> (r: i64)
        requires
            in_range(load as int),
            in_range(slip_ratio as int),
        ensures
            r == traction_of(self.traction_model, torque as int, load as int, slip_ratio as int, car_velocity.0 as int),
            in_range(r as int),
            magnitude(r as int) * REFERENCE_LOAD <= PEAK_TRACTION * magnitude(load as int),
            car_velocity.0 != 0 && load > 0 ==> (r > 0 ==> slip_ratio > 0) && (r < 0 ==> slip_ratio < 0),
    {
        proof {
            lemma_traction_cap(self.traction_model, torque as int, load as int, slip_ratio as int, car_velocity.0 as int);
            if car_velocity.0 != 0 && load > 0 {
                lemma_traction_sign(self.traction_model, torque as int, load as int, slip_ratio as int, car_velocity.0 as int);
            }
        }
        let grip = if self.traction_model == TractionModel::StartupGrip && car_velocity.0 == 0 && torque > 0 {
            PEAK_TRACTION
        } else {
            let linear = q_mul(SLIP_STIFFNESS, slip_ratio);
            if linear > PEAK_TRACTION {
                PEAK_TRACTION
            } else if linear < -PEAK_TRACTION {
                -PEAK_TRACTION
            } else {
                linear
            }
        };
        assert(-PEAK_TRACTION * LIMIT <= grip * load <= PEAK_TRACTION * LIMIT) by (nonlinear_arith)
            requires
                -PEAK_TRACTION <= grip <= PEAK_TRACTION,
                -LIMIT <= load <= LIMIT,
        ;
        saturate(div_toward_zero(grip as i128 * load as i128, REFERENCE_LOAD as i128))
    }
}

/// A tick keeps the wheels well formed.
pub proof fn lemma_stepped_wf(w: WheelPair, torque: int, load: int, velocity: int, dt: int)
    requires
        w.wf(),
    ensures
        w.stepped(torque, load, velocity, dt).wf(),
{
}

/// On a moving car the slip ratio is positive exactly when the wheel's
/// surface runs faster than the car, and negative exactly when it runs
/// slower.
pub proof fn lemma_slip_sign(ang_vel: int, radius: int, velocity: int)
    requires
        velocity != 0,
    ensures
        slip_of(ang_vel, radius, velocity) > 0 <==> ang_vel * radius > velocity * ONE,
        slip_of(ang_vel, radius, velocity) < 0 <==> ang_vel * radius < velocity * ONE,
{
    lemma_adiv_sign(ang_vel * radius - velocity * ONE, if velocity < 0 { -velocity } else { velocity });
}

/// Traction never passes the tire's peak for its load: its magnitude is at
/// most `PEAK_TRACTION / REFERENCE_LOAD` (1.2) times the load's.
pub proof fn lemma_traction_cap(model: TractionModel, torque: int, load: int, slip: int, velocity: int)
    ensures
        magnitude(traction_of(model, torque, load, slip, velocity)) * REFERENCE_LOAD
            <= PEAK_TRACTION * magnitude(load),
{
    let grip = grip_of(model, torque, slip, velocity);
    let p = grip * load;
    assert(magnitude(p) <= PEAK_TRACTION * magnitude(load)) by (nonlinear_arith)
        requires
            p == grip * load,
            -PEAK_TRACTION <= grip <= PEAK_TRACTION,
    ;
    lemma_tdiv_bounds(p, p, REFERENCE_LOAD as int);
}

/// On a moving car under a positive load, traction never pulls against the
/// slip: it drives only under positive slip and brakes only under negative
/// slip. It is nonzero once the grip times the load reaches the reference
/// load, which is to say once it reaches one millionth of a newton.
pub proof fn lemma_traction_sign(model: TractionModel, torque: int, load: int, slip: int, velocity: int)
    requires
        velocity != 0,
        load > 0,
    ensures
        traction_of(model, torque, load, slip, velocity) > 0 ==> slip > 0,
        traction_of(model, torque, load, slip, velocity) < 0 ==> slip < 0,
        magnitude(grip_of(model, torque, slip, velocity) * load) >= REFERENCE_LOAD ==> (
        traction_of(model, torque, load, slip, velocity) != 0),
{
    let grip = grip_of(model, torque, slip, velocity);
    assert(slip > 0 ==> grip > 0);
    assert(slip < 0 ==> grip < 0);
    assert(slip == 0 ==> grip == 0);
    if grip > 0 {
        assert(grip * load > 0) by (nonlinear_arith)
            requires
                grip > 0,
                load > 0,
        ;
    } else if grip < 0 {
        assert(grip * load < 0) by (nonlinear_arith)
            requires
                grip < 0,
                load > 0,
        ;
    } else {
        assert(grip * load == 0) by (nonlinear_arith)
            requires
                grip == 0,
        ;
    }
    lemma_tdiv_bounds(grip * load, grip * load, REFERENCE_LOAD as int);
}

/// On a moving car under a load that is not negative, more slip never
/// gives less traction.
pub proof fn lemma_traction_monotone(
    model: TractionModel,
    torque: int,
    load: int,
    slip: int,
    more_slip: int,
    velocity: int,
)
    requires
        velocity != 0,
        load >= 0,
        in_range(slip),
        in_range(more_slip),
        slip <= more_slip,
    ensures
        traction_of(model, torque, load, slip, velocity) <= traction_of(model, torque, load, more_slip, velocity),
{
    assert(SLIP_STIFFNESS * slip <= SLIP_STIFFNESS * more_slip);
    lemma_tdiv_bounds(SLIP_STIFFNESS * slip, SLIP_STIFFNESS * more_slip, ONE as int);
    assert(qmul(SLIP_STIFFNESS as int, slip) <= qmul(SLIP_STIFFNESS as int, more_slip));
    let g1 = grip_of(model, torque, slip, velocity);
    let g2 = grip_of(model, torque, more_slip, velocity);
    assert(g1 <= g2);
    assert(g1 * load <= g2 * load) by (nonlinear_arith)
        requires
            g1 <= g2,
            load >= 0,
    ;
    lemma_tdiv_bounds(g1 * load, g2 * load, REFERENCE_LOAD as int);
}

/// At a standstill the slip ratio is exactly zero, whatever the wheels'
/// spin, torque or load.
pub proof fn lemma_standstill_no_slip(w: WheelPair, torque: int, load: int, dt: int)
    ensures
        w.stepped(torque, load, 0, dt).slip_ratio == 0,
{
}

} // verus!
