//! The chassis: both axles, weight transfer and the split of drive torque.
use vstd::prelude::*;
use crate::fixed::{
    adiv, div_away_from_zero, in_range, lemma_adiv_sign, qadd, qmul, qsub, sat, saturate, tdiv, q_add, q_mul,
    q_sub, ONE, LIMIT,
};
use crate::wheels::{inertia_of, lemma_stepped_wf, WheelPair};

verus! {

/// Gravitational acceleration (m/s^2).
pub const GRAVITY: i64 = 9_810_000;

/// Height of the centre of gravity as a share of the car's height.
pub const CG_HEIGHT_RATIO: i64 = 450_000;

/// The heaviest car the chassis can carry (kg): its weight in newtons
/// stays within range.
pub const MAX_WEIGHT: i64 = 10_000_000_000_000;

/// Which axles the engine drives.
#[derive(PartialEq, Eq, Structural, Clone, Copy, Debug)]
pub enum DriveWheels {
    Front,
    Rear,
    All,
}

/// The share of drive torque each axle gets, front then rear.
pub open spec fn torque_split(drive_wheels: DriveWheels) -> (int, int) {
    match drive_wheels {
        DriveWheels::Front => (ONE as int, 0),
        DriveWheels::Rear => (0, ONE as int),
        DriveWheels::All => (ONE / 2, ONE / 2),
    }
}

pub struct Chassis {
    pub front_wheels: WheelPair,
    pub rear_wheels: WheelPair,
    /// Metres.
    pub wheel_base: i64,
    /// Metres.
    pub cg_height: i64,
    /// Normal load on each axle at rest, front then rear (N).
    pub static_load: (i64, i64),
    /// Share of drive torque to each axle, front then rear.
    pub torque_dist: (i64, i64),
    pub drive_wheels: DriveWheels,
}

impl Chassis {
    pub open spec fn wf(&self) -> bool {
        &&& self.front_wheels.wf()
        &&& self.rear_wheels.wf()
        &&& 0 < self.wheel_base <= LIMIT
        &&& 0 <= self.cg_height <= LIMIT
        &&& 0 <= self.static_load.0 < LIMIT
        &&& 0 <= self.static_load.1 < LIMIT
        &&& (self.torque_dist.0 as int, self.torque_dist.1 as int) == torque_split(self.drive_wheels)
        &&& self.front_wheels.is_drive_wheel == (self.drive_wheels != DriveWheels::Rear)
        &&& self.rear_wheels.is_drive_wheel == (self.drive_wheels != DriveWheels::Front)
    }

    /// The car's mass (kg): the static loads over gravity, rounded to the
    /// nearest millionth.
    pub open spec fn mass(&self) -> int {
        ((self.static_load.0 + self.static_load.1) * ONE + GRAVITY / 2) / (GRAVITY as int)
    }

    /// How much normal load moves from the front axle to the rear under
    /// longitudinal force `drive_force`: `cg_height * drive_force /
    /// wheel_base`, rounded away from zero so that any force on a chassis
    /// with a raised centre of gravity moves some load.
    pub open spec fn load_shift(&self, drive_force: int) -> int {
        sat(adiv(self.cg_height * drive_force, self.wheel_base as int))
    }

    /// The drive torque each axle gets, front then rear: the front its
    /// share, the rear the rest, so that the two add up to `torque`.
    pub open spec fn axle_torques(&self, torque: int) -> (int, int) {
        let front = qmul(torque, self.torque_dist.0 as int);
        (front, torque - front)
    }

    /// Normal load on each axle, front then rear, under `drive_force`.
    pub open spec fn loads(&self, drive_force: int) -> (int, int) {
        let shift = self.load_shift(drive_force);
        (qsub(self.static_load.0 as int, shift), qadd(self.static_load.1 as int, shift))
    }

    /// The chassis after one tick: the loads come from the previous tick's
    /// force `drive_force`, and `torque` is split between the axles.
    pub open spec fn stepped(self, drive_force: int, torque: int, velocity: int, dt: int) -> Chassis {
        let (front_load, rear_load) = self.loads(drive_force);
        let (front_torque, rear_torque) = self.axle_torques(torque);
        Chassis {
            front_wheels: self.front_wheels.stepped(front_torque, front_load, velocity, dt),
            rear_wheels: self.rear_wheels.stepped(rear_torque, rear_load, velocity, dt),
            ..self
        }
    }

    /// The force both axles push the car with.
    pub open spec fn pushing_force(&self) -> int {
        qadd(self.front_wheels.pushing_force(), self.rear_wheels.pushing_force())
    }

    /// A chassis for a car of `weight` kg with `weight_ratio` of it on the
    /// front axle, its centre of gravity at `CG_HEIGHT_RATIO` of `height`.
    pub fn new(
        wheel_radius: i64,
        wheel_base: i64,
        height: i64,
        weight_ratio: i64,
        weight: i64,
        wheel_mass: i64,
        drive_wheels: DriveWheels,
    ) -> (r: Chassis)
        requires
            in_range(wheel_radius as int),
            in_range(wheel_mass as int),
            inertia_of(wheel_mass as int, wheel_radius as int) > 0,
            0 < wheel_base <= LIMIT,
            0 <= height <= LIMIT,
            0 <= weight_ratio <= ONE,
            0 <= weight <= MAX_WEIGHT,
        ensures
            r.wf(),
            r.front_wheels == WheelPair::at_rest(
                wheel_radius,
                wheel_mass,
                drive_wheels == DriveWheels::Front || drive_wheels == DriveWheels::All,
            ),
            r.rear_wheels == WheelPair::at_rest(
                wheel_radius,
                wheel_mass,
                drive_wheels == DriveWheels::Rear || drive_wheels == DriveWheels::All,
            ),
            r.wheel_base == wheel_base,
            r.cg_height == qmul(height as int, CG_HEIGHT_RATIO as int),
            r.static_load.0 == qmul(qmul(weight as int, weight_ratio as int), GRAVITY as int),
            r.static_load.1 == qmul(qmul(weight as int, ONE - weight_ratio), GRAVITY as int),
            r.drive_wheels == drive_wheels,
    {
        let front_wheels = WheelPair::new(
            wheel_radius,
            wheel_mass,
            drive_wheels == DriveWheels::Front || drive_wheels == DriveWheels::All,
        );
        let rear_wheels = WheelPair::new(
            wheel_radius,
            wheel_mass,
            drive_wheels == DriveWheels::Rear || drive_wheels == DriveWheels::All,
        );
        assert(0 <= weight * weight_ratio <= weight * ONE) by (nonlinear_arith)
            requires
                0 <= weight,
                0 <= weight_ratio <= ONE,
        ;
        assert(0 <= weight * (ONE - weight_ratio) <= weight * ONE) by (nonlinear_arith)
            requires
                0 <= weight,
                0 <= weight_ratio <= ONE,
        ;
        let front_mass = q_mul(weight, weight_ratio);
        let rear_mass = q_mul(weight, ONE - weight_ratio);
        assert(0 <= front_mass * GRAVITY <= MAX_WEIGHT * GRAVITY) by (nonlinear_arith)
            requires
                0 <= front_mass <= MAX_WEIGHT,
        ;
        assert(0 <= rear_mass * GRAVITY <= MAX_WEIGHT * GRAVITY) by (nonlinear_arith)
            requires
                0 <= rear_mass <= MAX_WEIGHT,
        ;
        let torque_dist: (i64, i64) = match drive_wheels {
            DriveWheels::Front => (ONE, 0),
            DriveWheels::Rear => (0, ONE),
            DriveWheels::All => (ONE / 2, ONE / 2),
        };
        Chassis {
            front_wheels,
            rear_wheels,
            wheel_base,
            cg_height: q_mul(height, CG_HEIGHT_RATIO),
            static_load: (q_mul(front_mass, GRAVITY), q_mul(rear_mass, GRAVITY)),
            torque_dist,
            drive_wheels,
        }
    }

    /// The car's mass (kg), from the static loads.
    pub fn total_mass(&self) -> (m: i64)
        requires
            self.wf(),
        ensures
            m == self.mass(),
            in_range(m as int),
    {
        let total = (self.static_load.0 as u128 + self.static_load.1 as u128) * (ONE as u128);
        let m = (total + (GRAVITY / 2) as u128) / (GRAVITY as u128);
        assert(m <= LIMIT) by (nonlinear_arith)
            requires
                m == (total + GRAVITY / 2) / (GRAVITY as int),
                total <= 2 * LIMIT * ONE,
        ;
        m as i64
    }

    /// Advances both axles by one tick and returns the force they push the
    /// car with; the second component, a lateral force, is always zero.
    pub fn get_wheel_force(&mut self, drive_force: i64, torque: i64, car_velocity: (i64, i64), dt: i64) -> (r: (i64, i64))
        requires
            old(self).wf(),
            in_range(drive_force as int),
            in_range(torque as int),
            in_range(car_velocity.0 as int),
            in_range(dt as int),
        ensures
            *final(self) == old(self).stepped(drive_force as int, torque as int, car_velocity.0 as int, dt as int),
            r.0 == final(self).pushing_force(),
            r.1 == 0,
            final(self).wf(),
            old(self).axle_torques(torque as int).0 + old(self).axle_torques(torque as int).1 == torque,
    {
        proof {
            lemma_torque_split(*self, torque as int);
        }
        let (front_load, rear_load) = self.distribute_weight(drive_force);
        let front_torque = q_mul(torque, self.torque_dist.0);
        let rear_torque = torque - front_torque;
        let front_force = self.front_wheels.get_force(front_torque, front_load, car_velocity, dt);
        let rear_force = self.rear_wheels.get_force(rear_torque, rear_load, car_velocity, dt);
        (q_add(front_force, rear_force), 0)
    }

    fn distribute_weight(&self, drive_force: i64) -> (r: (i64, i64))
        requires
            self.wf(),
            in_range(drive_force as int),
        ensures
            (r.0 as int, r.1 as int) == self.loads(drive_force as int),
            in_range(r.0 as int),
            in_range(r.1 as int),
            self.cg_height > 0 && drive_force > 0 ==> r.0 < self.static_load.0 && r.1 > self.static_load.1,
            self.cg_height > 0 && drive_force < 0 ==> r.0 > self.static_load.0 && r.1 < self.static_load.1,
    {
        proof {
            if self.cg_height > 0 {
                lemma_weight_transfer(*self, drive_force as int);
            }
        }
        let cg = self.cg_height;
        assert(-LIMIT * LIMIT <= cg * drive_force <= LIMIT * LIMIT) by (nonlinear_arith)
            requires
                0 <= cg <= LIMIT,
                -LIMIT <= drive_force <= LIMIT,
        ;
        let moment = cg as i128 * drive_force as i128;
        let shift_to_rear = saturate(div_away_from_zero(moment, self.wheel_base as i128));
        (q_sub(self.static_load.0, shift_to_rear), q_add(self.static_load.1, shift_to_rear))
    }
}

/// Forward force moves normal load from the front axle to the rear, and
/// backward force moves it from the rear to the front, however small the
/// force, on any chassis whose centre of gravity is above the ground.
pub proof fn lemma_weight_transfer(c: Chassis, drive_force: int)
    requires
        c.wf(),
        c.cg_height > 0,
        in_range(drive_force),
    ensures
        drive_force > 0 ==> c.loads(drive_force).0 < c.static_load.0 && c.loads(drive_force).1 > c.static_load.1,
        drive_force < 0 ==> c.loads(drive_force).0 > c.static_load.0 && c.loads(drive_force).1 < c.static_load.1,
{
    let m = c.cg_height * drive_force;
    if drive_force > 0 {
        assert(m > 0) by (nonlinear_arith)
            requires
                m == c.cg_height * drive_force,
                c.cg_height > 0,
                drive_force > 0,
        ;
    } else if drive_force < 0 {
        assert(m < 0) by (nonlinear_arith)
            requires
                m == c.cg_height * drive_force,
                c.cg_height > 0,
                drive_force < 0,
        ;
    }
    lemma_adiv_sign(m, c.wheel_base as int);
}

/// The axles' torques add up to the drive torque, and an axle that is not
/// driven gets none of it.
pub proof fn lemma_torque_split(c: Chassis, torque: int)
    requires
        c.wf(),
        in_range(torque),
    ensures
        c.axle_torques(torque).0 + c.axle_torques(torque).1 == torque,
        in_range(c.axle_torques(torque).0),
        in_range(c.axle_torques(torque).1),
        c.drive_wheels == DriveWheels::Front ==> c.axle_torques(torque).1 == 0,
        c.drive_wheels == DriveWheels::Rear ==> c.axle_torques(torque).0 == 0,
{
    let d = c.torque_dist.0 as int;
    if torque >= 0 {
        assert(0 <= torque * d <= torque * ONE) by (nonlinear_arith)
            requires
                torque >= 0,
                0 <= d <= ONE,
        ;
    } else {
        assert(torque * ONE <= torque * d <= 0) by (nonlinear_arith)
            requires
                torque < 0,
                0 <= d <= ONE,
        ;
    }
    if d == ONE {
        assert(tdiv(torque * ONE, ONE as int) == torque);
    }
}

/// A tick keeps the chassis well formed.
pub proof fn lemma_chassis_stepped_wf(c: Chassis, drive_force: int, torque: int, velocity: int, dt: int)
    requires
        c.wf(),
    ensures
        c.stepped(drive_force, torque, velocity, dt).wf(),
{
    let (front_load, rear_load) = c.loads(drive_force);
    let (front_torque, rear_torque) = c.axle_torques(torque);
    lemma_stepped_wf(c.front_wheels, front_torque, front_load, velocity, dt);
    lemma_stepped_wf(c.rear_wheels, rear_torque, rear_load, velocity, dt);
}

/// At a standstill every axle's slip ratio comes out exactly zero.
pub proof fn lemma_standstill_no_slip_on_axles(c: Chassis, drive_force: int, torque: int, dt: int)
    ensures
        c.stepped(drive_force, torque, 0, dt).front_wheels.slip_ratio == 0,
        c.stepped(drive_force, torque, 0, dt).rear_wheels.slip_ratio == 0,
{
}

} // verus!
