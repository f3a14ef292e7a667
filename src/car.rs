//! The car: the per-tick update that closes the loop from engine torque
//! through the drivetrain and tires back to engine speed.
use vstd::prelude::*;
use crate::chassis::{lemma_torque_split, lemma_chassis_stepped_wf, lemma_standstill_no_slip_on_axles, Chassis, DriveWheels};
use crate::engine::{engine_torque, Engine, NM_PER_LBFT};
use crate::fixed::{in_range, lemma_adiv_sign, tdiv, qadd, qdiv, qmul, qscale, qsub, q_add, q_div, q_mul, q_scale, q_sub, ONE};
use crate::transmission::Transmission;
use crate::wheels::{TractionModel, PEAK_TRACTION, REFERENCE_LOAD};

verus! {

/// Engine speed above which the gearbox shifts up (rev/min).
pub const SHIFT_RPM: u32 = 8000;

/// Share of the wheels' force left after drivetrain losses.
pub const DRIVE_TRAIN_EFFICIENCY: i64 = 750_000;

/// Revolutions per minute in one radian per second: `60 / (2 * pi)`.
pub const RPM_PER_RAD_PER_S: i64 = 9_549_297;

/// Divisor that turns pound-feet times rev/min into horsepower.
pub const HP_DIVISOR: u32 = 5252;

/// Engine speed (rev/min) from a fixed-point speed `raw`: whole rev/min,
/// negative speeds read as zero, then held to `[idle, max]`.
pub open spec fn rpm_within(raw: int, idle: int, max: int) -> int {
    let whole = if raw <= 0 { 0 } else { raw / (ONE as int) };
    if whole < idle {
        idle
    } else if whole > max {
        max
    } else {
        whole
    }
}

/// Speed of the driven wheels (rev/min): of the driven axle, or the mean of
/// both where all wheels are driven.
pub open spec fn drive_wheel_rpm(c: Chassis) -> int {
    match c.drive_wheels {
        DriveWheels::Front => qmul(c.front_wheels.ang_vel as int, RPM_PER_RAD_PER_S as int),
        DriveWheels::Rear => qmul(c.rear_wheels.ang_vel as int, RPM_PER_RAD_PER_S as int),
        DriveWheels::All => qscale(
            qmul(qadd(c.front_wheels.ang_vel as int, c.rear_wheels.ang_vel as int), RPM_PER_RAD_PER_S as int),
            1,
            2,
        ),
    }
}

/// A car: drivetrain, chassis and its motion along the road.
pub struct Car {
    pub engine: Engine,
    pub transmission: Transmission,
    pub chassis: Chassis,
    /// Metres per second, longitudinal then lateral.
    pub velocity: (i64, i64),
    /// Metres per second squared, longitudinal then lateral.
    pub acceleration: (i64, i64),
    /// Kilograms.
    pub mass: i64,
    pub drag_coefficient: i64,
    pub rr_coefficient: i64,
    /// Net longitudinal force of the last tick (N).
    pub drive_force: i64,
    /// Aerodynamic drag of the last tick (N).
    pub drag: i64,
    /// Rolling resistance of the last tick (N).
    pub rolling_res: i64,
    /// Horsepower at the engine's current speed.
    pub hp: i64,
}

impl Car {
    pub open spec fn wf(&self) -> bool {
        &&& self.engine.wf()
        &&& self.transmission.wf()
        &&& self.chassis.wf()
        &&& self.mass > 0
        &&& in_range(self.mass as int)
        &&& in_range(self.velocity.0 as int)
        &&& in_range(self.velocity.1 as int)
        &&& in_range(self.acceleration.0 as int)
        &&& in_range(self.acceleration.1 as int)
        &&& in_range(self.drag_coefficient as int)
        &&& in_range(self.rr_coefficient as int)
        &&& in_range(self.drive_force as int)
        &&& in_range(self.drag as int)
        &&& in_range(self.rolling_res as int)
        &&& in_range(self.hp as int)
    }

    /// The gearbox after the shift check: one gear up when the engine runs
    /// above `SHIFT_RPM` and a higher gear exists.
    pub open spec fn shifted(&self) -> Transmission {
        let t = self.transmission;
        if self.engine.rpm > SHIFT_RPM && t.gear < t.max_gear {
            Transmission { gear: (t.gear + 1) as u8, ..t }
        } else {
            t
        }
    }

    /// Whether the engine sits at its rev limit and so gives no drive.
    pub open spec fn at_rev_limit(&self) -> bool {
        self.engine.rpm == self.engine.max_rpm
    }

    /// Engine torque at full throttle and the current speed (N m).
    pub open spec fn full_torque(&self) -> int {
        engine_torque(self.engine.torque_curve, self.engine.rpm as int, ONE as int)
    }

    /// The chassis after the tick: unchanged at the rev limit, else
    /// advanced under full-throttle torque through the shifted gearbox.
    pub open spec fn next_chassis(&self, dt: int) -> Chassis {
        if self.at_rev_limit() {
            self.chassis
        } else {
            self.chassis.stepped(
                self.drive_force as int,
                qmul(self.full_torque(), self.shifted().ratio()),
                self.velocity.0 as int,
                dt,
            )
        }
    }

    /// The force the wheels push the car with during the tick, before
    /// drivetrain losses.
    pub open spec fn wheel_force(&self, dt: int) -> int {
        if self.at_rev_limit() {
            0
        } else {
            self.next_chassis(dt).pushing_force()
        }
    }

    pub open spec fn drag_at(&self) -> int {
        qmul(qmul(self.velocity.0 as int, self.velocity.0 as int), self.drag_coefficient as int)
    }

    pub open spec fn rolling_res_at(&self) -> int {
        qmul(self.velocity.0 as int, self.rr_coefficient as int)
    }

    /// Net longitudinal force of the tick: the wheels' force after
    /// drivetrain losses, less drag and rolling resistance.
    pub open spec fn net_force(&self, dt: int) -> int {
        qsub(qmul(self.wheel_force(dt), DRIVE_TRAIN_EFFICIENCY as int), qadd(self.drag_at(), self.rolling_res_at()))
    }

    /// The car after one tick of `dt` seconds at full throttle.
    pub open spec fn tick(self, dt: int) -> Car {
        let transmission = self.shifted();
        let chassis = self.next_chassis(dt);
        let net = self.net_force(dt);
        let acceleration = qdiv(net, self.mass as int);
        let velocity = qadd(self.velocity.0 as int, qmul(acceleration, dt));
        let rpm = rpm_within(
            qmul(drive_wheel_rpm(chassis), transmission.ratio()),
            self.engine.idle_rpm as int,
            self.engine.max_rpm as int,
        );
        let torque = engine_torque(self.engine.torque_curve, rpm, ONE as int);
        Car {
            engine: Engine { rpm: rpm as u32, torque: torque as i64, ..self.engine },
            transmission,
            chassis,
            velocity: (velocity as i64, self.velocity.1),
            acceleration: (acceleration as i64, self.acceleration.1),
            drive_force: net as i64,
            drag: self.drag_at() as i64,
            rolling_res: self.rolling_res_at() as i64,
            hp: qscale(qdiv(torque, NM_PER_LBFT as int), rpm, HP_DIVISOR as int) as i64,
            ..self
        }
    }

    /// A car at rest; its mass comes from the chassis' static loads.
    pub fn new(
        engine: Engine,
        transmission: Transmission,
        chassis: Chassis,
        drag_coefficient: i64,
        rr_coefficient: i64,
    ) -> (r: Car)
        requires
            engine.wf(),
            transmission.wf(),
            chassis.wf(),
            chassis.mass() > 0,
            in_range(drag_coefficient as int),
            in_range(rr_coefficient as int),
        ensures
            r.wf(),
            r.engine == engine,
            r.transmission == transmission,
            r.chassis == chassis,
            r.mass == chassis.mass(),
            r.velocity == (0i64, 0i64),
            r.acceleration == (0i64, 0i64),
            r.drag_coefficient == drag_coefficient,
            r.rr_coefficient == rr_coefficient,
            r.drive_force == 0,
            r.drag == 0,
            r.rolling_res == 0,
            r.hp == 0,
    {
        Car {
            mass: chassis.total_mass(),
            engine,
            transmission,
            chassis,
            velocity: (0, 0),
            acceleration: (0, 0),
            drag_coefficient,
            rr_coefficient,
            drive_force: 0,
            drag: 0,
            rolling_res: 0,
            hp: 0,
        }
    }

    /// Advances the car by one tick of `dt` seconds at full throttle.
    pub fn update(&mut self, dt: i64)
        requires
            old(self).wf(),
            in_range(dt as int),
        ensures
            *final(self) == old(self).tick(dt as int),
            final(self).wf(),
            final(self).engine.idle_rpm <= final(self).engine.rpm <= final(self).engine.max_rpm,
            old(self).transmission.gear <= final(self).transmission.gear <= final(self).transmission.max_gear,
    {
        if self.engine.rpm > SHIFT_RPM && self.transmission.gear < self.transmission.max_gear {
            self.transmission.gear += 1;
        }
        if self.engine.rpm == self.engine.max_rpm {
            self.drive_force = 0;
        } else {
            let torque = self.engine.get_torque(ONE);
            let ratio = self.transmission.get_ratio();
            self.drive_force = self.chassis.get_wheel_force(self.drive_force, q_mul(torque, ratio), self.velocity, dt).0;
        }
        self.drive_force = q_mul(self.drive_force, DRIVE_TRAIN_EFFICIENCY);
        self.drag = q_mul(q_mul(self.velocity.0, self.velocity.0), self.drag_coefficient);
        self.rolling_res = q_mul(self.velocity.0, self.rr_coefficient);
        self.drive_force = q_sub(self.drive_force, q_add(self.drag, self.rolling_res));
        self.acceleration.0 = q_div(self.drive_force, self.mass);
        self.velocity.0 = q_add(self.velocity.0, q_mul(self.acceleration.0, dt));
        let wheel_rpm = self.wheel_rpm();
        let raw = q_mul(wheel_rpm, self.transmission.get_ratio());
        self.engine.rpm = engine_rpm(raw, self.engine.idle_rpm, self.engine.max_rpm);
        self.hp = q_scale(q_div(self.engine.get_torque(ONE), NM_PER_LBFT), self.engine.rpm, HP_DIVISOR);
    }

    fn wheel_rpm(&self) -> (r: i64)
        requires
            self.chassis.wf(),
        ensures
            r == drive_wheel_rpm(self.chassis),
            in_range(r as int),
    {
        let c = &self.chassis;
        match c.drive_wheels {
            DriveWheels::Front => q_mul(c.front_wheels.ang_vel, RPM_PER_RAD_PER_S),
            DriveWheels::Rear => q_mul(c.rear_wheels.ang_vel, RPM_PER_RAD_PER_S),
            DriveWheels::All => q_scale(
                q_mul(q_add(c.front_wheels.ang_vel, c.rear_wheels.ang_vel), RPM_PER_RAD_PER_S),
                1,
                2,
            ),
        }
    }
}

/// The car after `n` ticks of `dt` seconds each.
pub open spec fn run(car: Car, dt: int, n: nat) -> Car
    decreases n,
{
    if n == 0 {
        car
    } else {
        run(car, dt, (n - 1) as nat).tick(dt)
    }
}

/// One tick keeps the car well formed, keeps the engine's speed range and
/// the gearbox's top gear, and never lowers the gear.
pub proof fn lemma_tick_wf(car: Car, dt: int)
    requires
        car.wf(),
        in_range(dt),
    ensures
        car.tick(dt).wf(),
        car.tick(dt).engine.idle_rpm == car.engine.idle_rpm,
        car.tick(dt).engine.max_rpm == car.engine.max_rpm,
        car.tick(dt).transmission.max_gear == car.transmission.max_gear,
        car.transmission.gear <= car.tick(dt).transmission.gear,
{
    if !car.at_rev_limit() {
        lemma_chassis_stepped_wf(
            car.chassis,
            car.drive_force as int,
            qmul(car.full_torque(), car.shifted().ratio()),
            car.velocity.0 as int,
            dt,
        );
    }
}

/// However many ticks the car runs, with any step, its engine speed stays
/// within `[idle_rpm, max_rpm]`, and the car stays well formed.
pub proof fn lemma_rpm_stays_in_range(car: Car, dt: int, n: nat)
    requires
        car.wf(),
        in_range(dt),
    ensures
        run(car, dt, n).wf(),
        run(car, dt, n).engine.idle_rpm == car.engine.idle_rpm,
        run(car, dt, n).engine.max_rpm == car.engine.max_rpm,
        car.engine.idle_rpm <= run(car, dt, n).engine.rpm <= car.engine.max_rpm,
    decreases n,
{
    if n > 0 {
        lemma_rpm_stays_in_range(car, dt, (n - 1) as nat);
        lemma_tick_wf(run(car, dt, (n - 1) as nat), dt);
    }
}

/// Over any run of ticks the gear never goes down and never passes the
/// top gear: after `m <= n` ticks it is at most what it is after `n`,
/// which is at most `max_gear`.
pub proof fn lemma_gear_never_goes_down(car: Car, dt: int, m: nat, n: nat)
    requires
        car.wf(),
        in_range(dt),
        m <= n,
    ensures
        run(car, dt, m).transmission.gear <= run(car, dt, n).transmission.gear,
        run(car, dt, n).transmission.gear <= car.transmission.max_gear,
        run(car, dt, n).transmission.max_gear == car.transmission.max_gear,
    decreases n,
{
    if n > 0 {
        lemma_rpm_stays_in_range(car, dt, (n - 1) as nat);
        lemma_tick_wf(run(car, dt, (n - 1) as nat), dt);
        let k: nat = if m < n { m } else { (n - 1) as nat };
        lemma_gear_never_goes_down(car, dt, k, (n - 1) as nat);
    }
}

/// A tick from a standstill leaves both axles with a slip ratio of exactly
/// zero, unless the engine sits at its rev limit, where the wheels are not
/// advanced and keep the slip they had.
pub proof fn lemma_standstill_tick_no_slip(car: Car, dt: int)
    requires
        car.velocity.0 == 0,
        !car.at_rev_limit(),
    ensures
        car.tick(dt).chassis.front_wheels.slip_ratio == 0,
        car.tick(dt).chassis.rear_wheels.slip_ratio == 0,
{
    lemma_standstill_no_slip_on_axles(
        car.chassis,
        car.drive_force as int,
        qmul(car.full_torque(), car.shifted().ratio()),
        dt,
    );
}

/// A car at rest moves off: with the engine short of its rev limit and
/// driving the wheels forward, and standstill-grip tires each under a
/// static load of at least two millionths of a newton, the first tick's
/// net force is positive, and the car's speed after it is positive as soon
/// as that force over the mass, times `dt`, reaches one millionth of a
/// metre per second.
pub proof fn lemma_moves_off_from_rest(car: Car, dt: int)
    requires
        car.wf(),
        in_range(dt),
        car.velocity.0 == 0,
        car.drive_force == 0,
        !car.at_rev_limit(),
        qmul(car.full_torque(), car.shifted().ratio()) >= 2,
        car.chassis.front_wheels.traction_model == TractionModel::StartupGrip,
        car.chassis.rear_wheels.traction_model == TractionModel::StartupGrip,
        car.chassis.static_load.0 >= 2,
        car.chassis.static_load.1 >= 2,
    ensures
        car.net_force(dt) > 0,
        qdiv(car.net_force(dt), car.mass as int) * dt >= ONE ==> car.tick(dt).velocity.0 > 0,
{
    let c = car.chassis;
    let torque = qmul(car.full_torque(), car.shifted().ratio());
    lemma_torque_split(c, torque);
    assert(c.cg_height * 0int == 0) by (nonlinear_arith);
    lemma_adiv_sign(0, c.wheel_base as int);
    assert(c.load_shift(0) == 0);
    assert(c.loads(0) == (c.static_load.0 as int, c.static_load.1 as int));
    if c.drive_wheels == DriveWheels::All {
        assert(tdiv(torque * (ONE / 2), ONE as int) >= 1) by (nonlinear_arith)
            requires
                torque >= 2,
        ;
        assert(tdiv(torque * (ONE / 2), ONE as int) <= torque / 2) by (nonlinear_arith)
            requires
                torque >= 2,
        ;
    } else if c.drive_wheels == DriveWheels::Front {
        assert(tdiv(torque * ONE, ONE as int) == torque);
    }
    let front_load = c.static_load.0 as int;
    let rear_load = c.static_load.1 as int;
    assert(tdiv(PEAK_TRACTION * front_load, REFERENCE_LOAD as int) >= 2) by (nonlinear_arith)
        requires
            front_load >= 2,
    ;
    assert(tdiv(PEAK_TRACTION * rear_load, REFERENCE_LOAD as int) >= 2) by (nonlinear_arith)
        requires
            rear_load >= 2,
    ;
    let stepped = car.next_chassis(dt);
    assert(stepped.front_wheels.pushing_force() >= 0);
    assert(stepped.rear_wheels.pushing_force() >= 0);
    assert(car.wheel_force(dt) >= 2);
    let w = car.wheel_force(dt);
    assert(tdiv(w * DRIVE_TRAIN_EFFICIENCY, ONE as int) >= 1) by (nonlinear_arith)
        requires
            w >= 2,
    ;
    assert(0int * car.drag_coefficient == 0 && 0int * car.rr_coefficient == 0) by (nonlinear_arith);
    assert(car.drag_at() == 0);
    assert(car.rolling_res_at() == 0);
    let a = qdiv(car.net_force(dt), car.mass as int);
    if a * dt >= ONE {
        assert(tdiv(a * dt, ONE as int) >= 1);
    }
}

fn engine_rpm(raw: i64, idle: u32, max: u32) -> (r: u32)
    requires
        in_range(raw as int),
        idle < max,
    ensures
        r == rpm_within(raw as int, idle as int, max as int),
{
    let whole: i64 = if raw <= 0 { 0 } else { raw / ONE };
    if whole < idle as i64 {
        idle
    } else if whole > max as i64 {
        max
    } else {
        whole as u32
    }
}

} // verus!
