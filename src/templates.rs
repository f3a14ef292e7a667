//! Ready-made cars.
use vstd::prelude::*;
use crate::car::Car;
use crate::chassis::{torque_split, Chassis, DriveWheels};
use crate::engine::{Engine, TorqueCurve};
use crate::transmission::Transmission;
use crate::wheels::WheelPair;

verus! {

/// The cars there are presets for.
#[derive(PartialEq, Eq, Structural, Clone, Copy, Debug)]
pub enum CarType {
    AudiR8,
    TeslaSPlaid,
}

impl CarType {
    /// The preset's torque table (lb ft), from 1000 rev/min on.
    pub open spec fn torque_table(self) -> Seq<i64> {
        match self {
            CarType::AudiR8 => seq![
                270007553i64, 272123207, 277897833, 286769242, 298175248, 311553663, 326342300,
                341978970, 357901487, 373547663, 388355311, 401762242, 413206270, 422125207,
                427956866, 430139058, 428109597, 421306295, 409166965, 391129418, 366631468,
                335110927, 296005608,
            ],
            CarType::TeslaSPlaid => seq![
                1050000233i64, 1039991966, 1025545548, 1005007257, 976430102, 937836176, 887762064,
                826066177, 754715368, 677998463, 601712769, 531528703, 471427543, 423041926,
                385987781, 358683365, 339129029, 325409249, 315921055, 309424612, 305006989,
                302016973, 299999606, 298641391,
            ],
        }
    }

    /// Rev/min between the torque table's samples.
    pub open spec fn rpm_step(self) -> u32 {
        match self {
            CarType::AudiR8 => 350,
            CarType::TeslaSPlaid => 1000,
        }
    }

    pub open spec fn wheel_radius(self) -> i64 {
        match self {
            CarType::AudiR8 => 254_000,
            CarType::TeslaSPlaid => 266_700,
        }
    }

    pub open spec fn wheel_base(self) -> i64 {
        match self {
            CarType::AudiR8 => 2_649_220,
            CarType::TeslaSPlaid => 2_959_100,
        }
    }

    /// Height of the centre of gravity: `CG_HEIGHT_RATIO` of the car's
    /// height (1.24 m and 1.431 m).
    pub open spec fn cg_height(self) -> i64 {
        match self {
            CarType::AudiR8 => 558_000,
            CarType::TeslaSPlaid => 643_950,
        }
    }

    /// Normal load on each axle at rest (N), front then rear: 44% of the
    /// R8's 1587.12 kg and 48% of the Plaid's 2184.501 kg on the front.
    pub open spec fn static_load(self) -> (i64, i64) {
        match self {
            CarType::AudiR8 => (6_850_644_768, 8_719_002_432),
            CarType::TeslaSPlaid => (10_286_378_308, 11_143_576_501),
        }
    }

    /// The car's mass (kg).
    pub open spec fn mass(self) -> i64 {
        match self {
            CarType::AudiR8 => 1_587_120_000,
            CarType::TeslaSPlaid => 2_184_501_000,
        }
    }

    /// The preset's gear ratios, reverse first.
    pub open spec fn gear_ratios(self) -> Seq<i64> {
        match self {
            CarType::AudiR8 => seq![-2_650_000i64, 0, 3_133_000, 2_588_000, 1_880_000, 1_140_000, 898_000, 884_000, 653_000],
            CarType::TeslaSPlaid => seq![-1_000_000i64, 0, 1_000_000],
        }
    }

    pub open spec fn diff_ratio(self) -> i64 {
        match self {
            CarType::AudiR8 => 3_590_000,
            CarType::TeslaSPlaid => 7_500_000,
        }
    }

    pub open spec fn max_rpm(self) -> u32 {
        match self {
            CarType::AudiR8 => 8700,
            CarType::TeslaSPlaid => 23300,
        }
    }

    pub open spec fn drive_wheels(self) -> DriveWheels {
        match self {
            CarType::AudiR8 => DriveWheels::Front,
            CarType::TeslaSPlaid => DriveWheels::All,
        }
    }

    pub open spec fn drag_coefficient(self) -> i64 {
        match self {
            CarType::AudiR8 => 340_000,
            CarType::TeslaSPlaid => 240_000,
        }
    }
}

/// Construction from a preset.
pub trait Templates: Sized {
    fn from_template(template: CarType) -> Self;
}

impl Templates for Car {
    /// A preset car at rest, its engine idling at 1000 rev/min, in gear 1,
    /// on two 40 kg pairs of wheels.
    fn from_template(template: CarType) -> (r: Car)
        ensures
            r.wf(),
            r.velocity == (0i64, 0i64),
            r.engine.idle_rpm == 1000,
            r.engine.rpm == 1000,
            r.engine.max_rpm == template.max_rpm(),
            r.engine.torque_curve.first_rpm == 1000,
            r.engine.torque_curve.rpm_step == template.rpm_step(),
            r.engine.torque_curve.torques@ == template.torque_table(),
            r.engine.torque == 0,
            r.transmission.gear_ratios@ == template.gear_ratios(),
            r.transmission.diff_ratio == template.diff_ratio(),
            r.transmission.gear == 1,
            r.transmission.max_gear == template.gear_ratios().len() - 1,
            r.chassis.drive_wheels == template.drive_wheels(),
            r.chassis.front_wheels == WheelPair::at_rest(
                template.wheel_radius(),
                40_000_000,
                template.drive_wheels() != DriveWheels::Rear,
            ),
            r.chassis.rear_wheels == WheelPair::at_rest(
                template.wheel_radius(),
                40_000_000,
                template.drive_wheels() != DriveWheels::Front,
            ),
            r.chassis.wheel_base == template.wheel_base(),
            r.chassis.cg_height == template.cg_height(),
            r.chassis.static_load == template.static_load(),
            (r.chassis.torque_dist.0 as int, r.chassis.torque_dist.1 as int) == torque_split(template.drive_wheels()),
            r.mass == template.mass(),
            r.acceleration == (0i64, 0i64),
            r.drag_coefficient == template.drag_coefficient(),
            r.rr_coefficient == 10_200_000,
            r.drive_force == 0,
            r.drag == 0,
            r.rolling_res == 0,
            r.hp == 0,
    {
        match template {
            // 5.2 litre V10: 0-60 mph in 3.2 to 3.8 s, 200 mph top speed.
            // Torque sampled every 350 rev/min from the fitted curve
            // -4371.57 (rpm / 12600 - 1)^3 - 0.0000588218 (rpm - 1)^2 + rpm - 4082.43.
            CarType::AudiR8 => {
                let torques: Vec<i64> = vec![
                    270007553, 272123207, 277897833, 286769242, 298175248, 311553663, 326342300,
                    341978970, 357901487, 373547663, 388355311, 401762242, 413206270, 422125207,
                    427956866, 430139058, 428109597, 421306295, 409166965, 391129418, 366631468,
                    335110927, 296005608,
                ];
                let torque_curve = TorqueCurve::new(1000, 350, torques).unwrap();
                let engine = Engine::new(1000, 8700, torque_curve);
                let transmission = Transmission::new(
                    3_590_000,
                    vec![-2_650_000, 0, 3_133_000, 2_588_000, 1_880_000, 1_140_000, 898_000, 884_000, 653_000],
                );
                let chassis = Chassis::new(
                    254_000,
                    2_649_220,
                    1_240_000,
                    440_000,
                    1_587_120_000,
                    40_000_000,
                    DriveWheels::Front,
                );
                Car::new(engine, transmission, chassis, 340_000, 10_200_000)
            },
            // Three motors: 0-60 mph in 2 s, 0-200 mph in 16 s, 1020 hp peak.
            // Torque sampled every 1000 rev/min from the fitted curve
            // -387.669 tanh(rpm / 5000 - 1.98572) + 683.534.
            CarType::TeslaSPlaid => {
                let torques: Vec<i64> = vec![
                    1050000233, 1039991966, 1025545548, 1005007257, 976430102, 937836176, 887762064,
                    826066177, 754715368, 677998463, 601712769, 531528703, 471427543, 423041926,
                    385987781, 358683365, 339129029, 325409249, 315921055, 309424612, 305006989,
                    302016973, 299999606, 298641391,
                ];
                let torque_curve = TorqueCurve::new(1000, 1000, torques).unwrap();
                let engine = Engine::new(1000, 23300, torque_curve);
                let transmission = Transmission::new(7_500_000, vec![-1_000_000, 0, 1_000_000]);
                let chassis = Chassis::new(
                    266_700,
                    2_959_100,
                    1_431_000,
                    480_000,
                    2_184_501_000,
                    40_000_000,
                    DriveWheels::All,
                );
                Car::new(engine, transmission, chassis, 240_000, 10_200_000)
            },
        }
    }
}

} // verus!
