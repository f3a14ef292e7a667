use car_sim::fixed::{q_add, q_div, q_mul, q_scale, q_sub, LIMIT, ONE};
use car_sim::{Chassis, DriveWheels, Engine, TorqueCurve, TractionModel, Transmission, WheelPair};

#[test]
fn fixed_point_products_and_quotients() {
    assert_eq!(q_mul(1_500_000, -2_500_000), -3_750_000);
    assert_eq!(q_div(ONE, 3 * ONE), 333_333);
    assert_eq!(q_div(-ONE, 3 * ONE), -333_333);
    assert_eq!(q_scale(7, 1, 2), 3);
    assert_eq!(q_scale(-7, 1, 2), -3);
    assert_eq!(q_add(2 * ONE, 3 * ONE), 5 * ONE);
    assert_eq!(q_sub(2 * ONE, 3 * ONE), -ONE);
}

#[test]
fn fixed_point_rounds_toward_zero() {
    assert_eq!(q_mul(-1, 1), 0);
    assert_eq!(q_mul(-999_999, 1), 0);
    assert_eq!(q_mul(-3, 500_000), -1);
}

#[test]
fn fixed_point_saturates() {
    assert_eq!(q_mul(LIMIT, 2 * ONE), LIMIT);
    assert_eq!(q_mul(LIMIT, -2 * ONE), -LIMIT);
    assert_eq!(q_add(LIMIT, 1), LIMIT);
    assert_eq!(q_sub(-LIMIT, 1), -LIMIT);
    assert_eq!(q_div(LIMIT, 1), LIMIT);
}

#[test]
fn torque_curve_needs_samples_and_a_step() {
    assert!(TorqueCurve::new(1000, 0, vec![ONE]).is_none());
    assert!(TorqueCurve::new(1000, 500, vec![]).is_none());
    let curve = TorqueCurve::new(1000, 500, vec![ONE, 2 * ONE]).unwrap();
    assert_eq!(curve.first_rpm, 1000);
    assert_eq!(curve.rpm_step, 500);
    assert_eq!(curve.torques, vec![ONE, 2 * ONE]);
}

#[test]
fn torque_curve_interpolates_between_samples() {
    let curve = TorqueCurve::new(1000, 500, vec![100 * ONE, 200 * ONE, 150 * ONE]).unwrap();
    assert_eq!(curve.torque_at(0), 100 * ONE);
    assert_eq!(curve.torque_at(1000), 100 * ONE);
    assert_eq!(curve.torque_at(1250), 150 * ONE);
    assert_eq!(curve.torque_at(1500), 200 * ONE);
    assert_eq!(curve.torque_at(1600), 190 * ONE);
    assert_eq!(curve.torque_at(2000), 150 * ONE);
    assert_eq!(curve.torque_at(9000), 150 * ONE);
}

#[test]
fn torque_curve_rounds_toward_zero_and_saturates() {
    let falling = TorqueCurve::new(0, 2, vec![0, -3]).unwrap();
    assert_eq!(falling.torque_at(1), -1);
    let huge = TorqueCurve::new(0, 1, vec![i64::MAX]).unwrap();
    assert_eq!(huge.torque_at(5), LIMIT);
}

#[test]
fn engine_starts_at_idle() {
    let engine = Engine::new(900, 6500, TorqueCurve::new(1000, 1000, vec![100 * ONE]).unwrap());
    assert_eq!(engine.rpm, 900);
    assert_eq!(engine.rpm_range, 5600);
    assert_eq!(engine.torque, 0);
}

#[test]
fn engine_torque_scales_with_throttle_and_units() {
    let mut engine = Engine::new(900, 6500, TorqueCurve::new(1000, 1000, vec![100 * ONE]).unwrap());
    // 50 lb ft in newton-metres.
    assert_eq!(engine.get_torque(500_000), 67_791_000);
    assert_eq!(engine.torque, 67_791_000);
    assert_eq!(engine.get_torque(ONE), 135_582_000);
    assert_eq!(engine.get_torque(0), 0);
    assert_eq!(engine.rpm, 900);
}

#[test]
fn transmission_starts_in_gear_one() {
    let t = Transmission::new(3_590_000, vec![-2_650_000, 0, 3_133_000]);
    assert_eq!(t.gear, 1);
    assert_eq!(t.max_gear, 2);
    assert_eq!(t.get_ratio(), 0);
    let single = Transmission::new(ONE, vec![2 * ONE]);
    assert_eq!(single.gear, 0);
    assert_eq!(single.max_gear, 0);
    assert_eq!(single.get_ratio(), 2 * ONE);
}

#[test]
fn ratio_is_gear_times_final_drive_and_repeatable() {
    let mut t = Transmission::new(3_590_000, vec![-2_650_000, 0, 3_133_000]);
    t.gear = 2;
    let first = t.get_ratio();
    let second = t.get_ratio();
    assert_eq!(first, 11_247_470);
    assert_eq!(first, second);
    t.gear = 0;
    assert_eq!(t.get_ratio(), -9_513_500);
}

#[test]
fn wheel_inertia_is_that_of_a_cylinder() {
    let w = WheelPair::new(254_000, 40 * ONE, true);
    assert_eq!(w.inertia, 1_290_320);
    assert_eq!(w.ang_vel, 0);
    assert_eq!(w.slip_ratio, 0);
    assert_eq!(w.traction, 0);
    assert!(w.is_drive_wheel);
    assert_eq!(w.traction_model, TractionModel::StartupGrip);
}

#[test]
fn wheel_slip_traction_and_spin() {
    let mut w = WheelPair::new(250_000, 20 * ONE, true);
    assert_eq!(w.inertia, 625_000);
    w.ang_vel = 40 * ONE;
    let force = w.get_force(0, 2000 * ONE, (5 * ONE, 0), 10_000);
    // Surface speed 10 m/s at 5 m/s: slip 1, 200 N per 1000 N of load.
    assert_eq!(w.slip_ratio, ONE);
    assert_eq!(w.traction, 400 * ONE);
    assert_eq!(force, 400 * ONE);
    // 100 N m of reaction on 0.625 kg m^2 for 0.01 s.
    assert_eq!(w.ang_vel, 38_400_000);
}

#[test]
fn undriven_wheels_push_nothing() {
    let mut w = WheelPair::new(250_000, 20 * ONE, false);
    w.ang_vel = 40 * ONE;
    let force = w.get_force(0, 2000 * ONE, (5 * ONE, 0), 10_000);
    assert_eq!(w.traction, 400 * ONE);
    assert_eq!(force, 0);
    // Only a driven axle spins up or down.
    assert_eq!(w.ang_vel, 40 * ONE);
}

#[test]
fn tiny_slip_keeps_its_sign() {
    // Surface speed 2.000001 m/s at 2 m/s.
    let mut faster = WheelPair::new(ONE, 2 * ONE, false);
    faster.traction_model = TractionModel::ClampedLinear;
    faster.ang_vel = 2_000_001;
    faster.get_force(0, 1000 * ONE, (2 * ONE, 0), 100);
    assert_eq!(faster.slip_ratio, 1);
    assert_eq!(faster.traction, 200);
    // Surface speed 1.999999 m/s at 2 m/s.
    let mut slower = WheelPair::new(ONE, 2 * ONE, false);
    slower.traction_model = TractionModel::ClampedLinear;
    slower.ang_vel = 1_999_999;
    slower.get_force(0, 1000 * ONE, (2 * ONE, 0), 100);
    assert_eq!(slower.slip_ratio, -1);
    assert_eq!(slower.traction, -200);
    // On a load of one millinewton that braking force is below a
    // micronewton, and rounds to nothing rather than past the peak.
    let mut light = WheelPair::new(ONE, 2 * ONE, false);
    light.traction_model = TractionModel::ClampedLinear;
    light.ang_vel = 1_999_999;
    light.get_force(0, 1000, (2 * ONE, 0), 100);
    assert_eq!(light.slip_ratio, -1);
    assert_eq!(light.traction, 0);
}

#[test]
fn traction_never_passes_the_peak() {
    // Standstill grip on the R8's front static load.
    let mut w = WheelPair::new(254_000, 40 * ONE, true);
    let force = w.get_force(100 * ONE, 6_850_644_768, (0, 0), 100);
    assert_eq!(force, 8_220_773_721);
    assert!(force as i128 * 1000 <= 1200 * 6_850_644_768);
    // Slip 6 on a load of one micronewton.
    let mut light = WheelPair::new(250_000, 20 * ONE, true);
    light.ang_vel = 140 * ONE;
    light.get_force(0, 1, (5 * ONE, 0), 0);
    assert_eq!(light.slip_ratio, 6 * ONE);
    assert_eq!(light.traction, 1);
}

#[test]
fn slip_is_relative_to_speed_in_either_direction() {
    let mut w = WheelPair::new(250_000, 20 * ONE, true);
    w.ang_vel = -40 * ONE;
    w.get_force(0, 1000 * ONE, (-5 * ONE, 0), 0);
    assert_eq!(w.slip_ratio, -ONE);
    assert_eq!(w.traction, -200 * ONE);
}

#[test]
fn traction_saturates_at_peak() {
    let mut w = WheelPair::new(250_000, 20 * ONE, true);
    w.ang_vel = 400 * ONE;
    w.get_force(0, 1000 * ONE, (5 * ONE, 0), 0);
    assert_eq!(w.slip_ratio, 19 * ONE);
    assert_eq!(w.traction, 1200 * ONE);
}

#[test]
fn no_slip_at_standstill() {
    for model in [TractionModel::ClampedLinear, TractionModel::StartupGrip] {
        let mut w = WheelPair::new(250_000, 20 * ONE, true);
        w.traction_model = model;
        w.ang_vel = 30 * ONE;
        w.get_force(100 * ONE, 1000 * ONE, (0, 0), 100);
        assert_eq!(w.slip_ratio, 0);
    }
}

#[test]
fn standstill_grip_only_under_drive_torque() {
    let mut driven = WheelPair::new(250_000, 20 * ONE, true);
    assert_eq!(driven.get_force(100 * ONE, 2000 * ONE, (0, 0), 100), 2400 * ONE);
    let mut coasting = WheelPair::new(250_000, 20 * ONE, true);
    assert_eq!(coasting.get_force(0, 2000 * ONE, (0, 0), 100), 0);
    let mut linear = WheelPair::new(250_000, 20 * ONE, true);
    linear.traction_model = TractionModel::ClampedLinear;
    assert_eq!(linear.get_force(100 * ONE, 2000 * ONE, (0, 0), 100), 0);
}

#[test]
fn chassis_static_loads_and_split() {
    let c = Chassis::new(254_000, 2_649_220, 1_240_000, 440_000, 1_587_120_000, 40_000_000, DriveWheels::Front);
    assert_eq!(c.static_load, (6_850_644_768, 8_719_002_432));
    assert_eq!(c.cg_height, 558_000);
    assert_eq!(c.torque_dist, (ONE, 0));
    assert!(c.front_wheels.is_drive_wheel);
    assert!(!c.rear_wheels.is_drive_wheel);
    assert_eq!(c.total_mass(), 1_587_120_000);
    let rear = Chassis::new(254_000, 2_649_220, 0, 440_000, 1_587_120_000, 40_000_000, DriveWheels::Rear);
    assert_eq!(rear.torque_dist, (0, ONE));
    assert!(!rear.front_wheels.is_drive_wheel);
    assert!(rear.rear_wheels.is_drive_wheel);
    let all = Chassis::new(254_000, 2_649_220, 0, 440_000, 1_587_120_000, 40_000_000, DriveWheels::All);
    assert_eq!(all.torque_dist, (ONE / 2, ONE / 2));
    assert!(all.front_wheels.is_drive_wheel && all.rear_wheels.is_drive_wheel);
}

/// All-wheel drive chassis of 1000 kg, half on each axle (4905 N), with its
/// centre of gravity 0.18 wheel bases high.
fn balanced_chassis() -> Chassis {
    Chassis::new(250_000, 2_500_000, ONE, 500_000, 1000 * ONE, 20 * ONE, DriveWheels::All)
}

#[test]
fn forward_force_moves_load_rearward() {
    let mut c = balanced_chassis();
    let force = c.get_wheel_force(1000 * ONE, 100 * ONE, (0, 0), 100);
    // Standstill grip: 1.2 N of traction per newton of load; 180 N moved.
    assert_eq!(c.front_wheels.traction, 5_670 * ONE);
    assert_eq!(c.rear_wheels.traction, 6_102 * ONE);
    assert_eq!(force, (11_772 * ONE, 0));
}

#[test]
fn backward_force_moves_load_forward() {
    let mut c = balanced_chassis();
    c.get_wheel_force(-1000 * ONE, 100 * ONE, (0, 0), 100);
    assert_eq!(c.front_wheels.traction, 6_102 * ONE);
    assert_eq!(c.rear_wheels.traction, 5_670 * ONE);
}

#[test]
fn no_force_leaves_static_loads() {
    let mut c = balanced_chassis();
    c.get_wheel_force(0, 100 * ONE, (0, 0), 100);
    assert_eq!(c.front_wheels.traction, 5_886 * ONE);
    assert_eq!(c.rear_wheels.traction, 5_886 * ONE);
}

#[test]
fn smallest_force_still_moves_load() {
    let mut tiny = balanced_chassis();
    tiny.get_wheel_force(1, 100 * ONE, (0, 0), 100);
    assert_eq!(tiny.front_wheels.traction, 5_885_999_998);
    assert_eq!(tiny.rear_wheels.traction, 5_886_000_001);
}

#[test]
fn split_torque_adds_up() {
    let mut c = balanced_chassis();
    c.front_wheels.traction_model = TractionModel::ClampedLinear;
    c.rear_wheels.traction_model = TractionModel::ClampedLinear;
    // Three millionths of a newton-metre: one to the front, two to the rear.
    c.get_wheel_force(0, 3, (0, 0), ONE);
    assert_eq!(c.front_wheels.ang_vel, 1);
    assert_eq!(c.rear_wheels.ang_vel, 3);
}

#[test]
fn both_axles_stand_without_slip() {
    let mut c = balanced_chassis();
    c.front_wheels.ang_vel = 12 * ONE;
    c.rear_wheels.ang_vel = -3 * ONE;
    c.get_wheel_force(500 * ONE, 100 * ONE, (0, 0), 100);
    assert_eq!(c.front_wheels.slip_ratio, 0);
    assert_eq!(c.rear_wheels.slip_ratio, 0);
}

#[test]
fn torque_goes_only_to_driven_axles() {
    let mut c = Chassis::new(250_000, 2_500_000, ONE, 500_000, 1000 * ONE, 20 * ONE, DriveWheels::Front);
    c.front_wheels.traction_model = TractionModel::ClampedLinear;
    c.rear_wheels.traction_model = TractionModel::ClampedLinear;
    c.get_wheel_force(0, 100 * ONE, (0, 0), 10_000);
    // 100 N m on 0.625 kg m^2 for 0.01 s, and nothing on the rear.
    assert_eq!(c.front_wheels.ang_vel, 1_600_000);
    assert_eq!(c.rear_wheels.ang_vel, 0);
}
