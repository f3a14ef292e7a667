//! The engine: a torque curve and the current engine speed.
use vstd::prelude::*;
use crate::fixed::{div_toward_zero, in_range, qmul, sat, saturate, tdiv, q_mul, ONE};

verus! {

/// Newton-metres in one pound-foot.
pub const NM_PER_LBFT: i64 = 1_355_820;

/// Torque, in pound-feet, as a function of engine speed: a table of
/// torques sampled every `rpm_step` rev/min from `first_rpm` on, joined by
/// straight lines and held constant before the first sample and after the
/// last. Its values saturate at the range of a quantity.
pub struct TorqueCurve {
    pub first_rpm: u32,
    pub rpm_step: u32,
    pub torques: Vec<i64>,
}

impl TorqueCurve {
    pub open spec fn wf(&self) -> bool {
        self.rpm_step > 0 && self.torques@.len() >= 1
    }

    /// The torque the table gives at engine speed `rpm`.
    pub open spec fn at(&self, rpm: int) -> int {
        let t = self.torques@;
        let last = t.len() - 1;
        let offset = rpm - self.first_rpm;
        let i = offset / (self.rpm_step as int);
        sat(
            if offset <= 0 {
                t[0] as int
            } else if i >= last {
                t[last] as int
            } else {
                t[i] + tdiv((t[i + 1] - t[i]) * (offset % (self.rpm_step as int)), self.rpm_step as int)
            },
        )
    }

    /// A curve through the given samples; `None` where there are none or the
    /// step is zero.
    pub fn new(first_rpm: u32, rpm_step: u32, torques: Vec<i64>) -> (r: Option<TorqueCurve>)
        ensures
            r.is_some() <==> (rpm_step > 0 && torques@.len() >= 1),
            r matches Some(c) ==> c.first_rpm == first_rpm && c.rpm_step == rpm_step && c.torques@ == torques@,
    {
        if rpm_step == 0 || torques.len() == 0 {
            None
        } else {
            Some(TorqueCurve { first_rpm, rpm_step, torques })
        }
    }

    /// The torque, in pound-feet, at engine speed `rpm`.
    pub fn torque_at(&self, rpm: u32) -> (t: i64)
        requires
            self.wf(),
        ensures
            t == self.at(rpm as int),
            in_range(t as int),
    {
        let n = self.torques.len();
        if rpm <= self.first_rpm {
            return saturate(self.torques[0] as i128);
        }
        let offset = rpm - self.first_rpm;
        let i = (offset / self.rpm_step) as usize;
        if i >= n - 1 {
            return saturate(self.torques[n - 1] as i128);
        }
        let k = offset % self.rpm_step;
        let t0 = self.torques[i] as i128;
        let t1 = self.torques[i + 1] as i128;
        assert(-0x1_0000_0000_0000_0000_0000_0000 <= (t1 - t0) * k <= 0x1_0000_0000_0000_0000_0000_0000)
            by (nonlinear_arith)
            requires
                -0x1_0000_0000_0000_0000 <= t1 - t0 <= 0x1_0000_0000_0000_0000,
                0 <= k < 0x1_0000_0000,
        ;
        let q = div_toward_zero((t1 - t0) * k as i128, self.rpm_step as i128);
        saturate(t0 + q)
    }
}

/// An engine: its torque curve, speed range and current speed.
pub struct Engine {
    pub torque_curve: TorqueCurve,
    pub idle_rpm: u32,
    pub max_rpm: u32,
    pub rpm_range: u32,
    pub rpm: u32,
    /// The torque last produced, in newton-metres.
    pub torque: i64,
}

/// The torque, in newton-metres, that `curve` gives at `rpm` under `throttle`.
pub open spec fn engine_torque(curve: TorqueCurve, rpm: int, throttle: int) -> int {
    qmul(qmul(curve.at(rpm), throttle), NM_PER_LBFT as int)
}

impl Engine {
    pub open spec fn wf(&self) -> bool {
        &&& self.torque_curve.wf()
        &&& self.idle_rpm < self.max_rpm
        &&& self.rpm_range == self.max_rpm - self.idle_rpm
        &&& self.idle_rpm <= self.rpm <= self.max_rpm
        &&& in_range(self.torque as int)
    }

    /// An engine at idle that has produced no torque yet.
    pub fn new(idle_rpm: u32, max_rpm: u32, torque_curve: TorqueCurve) -> (r: Engine)
        requires
            idle_rpm < max_rpm,
            torque_curve.wf(),
        ensures
            r.wf(),
            r.torque_curve == torque_curve,
            r.idle_rpm == idle_rpm,
            r.max_rpm == max_rpm,
            r.rpm == idle_rpm,
            r.torque == 0,
    {
        Engine { torque_curve, idle_rpm, max_rpm, rpm_range: max_rpm - idle_rpm, rpm: idle_rpm, torque: 0 }
    }

    /// The torque at the current speed under `throttle` (`ONE` is full
    /// throttle), in newton-metres; it is also kept in `torque`.
    pub fn get_torque(&mut self, throttle: i64) -> (r: i64)
        requires
            old(self).wf(),
            0 <= throttle <= ONE,
        ensures
            r == engine_torque(old(self).torque_curve, old(self).rpm as int, throttle as int),
            *final(self) == (Engine { torque: r, ..*old(self) }),
            final(self).wf(),
    {
        let t = self.torque_curve.torque_at(self.rpm);
        let r = q_mul(q_mul(t, throttle), NM_PER_LBFT);
        self.torque = r;
        r
    }
}

} // verus!
