//! The gearbox and final drive.
use vstd::prelude::*;
use crate::fixed::{in_range, qmul, q_mul};

verus! {

/// A gearbox: ratios indexed by gear (index 0 is reverse), the final-drive
/// ratio, and the gear engaged.
pub struct Transmission {
    pub gear_ratios: Vec<i64>,
    pub diff_ratio: i64,
    pub gear: u8,
    pub max_gear: u8,
}

/// Gear ratios a gearbox can hold: at least one, at most one per `u8`
/// gear index, each within range.
pub open spec fn valid_ratios(g: Seq<i64>) -> bool {
    &&& 1 <= g.len() <= 256
    &&& forall|i: int| 0 <= i < g.len() ==> in_range(#[trigger] g[i] as int)
}

impl Transmission {
    pub open spec fn wf(&self) -> bool {
        &&& valid_ratios(self.gear_ratios@)
        &&& in_range(self.diff_ratio as int)
        &&& self.max_gear == self.gear_ratios@.len() - 1
        &&& self.gear <= self.max_gear
    }

    /// The overall ratio, engine to wheels, in the engaged gear.
    pub open spec fn ratio(&self) -> int {
        qmul(self.gear_ratios@[self.gear as int] as int, self.diff_ratio as int)
    }

    /// A gearbox in gear 1, or in gear 0 where it has a single ratio.
    pub fn new(diff_ratio: i64, gear_ratios: Vec<i64>) -> (r: Transmission)
        requires
            valid_ratios(gear_ratios@),
            in_range(diff_ratio as int),
        ensures
            r.wf(),
            r.gear_ratios@ == gear_ratios@,
            r.diff_ratio == diff_ratio,
            r.max_gear == gear_ratios@.len() - 1,
            r.gear == (if gear_ratios@.len() >= 2 { 1int } else { 0int }),
    {
        let max_gear = (gear_ratios.len() - 1) as u8;
        let gear: u8 = if max_gear >= 1 { 1 } else { 0 };
        Transmission { max_gear, gear_ratios, diff_ratio, gear }
    }

    /// The overall ratio, engine to wheels, in the engaged gear.
    pub fn get_ratio(&self) -> (r: i64)
        requires
            self.wf(),
        ensures
            r == self.ratio(),
            in_range(r as int),
    {
        q_mul(self.gear_ratios[self.gear as usize], self.diff_ratio)
    }
}

/// The ratio depends on the engaged gear, the gear table and the final
/// drive alone: read twice with none of them changed in between, it gives
/// the same value both times.
pub proof fn lemma_ratio_repeatable(before: &Transmission, after: &Transmission)
    requires
        before.gear == after.gear,
        before.diff_ratio == after.diff_ratio,
        before.gear_ratios@ == after.gear_ratios@,
    ensures
        before.ratio() == after.ratio(),
{
}

} // verus!
