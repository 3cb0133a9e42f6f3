use vstd::prelude::*;

verus! {

/// A device that wants to act at a cycle count of its choosing. What a
/// device does when it is synced or given a trigger is up to the device:
/// each implementation says so through the two relations below.
pub trait TimerDevice {
    /// `after` is this device after it was brought up to date with the
    /// cycle count `cycles`.
    spec fn synced(&self, cycles: u64, after: &Self) -> bool;

    /// `after` is this device after its trigger was set to `trigger`.
    spec fn trigger_set(&self, trigger: Option<u64>, after: &Self) -> bool;

    /// Brings the device up to date with the machine's cycle count.
    fn sync(&mut self, cycles: u64)
        ensures
            old(self).synced(cycles, final(self)),
    ;

    /// Sets the cycle count at which the device next acts, or none.
    fn set_trigger(&mut self, trigger: Option<u64>)
        ensures
            old(self).trigger_set(trigger, final(self)),
    ;
}

} // verus!
