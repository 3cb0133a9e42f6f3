use vstd::prelude::*;

use crate::timer_devices::timer_device::TimerDevice;

verus! {

/// The timer devices of the machine, each known by the index at which it
/// was added.
pub struct TimerDeviceList<D: TimerDevice> {
    device_list: Vec<D>,
}

impl<D: TimerDevice> TimerDeviceList<D> {
    /// The devices, in the order in which they were added.
    pub closed spec fn view(&self) -> Seq<D> {
        self.device_list@
    }

    pub fn new() -> (list: Self)
        ensures
            list@ == Seq::<D>::empty(),
    {
        TimerDeviceList { device_list: Vec::new() }
    }

    /// Brings every device up to date with the cycle count, in the order in
    /// which they were added. Devices are never added or removed by it.
    pub fn sync(&mut self, cycles: u64)
        ensures
            final(self)@.len() == old(self)@.len(),
            forall|i: int|
                0 <= i < old(self)@.len() ==> #[trigger] old(self)@[i].synced(
                    cycles,
                    &final(self)@[i],
                ),
    {
        let mut i: usize = 0;
        while i < self.device_list.len()
            invariant
                self.device_list@.len() == old(self)@.len(),
                0 <= i <= self.device_list@.len(),
                forall|j: int| 0 <= j < i ==> #[trigger] old(self)@[j].synced(
                    cycles,
                    &self.device_list@[j],
                ),
                forall|j: int| i <= j < self.device_list@.len() ==> #[trigger] self.device_list@[j]
                    == old(self)@[j],
            decreases self.device_list@.len() - i,
        {
            self.device_list[i].sync(cycles);
            i = i + 1;
        }
    }

    /// Adds a device and returns its id: the number of devices before it.
    pub fn add_device(&mut self, device: D) -> (device_id: usize)
        requires
            old(self)@.len() < usize::MAX,
        ensures
            device_id == old(self)@.len(),
            final(self)@ == old(self)@.push(device),
    {
        self.device_list.push(device);
        // devices are never removed, so the id stays valid
        self.device_list.len() - 1
    }

    /// Sets the trigger of the device with id `device_id`; the other
    /// devices are left as they are.
    pub fn set_device_trigger(&mut self, device_id: usize, trigger: Option<u64>)
        requires
            device_id < old(self)@.len(),
        ensures
            final(self)@.len() == old(self)@.len(),
            old(self)@[device_id as int].trigger_set(trigger, &final(self)@[device_id as int]),
            forall|i: int|
                0 <= i < old(self)@.len() && i != device_id ==> #[trigger] final(self)@[i] == old(
                    self,
                )@[i],
    {
        self.device_list[device_id].set_trigger(trigger);
    }
}

impl<D: TimerDevice> Default for TimerDeviceList<D> {
    fn default() -> (list: Self)
        ensures
            list@ == Seq::<D>::empty(),
    {
        TimerDeviceList::new()
    }
}

} // verus!
