pub mod timer_device;
pub mod timer_device_list;
