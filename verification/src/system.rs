pub mod address_map;
pub mod device_flags;
