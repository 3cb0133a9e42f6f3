use vstd::prelude::*;

verus! {

/// The flag of a script device that runs at 1 MHz.
pub const JS_DEVICE_ONE_MHZ: u8 = 0b0000_0001;

/// The flag of a script device whose interrupt is an NMI.
pub const JS_DEVICE_NMI: u8 = 0b0000_0010;

/// The flag of a script device whose interrupt is an IRQ.
pub const JS_DEVICE_IRQ: u8 = 0b0000_0100;

/// The flag of a script device that writes in the second clock phase.
pub const JS_DEVICE_PHASE_2_WRITE: u8 = 0b0001_0000;

/// The bus speed of an I/O device.
#[derive(Clone, Copy, Debug, PartialEq, Eq, Structural)]
pub enum DeviceSpeed {
    OneMhz,
    TwoMhz,
}

/// The CPU interrupt line that a device drives.
#[derive(Clone, Copy, Debug, PartialEq, Eq, Structural)]
pub enum InterruptType {
    IRQ,
    NMI,
}

/// How a script device is attached to the I/O space.
#[derive(Clone, Copy, Debug, PartialEq, Eq, Structural)]
pub struct JsDeviceConfig {
    pub interrupt_type: Option<InterruptType>,
    pub speed: DeviceSpeed,
    pub phase_2_write: bool,
}

/// The speed of a device: 1 MHz or 2 MHz.
pub fn device_speed(one_mhz: bool) -> (speed: DeviceSpeed)
    ensures
        speed == if one_mhz {
            DeviceSpeed::OneMhz
        } else {
            DeviceSpeed::TwoMhz
        },
{
    match one_mhz {
        true => DeviceSpeed::OneMhz,
        false => DeviceSpeed::TwoMhz,
    }
}

/// Decodes the flags of a script device: the interrupt is an IRQ or an NMI
/// when exactly that one of the two flags is set, and none when neither or
/// both are; the speed and the phase-2 write come from their flags.
pub fn decode_js_device_flags(flags: u8) -> (config: JsDeviceConfig)
    ensures
        config.interrupt_type == if flags & JS_DEVICE_IRQ != 0 && flags & JS_DEVICE_NMI == 0 {
            Some(InterruptType::IRQ)
        } else if flags & JS_DEVICE_NMI != 0 && flags & JS_DEVICE_IRQ == 0 {
            Some(InterruptType::NMI)
        } else {
            None::<InterruptType>
        },
        config.speed == if flags & JS_DEVICE_ONE_MHZ != 0 {
            DeviceSpeed::OneMhz
        } else {
            DeviceSpeed::TwoMhz
        },
        config.phase_2_write == (flags & JS_DEVICE_PHASE_2_WRITE != 0),
{
    let interrupt_bits = flags & (JS_DEVICE_IRQ | JS_DEVICE_NMI);
    proof {
        assert(interrupt_bits == JS_DEVICE_IRQ <==> (flags & JS_DEVICE_IRQ != 0 && flags
            & JS_DEVICE_NMI == 0)) by (bit_vector)
            requires
                interrupt_bits == flags & (JS_DEVICE_IRQ | JS_DEVICE_NMI),
        ;
        assert(interrupt_bits == JS_DEVICE_NMI <==> (flags & JS_DEVICE_NMI != 0 && flags
            & JS_DEVICE_IRQ == 0)) by (bit_vector)
            requires
                interrupt_bits == flags & (JS_DEVICE_IRQ | JS_DEVICE_NMI),
        ;
        assert(flags & JS_DEVICE_ONE_MHZ == JS_DEVICE_ONE_MHZ <==> flags & JS_DEVICE_ONE_MHZ != 0)
            by (bit_vector);
    }
    let interrupt_type = if interrupt_bits == JS_DEVICE_IRQ {
        Some(InterruptType::IRQ)
    } else if interrupt_bits == JS_DEVICE_NMI {
        Some(InterruptType::NMI)
    } else {
        None
    };
    let speed = if flags & JS_DEVICE_ONE_MHZ == JS_DEVICE_ONE_MHZ {
        DeviceSpeed::OneMhz
    } else {
        DeviceSpeed::TwoMhz
    };
    JsDeviceConfig { interrupt_type, speed, phase_2_write: flags & JS_DEVICE_PHASE_2_WRITE != 0 }
}

} // verus!
