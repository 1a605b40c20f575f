//! The general-purpose port of a cartridge: four lines with a direction each,
//! a control register that opens the port for reading, and an optional device
//! on the lines.

use crate::bits::bit_of;
use crate::bits::get_bit;
use crate::bits::set_bit;
use crate::bits::with_bit;
use vstd::prelude::*;

verus! {

/// Cartridge address of the data register of the port.
pub const GPIO_PORT_DATA: u32 = 0xC4;

/// Cartridge address of the direction register of the port.
pub const GPIO_PORT_DIRECTION: u32 = 0xC6;

/// Cartridge address of the control register of the port.
pub const GPIO_PORT_CONTROL: u32 = 0xC8;

/// The logical level of one line: 0 is low, 1 is high.
#[derive(Copy, Clone, Debug)]
pub struct GpioPort(u16);

impl GpioPort {
    /// The level held: 0 or 1.
    pub closed spec fn level(&self) -> u16 {
        self.0
    }

    /// A line at low level.
    pub fn new_low() -> (r: GpioPort)
        ensures
            r.level() == 0,
    {
        GpioPort(0)
    }

    /// A line at high level.
    pub fn new_high() -> (r: GpioPort)
        ensures
            r.level() == 1,
    {
        GpioPort(1)
    }

    /// The level of the line.
    pub fn get(&self) -> (r: u16)
        ensures
            r == self.level(),
    {
        self.0
    }

    /// Sets the level to the lowest bit of `value`.
    pub fn set(&mut self, value: u16)
        ensures
            final(self).level() == value & 1,
            final(self).level() == value % 2,
    {
        assert(value & 1 == value % 2) by (bit_vector);
        self.0 = value & 1;
    }

    /// Whether the line is high.
    pub fn high(&self) -> (r: bool)
        ensures
            r == (self.level() != 0),
    {
        self.0 != 0
    }

    /// Whether the line is low.
    pub fn low(&self) -> (r: bool)
        ensures
            r == (self.level() == 0),
    {
        self.0 == 0
    }
}

/// Direction of one line of the port.
#[derive(Copy, Clone, Debug, PartialEq, Eq, Structural)]
pub enum GpioDirection {
    /// From the device to the console.
    In,
    /// From the console to the device.
    Out,
}

/// The directions of the four lines, line 0 first.
pub type GpioState = [GpioDirection; 4];

/// Whether the console may read the port back.
#[derive(Copy, Clone, Debug, PartialEq, Eq, Structural)]
pub enum GpioPortControl {
    WriteOnly,
    ReadWrite,
}

/// A device on the lines of the port.
///
/// What such a device answers and how it changes is its own matter; the two
/// spec functions give both a name, so that the port's contracts can say what
/// they hand on.
pub trait GpioDevice: Sized {
    /// What the device puts on the lines when the console reads the data
    /// register.
    spec fn answer(&self, gpio_state: &GpioState) -> u16;

    /// The device after the console wrote `data` to the data register.
    spec fn after_write(&self, gpio_state: &GpioState, data: u16) -> Self;

    /// Takes a write to the data register.
    fn write(&mut self, gpio_state: &GpioState, data: u16)
        ensures
            *final(self) == old(self).after_write(gpio_state, data),
    ;

    /// Answers a read of the data register.
    fn read(&self, gpio_state: &GpioState) -> (r: u16)
        ensures
            r == self.answer(gpio_state),
    ;
}

/// The direction register for the first `n` lines: bit `i` is set where line
/// `i` leads out.
pub open spec fn pack_directions(direction: GpioState, n: nat) -> u16
    decreases n,
{
    if n == 0 {
        0u16
    } else {
        with_bit(
            pack_directions(direction, (n - 1) as nat),
            (n - 1) as usize,
            direction[n - 1] == GpioDirection::Out,
        )
    }
}

/// The direction that a bit of the direction register stands for.
pub open spec fn direction_of(value: u16, line: usize) -> GpioDirection {
    if bit_of(value, line) {
        GpioDirection::Out
    } else {
        GpioDirection::In
    }
}

/// The control register's value.
pub open spec fn control_bits(control: GpioPortControl) -> u16 {
    match control {
        GpioPortControl::WriteOnly => 0,
        GpioPortControl::ReadWrite => 1,
    }
}

/// The port of a cartridge, with the device `D` on its lines if there is one.
pub struct Gpio<D: GpioDevice> {
    rtc: Option<D>,
    direction: GpioState,
    control: GpioPortControl,
}

impl<D: GpioDevice> Gpio<D> {
    /// The device on the lines.
    pub closed spec fn device(&self) -> Option<D> {
        self.rtc
    }

    /// The directions of the four lines.
    pub closed spec fn direction(&self) -> GpioState {
        self.direction
    }

    /// The state of the control register.
    pub closed spec fn control(&self) -> GpioPortControl {
        self.control
    }

    /// A port with nothing on its lines: all lines lead out, and the port is
    /// write-only.
    pub fn new_none() -> (r: Self)
        ensures
            r.device().is_none(),
            forall|i: int| 0 <= i < 4 ==> r.direction()[i] == GpioDirection::Out,
            r.control() == GpioPortControl::WriteOnly,
    {
        Gpio {
            rtc: None,
            direction: [GpioDirection::Out, GpioDirection::Out, GpioDirection::Out, GpioDirection::Out],
            control: GpioPortControl::WriteOnly,
        }
    }

    /// A port with the device `rtc` on its lines: all lines lead out, and the
    /// port is write-only.
    pub fn new_rtc(rtc: D) -> (r: Self)
        ensures
            r.device() == Some(rtc),
            forall|i: int| 0 <= i < 4 ==> r.direction()[i] == GpioDirection::Out,
            r.control() == GpioPortControl::WriteOnly,
    {
        Gpio {
            rtc: Some(rtc),
            direction: [GpioDirection::Out, GpioDirection::Out, GpioDirection::Out, GpioDirection::Out],
            control: GpioPortControl::WriteOnly,
        }
    }

    /// Whether the console may read the port.
    pub fn is_readable(&self) -> (r: bool)
        ensures
            r == (self.control() != GpioPortControl::WriteOnly),
    {
        self.control != GpioPortControl::WriteOnly
    }

    /// What a read of the register at `addr` yields.
    pub open spec fn spec_read(&self, addr: u32) -> u16 {
        if addr == GPIO_PORT_DATA {
            match self.device() {
                Some(rtc) => rtc.answer(&self.direction()),
                None => 0,
            }
        } else if addr == GPIO_PORT_DIRECTION {
            pack_directions(self.direction(), 4)
        } else if addr == GPIO_PORT_CONTROL {
            control_bits(self.control())
        } else {
            0
        }
    }

    /// Reads the register at `addr`.
    ///
    /// The data register gives what the device answers, or 0 without a device;
    /// the direction register has bit `i` set where line `i` leads out; the
    /// control register is 1 when the port is readable. Any other address
    /// reads as 0.
    pub fn read(&self, addr: u32) -> (r: u16)
        ensures
            r == self.spec_read(addr),
    {
        if addr == GPIO_PORT_DATA {
            match &self.rtc {
                Some(rtc) => rtc.read(&self.direction),
                None => 0,
            }
        } else if addr == GPIO_PORT_DIRECTION {
            let mut direction: u16 = 0;
            for i in 0..4usize
                invariant
                    direction == pack_directions(self.direction, i as nat),
            {
                direction = set_bit(direction, i, self.direction[i] == GpioDirection::Out);
            }
            direction
        } else if addr == GPIO_PORT_CONTROL {
            match self.control {
                GpioPortControl::WriteOnly => 0,
                GpioPortControl::ReadWrite => 1,
            }
        } else {
            0
        }
    }

    /// Writes `value` to the register at `addr`.
    ///
    /// The data register hands the value to the device, if there is one; the
    /// direction register sets line `i` to lead out where bit `i` of the value
    /// is set and in where it is clear; the control register makes the port
    /// readable for any value but 0. A write to any other address changes
    /// nothing.
    pub fn write(&mut self, addr: u32, value: u16)
        ensures
            addr == GPIO_PORT_DATA ==> {
                &&& final(self).direction() == old(self).direction()
                &&& final(self).control() == old(self).control()
                &&& final(self).device() == match old(self).device() {
                    Some(rtc) => Some(rtc.after_write(&old(self).direction(), value)),
                    None => None,
                }
            },
            addr == GPIO_PORT_DIRECTION ==> {
                &&& forall|i: int|
                    0 <= i < 4 ==> #[trigger] final(self).direction()[i] == direction_of(
                        value,
                        i as usize,
                    )
                &&& final(self).control() == old(self).control()
                &&& final(self).device() == old(self).device()
            },
            addr == GPIO_PORT_CONTROL ==> {
                &&& final(self).direction() == old(self).direction()
                &&& final(self).control() == if value != 0 {
                    GpioPortControl::ReadWrite
                } else {
                    GpioPortControl::WriteOnly
                }
                &&& final(self).device() == old(self).device()
            },
            addr != GPIO_PORT_DATA && addr != GPIO_PORT_DIRECTION && addr != GPIO_PORT_CONTROL ==> {
                &&& final(self).direction() == old(self).direction()
                &&& final(self).control() == old(self).control()
                &&& final(self).device() == old(self).device()
            },
    {
        if addr == GPIO_PORT_DATA {
            if let Some(rtc) = &mut self.rtc {
                rtc.write(&self.direction, value);
            }
        } else if addr == GPIO_PORT_DIRECTION {
            for i in 0..4usize
                invariant
                    forall|j: int|
                        0 <= j < i ==> #[trigger] self.direction[j] == direction_of(
                            value,
                            j as usize,
                        ),
                    self.control == old(self).control,
                    self.rtc == old(self).rtc,
            {
                if get_bit(value, i) {
                    self.direction[i] = GpioDirection::Out;
                } else {
                    self.direction[i] = GpioDirection::In;
                }
            }
        } else if addr == GPIO_PORT_CONTROL {
            self.control = if value != 0 {
                GpioPortControl::ReadWrite
            } else {
                GpioPortControl::WriteOnly
            };
        }
    }
}

} // verus!
