use rustboyadvance_core::gpio::Gpio;
use rustboyadvance_core::gpio::GpioDevice;
use rustboyadvance_core::gpio::GpioDirection;
use rustboyadvance_core::gpio::GpioPort;
use rustboyadvance_core::gpio::GpioState;
use rustboyadvance_core::gpio::GPIO_PORT_CONTROL;
use rustboyadvance_core::gpio::GPIO_PORT_DATA;
use rustboyadvance_core::gpio::GPIO_PORT_DIRECTION;

/// A device that remembers what was written to it and answers with the
/// number of lines that lead in.
struct Latch {
    last: u16,
    writes: u32,
}

impl GpioDevice for Latch {
    // The two names that the port's contracts use for what the device does;
    // they are never called.
    fn answer(&self, _gpio_state: &GpioState) -> u16 {
        unreachable!()
    }

    fn after_write(&self, _gpio_state: &GpioState, _data: u16) -> Self {
        unreachable!()
    }

    fn write(&mut self, _gpio_state: &GpioState, data: u16) {
        self.last = data;
        self.writes += 1;
    }

    fn read(&self, gpio_state: &GpioState) -> u16 {
        let inputs = gpio_state.iter().filter(|d| **d == GpioDirection::In).count() as u16;
        (self.last << 4) | inputs
    }
}

#[test]
fn test_gpio() {
    let mut gpio = Gpio::new_rtc(Latch { last: 0, writes: 0 });
    assert!(!gpio.is_readable());
    assert_eq!(gpio.read(GPIO_PORT_CONTROL), 0);
    assert_eq!(gpio.read(GPIO_PORT_DIRECTION), 0b1111);
    assert_eq!(gpio.read(GPIO_PORT_DATA), 0);

    gpio.write(GPIO_PORT_CONTROL, 1);
    assert!(gpio.is_readable());
    assert_eq!(gpio.read(GPIO_PORT_CONTROL), 1);

    gpio.write(GPIO_PORT_DIRECTION, 0b0101);
    assert_eq!(gpio.read(GPIO_PORT_DIRECTION), 0b0101);
    gpio.write(GPIO_PORT_DATA, 0x3);
    assert_eq!(gpio.read(GPIO_PORT_DATA), (0x3 << 4) | 2);

    gpio.write(GPIO_PORT_DIRECTION, 0xfff0);
    assert_eq!(gpio.read(GPIO_PORT_DIRECTION), 0);
    assert_eq!(gpio.read(GPIO_PORT_DATA), (0x3 << 4) | 4);

    gpio.write(GPIO_PORT_CONTROL, 0);
    assert!(!gpio.is_readable());
}

#[test]
fn gpio_without_device_reads_zero_data() {
    let mut gpio: Gpio<Latch> = Gpio::new_none();
    gpio.write(GPIO_PORT_DATA, 0xffff);
    assert_eq!(gpio.read(GPIO_PORT_DATA), 0);
    assert_eq!(gpio.read(GPIO_PORT_DIRECTION), 0b1111);
    gpio.write(GPIO_PORT_DIRECTION, 0b1000);
    assert_eq!(gpio.read(GPIO_PORT_DIRECTION), 0b1000);
}

#[test]
fn gpio_other_addresses_read_zero_and_ignore_writes() {
    let mut gpio: Gpio<Latch> = Gpio::new_none();
    gpio.write(0xca, 0xffff);
    gpio.write(0, 1);
    assert_eq!(gpio.read(0xca), 0);
    assert_eq!(gpio.read(0xc5), 0);
    assert!(!gpio.is_readable());
    assert_eq!(gpio.read(GPIO_PORT_DIRECTION), 0b1111);
}

#[test]
fn gpio_port_keeps_the_lowest_bit() {
    let mut port = GpioPort::new_low();
    assert_eq!(port.get(), 0);
    assert!(port.low());
    assert!(!port.high());
    port.set(3);
    assert_eq!(port.get(), 1);
    assert!(port.high());
    port.set(0xfffe);
    assert_eq!(port.get(), 0);
    assert!(port.low());
    assert_eq!(GpioPort::new_high().get(), 1);
}
