use mcu_peripherals::device::{BusWrite, Device};
use mcu_peripherals::gpio::{
    create_output, get_idr, get_odr, Gpio, GpioAlternate, GpioMode, GpioOutputMode, GpioPin,
    GpioPull, GpioRegister, GpioSpeed,
};
use mcu_peripherals::registers;

/// Plays the silicon: the input register samples what the outputs drive.
fn loop_back(device: &mut Device, odr: u32, idr: u32) {
    let level = device.read(odr);
    device.load(idr, level);
}

#[test]
fn new_is_pin_a0_as_plain_input() {
    let gpio = Gpio::new();
    assert_eq!(
        gpio,
        Gpio {
            register: GpioRegister::GpioA,
            pin: GpioPin::P0,
            mode: GpioMode::Input,
            output_mode: GpioOutputMode::PushPull,
            pull: GpioPull::NoPull,
            speed: GpioSpeed::LowSpeed,
            alternate: GpioAlternate::AF0,
        }
    );
}

#[test]
fn create_output_defaults_everything_but_port_pin_and_mode() {
    let led = create_output(GpioRegister::GpioK, GpioPin::P15);
    assert_eq!(led.register, GpioRegister::GpioK);
    assert_eq!(led.pin, GpioPin::P15);
    assert_eq!(led.mode, GpioMode::Output);
    assert_eq!(led.output_mode, GpioOutputMode::PushPull);
    assert_eq!(led.pull, GpioPull::NoPull);
    assert_eq!(led.speed, GpioSpeed::LowSpeed);
    assert_eq!(led.alternate, GpioAlternate::AF0);
}

#[test]
fn field_values_of_the_enumerations() {
    assert_eq!(GpioPin::P0.index(), 0);
    assert_eq!(GpioPin::P9.index(), 9);
    assert_eq!(GpioPin::P15.index(), 15);
    assert_eq!(GpioMode::Input.bits(), 0);
    assert_eq!(GpioMode::Output.bits(), 1);
    assert_eq!(GpioMode::Alternate.bits(), 2);
    assert_eq!(GpioMode::Analog.bits(), 3);
    assert_eq!(GpioPull::NoPull.bits(), 0);
    assert_eq!(GpioPull::PullDown.bits(), 1);
    assert_eq!(GpioPull::PullUp.bits(), 2);
    assert_eq!(GpioOutputMode::PushPull.bits(), 0);
    assert_eq!(GpioOutputMode::OpenDrain.bits(), 1);
    assert_eq!(GpioAlternate::AF0.selector(), 0);
    assert_eq!(GpioAlternate::AF7.selector(), 7);
    assert_eq!(GpioAlternate::AF15.selector(), 15);
}

#[test]
fn each_port_has_its_own_registers() {
    let ports = [
        GpioRegister::GpioA,
        GpioRegister::GpioB,
        GpioRegister::GpioC,
        GpioRegister::GpioD,
        GpioRegister::GpioE,
        GpioRegister::GpioH,
        GpioRegister::GpioI,
        GpioRegister::GpioJ,
        GpioRegister::GpioK,
    ];
    let mut seen: Vec<u32> = Vec::new();
    let mut clocks: Vec<u8> = Vec::new();
    for port in ports {
        let map = port.registers();
        for register in
            [map.moder, map.otyper, map.pupdr, map.idr, map.odr, map.afrl, map.afrh]
        {
            assert!(!seen.contains(&register));
            seen.push(register);
        }
        assert!(!clocks.contains(&map.clock_enable));
        clocks.push(map.clock_enable);
    }
    assert_eq!(seen.len(), 63);
    assert_eq!(GpioRegister::GpioH.registers().clock_enable, 7);
    assert_eq!(GpioRegister::GpioA.registers().moder, registers::GPIOA_MODER);
}

#[test]
fn odr_and_idr_of_a_pin() {
    assert_eq!(get_odr(GpioRegister::GpioC, GpioPin::P13), (registers::GPIOC_ODR, 13));
    assert_eq!(get_idr(GpioRegister::GpioC, GpioPin::P13), (registers::GPIOC_IDR, 13));
    assert_eq!(get_odr(GpioRegister::GpioA, GpioPin::P0), (registers::GPIOA_ODR, 0));
    assert_eq!(get_idr(GpioRegister::GpioK, GpioPin::P15), (registers::GPIOK_IDR, 15));
}

#[test]
fn setup_of_an_output_writes_clock_mode_type_pull_in_that_order() {
    let mut device = Device::new();
    let led = create_output(GpioRegister::GpioB, GpioPin::P3);
    led.setup(&mut device);
    assert_eq!(
        device.journal(),
        &vec![
            BusWrite { address: registers::RCC_AHB4ENR, value: 1 << 1 },
            BusWrite { address: registers::GPIOB_MODER, value: 0b01 << 6 },
            BusWrite { address: registers::GPIOB_OTYPER, value: 0 },
            BusWrite { address: registers::GPIOB_PUPDR, value: 0 },
        ]
    );
}

#[test]
fn setup_replaces_the_fields_of_its_pin_only() {
    let mut device = Device::new();
    device.load(registers::RCC_AHB4ENR, 0x0000_0400);
    device.load(registers::GPIOE_MODER, 0xFFFF_FFFF);
    device.load(registers::GPIOE_OTYPER, 0x0000_0000);
    device.load(registers::GPIOE_PUPDR, 0xFFFF_FFFF);
    device.load(registers::GPIOE_AFRL, 0x1234_5678);
    let mut gpio = Gpio::new();
    gpio.register = GpioRegister::GpioE;
    gpio.pin = GpioPin::P5;
    gpio.mode = GpioMode::Input;
    gpio.output_mode = GpioOutputMode::OpenDrain;
    gpio.pull = GpioPull::PullDown;
    gpio.alternate = GpioAlternate::AF9;
    gpio.setup(&mut device);
    assert_eq!(device.read(registers::RCC_AHB4ENR), 0x0000_0410);
    assert_eq!(device.read(registers::GPIOE_MODER), 0xFFFF_F3FF);
    assert_eq!(device.read(registers::GPIOE_OTYPER), 0x0000_0020);
    assert_eq!(device.read(registers::GPIOE_PUPDR), 0xFFFF_F7FF);
    // The selector of a pin that is no alternate function is not written.
    assert_eq!(device.read(registers::GPIOE_AFRL), 0x1234_5678);
    assert_eq!(device.journal().len(), 4);
}

#[test]
fn setup_of_an_alternate_pin_writes_the_low_register_for_pins_below_eight() {
    let mut device = Device::new();
    device.load(registers::GPIOA_AFRL, 0xFFFF_FFFF);
    let mut gpio = Gpio::new();
    gpio.pin = GpioPin::P2;
    gpio.mode = GpioMode::Alternate;
    gpio.alternate = GpioAlternate::AF7;
    gpio.setup(&mut device);
    assert_eq!(device.read(registers::GPIOA_MODER), 0b10 << 4);
    assert_eq!(device.read(registers::GPIOA_AFRL), 0xFFFF_F7FF);
    assert_eq!(device.read(registers::GPIOA_AFRH), 0);
    assert_eq!(device.journal().len(), 5);
    assert_eq!(device.journal()[4].address, registers::GPIOA_AFRL);
}

#[test]
fn setup_of_an_alternate_pin_writes_the_high_register_from_pin_eight() {
    let mut device = Device::new();
    let mut gpio = Gpio::new();
    gpio.register = GpioRegister::GpioD;
    gpio.pin = GpioPin::P9;
    gpio.mode = GpioMode::Alternate;
    gpio.pull = GpioPull::PullUp;
    gpio.alternate = GpioAlternate::AF12;
    gpio.setup(&mut device);
    assert_eq!(device.read(registers::RCC_AHB4ENR), 1 << 3);
    assert_eq!(device.read(registers::GPIOD_MODER), 0b10 << 18);
    assert_eq!(device.read(registers::GPIOD_PUPDR), 0b10 << 18);
    assert_eq!(device.read(registers::GPIOD_AFRH), 12 << 4);
    assert_eq!(device.read(registers::GPIOD_AFRL), 0);
}

#[test]
fn last_setup_of_a_pin_wins() {
    let mut device = Device::new();
    let mut first = create_output(GpioRegister::GpioC, GpioPin::P1);
    first.pull = GpioPull::PullUp;
    let mut second = first;
    second.mode = GpioMode::Analog;
    second.pull = GpioPull::NoPull;
    first.setup(&mut device);
    second.setup(&mut device);
    assert_eq!(device.read(registers::GPIOC_MODER), 0b11 << 2);
    assert_eq!(device.read(registers::GPIOC_PUPDR), 0);
}

#[test]
fn loopback_of_an_output_pin() {
    let mut device = Device::new();
    let led = create_output(GpioRegister::GpioB, GpioPin::P7);
    led.setup(&mut device);

    led.set(&mut device);
    loop_back(&mut device, registers::GPIOB_ODR, registers::GPIOB_IDR);
    assert!(led.get(&device));

    led.clear(&mut device);
    loop_back(&mut device, registers::GPIOB_ODR, registers::GPIOB_IDR);
    assert!(!led.get(&device));

    led.toggle(&mut device);
    loop_back(&mut device, registers::GPIOB_ODR, registers::GPIOB_IDR);
    assert!(led.get(&device));

    led.toggle(&mut device);
    loop_back(&mut device, registers::GPIOB_ODR, registers::GPIOB_IDR);
    assert!(!led.get(&device));
}

#[test]
fn set_clear_toggle_touch_the_output_bit_of_the_pin_only() {
    let mut device = Device::new();
    device.load(registers::GPIOJ_ODR, 0x0000_8001);
    let pin = create_output(GpioRegister::GpioJ, GpioPin::P4);
    pin.set(&mut device);
    assert_eq!(device.read(registers::GPIOJ_ODR), 0x0000_8011);
    pin.toggle(&mut device);
    assert_eq!(device.read(registers::GPIOJ_ODR), 0x0000_8001);
    pin.toggle(&mut device);
    pin.clear(&mut device);
    assert_eq!(device.read(registers::GPIOJ_ODR), 0x0000_8001);
    assert_eq!(device.read(registers::GPIOJ_IDR), 0);
}

#[test]
fn get_reads_the_input_register_whatever_the_configuration() {
    let mut device = Device::new();
    let pin = Gpio { register: GpioRegister::GpioI, pin: GpioPin::P11, ..Gpio::new() };
    assert!(!pin.get(&device));
    device.load(registers::GPIOI_IDR, 1 << 11);
    assert!(pin.get(&device));
    device.load(registers::GPIOI_IDR, !(1u32 << 11));
    assert!(!pin.get(&device));
    assert!(device.journal().is_empty());
}
