//! GPIO pins: a descriptor of one pin, the sequence that applies it to the
//! port's registers, and the pin's logic level.

use crate::device::{Device, DeviceState};
use crate::register_tools::{
    clear_bit, get_bit, lemma_set_bit_idempotent, lemma_toggle_bit_twice, set_bit, spec_clear_bit,
    spec_get_bit, toggle_bit, write_bits,
};
use crate::registers;
use vstd::prelude::*;

verus! {

/// The GPIO ports of the chip.
#[derive(Clone, Copy, PartialEq, Eq, PartialOrd, Ord, Debug, Structural)]
pub enum GpioRegister {
    GpioA,
    GpioB,
    GpioC,
    GpioD,
    GpioE,
    GpioH,
    GpioI,
    GpioJ,
    GpioK,
}

/// The sixteen pins of a port.
#[derive(Clone, Copy, PartialEq, Eq, PartialOrd, Ord, Debug, Structural)]
pub enum GpioPin {
    P0,
    P1,
    P2,
    P3,
    P4,
    P5,
    P6,
    P7,
    P8,
    P9,
    P10,
    P11,
    P12,
    P13,
    P14,
    P15,
}

/// What a pin is used for.
#[derive(Clone, Copy, PartialEq, Eq, PartialOrd, Ord, Debug, Structural)]
pub enum GpioMode {
    Input,
    Output,
    Alternate,
    Analog,
}

/// The resistor that holds an undriven pin.
#[derive(Clone, Copy, PartialEq, Eq, PartialOrd, Ord, Debug, Structural)]
pub enum GpioPull {
    NoPull,
    PullDown,
    PullUp,
}

/// How an output pin is driven.
#[derive(Clone, Copy, PartialEq, Eq, PartialOrd, Ord, Debug, Structural)]
pub enum GpioOutputMode {
    PushPull,
    OpenDrain,
}

/// The slew rate of an output pin.
#[derive(Clone, Copy, PartialEq, Eq, PartialOrd, Ord, Debug, Structural)]
pub enum GpioSpeed {
    LowSpeed,
    MediumSpeed,
    HighSpeed,
    VeryHighSpeed,
}

/// The peripheral signal that an alternate-function pin carries.
#[derive(Clone, Copy, PartialEq, Eq, PartialOrd, Ord, Debug, Structural)]
pub enum GpioAlternate {
    AF0,
    AF1,
    AF2,
    AF3,
    AF4,
    AF5,
    AF6,
    AF7,
    AF8,
    AF9,
    AF10,
    AF11,
    AF12,
    AF13,
    AF14,
    AF15,
}

/// The registers of one port, and the bit that enables its clock.
#[derive(Clone, Copy, PartialEq, Eq, Debug, Structural)]
pub struct PortRegisters {
    pub clock_enable: u8,
    pub moder: u32,
    pub otyper: u32,
    pub pupdr: u32,
    pub idr: u32,
    pub odr: u32,
    pub afrl: u32,
    pub afrh: u32,
}

impl GpioRegister {
    /// The registers of this port.
    pub open spec fn spec_registers(self) -> PortRegisters {
        match self {
            GpioRegister::GpioA => PortRegisters {
                clock_enable: registers::AHB4ENR_GPIOAEN,
                moder: registers::GPIOA_MODER,
                otyper: registers::GPIOA_OTYPER,
                pupdr: registers::GPIOA_PUPDR,
                idr: registers::GPIOA_IDR,
                odr: registers::GPIOA_ODR,
                afrl: registers::GPIOA_AFRL,
                afrh: registers::GPIOA_AFRH,
            },
            GpioRegister::GpioB => PortRegisters {
                clock_enable: registers::AHB4ENR_GPIOBEN,
                moder: registers::GPIOB_MODER,
                otyper: registers::GPIOB_OTYPER,
                pupdr: registers::GPIOB_PUPDR,
                idr: registers::GPIOB_IDR,
                odr: registers::GPIOB_ODR,
                afrl: registers::GPIOB_AFRL,
                afrh: registers::GPIOB_AFRH,
            },
            GpioRegister::GpioC => PortRegisters {
                clock_enable: registers::AHB4ENR_GPIOCEN,
                moder: registers::GPIOC_MODER,
                otyper: registers::GPIOC_OTYPER,
                pupdr: registers::GPIOC_PUPDR,
                idr: registers::GPIOC_IDR,
                odr: registers::GPIOC_ODR,
                afrl: registers::GPIOC_AFRL,
                afrh: registers::GPIOC_AFRH,
            },
            GpioRegister::GpioD => PortRegisters {
                clock_enable: registers::AHB4ENR_GPIODEN,
                moder: registers::GPIOD_MODER,
                otyper: registers::GPIOD_OTYPER,
                pupdr: registers::GPIOD_PUPDR,
                idr: registers::GPIOD_IDR,
                odr: registers::GPIOD_ODR,
                afrl: registers::GPIOD_AFRL,
                afrh: registers::GPIOD_AFRH,
            },
            GpioRegister::GpioE => PortRegisters {
                clock_enable: registers::AHB4ENR_GPIOEEN,
                moder: registers::GPIOE_MODER,
                otyper: registers::GPIOE_OTYPER,
                pupdr: registers::GPIOE_PUPDR,
                idr: registers::GPIOE_IDR,
                odr: registers::GPIOE_ODR,
                afrl: registers::GPIOE_AFRL,
                afrh: registers::GPIOE_AFRH,
            },
            GpioRegister::GpioH => PortRegisters {
                clock_enable: registers::AHB4ENR_GPIOHEN,
                moder: registers::GPIOH_MODER,
                otyper: registers::GPIOH_OTYPER,
                pupdr: registers::GPIOH_PUPDR,
                idr: registers::GPIOH_IDR,
                odr: registers::GPIOH_ODR,
                afrl: registers::GPIOH_AFRL,
                afrh: registers::GPIOH_AFRH,
            },
            GpioRegister::GpioI => PortRegisters {
                clock_enable: registers::AHB4ENR_GPIOIEN,
                moder: registers::GPIOI_MODER,
                otyper: registers::GPIOI_OTYPER,
                pupdr: registers::GPIOI_PUPDR,
                idr: registers::GPIOI_IDR,
                odr: registers::GPIOI_ODR,
                afrl: registers::GPIOI_AFRL,
                afrh: registers::GPIOI_AFRH,
            },
            GpioRegister::GpioJ => PortRegisters {
                clock_enable: registers::AHB4ENR_GPIOJEN,
                moder: registers::GPIOJ_MODER,
                otyper: registers::GPIOJ_OTYPER,
                pupdr: registers::GPIOJ_PUPDR,
                idr: registers::GPIOJ_IDR,
                odr: registers::GPIOJ_ODR,
                afrl: registers::GPIOJ_AFRL,
                afrh: registers::GPIOJ_AFRH,
            },
            GpioRegister::GpioK => PortRegisters {
                clock_enable: registers::AHB4ENR_GPIOKEN,
                moder: registers::GPIOK_MODER,
                otyper: registers::GPIOK_OTYPER,
                pupdr: registers::GPIOK_PUPDR,
                idr: registers::GPIOK_IDR,
                odr: registers::GPIOK_ODR,
                afrl: registers::GPIOK_AFRL,
                afrh: registers::GPIOK_AFRH,
            },
        }
    }

    /// The registers of this port.
    pub fn registers(self) -> (port: PortRegisters)
        ensures
            port == self.spec_registers(),
    {
        match self {
            GpioRegister::GpioA => PortRegisters {
                clock_enable: registers::AHB4ENR_GPIOAEN,
                moder: registers::GPIOA_MODER,
                otyper: registers::GPIOA_OTYPER,
                pupdr: registers::GPIOA_PUPDR,
                idr: registers::GPIOA_IDR,
                odr: registers::GPIOA_ODR,
                afrl: registers::GPIOA_AFRL,
                afrh: registers::GPIOA_AFRH,
            },
            GpioRegister::GpioB => PortRegisters {
                clock_enable: registers::AHB4ENR_GPIOBEN,
                moder: registers::GPIOB_MODER,
                otyper: registers::GPIOB_OTYPER,
                pupdr: registers::GPIOB_PUPDR,
                idr: registers::GPIOB_IDR,
                odr: registers::GPIOB_ODR,
                afrl: registers::GPIOB_AFRL,
                afrh: registers::GPIOB_AFRH,
            },
            GpioRegister::GpioC => PortRegisters {
                clock_enable: registers::AHB4ENR_GPIOCEN,
                moder: registers::GPIOC_MODER,
                otyper: registers::GPIOC_OTYPER,
                pupdr: registers::GPIOC_PUPDR,
                idr: registers::GPIOC_IDR,
                odr: registers::GPIOC_ODR,
                afrl: registers::GPIOC_AFRL,
                afrh: registers::GPIOC_AFRH,
            },
            GpioRegister::GpioD => PortRegisters {
                clock_enable: registers::AHB4ENR_GPIODEN,
                moder: registers::GPIOD_MODER,
                otyper: registers::GPIOD_OTYPER,
                pupdr: registers::GPIOD_PUPDR,
                idr: registers::GPIOD_IDR,
                odr: registers::GPIOD_ODR,
                afrl: registers::GPIOD_AFRL,
                afrh: registers::GPIOD_AFRH,
            },
            GpioRegister::GpioE => PortRegisters {
                clock_enable: registers::AHB4ENR_GPIOEEN,
                moder: registers::GPIOE_MODER,
                otyper: registers::GPIOE_OTYPER,
                pupdr: registers::GPIOE_PUPDR,
                idr: registers::GPIOE_IDR,
                odr: registers::GPIOE_ODR,
                afrl: registers::GPIOE_AFRL,
                afrh: registers::GPIOE_AFRH,
            },
            GpioRegister::GpioH => PortRegisters {
                clock_enable: registers::AHB4ENR_GPIOHEN,
                moder: registers::GPIOH_MODER,
                otyper: registers::GPIOH_OTYPER,
                pupdr: registers::GPIOH_PUPDR,
                idr: registers::GPIOH_IDR,
                odr: registers::GPIOH_ODR,
                afrl: registers::GPIOH_AFRL,
                afrh: registers::GPIOH_AFRH,
            },
            GpioRegister::GpioI => PortRegisters {
                clock_enable: registers::AHB4ENR_GPIOIEN,
                moder: registers::GPIOI_MODER,
                otyper: registers::GPIOI_OTYPER,
                pupdr: registers::GPIOI_PUPDR,
                idr: registers::GPIOI_IDR,
                odr: registers::GPIOI_ODR,
                afrl: registers::GPIOI_AFRL,
                afrh: registers::GPIOI_AFRH,
            },
            GpioRegister::GpioJ => PortRegisters {
                clock_enable: registers::AHB4ENR_GPIOJEN,
                moder: registers::GPIOJ_MODER,
                otyper: registers::GPIOJ_OTYPER,
                pupdr: registers::GPIOJ_PUPDR,
                idr: registers::GPIOJ_IDR,
                odr: registers::GPIOJ_ODR,
                afrl: registers::GPIOJ_AFRL,
                afrh: registers::GPIOJ_AFRH,
            },
            GpioRegister::GpioK => PortRegisters {
                clock_enable: registers::AHB4ENR_GPIOKEN,
                moder: registers::GPIOK_MODER,
                otyper: registers::GPIOK_OTYPER,
                pupdr: registers::GPIOK_PUPDR,
                idr: registers::GPIOK_IDR,
                odr: registers::GPIOK_ODR,
                afrl: registers::GPIOK_AFRL,
                afrh: registers::GPIOK_AFRH,
            },
        }
    }
}

impl GpioPin {
    /// The number of the pin within its port, 0 to 15.
    pub open spec fn spec_index(self) -> u8 {
        match self {
            GpioPin::P0 => 0,
            GpioPin::P1 => 1,
            GpioPin::P2 => 2,
            GpioPin::P3 => 3,
            GpioPin::P4 => 4,
            GpioPin::P5 => 5,
            GpioPin::P6 => 6,
            GpioPin::P7 => 7,
            GpioPin::P8 => 8,
            GpioPin::P9 => 9,
            GpioPin::P10 => 10,
            GpioPin::P11 => 11,
            GpioPin::P12 => 12,
            GpioPin::P13 => 13,
            GpioPin::P14 => 14,
            GpioPin::P15 => 15,
        }
    }

    /// The number of the pin within its port, 0 to 15.
    pub fn index(self) -> (value: u8)
        ensures
            value == self.spec_index(),
    {
        match self {
            GpioPin::P0 => 0,
            GpioPin::P1 => 1,
            GpioPin::P2 => 2,
            GpioPin::P3 => 3,
            GpioPin::P4 => 4,
            GpioPin::P5 => 5,
            GpioPin::P6 => 6,
            GpioPin::P7 => 7,
            GpioPin::P8 => 8,
            GpioPin::P9 => 9,
            GpioPin::P10 => 10,
            GpioPin::P11 => 11,
            GpioPin::P12 => 12,
            GpioPin::P13 => 13,
            GpioPin::P14 => 14,
            GpioPin::P15 => 15,
        }
    }
}

impl GpioMode {
    /// The two bits that select this mode.
    pub open spec fn spec_bits(self) -> u32 {
        match self {
            GpioMode::Input => 0b00,
            GpioMode::Output => 0b01,
            GpioMode::Alternate => 0b10,
            GpioMode::Analog => 0b11,
        }
    }

    /// The two bits that select this mode.
    pub fn bits(self) -> (value: u32)
        ensures
            value == self.spec_bits(),
    {
        match self {
            GpioMode::Input => 0b00,
            GpioMode::Output => 0b01,
            GpioMode::Alternate => 0b10,
            GpioMode::Analog => 0b11,
        }
    }
}

impl GpioPull {
    /// The two bits that select this resistor.
    pub open spec fn spec_bits(self) -> u32 {
        match self {
            GpioPull::NoPull => 0b00,
            GpioPull::PullDown => 0b01,
            GpioPull::PullUp => 0b10,
        }
    }

    /// The two bits that select this resistor.
    pub fn bits(self) -> (value: u32)
        ensures
            value == self.spec_bits(),
    {
        match self {
            GpioPull::NoPull => 0b00,
            GpioPull::PullDown => 0b01,
            GpioPull::PullUp => 0b10,
        }
    }
}

impl GpioOutputMode {
    /// The bit that selects this drive.
    pub open spec fn spec_bits(self) -> u32 {
        match self {
            GpioOutputMode::PushPull => 0b0,
            GpioOutputMode::OpenDrain => 0b1,
        }
    }

    /// The bit that selects this drive.
    pub fn bits(self) -> (value: u32)
        ensures
            value == self.spec_bits(),
    {
        match self {
            GpioOutputMode::PushPull => 0b0,
            GpioOutputMode::OpenDrain => 0b1,
        }
    }
}

impl GpioAlternate {
    /// The four bits that select this signal.
    pub open spec fn spec_selector(self) -> u32 {
        match self {
            GpioAlternate::AF0 => 0,
            GpioAlternate::AF1 => 1,
            GpioAlternate::AF2 => 2,
            GpioAlternate::AF3 => 3,
            GpioAlternate::AF4 => 4,
            GpioAlternate::AF5 => 5,
            GpioAlternate::AF6 => 6,
            GpioAlternate::AF7 => 7,
            GpioAlternate::AF8 => 8,
            GpioAlternate::AF9 => 9,
            GpioAlternate::AF10 => 10,
            GpioAlternate::AF11 => 11,
            GpioAlternate::AF12 => 12,
            GpioAlternate::AF13 => 13,
            GpioAlternate::AF14 => 14,
            GpioAlternate::AF15 => 15,
        }
    }

    /// The four bits that select this signal.
    pub fn selector(self) -> (value: u32)
        ensures
            value == self.spec_selector(),
    {
        match self {
            GpioAlternate::AF0 => 0,
            GpioAlternate::AF1 => 1,
            GpioAlternate::AF2 => 2,
            GpioAlternate::AF3 => 3,
            GpioAlternate::AF4 => 4,
            GpioAlternate::AF5 => 5,
            GpioAlternate::AF6 => 6,
            GpioAlternate::AF7 => 7,
            GpioAlternate::AF8 => 8,
            GpioAlternate::AF9 => 9,
            GpioAlternate::AF10 => 10,
            GpioAlternate::AF11 => 11,
            GpioAlternate::AF12 => 12,
            GpioAlternate::AF13 => 13,
            GpioAlternate::AF14 => 14,
            GpioAlternate::AF15 => 15,
        }
    }
}

/// The description of one pin. Nothing ties the fields together: a
/// descriptor is only interpreted when it is applied with [`Gpio::setup`].
#[derive(Clone, Copy, PartialEq, Eq, Debug, Structural)]
pub struct Gpio {
    pub register: GpioRegister,
    pub pin: GpioPin,
    pub mode: GpioMode,
    pub output_mode: GpioOutputMode,
    pub pull: GpioPull,
    pub speed: GpioSpeed,
    pub alternate: GpioAlternate,
}

impl Gpio {
    /// The register in which the alternate function of this pin is
    /// selected: the low register for pins 0 to 7, the high register for
    /// pins 8 to 15.
    pub open spec fn spec_alternate_register(self) -> u32 {
        if self.pin.spec_index() < 8 {
            self.register.spec_registers().afrl
        } else {
            self.register.spec_registers().afrh
        }
    }

    /// The state after this descriptor was applied: the port's clock is
    /// enabled first, then mode, output type and pull are written, and for an
    /// alternate-function pin the selector last.
    pub open spec fn spec_setup(self, state: DeviceState) -> DeviceState {
        let port = self.register.spec_registers();
        let pin = self.pin.spec_index();
        let basic = state.set_bit(registers::RCC_AHB4ENR, port.clock_enable).write_bits(
            port.moder,
            (pin * 2) as u8,
            self.mode.spec_bits(),
            0b11,
        ).write_bits(port.otyper, pin, self.output_mode.spec_bits(), 0b1).write_bits(
            port.pupdr,
            (pin * 2) as u8,
            self.pull.spec_bits(),
            0b11,
        );
        if self.mode == GpioMode::Alternate {
            basic.write_bits(
                self.spec_alternate_register(),
                ((pin % 8) * 4) as u8,
                self.alternate.spec_selector(),
                0b1111,
            )
        } else {
            basic
        }
    }

    /// The state after the pin was driven high.
    pub open spec fn spec_set(self, state: DeviceState) -> DeviceState {
        state.set_bit(self.register.spec_registers().odr, self.pin.spec_index())
    }

    /// The state after the pin was driven low.
    pub open spec fn spec_clear(self, state: DeviceState) -> DeviceState {
        state.clear_bit(self.register.spec_registers().odr, self.pin.spec_index())
    }

    /// The state after the pin's output was inverted.
    pub open spec fn spec_toggle(self, state: DeviceState) -> DeviceState {
        state.toggle_bit(self.register.spec_registers().odr, self.pin.spec_index())
    }

    /// Whether the pin's input reads high.
    pub open spec fn spec_get(self, state: DeviceState) -> bool {
        state.get_bit(self.register.spec_registers().idr, self.pin.spec_index()) == 1
    }

    /// The state once the port's input register has sampled the levels that
    /// its output register drives.
    pub open spec fn spec_looped_back(self, state: DeviceState) -> DeviceState {
        let port = self.register.spec_registers();
        state.load(port.idr, state.value(port.odr))
    }

    /// Pin 0 of port A as a floating push-pull input at low speed.
    pub fn new() -> (gpio: Gpio)
        ensures
            gpio == (Gpio {
                register: GpioRegister::GpioA,
                pin: GpioPin::P0,
                mode: GpioMode::Input,
                output_mode: GpioOutputMode::PushPull,
                pull: GpioPull::NoPull,
                speed: GpioSpeed::LowSpeed,
                alternate: GpioAlternate::AF0,
            }),
    {
        Gpio {
            register: GpioRegister::GpioA,
            pin: GpioPin::P0,
            mode: GpioMode::Input,
            output_mode: GpioOutputMode::PushPull,
            pull: GpioPull::NoPull,
            speed: GpioSpeed::LowSpeed,
            alternate: GpioAlternate::AF0,
        }
    }

    /// Applies this descriptor to the port's registers.
    pub fn setup(&self, device: &mut Device)
        ensures
            final(device)@ == self.spec_setup(old(device)@),
    {
        let port = self.register.registers();
        let pin: u8 = self.pin.index();

        // The port's clock comes first: without it the port ignores writes.
        set_bit(device, registers::RCC_AHB4ENR, port.clock_enable);
        write_bits(device, port.moder, pin * 2, self.mode.bits(), 0b11);
        write_bits(device, port.otyper, pin, self.output_mode.bits(), 0b1);
        write_bits(device, port.pupdr, pin * 2, self.pull.bits(), 0b11);

        if self.mode == GpioMode::Alternate {
            let afr_register: u32 = if pin < 8 {
                port.afrl
            } else {
                port.afrh
            };
            let afr_field: u8 = (pin % 8) * 4;
            write_bits(device, afr_register, afr_field, self.alternate.selector(), 0b1111);
        }
    }

    /// Drives the pin high.
    pub fn set(&self, device: &mut Device)
        ensures
            final(device)@ == self.spec_set(old(device)@),
    {
        set(device, self.register, self.pin);
    }

    /// Reads the pin's input level.
    pub fn get(&self, device: &Device) -> (high: bool)
        ensures
            high == self.spec_get(device@),
    {
        get(device, self.register, self.pin)
    }

    /// Drives the pin low.
    pub fn clear(&self, device: &mut Device)
        ensures
            final(device)@ == self.spec_clear(old(device)@),
    {
        clear(device, self.register, self.pin);
    }

    /// Inverts the level that the pin drives.
    pub fn toggle(&self, device: &mut Device)
        ensures
            final(device)@ == self.spec_toggle(old(device)@),
    {
        toggle(device, self.register, self.pin);
    }
}

fn set(device: &mut Device, register: GpioRegister, pin: GpioPin)
    ensures
        final(device)@ == old(device)@.set_bit(
            register.spec_registers().odr,
            pin.spec_index(),
        ),
{
    let odr = get_odr(register, pin);
    set_bit(device, odr.0, odr.1);
}

fn clear(device: &mut Device, register: GpioRegister, pin: GpioPin)
    ensures
        final(device)@ == old(device)@.clear_bit(
            register.spec_registers().odr,
            pin.spec_index(),
        ),
{
    let odr = get_odr(register, pin);
    clear_bit(device, odr.0, odr.1);
}

fn toggle(device: &mut Device, register: GpioRegister, pin: GpioPin)
    ensures
        final(device)@ == old(device)@.toggle_bit(
            register.spec_registers().odr,
            pin.spec_index(),
        ),
{
    let odr = get_odr(register, pin);
    toggle_bit(device, odr.0, odr.1);
}

fn get(device: &Device, register: GpioRegister, pin: GpioPin) -> (high: bool)
    ensures
        high == (device@.get_bit(register.spec_registers().idr, pin.spec_index()) == 1),
{
    let idr = get_idr(register, pin);
    get_bit(device, idr.0, idr.1) == 1
}

/// The output data register of a port and the bit of a pin in it.
pub fn get_odr(register: GpioRegister, pin: GpioPin) -> (odr: (u32, u8))
    ensures
        odr == (register.spec_registers().odr, pin.spec_index()),
        odr.1 < 16,
{
    (register.registers().odr, pin.index())
}

/// The input data register of a port and the bit of a pin in it.
pub fn get_idr(register: GpioRegister, pin: GpioPin) -> (idr: (u32, u8))
    ensures
        idr == (register.spec_registers().idr, pin.spec_index()),
        idr.1 < 16,
{
    (register.registers().idr, pin.index())
}

/// A push-pull output on `pin` of `register`, without pull resistor, at low
/// speed.
pub fn create_output(register: GpioRegister, pin: GpioPin) -> (led: Gpio)
    ensures
        led == (Gpio {
            register,
            pin,
            mode: GpioMode::Output,
            output_mode: GpioOutputMode::PushPull,
            pull: GpioPull::NoPull,
            speed: GpioSpeed::LowSpeed,
            alternate: GpioAlternate::AF0,
        }),
{
    let mut led = Gpio::new();
    led.register = register;
    led.pin = pin;
    led.mode = GpioMode::Output;
    led
}

/// Applying a descriptor enables the port's clock and leaves the pin's mode,
/// output type and pull in their fields; for an alternate-function pin it
/// leaves the selector in the pin's nibble, and for any other pin it leaves
/// both alternate-function registers as they were.
pub proof fn lemma_setup_programs_pin(gpio: Gpio, state: DeviceState)
    ensures
        ({
            let port = gpio.register.spec_registers();
            let pin = gpio.pin.spec_index();
            let applied = gpio.spec_setup(state);
            &&& applied.get_bit(registers::RCC_AHB4ENR, port.clock_enable) == 1
            &&& (applied.value(port.moder) >> (pin * 2) as u8) & 0b11 == gpio.mode.spec_bits()
            &&& applied.get_bit(port.otyper, pin) == gpio.output_mode.spec_bits()
            &&& (applied.value(port.pupdr) >> (pin * 2) as u8) & 0b11 == gpio.pull.spec_bits()
            &&& gpio.mode == GpioMode::Alternate ==> (applied.value(gpio.spec_alternate_register())
                >> ((pin % 8) * 4) as u8) & 0b1111 == gpio.alternate.spec_selector()
            &&& gpio.mode != GpioMode::Alternate ==> applied.value(port.afrl) == state.value(
                port.afrl,
            ) && applied.value(port.afrh) == state.value(port.afrh)
        }),
{
    let port = gpio.register.spec_registers();
    let pin = gpio.pin.spec_index();
    let double = (pin * 2) as u8;
    let nibble = ((pin % 8) * 4) as u8;
    let clock = state.value(registers::RCC_AHB4ENR);
    lemma_set_bit_idempotent(clock, port.clock_enable);
    let mode = gpio.mode.spec_bits();
    let moder = state.value(port.moder);
    assert((((moder & !(0b11u32 << double)) | (mode << double)) >> double) & 0b11 == mode)
        by (bit_vector)
        requires
            double <= 30,
            mode <= 3,
    ;
    let drive = gpio.output_mode.spec_bits();
    let otyper = state.value(port.otyper);
    assert((((otyper & !(0b1u32 << pin)) | (drive << pin)) >> pin) & 1 == drive) by (bit_vector)
        requires
            pin < 32,
            drive <= 1,
    ;
    let pull = gpio.pull.spec_bits();
    let pupdr = state.value(port.pupdr);
    assert((((pupdr & !(0b11u32 << double)) | (pull << double)) >> double) & 0b11 == pull)
        by (bit_vector)
        requires
            double <= 30,
            pull <= 3,
    ;
    let selector = gpio.alternate.spec_selector();
    let afr = state.value(gpio.spec_alternate_register());
    assert((((afr & !(0b1111u32 << nibble)) | (selector << nibble)) >> nibble) & 0b1111
        == selector) by (bit_vector)
        requires
            nibble <= 28,
            selector <= 15,
    ;
}

/// What was driven is what is read back: once the input register has sampled
/// the outputs, a pin that was set reads high, one that was cleared reads low,
/// and one that was toggled reads the opposite of what it read before.
pub proof fn lemma_loopback(gpio: Gpio, state: DeviceState)
    ensures
        gpio.spec_get(gpio.spec_looped_back(gpio.spec_set(state))),
        !gpio.spec_get(gpio.spec_looped_back(gpio.spec_clear(state))),
        gpio.spec_get(gpio.spec_looped_back(gpio.spec_toggle(state))) != gpio.spec_get(
            gpio.spec_looped_back(state),
        ),
{
    let word = state.value(gpio.register.spec_registers().odr);
    let pin = gpio.pin.spec_index();
    lemma_set_bit_idempotent(word, pin);
    lemma_toggle_bit_twice(word, pin);
    assert(spec_get_bit(spec_clear_bit(word, pin), pin) == 0) by (bit_vector)
        requires
            pin < 32,
    ;
    assert(spec_get_bit(word, pin) == 0 || spec_get_bit(word, pin) == 1) by (bit_vector);
}

} // verus!
