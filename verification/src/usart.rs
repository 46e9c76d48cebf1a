//! The two serial ports: start and stop, and transmission of characters.

use crate::device::{Device, DeviceState};
use crate::gpio::{
    Gpio, GpioAlternate, GpioMode, GpioOutputMode, GpioPin, GpioPull, GpioRegister, GpioSpeed,
};
use crate::register_tools::{clear_bit, get_bit, set_bit, write_bits, write_register};
use crate::registers;
use vstd::prelude::*;
use vstd::string::StrSliceExecFns;

verus! {

/// The serial ports of the chip.
#[derive(Clone, Copy, PartialEq, Eq, Debug, Structural)]
pub enum USART {
    USART2,
    USART3,
}

/// What became of a request to transmit.
#[derive(Clone, Copy, PartialEq, Eq, Debug, Structural)]
pub enum TransmitStatus {
    /// The port is not started: nothing was done.
    NotReady,
    /// The transmitter still holds the previous character: nothing was done,
    /// and the request is to be made again.
    Busy,
    /// The character was handed to the transmitter.
    Sent,
}

/// The control register of a port.
pub open spec fn spec_cr_usart_control_register(usart: USART) -> u32 {
    match usart {
        USART::USART2 => registers::USART2_CR1,
        USART::USART3 => registers::USART3_CR1,
    }
}

/// The control register of a port.
pub fn get_cr_usart_control_register(usart: &USART) -> (register: u32)
    ensures
        register == spec_cr_usart_control_register(*usart),
{
    match usart {
        USART::USART2 => registers::USART2_CR1,
        USART::USART3 => registers::USART3_CR1,
    }
}

/// The baud rate register of a port.
pub open spec fn spec_brr_usart_baud_rate_register(usart: USART) -> u32 {
    match usart {
        USART::USART2 => registers::USART2_BRR,
        USART::USART3 => registers::USART3_BRR,
    }
}

/// The baud rate register of a port.
pub fn get_brr_usart_baud_rate_register(usart: &USART) -> (register: u32)
    ensures
        register == spec_brr_usart_baud_rate_register(*usart),
{
    match usart {
        USART::USART2 => registers::USART2_BRR,
        USART::USART3 => registers::USART3_BRR,
    }
}

/// The status register of a port.
pub open spec fn spec_isr_usart_interrupt_register(usart: USART) -> u32 {
    match usart {
        USART::USART2 => registers::USART2_ISR,
        USART::USART3 => registers::USART3_ISR,
    }
}

/// The status register of a port.
pub fn get_isr_usart_interrupt_register(usart: &USART) -> (register: u32)
    ensures
        register == spec_isr_usart_interrupt_register(*usart),
{
    match usart {
        USART::USART2 => registers::USART2_ISR,
        USART::USART3 => registers::USART3_ISR,
    }
}

/// The transmit data register of a port.
pub open spec fn spec_tdr_usart_data_register(usart: USART) -> u32 {
    match usart {
        USART::USART2 => registers::USART2_TDR,
        USART::USART3 => registers::USART3_TDR,
    }
}

/// The transmit data register of a port.
pub fn get_tdr_usart_data_register(usart: &USART) -> (register: u32)
    ensures
        register == spec_tdr_usart_data_register(*usart),
{
    match usart {
        USART::USART2 => registers::USART2_TDR,
        USART::USART3 => registers::USART3_TDR,
    }
}

/// The bit that enables the clock of a port.
pub open spec fn spec_apb1lenr_usart_clock_enable_field(usart: USART) -> u8 {
    match usart {
        USART::USART2 => registers::APB1LENR_USART2EN,
        USART::USART3 => registers::APB1LENR_USART3EN,
    }
}

/// The bit that enables the clock of a port.
pub fn get_apb1lenr_usart_clock_enable_field(usart: &USART) -> (register: u8)
    ensures
        register == spec_apb1lenr_usart_clock_enable_field(*usart),
{
    match usart {
        USART::USART2 => registers::APB1LENR_USART2EN,
        USART::USART3 => registers::APB1LENR_USART3EN,
    }
}

/// The bit that enables the clock of the GPIO port that holds the pins of a
/// serial port.
pub open spec fn spec_ahb4enr_gpio_clock_enable_field(usart: USART) -> u8 {
    match usart {
        USART::USART2 => registers::AHB4ENR_GPIOAEN,
        USART::USART3 => registers::AHB4ENR_GPIODEN,
    }
}

/// A pin of a serial port: alternate function 7 at high speed.
pub open spec fn spec_usart_pin(register: GpioRegister, pin: GpioPin) -> Gpio {
    Gpio {
        register,
        pin,
        mode: GpioMode::Alternate,
        output_mode: GpioOutputMode::PushPull,
        pull: GpioPull::NoPull,
        speed: GpioSpeed::HighSpeed,
        alternate: GpioAlternate::AF7,
    }
}

/// The transmit pin of a port: A2 for port 2, D8 for port 3.
pub open spec fn spec_tx_gpio(usart: USART) -> Gpio {
    match usart {
        USART::USART2 => spec_usart_pin(GpioRegister::GpioA, GpioPin::P2),
        USART::USART3 => spec_usart_pin(GpioRegister::GpioD, GpioPin::P8),
    }
}

/// The receive pin of a port: A3 for port 2, D9 for port 3.
pub open spec fn spec_rx_gpio(usart: USART) -> Gpio {
    match usart {
        USART::USART2 => spec_usart_pin(GpioRegister::GpioA, GpioPin::P3),
        USART::USART3 => spec_usart_pin(GpioRegister::GpioD, GpioPin::P9),
    }
}

/// The whole part of `clock_speed / (16 * baud_rate)`.
pub open spec fn spec_mantissa(clock_speed: u32, baud_rate: u32) -> int {
    clock_speed as int / (16 * baud_rate)
}

/// The rest of `clock_speed / (16 * baud_rate)` in sixteenths, rounded to the
/// nearest whole number, a half upwards.
pub open spec fn spec_fraction(clock_speed: u32, baud_rate: u32) -> int {
    (2 * (clock_speed as int % (16 * baud_rate)) + baud_rate) / (2 * baud_rate)
}

/// The state after a port was started: the port is disabled, its clock and
/// that of its pins' GPIO port are enabled, the transmit and the receive pin
/// are applied, the mantissa is written into bits 4 to 15 of the baud rate
/// register and the fraction into bits 0 to 3, and transmitter and port are
/// enabled.
pub open spec fn spec_setup_usart(
    state: DeviceState,
    clock_speed: u32,
    baud_rate: u32,
    usart: USART,
) -> DeviceState {
    let control = spec_cr_usart_control_register(usart);
    let baud = spec_brr_usart_baud_rate_register(usart);
    let disabled = state.clear_bit(control, registers::USART_CR1_UE);
    let clocked = disabled.set_bit(
        registers::RCC_APB1LENR,
        spec_apb1lenr_usart_clock_enable_field(usart),
    ).set_bit(registers::RCC_AHB4ENR, spec_ahb4enr_gpio_clock_enable_field(usart));
    let wired = spec_rx_gpio(usart).spec_setup(spec_tx_gpio(usart).spec_setup(clocked));
    let timed = wired.write_bits(
        baud,
        registers::USART_BRR_4_15,
        spec_mantissa(clock_speed, baud_rate) as u32,
        0xfff,
    ).write_bits(
        baud,
        registers::USART_BRR_0_3,
        spec_fraction(clock_speed, baud_rate) as u32,
        0xf,
    );
    timed.set_bit(control, registers::USART_CR1_TE).set_bit(control, registers::USART_CR1_UE)
}

/// The state after a port was stopped: its clock, its transmitter and the
/// port itself are disabled.
pub open spec fn spec_cleanup_usart(state: DeviceState, usart: USART) -> DeviceState {
    let control = spec_cr_usart_control_register(usart);
    state.clear_bit(
        registers::RCC_APB1LENR,
        spec_apb1lenr_usart_clock_enable_field(usart),
    ).clear_bit(control, registers::USART_CR1_TE).clear_bit(control, registers::USART_CR1_UE)
}

/// Whether both the transmitter and the port are enabled.
pub open spec fn spec_is_usart_setup(state: DeviceState, usart: USART) -> bool {
    let control = spec_cr_usart_control_register(usart);
    state.get_bit(control, registers::USART_CR1_TE) == 1 && state.get_bit(
        control,
        registers::USART_CR1_UE,
    ) == 1
}

/// The state after the transmit interrupt of a port was enabled.
pub open spec fn spec_enable_usart_tx_interrupt(state: DeviceState, usart: USART)
    -> DeviceState {
    state.set_bit(spec_cr_usart_control_register(usart), registers::USART_CR1_TXEIE)
}

/// The state after the transmit interrupt of a port was disabled.
pub open spec fn spec_disable_usart_tx_interrupt(state: DeviceState, usart: USART)
    -> DeviceState {
    state.clear_bit(spec_cr_usart_control_register(usart), registers::USART_CR1_TXEIE)
}

/// What a request to transmit on a port meets.
pub open spec fn spec_transmit_status(state: DeviceState, usart: USART) -> TransmitStatus {
    if !spec_is_usart_setup(state, usart) {
        TransmitStatus::NotReady
    } else if state.get_bit(spec_isr_usart_interrupt_register(usart), registers::USART_ISR_TXE)
        == 0 {
        TransmitStatus::Busy
    } else {
        TransmitStatus::Sent
    }
}

/// The state after a request to transmit `character`: its code point is
/// written to the data register if the transmitter takes it, and nothing is
/// done otherwise.
pub open spec fn spec_write_usart_character(state: DeviceState, character: char, usart: USART)
    -> DeviceState {
    if spec_transmit_status(state, usart) == TransmitStatus::Sent {
        state.write(spec_tdr_usart_data_register(usart), character as u32)
    } else {
        state
    }
}

/// The state after the code points of `characters` were written to the data
/// register `data`, the first one first.
pub open spec fn spec_transmit(state: DeviceState, data: u32, characters: Seq<char>)
    -> DeviceState
    decreases characters.len(),
{
    if characters.len() == 0 {
        state
    } else {
        spec_transmit(state, data, characters.drop_last()).write(
            data,
            characters.last() as u32,
        )
    }
}

/// The number of characters of `characters` that a request to transmit them
/// hands to the transmitter: all of them if it takes the first, else none.
pub open spec fn spec_written(state: DeviceState, characters: Seq<char>, usart: USART) -> nat {
    if spec_transmit_status(state, usart) == TransmitStatus::Sent {
        characters.len()
    } else {
        0
    }
}

/// What one step in the transmission of `characters` returns, `written` of
/// which were handed over before it. Where the port is not started or no
/// character is left, nothing is left to do. Otherwise the step returns how
/// many were handed over after it: one more if the transmitter took the next
/// character, as many as before if it is busy.
pub open spec fn spec_string_step(
    state: DeviceState,
    characters: Seq<char>,
    written: usize,
    usart: USART,
) -> Option<usize> {
    if !spec_is_usart_setup(state, usart) || written >= characters.len() {
        None
    } else if spec_transmit_status(state, usart) == TransmitStatus::Sent {
        Some((written + 1) as usize)
    } else {
        Some(written)
    }
}

/// The state after one step in the transmission of `characters`: a request
/// to transmit the character at `written`, if there is one.
pub open spec fn spec_write_usart_string_step(
    state: DeviceState,
    characters: Seq<char>,
    written: usize,
    usart: USART,
) -> DeviceState {
    if written < characters.len() {
        spec_write_usart_character(state, characters[written as int], usart)
    } else {
        state
    }
}

/// The state after a request to transmit `characters`.
pub open spec fn spec_write_usart_string(state: DeviceState, characters: Seq<char>, usart: USART)
    -> DeviceState {
    if spec_transmit_status(state, usart) == TransmitStatus::Sent {
        spec_transmit(state, spec_tdr_usart_data_register(usart), characters)
    } else {
        state
    }
}

/// The divisor of a port's clock for `baud_rate`: the whole part of
/// `clock_speed / (16 * baud_rate)` and the rest in sixteenths, rounded.
pub fn baud_divisor(clock_speed: u32, baud_rate: u32) -> (divisor: (u32, u32))
    requires
        baud_rate > 0,
    ensures
        divisor.0 == spec_mantissa(clock_speed, baud_rate),
        divisor.1 == spec_fraction(clock_speed, baud_rate),
{
    let denominator: u64 = baud_rate as u64 * 16;
    let mantissa: u64 = clock_speed as u64 / denominator;
    let remainder: u64 = clock_speed as u64 % denominator;
    let fraction: u64 = (2 * remainder + baud_rate as u64) / (2 * baud_rate as u64);
    assert(mantissa <= clock_speed) by (nonlinear_arith)
        requires
            mantissa == clock_speed as u64 / denominator,
            denominator >= 1,
    ;
    assert(fraction <= 16) by (nonlinear_arith)
        requires
            fraction == (2 * remainder + baud_rate as u64) / (2 * baud_rate as u64),
            remainder < 16 * baud_rate,
            baud_rate > 0,
    ;
    (mantissa as u32, fraction as u32)
}

/// The transmit pin of a port.
pub fn tx_gpio(usart: &USART) -> (gpio: Gpio)
    ensures
        gpio == spec_tx_gpio(*usart),
{
    let mut gpio = Gpio::new();
    match usart {
        USART::USART2 => {
            gpio.register = GpioRegister::GpioA;
            gpio.pin = GpioPin::P2;
        },
        USART::USART3 => {
            gpio.register = GpioRegister::GpioD;
            gpio.pin = GpioPin::P8;
        },
    }
    gpio.mode = GpioMode::Alternate;
    gpio.speed = GpioSpeed::HighSpeed;
    gpio.alternate = GpioAlternate::AF7;
    gpio
}

/// The receive pin of a port.
pub fn rx_gpio(usart: &USART) -> (gpio: Gpio)
    ensures
        gpio == spec_rx_gpio(*usart),
{
    let mut gpio = Gpio::new();
    match usart {
        USART::USART2 => {
            gpio.register = GpioRegister::GpioA;
            gpio.pin = GpioPin::P3;
        },
        USART::USART3 => {
            gpio.register = GpioRegister::GpioD;
            gpio.pin = GpioPin::P9;
        },
    }
    gpio.mode = GpioMode::Alternate;
    gpio.speed = GpioSpeed::HighSpeed;
    gpio.alternate = GpioAlternate::AF7;
    gpio
}

/// Starts `usart` for `baud_rate` on a clock of `clock_speed` Hz.
pub fn setup_usart(device: &mut Device, clock_speed: u32, baud_rate: u32, usart: &USART)
    requires
        baud_rate > 0,
    ensures
        final(device)@ == spec_setup_usart(old(device)@, clock_speed, baud_rate, *usart),
{
    let cr_usart_control_register: u32 = get_cr_usart_control_register(usart);
    let apb1lenr_usart_clock_enable_field: u8 = get_apb1lenr_usart_clock_enable_field(usart);
    let ahb4enr_gpio_clock_enable_field: u8 = match usart {
        USART::USART2 => registers::AHB4ENR_GPIOAEN,
        USART::USART3 => registers::AHB4ENR_GPIODEN,
    };
    let usart_tx_gpio = tx_gpio(usart);
    let usart_rx_gpio = rx_gpio(usart);
    let brr_usart_baud_rate_register: u32 = get_brr_usart_baud_rate_register(usart);

    // Mode and baud rate are only taken while the port is disabled.
    clear_bit(device, cr_usart_control_register, registers::USART_CR1_UE);

    set_bit(device, registers::RCC_APB1LENR, apb1lenr_usart_clock_enable_field);
    set_bit(device, registers::RCC_AHB4ENR, ahb4enr_gpio_clock_enable_field);

    usart_tx_gpio.setup(device);
    usart_rx_gpio.setup(device);

    let divisor = baud_divisor(clock_speed, baud_rate);
    write_bits(
        device,
        brr_usart_baud_rate_register,
        registers::USART_BRR_4_15,
        divisor.0,
        0xfff,
    );
    write_bits(device, brr_usart_baud_rate_register, registers::USART_BRR_0_3, divisor.1, 0xf);

    set_bit(device, cr_usart_control_register, registers::USART_CR1_TE);
    set_bit(device, cr_usart_control_register, registers::USART_CR1_UE);
}

/// Stops `usart`.
pub fn cleanup_usart(device: &mut Device, usart: &USART)
    ensures
        final(device)@ == spec_cleanup_usart(old(device)@, *usart),
{
    let apb1lenr_usart_clock_enable_field: u8 = get_apb1lenr_usart_clock_enable_field(usart);
    let cr_usart_control_register: u32 = get_cr_usart_control_register(usart);

    clear_bit(device, registers::RCC_APB1LENR, apb1lenr_usart_clock_enable_field);
    clear_bit(device, cr_usart_control_register, registers::USART_CR1_TE);
    clear_bit(device, cr_usart_control_register, registers::USART_CR1_UE);
}

/// Whether `usart` can transmit: both its transmitter and the port itself
/// are enabled.
pub fn is_usart_setup(device: &Device, usart: &USART) -> (ready: bool)
    ensures
        ready == spec_is_usart_setup(device@, *usart),
{
    let cr_usart_control_register: u32 = get_cr_usart_control_register(usart);
    let transmit_enable: bool = get_bit(device, cr_usart_control_register, registers::USART_CR1_TE)
        == 1;
    let usart_enable: bool = get_bit(device, cr_usart_control_register, registers::USART_CR1_UE)
        == 1;
    transmit_enable && usart_enable
}

/// Enables the transmit interrupt of `usart`.
pub fn enable_usart_tx_interrupt(device: &mut Device, usart: &USART)
    ensures
        final(device)@ == spec_enable_usart_tx_interrupt(old(device)@, *usart),
{
    let cr_usart_control_register: u32 = get_cr_usart_control_register(usart);
    set_bit(device, cr_usart_control_register, registers::USART_CR1_TXEIE);
}

/// Disables the transmit interrupt of `usart`.
pub fn disable_usart_tx_interrupt(device: &mut Device, usart: &USART)
    ensures
        final(device)@ == spec_disable_usart_tx_interrupt(old(device)@, *usart),
{
    let cr_usart_control_register: u32 = get_cr_usart_control_register(usart);
    clear_bit(device, cr_usart_control_register, registers::USART_CR1_TXEIE);
}

/// Hands `character` to the transmitter of `usart`, if the port is started
/// and the transmitter is empty. Whoever gets [`TransmitStatus::Busy`] waits
/// for the transmitter by asking again.
pub fn write_usart_character(device: &mut Device, character: char, usart: &USART) -> (status:
    TransmitStatus)
    ensures
        status == spec_transmit_status(old(device)@, *usart),
        final(device)@ == spec_write_usart_character(old(device)@, character, *usart),
{
    if !is_usart_setup(device, usart) {
        return TransmitStatus::NotReady;
    }
    let isr_usart_interrupt_register: u32 = get_isr_usart_interrupt_register(usart);
    let tdr_usart_data_register: u32 = get_tdr_usart_data_register(usart);

    if get_bit(device, isr_usart_interrupt_register, registers::USART_ISR_TXE) == 0 {
        return TransmitStatus::Busy;
    }
    write_register(device, tdr_usart_data_register, character as u32);
    TransmitStatus::Sent
}

/// Makes one step in the transmission of `string` on `usart`, `written`
/// characters of which were handed over before: it hands the next character
/// to the transmitter, if the port is started and the transmitter is empty.
/// It returns how many characters are handed over now, or nothing once the
/// transmission has ended. Whoever gets the number that it passed in waits
/// for the transmitter by making the step again.
pub fn write_usart_string_step(
    device: &mut Device,
    string: &str,
    written: usize,
    usart: &USART,
) -> (next: Option<usize>)
    ensures
        next == spec_string_step(old(device)@, string@, written, *usart),
        final(device)@ == spec_write_usart_string_step(old(device)@, string@, written, *usart),
{
    if !is_usart_setup(device, usart) {
        return None;
    }
    let length: usize = string.unicode_len();
    if written >= length {
        return None;
    }
    let character: char = string.get_char(written);
    match write_usart_character(device, character, usart) {
        TransmitStatus::Sent => Some(written + 1),
        _ => Some(written),
    }
}

/// Hands the characters of `string` to the transmitter of `usart` one after
/// the other, up to the first that it does not take, and returns how many it
/// took.
pub fn write_usart_string(device: &mut Device, string: &str, usart: &USART) -> (written: usize)
    ensures
        written == spec_written(old(device)@, string@, *usart),
        final(device)@ == spec_write_usart_string(old(device)@, string@, *usart),
{
    let length: usize = string.unicode_len();
    let mut written: usize = 0;
    loop
        invariant
            length == string@.len(),
            written <= length,
            written > 0 ==> spec_transmit_status(old(device)@, *usart) == TransmitStatus::Sent,
            device@ == spec_transmit(
                old(device)@,
                spec_tdr_usart_data_register(*usart),
                string@.take(written as int),
            ),
        decreases length - written,
    {
        proof {
            lemma_transmit_keeps_status(old(device)@, *usart, string@.take(written as int));
            assert(string@.take(0) =~= Seq::<char>::empty());
            assert(written == length ==> string@.take(written as int) =~= string@);
        }
        match write_usart_string_step(device, string, written, usart) {
            None => {
                return written;
            },
            Some(next) => {
                if next == written {
                    // Nobody changes this device meanwhile: to wait is no use.
                    return written;
                }
                proof {
                    assert(string@.take(written + 1).drop_last() =~= string@.take(
                        written as int,
                    ));
                }
                written = next;
            },
        }
    }
}

/// Writing characters to the data register of a port changes nothing of what
/// the next request to transmit on that port meets.
pub proof fn lemma_transmit_keeps_status(state: DeviceState, usart: USART, characters: Seq<char>)
    ensures
        spec_transmit_status(
            spec_transmit(state, spec_tdr_usart_data_register(usart), characters),
            usart,
        ) == spec_transmit_status(state, usart),
    decreases characters.len(),
{
    if characters.len() > 0 {
        lemma_transmit_keeps_status(state, usart, characters.drop_last());
    }
}

/// The fraction is the whole number nearest to the sixteenths that
/// `clock_speed / (16 * baud_rate)` has beyond the mantissa, and lies between
/// 0 and 16.
pub proof fn lemma_baud_divisor(clock_speed: u32, baud_rate: u32)
    requires
        baud_rate > 0,
    ensures
        ({
            let mantissa = spec_mantissa(clock_speed, baud_rate);
            let fraction = spec_fraction(clock_speed, baud_rate);
            let rest = clock_speed - mantissa * 16 * baud_rate;
            &&& 0 <= mantissa <= clock_speed
            &&& 0 <= rest < 16 * baud_rate
            &&& 0 <= fraction <= 16
            &&& 2 * fraction * baud_rate - baud_rate <= 2 * rest < 2 * fraction * baud_rate
                + baud_rate
        }),
{
    let divisor = 16 * baud_rate;
    let mantissa = clock_speed as int / divisor;
    let rest = clock_speed as int % divisor;
    let fraction = (2 * rest + baud_rate) / (2 * baud_rate);
    let beyond = (2 * rest + baud_rate) % (2 * baud_rate);
    assert(clock_speed == mantissa * divisor + rest && 0 <= rest < divisor && 0 <= mantissa
        <= clock_speed) by (nonlinear_arith)
        requires
            divisor > 0,
            clock_speed >= 0,
            mantissa == clock_speed as int / divisor,
            rest == clock_speed as int % divisor,
    ;
    assert(mantissa * 16 * baud_rate == mantissa * divisor) by (nonlinear_arith)
        requires
            divisor == 16 * baud_rate,
    ;
    assert(2 * rest + baud_rate == fraction * (2 * baud_rate) + beyond && 0 <= beyond < 2
        * baud_rate && 0 <= fraction <= 16) by (nonlinear_arith)
        requires
            baud_rate > 0,
            0 <= rest < 16 * baud_rate,
            fraction == (2 * rest + baud_rate) / (2 * baud_rate),
            beyond == (2 * rest + baud_rate) % (2 * baud_rate),
    ;
    assert(fraction * (2 * baud_rate) == 2 * fraction * baud_rate) by (nonlinear_arith);
}

/// A started port can transmit, and where the mantissa fits in twelve bits
/// and the fraction in four, the lower sixteen bits of its baud rate register
/// hold sixteen times the mantissa plus the fraction.
pub proof fn lemma_setup_makes_ready(
    state: DeviceState,
    clock_speed: u32,
    baud_rate: u32,
    usart: USART,
)
    requires
        baud_rate > 0,
    ensures
        spec_is_usart_setup(spec_setup_usart(state, clock_speed, baud_rate, usart), usart),
        spec_mantissa(clock_speed, baud_rate) < 4096 && spec_fraction(clock_speed, baud_rate) < 16
            ==> spec_setup_usart(state, clock_speed, baud_rate, usart).value(
            spec_brr_usart_baud_rate_register(usart),
        ) & 0xffff == spec_mantissa(clock_speed, baud_rate) * 16 + spec_fraction(
            clock_speed,
            baud_rate,
        ),
{
    lemma_baud_divisor(clock_speed, baud_rate);
    let control = spec_cr_usart_control_register(usart);
    let baud = spec_brr_usart_baud_rate_register(usart);
    let disabled = state.clear_bit(control, registers::USART_CR1_UE);
    let clocked = disabled.set_bit(
        registers::RCC_APB1LENR,
        spec_apb1lenr_usart_clock_enable_field(usart),
    ).set_bit(registers::RCC_AHB4ENR, spec_ahb4enr_gpio_clock_enable_field(usart));
    let wired = spec_rx_gpio(usart).spec_setup(spec_tx_gpio(usart).spec_setup(clocked));
    // The pins lie in other registers than the port's own.
    assert(wired.value(control) == disabled.value(control));
    assert(wired.value(baud) == state.value(baud));
    let word = wired.value(control);
    assert((((word | (1u32 << 3u8)) | (1u32 << 0u8)) >> 3u8) & 1u32 == 1) by (bit_vector);
    assert((((word | (1u32 << 3u8)) | (1u32 << 0u8)) >> 0u8) & 1u32 == 1) by (bit_vector);
    let rate = state.value(baud);
    let mantissa = spec_mantissa(clock_speed, baud_rate) as u32;
    let fraction = spec_fraction(clock_speed, baud_rate) as u32;
    assert(mantissa < 4096 && fraction < 16 ==> ((((rate & !(0xfffu32 << 4u8)) | (mantissa
        << 4u8)) & !(0xfu32 << 0u8)) | (fraction << 0u8)) & 0xffff == mantissa * 16 + fraction)
        by (bit_vector);
}

/// A stopped port cannot transmit.
pub proof fn lemma_cleanup_ends_readiness(state: DeviceState, usart: USART)
    ensures
        !spec_is_usart_setup(spec_cleanup_usart(state, usart), usart),
{
    let word = state.value(spec_cr_usart_control_register(usart));
    assert((((word & !(1u32 << 3u8)) & !(1u32 << 0u8)) >> 0u8) & 1u32 == 0) by (bit_vector);
}

// USART 2

/// Starts port 2; see [`setup_usart`].
pub fn setup_usart2(device: &mut Device, clock_speed: u32, baud_rate: u32)
    requires
        baud_rate > 0,
    ensures
        final(device)@ == spec_setup_usart(old(device)@, clock_speed, baud_rate, USART::USART2),
{
    setup_usart(device, clock_speed, baud_rate, &USART::USART2);
}

/// Stops port 2; see [`cleanup_usart`].
pub fn cleanup_usart2(device: &mut Device)
    ensures
        final(device)@ == spec_cleanup_usart(old(device)@, USART::USART2),
{
    cleanup_usart(device, &USART::USART2);
}

/// Whether port 2 can transmit; see [`is_usart_setup`].
pub fn is_usart2_setup(device: &Device) -> (ready: bool)
    ensures
        ready == spec_is_usart_setup(device@, USART::USART2),
{
    is_usart_setup(device, &USART::USART2)
}

/// Enables the transmit interrupt of port 2.
pub fn enable_usart2_tx_interrupt(device: &mut Device)
    ensures
        final(device)@ == spec_enable_usart_tx_interrupt(old(device)@, USART::USART2),
{
    enable_usart_tx_interrupt(device, &USART::USART2);
}

/// Disables the transmit interrupt of port 2.
pub fn disable_usart2_tx_interrupt(device: &mut Device)
    ensures
        final(device)@ == spec_disable_usart_tx_interrupt(old(device)@, USART::USART2),
{
    disable_usart_tx_interrupt(device, &USART::USART2);
}

/// Transmits one character on port 2; see [`write_usart_character`].
pub fn write_usart2_character(device: &mut Device, character: char) -> (status: TransmitStatus)
    ensures
        status == spec_transmit_status(old(device)@, USART::USART2),
        final(device)@ == spec_write_usart_character(old(device)@, character, USART::USART2),
{
    write_usart_character(device, character, &USART::USART2)
}

/// Transmits a string on port 2; see [`write_usart_string`].
pub fn write_usart2_string(device: &mut Device, string: &str) -> (written: usize)
    ensures
        written == spec_written(old(device)@, string@, USART::USART2),
        final(device)@ == spec_write_usart_string(old(device)@, string@, USART::USART2),
{
    write_usart_string(device, string, &USART::USART2)
}

// USART 3

/// Starts port 3; see [`setup_usart`].
pub fn setup_usart3(device: &mut Device, clock_speed: u32, baud_rate: u32)
    requires
        baud_rate > 0,
    ensures
        final(device)@ == spec_setup_usart(old(device)@, clock_speed, baud_rate, USART::USART3),
{
    setup_usart(device, clock_speed, baud_rate, &USART::USART3);
}

/// Stops port 3; see [`cleanup_usart`].
pub fn cleanup_usart3(device: &mut Device)
    ensures
        final(device)@ == spec_cleanup_usart(old(device)@, USART::USART3),
{
    cleanup_usart(device, &USART::USART3);
}

/// Whether port 3 can transmit; see [`is_usart_setup`].
pub fn is_usart3_setup(device: &Device) -> (ready: bool)
    ensures
        ready == spec_is_usart_setup(device@, USART::USART3),
{
    is_usart_setup(device, &USART::USART3)
}

/// Enables the transmit interrupt of port 3.
pub fn enable_usart3_tx_interrupt(device: &mut Device)
    ensures
        final(device)@ == spec_enable_usart_tx_interrupt(old(device)@, USART::USART3),
{
    enable_usart_tx_interrupt(device, &USART::USART3);
}

/// Disables the transmit interrupt of port 3.
pub fn disable_usart3_tx_interrupt(device: &mut Device)
    ensures
        final(device)@ == spec_disable_usart_tx_interrupt(old(device)@, USART::USART3),
{
    disable_usart_tx_interrupt(device, &USART::USART3);
}

/// Transmits one character on port 3; see [`write_usart_character`].
pub fn write_usart3_character(device: &mut Device, character: char) -> (status: TransmitStatus)
    ensures
        status == spec_transmit_status(old(device)@, USART::USART3),
        final(device)@ == spec_write_usart_character(old(device)@, character, USART::USART3),
{
    write_usart_character(device, character, &USART::USART3)
}

/// Transmits a string on port 3; see [`write_usart_string`].
pub fn write_usart3_string(device: &mut Device, string: &str) -> (written: usize)
    ensures
        written == spec_written(old(device)@, string@, USART::USART3),
        final(device)@ == spec_write_usart_string(old(device)@, string@, USART::USART3),
{
    write_usart_string(device, string, &USART::USART3)
}

} // verus!
