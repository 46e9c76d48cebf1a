//! The four general-purpose timers, run as free counters of microseconds that
//! raise an interrupt once per interval.

use crate::device::{Device, DeviceState};
use crate::interrupts::{
    disable_interrupt, enable_interrupt, spec_disable_interrupt, spec_enable_interrupt,
    spec_enable_register,
};
use crate::register_tools::{
    clear_bit, lemma_set_bit_idempotent, read_register, set_bit, spec_array_field, spec_clear_bit,
    spec_get_bit, spec_set_bit, write_register,
};
use crate::registers;
use vstd::prelude::*;

verus! {

/// The timers of the chip.
#[derive(Clone, Copy, PartialEq, Eq, Debug, Structural)]
pub enum Timer {
    Tim2,
    Tim3,
    Tim4,
    Tim5,
}

/// Why a timer was not started. Each variant carries the rejected value.
#[derive(Clone, Copy, PartialEq, Eq, Debug, Structural)]
pub enum TimerError {
    InvalidClockSpeed(u32),
    InvalidInterval(u16),
}

/// The bit that enables the clock of a timer.
pub open spec fn spec_clock_enable_field(timer: Timer) -> u8 {
    match timer {
        Timer::Tim2 => registers::APB1LENR_TIM2EN,
        Timer::Tim3 => registers::APB1LENR_TIM3EN,
        Timer::Tim4 => registers::APB1LENR_TIM4EN,
        Timer::Tim5 => registers::APB1LENR_TIM5EN,
    }
}

/// The bit that enables the clock of a timer.
pub fn get_clock_enable_field(timer: &Timer) -> (register: u8)
    ensures
        register == spec_clock_enable_field(*timer),
{
    match timer {
        Timer::Tim2 => registers::APB1LENR_TIM2EN,
        Timer::Tim3 => registers::APB1LENR_TIM3EN,
        Timer::Tim4 => registers::APB1LENR_TIM4EN,
        Timer::Tim5 => registers::APB1LENR_TIM5EN,
    }
}

/// The prescaler register of a timer.
pub open spec fn spec_psc_prescaler_register(timer: Timer) -> u32 {
    match timer {
        Timer::Tim2 => registers::TIM2_PSC,
        Timer::Tim3 => registers::TIM3_PSC,
        Timer::Tim4 => registers::TIM4_PSC,
        Timer::Tim5 => registers::TIM5_PSC,
    }
}

/// The prescaler register of a timer.
pub fn get_psc_prescaler_register(timer: &Timer) -> (register: u32)
    ensures
        register == spec_psc_prescaler_register(*timer),
{
    match timer {
        Timer::Tim2 => registers::TIM2_PSC,
        Timer::Tim3 => registers::TIM3_PSC,
        Timer::Tim4 => registers::TIM4_PSC,
        Timer::Tim5 => registers::TIM5_PSC,
    }
}

/// The auto-reload register of a timer.
pub open spec fn spec_arr_auto_reload_register(timer: Timer) -> u32 {
    match timer {
        Timer::Tim2 => registers::TIM2_ARR,
        Timer::Tim3 => registers::TIM3_ARR,
        Timer::Tim4 => registers::TIM4_ARR,
        Timer::Tim5 => registers::TIM5_ARR,
    }
}

/// The auto-reload register of a timer.
pub fn get_arr_auto_reload_register(timer: &Timer) -> (register: u32)
    ensures
        register == spec_arr_auto_reload_register(*timer),
{
    match timer {
        Timer::Tim2 => registers::TIM2_ARR,
        Timer::Tim3 => registers::TIM3_ARR,
        Timer::Tim4 => registers::TIM4_ARR,
        Timer::Tim5 => registers::TIM5_ARR,
    }
}

/// The counter register of a timer.
pub open spec fn spec_cnt_counter_register(timer: Timer) -> u32 {
    match timer {
        Timer::Tim2 => registers::TIM2_CNT,
        Timer::Tim3 => registers::TIM3_CNT,
        Timer::Tim4 => registers::TIM4_CNT,
        Timer::Tim5 => registers::TIM5_CNT,
    }
}

/// The counter register of a timer.
pub fn get_cnt_counter_register(timer: &Timer) -> (register: u32)
    ensures
        register == spec_cnt_counter_register(*timer),
{
    match timer {
        Timer::Tim2 => registers::TIM2_CNT,
        Timer::Tim3 => registers::TIM3_CNT,
        Timer::Tim4 => registers::TIM4_CNT,
        Timer::Tim5 => registers::TIM5_CNT,
    }
}

/// The status register of a timer.
pub open spec fn spec_sr_status_register(timer: Timer) -> u32 {
    match timer {
        Timer::Tim2 => registers::TIM2_SR,
        Timer::Tim3 => registers::TIM3_SR,
        Timer::Tim4 => registers::TIM4_SR,
        Timer::Tim5 => registers::TIM5_SR,
    }
}

/// The status register of a timer.
pub fn get_sr_status_register(timer: &Timer) -> (register: u32)
    ensures
        register == spec_sr_status_register(*timer),
{
    match timer {
        Timer::Tim2 => registers::TIM2_SR,
        Timer::Tim3 => registers::TIM3_SR,
        Timer::Tim4 => registers::TIM4_SR,
        Timer::Tim5 => registers::TIM5_SR,
    }
}

/// The control register of a timer.
pub open spec fn spec_cr1_control_register(timer: Timer) -> u32 {
    match timer {
        Timer::Tim2 => registers::TIM2_CR1,
        Timer::Tim3 => registers::TIM3_CR1,
        Timer::Tim4 => registers::TIM4_CR1,
        Timer::Tim5 => registers::TIM5_CR1,
    }
}

/// The control register of a timer.
pub fn get_cr1_control_register(timer: &Timer) -> (register: u32)
    ensures
        register == spec_cr1_control_register(*timer),
{
    match timer {
        Timer::Tim2 => registers::TIM2_CR1,
        Timer::Tim3 => registers::TIM3_CR1,
        Timer::Tim4 => registers::TIM4_CR1,
        Timer::Tim5 => registers::TIM5_CR1,
    }
}

/// The interrupt enable register of a timer.
pub open spec fn spec_dier_interrupt_register(timer: Timer) -> u32 {
    match timer {
        Timer::Tim2 => registers::TIM2_DIER,
        Timer::Tim3 => registers::TIM3_DIER,
        Timer::Tim4 => registers::TIM4_DIER,
        Timer::Tim5 => registers::TIM5_DIER,
    }
}

/// The interrupt enable register of a timer.
pub fn get_dier_interrupt_register(timer: &Timer) -> (register: u32)
    ensures
        register == spec_dier_interrupt_register(*timer),
{
    match timer {
        Timer::Tim2 => registers::TIM2_DIER,
        Timer::Tim3 => registers::TIM3_DIER,
        Timer::Tim4 => registers::TIM4_DIER,
        Timer::Tim5 => registers::TIM5_DIER,
    }
}

/// The event generator register of a timer.
pub open spec fn spec_egr_event_generator_register(timer: Timer) -> u32 {
    match timer {
        Timer::Tim2 => registers::TIM2_EGR,
        Timer::Tim3 => registers::TIM3_EGR,
        Timer::Tim4 => registers::TIM4_EGR,
        Timer::Tim5 => registers::TIM5_EGR,
    }
}

/// The event generator register of a timer.
pub fn get_egr_event_generator_register(timer: &Timer) -> (register: u32)
    ensures
        register == spec_egr_event_generator_register(*timer),
{
    match timer {
        Timer::Tim2 => registers::TIM2_EGR,
        Timer::Tim3 => registers::TIM3_EGR,
        Timer::Tim4 => registers::TIM4_EGR,
        Timer::Tim5 => registers::TIM5_EGR,
    }
}

/// The interrupt line of a timer.
pub open spec fn spec_nvic_interrupt_id(timer: Timer) -> u32 {
    match timer {
        Timer::Tim2 => registers::TIM2_IRQ,
        Timer::Tim3 => registers::TIM3_IRQ,
        Timer::Tim4 => registers::TIM4_IRQ,
        Timer::Tim5 => registers::TIM5_IRQ,
    }
}

/// The interrupt line of a timer.
pub fn get_nvic_interrupt_id(timer: &Timer) -> (register: u32)
    ensures
        register == spec_nvic_interrupt_id(*timer),
{
    match timer {
        Timer::Tim2 => registers::TIM2_IRQ,
        Timer::Tim3 => registers::TIM3_IRQ,
        Timer::Tim4 => registers::TIM4_IRQ,
        Timer::Tim5 => registers::TIM5_IRQ,
    }
}

/// The prescaler at which a counter clocked at `clock_frequency` Hz ticks
/// once per microsecond.
pub open spec fn spec_prescaler(clock_frequency: u32) -> int {
    clock_frequency as int / 1_000_000 - 1
}

/// The reload value at which a counter of microseconds rolls over every
/// `interval_ms` milliseconds.
pub open spec fn spec_auto_reload(interval_ms: u16) -> int {
    interval_ms as int * 1_000 - 1
}

/// What starting a timer returns: a clock of zero is rejected first, then an
/// interval of zero.
pub open spec fn spec_setup_result(clock_frequency: u32, interval_ms: u16) -> Result<
    (),
    TimerError,
> {
    if clock_frequency == 0 {
        Err(TimerError::InvalidClockSpeed(clock_frequency))
    } else if interval_ms == 0 {
        Err(TimerError::InvalidInterval(interval_ms))
    } else {
        Ok(())
    }
}

/// The state after a timer was started. A rejected start leaves the state as
/// it was. Otherwise the timer's clock is enabled, prescaler and reload value
/// are written, an update event loads them, the update interrupt and its line
/// are enabled, and the counter is enabled last.
pub open spec fn spec_setup_cyclical_timer(
    state: DeviceState,
    timer: Timer,
    clock_frequency: u32,
    interval_ms: u16,
) -> DeviceState {
    if clock_frequency == 0 || interval_ms == 0 {
        state
    } else {
        let clocked = state.set_bit(registers::RCC_APB1LENR, spec_clock_enable_field(timer));
        let programmed = clocked.write(
            spec_psc_prescaler_register(timer),
            spec_prescaler(clock_frequency) as u32,
        ).write(spec_arr_auto_reload_register(timer), spec_auto_reload(interval_ms) as u32);
        let loaded = programmed.set_bit(
            spec_egr_event_generator_register(timer),
            registers::TIM_EGR_UG,
        );
        let armed = spec_enable_interrupt(
            loaded.set_bit(spec_dier_interrupt_register(timer), registers::TIM_DIER_UIE),
            spec_nvic_interrupt_id(timer),
        );
        armed.set_bit(spec_cr1_control_register(timer), registers::TIM_CR1_CEN)
    }
}

/// The state after a timer was stopped: the counter is disabled first, then
/// the update interrupt, an update event reloads the registers, and the
/// timer's line is disabled last.
pub open spec fn spec_cleanup_timer(state: DeviceState, timer: Timer) -> DeviceState {
    let halted = state.clear_bit(spec_cr1_control_register(timer), registers::TIM_CR1_CEN);
    let silenced = halted.clear_bit(spec_dier_interrupt_register(timer), registers::TIM_DIER_UIE);
    let reloaded = silenced.set_bit(
        spec_egr_event_generator_register(timer),
        registers::TIM_EGR_UG,
    );
    spec_disable_interrupt(reloaded, spec_nvic_interrupt_id(timer))
}

/// The time on a timer in microseconds: the reading of its counter, which
/// ticks once per microsecond.
pub open spec fn spec_now_us(state: DeviceState, timer: Timer) -> u64 {
    state.value(spec_cnt_counter_register(timer)) as u64
}

/// The time on a timer in nanoseconds: a thousand for each tick of its
/// counter.
pub open spec fn spec_now_ns(state: DeviceState, timer: Timer) -> u64 {
    (state.value(spec_cnt_counter_register(timer)) * 1_000) as u64
}

/// The state after the pending update interrupt of a timer was cleared.
pub open spec fn spec_clear_interrupt_flag(state: DeviceState, timer: Timer) -> DeviceState {
    state.clear_bit(spec_sr_status_register(timer), registers::TIM_SR_UIF)
}

/// Starts `timer` so that it counts microseconds on a clock of
/// `clock_frequency` Hz and raises its interrupt every `interval_ms`
/// milliseconds. A clock or an interval of zero is rejected before any
/// register is touched. A clock below 1 MHz has no prescaler.
pub fn setup_cyclical_timer(
    device: &mut Device,
    timer: &Timer,
    clock_frequency: u32,
    interval_ms: u16,
) -> (result: Result<(), TimerError>)
    requires
        clock_frequency == 0 || interval_ms == 0 || clock_frequency >= 1_000_000,
    ensures
        result == spec_setup_result(clock_frequency, interval_ms),
        final(device)@ == spec_setup_cyclical_timer(
            old(device)@,
            *timer,
            clock_frequency,
            interval_ms,
        ),
{
    if clock_frequency == 0 {
        return Err(TimerError::InvalidClockSpeed(clock_frequency));
    }
    if interval_ms == 0 {
        return Err(TimerError::InvalidInterval(interval_ms));
    }
    // One tick of the counter per microsecond.
    let prescaler: u32 = (clock_frequency / 1_000_000) - 1;

    // The counter rolls over after the interval's microseconds.
    let auto_reload: u32 = (interval_ms as u32 * 1_000) - 1;

    set_bit(device, registers::RCC_APB1LENR, get_clock_enable_field(timer));
    write_register(device, get_psc_prescaler_register(timer), prescaler);
    write_register(device, get_arr_auto_reload_register(timer), auto_reload);

    // The update event loads prescaler and reload value into the counter.
    set_bit(device, get_egr_event_generator_register(timer), registers::TIM_EGR_UG);
    set_bit(device, get_dier_interrupt_register(timer), registers::TIM_DIER_UIE);
    enable_interrupt(device, get_nvic_interrupt_id(timer));
    set_bit(device, get_cr1_control_register(timer), registers::TIM_CR1_CEN);

    Ok(())
}

/// Stops `timer`.
pub fn cleanup_timer(device: &mut Device, timer: &Timer)
    ensures
        final(device)@ == spec_cleanup_timer(old(device)@, *timer),
{
    clear_bit(device, get_cr1_control_register(timer), registers::TIM_CR1_CEN);
    clear_bit(device, get_dier_interrupt_register(timer), registers::TIM_DIER_UIE);

    // The update event keeps stale values out of a later start.
    set_bit(device, get_egr_event_generator_register(timer), registers::TIM_EGR_UG);
    disable_interrupt(device, get_nvic_interrupt_id(timer));
}

/// The time on `timer` in microseconds. On a timer that was never started
/// this is whatever its counter holds.
pub fn get_now_us(device: &Device, timer: &Timer) -> (now: u64)
    ensures
        now == spec_now_us(device@, *timer),
{
    read_register(device, get_cnt_counter_register(timer)) as u64
}

/// The time on `timer` in nanoseconds.
pub fn get_now_ns(device: &Device, timer: &Timer) -> (now: u64)
    ensures
        now == spec_now_ns(device@, *timer),
{
    get_now_us(device, timer) * 1_000
}

/// Whether the counter of a timer is enabled.
pub open spec fn spec_is_running(state: DeviceState, timer: Timer) -> bool {
    state.get_bit(spec_cr1_control_register(timer), registers::TIM_CR1_CEN) == 1
}

/// A start with a clock of at least 1 MHz and an interval above zero succeeds
/// and leaves `clock_frequency / 1_000_000 - 1` in the prescaler register,
/// `interval_ms * 1000 - 1` in the auto-reload register and the counter
/// enabled. A start with a clock or an interval of zero fails and leaves the
/// device as it was.
pub proof fn lemma_setup_programs_timer(
    state: DeviceState,
    timer: Timer,
    clock_frequency: u32,
    interval_ms: u16,
)
    ensures
        clock_frequency >= 1_000_000 && interval_ms > 0 ==> {
            let started = spec_setup_cyclical_timer(state, timer, clock_frequency, interval_ms);
            &&& spec_setup_result(clock_frequency, interval_ms) == Ok::<(), TimerError>(())
            &&& started.value(spec_psc_prescaler_register(timer)) == clock_frequency / 1_000_000
                - 1
            &&& started.value(spec_arr_auto_reload_register(timer)) == interval_ms * 1_000 - 1
            &&& spec_is_running(started, timer)
        },
        clock_frequency == 0 ==> {
            &&& spec_setup_result(clock_frequency, interval_ms) == Err::<(), TimerError>(
                TimerError::InvalidClockSpeed(clock_frequency),
            )
            &&& spec_setup_cyclical_timer(state, timer, clock_frequency, interval_ms) == state
        },
        clock_frequency != 0 && interval_ms == 0 ==> {
            &&& spec_setup_result(clock_frequency, interval_ms) == Err::<(), TimerError>(
                TimerError::InvalidInterval(interval_ms),
            )
            &&& spec_setup_cyclical_timer(state, timer, clock_frequency, interval_ms) == state
        },
{
    if clock_frequency >= 1_000_000 && interval_ms > 0 {
        let clocked = state.set_bit(registers::RCC_APB1LENR, spec_clock_enable_field(timer));
        let programmed = clocked.write(
            spec_psc_prescaler_register(timer),
            spec_prescaler(clock_frequency) as u32,
        ).write(spec_arr_auto_reload_register(timer), spec_auto_reload(interval_ms) as u32);
        let loaded = programmed.set_bit(
            spec_egr_event_generator_register(timer),
            registers::TIM_EGR_UG,
        );
        let before = spec_enable_interrupt(
            loaded.set_bit(spec_dier_interrupt_register(timer), registers::TIM_DIER_UIE),
            spec_nvic_interrupt_id(timer),
        );
        lemma_set_bit_idempotent(
            before.value(spec_cr1_control_register(timer)),
            registers::TIM_CR1_CEN,
        );
    }
}

/// A stopped timer does not run, and stopping it again changes no register.
pub proof fn lemma_cleanup_stops_timer(state: DeviceState, timer: Timer)
    ensures
        !spec_is_running(spec_cleanup_timer(state, timer), timer),
        forall|register: u32|
            spec_cleanup_timer(spec_cleanup_timer(state, timer), timer).value(register)
                == spec_cleanup_timer(state, timer).value(register),
{
    let control = state.value(spec_cr1_control_register(timer));
    let enable = state.value(spec_dier_interrupt_register(timer));
    let event = state.value(spec_egr_event_generator_register(timer));
    let line = state.value(spec_enable_register(spec_nvic_interrupt_id(timer)));
    let field = spec_array_field(spec_nvic_interrupt_id(timer));
    assert(spec_get_bit(spec_clear_bit(control, 0), 0) == 0) by (bit_vector);
    assert(spec_clear_bit(spec_clear_bit(control, 0), 0) == spec_clear_bit(control, 0))
        by (bit_vector);
    assert(spec_clear_bit(spec_clear_bit(enable, 0), 0) == spec_clear_bit(enable, 0))
        by (bit_vector);
    assert(spec_set_bit(spec_set_bit(event, 0), 0) == spec_set_bit(event, 0)) by (bit_vector);
    assert(spec_clear_bit(spec_clear_bit(line, field), field) == spec_clear_bit(line, field))
        by (bit_vector);
}

/// Starts timer 2; see [`setup_cyclical_timer`].
pub fn setup_cyclical_timer2(device: &mut Device, clock_frequency: u32, interval_ms: u16) -> (result:
    Result<(), TimerError>)
    requires
        clock_frequency == 0 || interval_ms == 0 || clock_frequency >= 1_000_000,
    ensures
        result == spec_setup_result(clock_frequency, interval_ms),
        final(device)@ == spec_setup_cyclical_timer(
            old(device)@,
            Timer::Tim2,
            clock_frequency,
            interval_ms,
        ),
{
    setup_cyclical_timer(device, &Timer::Tim2, clock_frequency, interval_ms)
}

/// Starts timer 3; see [`setup_cyclical_timer`].
pub fn setup_cyclical_timer3(device: &mut Device, clock_frequency: u32, interval_ms: u16) -> (result:
    Result<(), TimerError>)
    requires
        clock_frequency == 0 || interval_ms == 0 || clock_frequency >= 1_000_000,
    ensures
        result == spec_setup_result(clock_frequency, interval_ms),
        final(device)@ == spec_setup_cyclical_timer(
            old(device)@,
            Timer::Tim3,
            clock_frequency,
            interval_ms,
        ),
{
    setup_cyclical_timer(device, &Timer::Tim3, clock_frequency, interval_ms)
}

/// Starts timer 4; see [`setup_cyclical_timer`].
pub fn setup_cyclical_timer4(device: &mut Device, clock_frequency: u32, interval_ms: u16) -> (result:
    Result<(), TimerError>)
    requires
        clock_frequency == 0 || interval_ms == 0 || clock_frequency >= 1_000_000,
    ensures
        result == spec_setup_result(clock_frequency, interval_ms),
        final(device)@ == spec_setup_cyclical_timer(
            old(device)@,
            Timer::Tim4,
            clock_frequency,
            interval_ms,
        ),
{
    setup_cyclical_timer(device, &Timer::Tim4, clock_frequency, interval_ms)
}

/// Starts timer 5; see [`setup_cyclical_timer`].
pub fn setup_cyclical_timer5(device: &mut Device, clock_frequency: u32, interval_ms: u16) -> (result:
    Result<(), TimerError>)
    requires
        clock_frequency == 0 || interval_ms == 0 || clock_frequency >= 1_000_000,
    ensures
        result == spec_setup_result(clock_frequency, interval_ms),
        final(device)@ == spec_setup_cyclical_timer(
            old(device)@,
            Timer::Tim5,
            clock_frequency,
            interval_ms,
        ),
{
    setup_cyclical_timer(device, &Timer::Tim5, clock_frequency, interval_ms)
}

/// Stops timer 2; see [`cleanup_timer`].
pub fn cleanup_timer2(device: &mut Device)
    ensures
        final(device)@ == spec_cleanup_timer(old(device)@, Timer::Tim2),
{
    cleanup_timer(device, &Timer::Tim2);
}

/// Stops timer 3; see [`cleanup_timer`].
pub fn cleanup_timer3(device: &mut Device)
    ensures
        final(device)@ == spec_cleanup_timer(old(device)@, Timer::Tim3),
{
    cleanup_timer(device, &Timer::Tim3);
}

/// Stops timer 4; see [`cleanup_timer`].
pub fn cleanup_timer4(device: &mut Device)
    ensures
        final(device)@ == spec_cleanup_timer(old(device)@, Timer::Tim4),
{
    cleanup_timer(device, &Timer::Tim4);
}

/// Stops timer 5; see [`cleanup_timer`].
pub fn cleanup_timer5(device: &mut Device)
    ensures
        final(device)@ == spec_cleanup_timer(old(device)@, Timer::Tim5),
{
    cleanup_timer(device, &Timer::Tim5);
}

/// The time on timer 2; see [`get_now_us`].
pub fn get_timer2_now_us(device: &Device) -> (now: u64)
    ensures
        now == spec_now_us(device@, Timer::Tim2),
{
    get_now_us(device, &Timer::Tim2)
}

/// The time on timer 3; see [`get_now_us`].
pub fn get_timer3_now_us(device: &Device) -> (now: u64)
    ensures
        now == spec_now_us(device@, Timer::Tim3),
{
    get_now_us(device, &Timer::Tim3)
}

/// The time on timer 4; see [`get_now_us`].
pub fn get_timer4_now_us(device: &Device) -> (now: u64)
    ensures
        now == spec_now_us(device@, Timer::Tim4),
{
    get_now_us(device, &Timer::Tim4)
}

/// The time on timer 5; see [`get_now_us`].
pub fn get_timer5_now_us(device: &Device) -> (now: u64)
    ensures
        now == spec_now_us(device@, Timer::Tim5),
{
    get_now_us(device, &Timer::Tim5)
}

/// The time on timer 2; see [`get_now_ns`].
pub fn get_timer2_now_ns(device: &Device) -> (now: u64)
    ensures
        now == spec_now_ns(device@, Timer::Tim2),
{
    get_now_ns(device, &Timer::Tim2)
}

/// The time on timer 3; see [`get_now_ns`].
pub fn get_timer3_now_ns(device: &Device) -> (now: u64)
    ensures
        now == spec_now_ns(device@, Timer::Tim3),
{
    get_now_ns(device, &Timer::Tim3)
}

/// The time on timer 4; see [`get_now_ns`].
pub fn get_timer4_now_ns(device: &Device) -> (now: u64)
    ensures
        now == spec_now_ns(device@, Timer::Tim4),
{
    get_now_ns(device, &Timer::Tim4)
}

/// The time on timer 5; see [`get_now_ns`].
pub fn get_timer5_now_ns(device: &Device) -> (now: u64)
    ensures
        now == spec_now_ns(device@, Timer::Tim5),
{
    get_now_ns(device, &Timer::Tim5)
}

/// Clears the pending update interrupt of timer 2. The handler of the
/// timer's interrupt calls this each time it runs.
pub fn clear_timer2_interrupt_flag(device: &mut Device)
    ensures
        final(device)@ == spec_clear_interrupt_flag(old(device)@, Timer::Tim2),
{
    clear_bit(device, registers::TIM2_SR, registers::TIM_SR_UIF);
}

/// Clears the pending update interrupt of timer 3. The handler of the
/// timer's interrupt calls this each time it runs.
pub fn clear_timer3_interrupt_flag(device: &mut Device)
    ensures
        final(device)@ == spec_clear_interrupt_flag(old(device)@, Timer::Tim3),
{
    clear_bit(device, registers::TIM3_SR, registers::TIM_SR_UIF);
}

/// Clears the pending update interrupt of timer 4. The handler of the
/// timer's interrupt calls this each time it runs.
pub fn clear_timer4_interrupt_flag(device: &mut Device)
    ensures
        final(device)@ == spec_clear_interrupt_flag(old(device)@, Timer::Tim4),
{
    clear_bit(device, registers::TIM4_SR, registers::TIM_SR_UIF);
}

/// Clears the pending update interrupt of timer 5. The handler of the
/// timer's interrupt calls this each time it runs.
pub fn clear_timer5_interrupt_flag(device: &mut Device)
    ensures
        final(device)@ == spec_clear_interrupt_flag(old(device)@, Timer::Tim5),
{
    clear_bit(device, registers::TIM5_SR, registers::TIM_SR_UIF);
}

} // verus!
