//! The interrupt controller: one enable bit and one priority byte for each
//! interrupt line.

use crate::device::{Device, DeviceState};
use crate::register_tools::{
    self, spec_array_field, spec_array_index, spec_write_bits, write_bits,
};
use crate::registers;
use vstd::prelude::*;

verus! {

/// The enable registers, 32 lines to a register.
pub const NVIC_ISER_REGISTERS: [u32; 5] = [
    registers::NVIC_ISER0,
    registers::NVIC_ISER1,
    registers::NVIC_ISER2,
    registers::NVIC_ISER3,
    registers::NVIC_ISER4,
];

/// The priority registers, four lines to a register and one byte to a line.
pub const NVIC_IPR_REGISTERS: [u32; 40] = [
    registers::NVIC_IPR0,
    registers::NVIC_IPR1,
    registers::NVIC_IPR2,
    registers::NVIC_IPR3,
    registers::NVIC_IPR4,
    registers::NVIC_IPR5,
    registers::NVIC_IPR6,
    registers::NVIC_IPR7,
    registers::NVIC_IPR8,
    registers::NVIC_IPR9,
    registers::NVIC_IPR10,
    registers::NVIC_IPR11,
    registers::NVIC_IPR12,
    registers::NVIC_IPR13,
    registers::NVIC_IPR14,
    registers::NVIC_IPR15,
    registers::NVIC_IPR16,
    registers::NVIC_IPR17,
    registers::NVIC_IPR18,
    registers::NVIC_IPR19,
    registers::NVIC_IPR20,
    registers::NVIC_IPR21,
    registers::NVIC_IPR22,
    registers::NVIC_IPR23,
    registers::NVIC_IPR24,
    registers::NVIC_IPR25,
    registers::NVIC_IPR26,
    registers::NVIC_IPR27,
    registers::NVIC_IPR28,
    registers::NVIC_IPR29,
    registers::NVIC_IPR30,
    registers::NVIC_IPR31,
    registers::NVIC_IPR32,
    registers::NVIC_IPR33,
    registers::NVIC_IPR34,
    registers::NVIC_IPR35,
    registers::NVIC_IPR36,
    registers::NVIC_IPR37,
    registers::NVIC_IPR38,
    registers::NVIC_IPR39,
];

/// The priority of an interrupt line. A lower level is served first.
#[derive(Clone, Copy, PartialEq, Eq, PartialOrd, Ord, Debug, Structural)]
pub enum IRQLevel {
    Level0,
    Level1,
    Level2,
    Level3,
    Level4,
    Level5,
    Level6,
    Level7,
    Level8,
    Level9,
    Level10,
    Level11,
    Level12,
    Level13,
    Level14,
    Level15,
}

impl IRQLevel {
    /// The number of this level, 0 to 15.
    pub open spec fn spec_value(self) -> u8 {
        match self {
            IRQLevel::Level0 => 0,
            IRQLevel::Level1 => 1,
            IRQLevel::Level2 => 2,
            IRQLevel::Level3 => 3,
            IRQLevel::Level4 => 4,
            IRQLevel::Level5 => 5,
            IRQLevel::Level6 => 6,
            IRQLevel::Level7 => 7,
            IRQLevel::Level8 => 8,
            IRQLevel::Level9 => 9,
            IRQLevel::Level10 => 10,
            IRQLevel::Level11 => 11,
            IRQLevel::Level12 => 12,
            IRQLevel::Level13 => 13,
            IRQLevel::Level14 => 14,
            IRQLevel::Level15 => 15,
        }
    }

    /// The number of this level, 0 to 15.
    pub fn value(self) -> (value: u8)
        ensures
            value == self.spec_value(),
    {
        match self {
            IRQLevel::Level0 => 0,
            IRQLevel::Level1 => 1,
            IRQLevel::Level2 => 2,
            IRQLevel::Level3 => 3,
            IRQLevel::Level4 => 4,
            IRQLevel::Level5 => 5,
            IRQLevel::Level6 => 6,
            IRQLevel::Level7 => 7,
            IRQLevel::Level8 => 8,
            IRQLevel::Level9 => 9,
            IRQLevel::Level10 => 10,
            IRQLevel::Level11 => 11,
            IRQLevel::Level12 => 12,
            IRQLevel::Level13 => 13,
            IRQLevel::Level14 => 14,
            IRQLevel::Level15 => 15,
        }
    }
}

/// The register that holds the enable bit of line `interrupt`.
pub open spec fn spec_enable_register(interrupt: u32) -> u32 {
    NVIC_ISER_REGISTERS@[spec_array_index(interrupt)]
}

/// The register that holds the priority byte of line `irq_id`.
pub open spec fn spec_priority_register(irq_id: u32) -> u32 {
    NVIC_IPR_REGISTERS@[irq_id as int / 4]
}

/// The bit at which the priority byte of line `irq_id` starts.
pub open spec fn spec_priority_field(irq_id: u32) -> u8 {
    ((irq_id % 4) * 8) as u8
}

/// What is written into the priority byte for `level`: only the upper four
/// bits of the byte exist in the hardware.
pub open spec fn spec_priority_byte(level: IRQLevel) -> u32 {
    (level.spec_value() * 16) as u32
}

/// The state after line `interrupt` was enabled.
pub open spec fn spec_enable_interrupt(state: DeviceState, interrupt: u32) -> DeviceState {
    state.set_bit(spec_enable_register(interrupt), spec_array_field(interrupt))
}

/// The state after line `interrupt` was disabled.
pub open spec fn spec_disable_interrupt(state: DeviceState, interrupt: u32) -> DeviceState {
    state.clear_bit(spec_enable_register(interrupt), spec_array_field(interrupt))
}

/// The state after line `irq_id` was given the priority `level`.
pub open spec fn spec_set_irq_level(state: DeviceState, irq_id: u32, level: IRQLevel)
    -> DeviceState {
    state.write_bits(
        spec_priority_register(irq_id),
        spec_priority_field(irq_id),
        spec_priority_byte(level),
        0xFF,
    )
}

/// Enables the interrupt line `interrupt`.
pub fn enable_interrupt(device: &mut Device, interrupt: u32)
    requires
        interrupt < 160,
    ensures
        final(device)@ == spec_enable_interrupt(old(device)@, interrupt),
{
    register_tools::enable_interrupt(device, interrupt, &NVIC_ISER_REGISTERS);
}

/// Disables the interrupt line `interrupt`.
pub fn disable_interrupt(device: &mut Device, interrupt: u32)
    requires
        interrupt < 160,
    ensures
        final(device)@ == spec_disable_interrupt(old(device)@, interrupt),
{
    register_tools::disable_interrupt(device, interrupt, &NVIC_ISER_REGISTERS);
}

/// Gives the interrupt line `irq_id` the priority `level`.
pub fn set_irq_level(device: &mut Device, irq_id: u32, level: IRQLevel)
    requires
        irq_id < 160,
    ensures
        final(device)@ == spec_set_irq_level(old(device)@, irq_id, level),
{
    let index: usize = (irq_id as usize) / 4;
    let field: u8 = (irq_id % 4) as u8 * 8;

    // The level lies in the upper four bits of the line's byte.
    let level: u8 = level.value();
    let level: u32 = (level * 16) as u32;

    write_bits(device, NVIC_IPR_REGISTERS[index], field, level, 0xFF);
}

/// Writing a priority puts the level into the upper four bits of the line's
/// byte, zero into the lower four, and keeps the other three bytes of the
/// register.
pub proof fn lemma_priority_packing(word: u32, irq_id: u32, level: IRQLevel)
    ensures
        (spec_write_bits(word, spec_priority_field(irq_id), spec_priority_byte(level), 0xFF)
            >> spec_priority_field(irq_id)) & 0xFF == level.spec_value() * 16,
        spec_write_bits(word, spec_priority_field(irq_id), spec_priority_byte(level), 0xFF) & !(
        0xFFu32 << spec_priority_field(irq_id)) == word & !(0xFFu32 << spec_priority_field(
            irq_id,
        )),
{
    let field = spec_priority_field(irq_id);
    let byte = spec_priority_byte(level);
    assert(field == 0 || field == 8 || field == 16 || field == 24);
    assert(byte <= 0xF0);
    assert((((word & !(0xFFu32 << field)) | (byte << field)) >> field) & 0xFF == byte)
        by (bit_vector)
        requires
            field == 0 || field == 8 || field == 16 || field == 24,
            byte <= 0xF0,
    ;
    assert(((word & !(0xFFu32 << field)) | (byte << field)) & !(0xFFu32 << field) == word & !(
    0xFFu32 << field)) by (bit_vector)
        requires
            field == 0 || field == 8 || field == 16 || field == 24,
            byte <= 0xF0,
    ;
}

/// Enabling a line that is disabled and then disabling it gives every
/// register the word that it had before.
pub proof fn lemma_enable_disable_inverse(state: DeviceState, interrupt: u32)
    requires
        interrupt < 160,
        state.get_bit(spec_enable_register(interrupt), spec_array_field(interrupt)) == 0,
    ensures
        forall|register: u32|
            spec_disable_interrupt(spec_enable_interrupt(state, interrupt), interrupt).value(
                register,
            ) == state.value(register),
{
    let word = state.value(spec_enable_register(interrupt));
    let field = spec_array_field(interrupt);
    assert((word >> field) & 1u32 == 0 ==> (word | (1u32 << field)) & !(1u32 << field) == word)
        by (bit_vector)
        requires
            field < 32,
    ;
}

/// Disabling a line that is enabled and then enabling it gives every register
/// the word that it had before.
pub proof fn lemma_disable_enable_inverse(state: DeviceState, interrupt: u32)
    requires
        interrupt < 160,
        state.get_bit(spec_enable_register(interrupt), spec_array_field(interrupt)) == 1,
    ensures
        forall|register: u32|
            spec_enable_interrupt(spec_disable_interrupt(state, interrupt), interrupt).value(
                register,
            ) == state.value(register),
{
    let word = state.value(spec_enable_register(interrupt));
    let field = spec_array_field(interrupt);
    assert((word >> field) & 1u32 == 1 ==> (word & !(1u32 << field)) | (1u32 << field) == word)
        by (bit_vector)
        requires
            field < 32,
    ;
}

} // verus!
