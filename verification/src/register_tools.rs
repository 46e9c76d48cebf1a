//! Field access: the only place where a register's word is read or changed.
//!
//! Every function makes one read, one write, or one read followed by one
//! write of a single register of the [`Device`].

use crate::device::{Device, DeviceState};
use vstd::prelude::*;

verus! {

/// `word` with bit `field` set.
pub open spec fn spec_set_bit(word: u32, field: u8) -> u32 {
    word | (1u32 << field)
}

/// `word` with bit `field` cleared.
pub open spec fn spec_clear_bit(word: u32, field: u8) -> u32 {
    word & !(1u32 << field)
}

/// `word` with bit `field` inverted.
pub open spec fn spec_toggle_bit(word: u32, field: u8) -> u32 {
    word ^ (1u32 << field)
}

/// Bit `field` of `word`, as 0 or 1.
pub open spec fn spec_get_bit(word: u32, field: u8) -> u32 {
    (word >> field) & 1u32
}

/// `word` with the bits under `mask << field` cleared and `value << field`
/// then or-ed in.
pub open spec fn spec_write_bits(word: u32, field: u8, value: u32, mask: u32) -> u32 {
    (word & !(mask << field)) | (value << field)
}

impl DeviceState {
    /// The state after bit `field` of `register` was set.
    pub open spec fn set_bit(self, register: u32, field: u8) -> DeviceState {
        self.write(register, spec_set_bit(self.value(register), field))
    }

    /// The state after bit `field` of `register` was cleared.
    pub open spec fn clear_bit(self, register: u32, field: u8) -> DeviceState {
        self.write(register, spec_clear_bit(self.value(register), field))
    }

    /// The state after bit `field` of `register` was inverted.
    pub open spec fn toggle_bit(self, register: u32, field: u8) -> DeviceState {
        self.write(register, spec_toggle_bit(self.value(register), field))
    }

    /// Bit `field` of `register`, as 0 or 1.
    pub open spec fn get_bit(self, register: u32, field: u8) -> u32 {
        spec_get_bit(self.value(register), field)
    }

    /// The state after `value` was written under `mask` at `field` of
    /// `register`.
    pub open spec fn write_bits(self, register: u32, field: u8, value: u32, mask: u32)
        -> DeviceState {
        self.write(register, spec_write_bits(self.value(register), field, value, mask))
    }
}

/// Writes a word into a register.
pub fn write_register(device: &mut Device, register: u32, value: u32)
    ensures
        final(device)@ == old(device)@.write(register, value),
{
    device.write(register, value);
}

/// Reads the word of a register.
pub fn read_register(device: &Device, register: u32) -> (value: u32)
    ensures
        value == device@.value(register),
{
    device.read(register)
}

/// Sets bit `field` of a register.
pub fn set_bit(device: &mut Device, register: u32, field: u8)
    requires
        field < 32,
    ensures
        final(device)@ == old(device)@.set_bit(register, field),
{
    let word: u32 = device.read(register);
    device.write(register, word | (1u32 << field));
}

/// Clears bit `field` of a register.
pub fn clear_bit(device: &mut Device, register: u32, field: u8)
    requires
        field < 32,
    ensures
        final(device)@ == old(device)@.clear_bit(register, field),
{
    let word: u32 = device.read(register);
    device.write(register, word & !(1u32 << field));
}

/// Reads bit `field` of a register.
pub fn get_bit(device: &Device, register: u32, field: u8) -> (bit: u32)
    requires
        field < 32,
    ensures
        bit == device@.get_bit(register, field),
        bit == 0 || bit == 1,
{
    let word: u32 = device.read(register);
    assert((word >> field) & 1u32 == 0 || (word >> field) & 1u32 == 1) by (bit_vector);
    (word >> field) & 1u32
}

/// Inverts bit `field` of a register.
pub fn toggle_bit(device: &mut Device, register: u32, field: u8)
    requires
        field < 32,
    ensures
        final(device)@ == old(device)@.toggle_bit(register, field),
{
    let word: u32 = device.read(register);
    device.write(register, word ^ (1u32 << field));
}

/// Replaces the bits of a register that lie under `mask << field` by
/// `value << field`.
pub fn write_bits(device: &mut Device, register: u32, field: u8, value: u32, mask: u32)
    requires
        field < 32,
    ensures
        final(device)@ == old(device)@.write_bits(register, field, value, mask),
{
    let word: u32 = device.read(register);
    device.write(register, (word & !(mask << field)) | (value << field));
}

/// The position in a register list of the word that holds line `id`, at 32
/// lines to a word.
pub open spec fn spec_array_index(id: u32) -> int {
    id as int / 32
}

/// The bit of that word that belongs to line `id`.
pub open spec fn spec_array_field(id: u32) -> u8 {
    (id % 32) as u8
}

/// Sets the bit of line `id` in a list of registers that hold 32 lines each.
pub fn set_bit_in_array(device: &mut Device, id: u32, registers: &[u32])
    requires
        spec_array_index(id) < registers@.len(),
    ensures
        final(device)@ == old(device)@.set_bit(
            registers@[spec_array_index(id)],
            spec_array_field(id),
        ),
{
    let register_index: usize = id as usize / 32;
    let field: u8 = (id % 32) as u8;
    set_bit(device, registers[register_index], field);
}

/// Clears the bit of line `id` in a list of registers that hold 32 lines each.
pub fn clear_bit_in_array(device: &mut Device, id: u32, registers: &[u32])
    requires
        spec_array_index(id) < registers@.len(),
    ensures
        final(device)@ == old(device)@.clear_bit(
            registers@[spec_array_index(id)],
            spec_array_field(id),
        ),
{
    let register_index: usize = id as usize / 32;
    let field: u8 = (id % 32) as u8;
    clear_bit(device, registers[register_index], field);
}

/// Writes `value` under `mask` at the bit of line `id` in a list of registers
/// that hold 32 lines each.
pub fn write_bits_in_array(
    device: &mut Device,
    id: u32,
    value: u32,
    mask: u32,
    registers: &[u32],
)
    requires
        spec_array_index(id) < registers@.len(),
    ensures
        final(device)@ == old(device)@.write_bits(
            registers@[spec_array_index(id)],
            spec_array_field(id),
            value,
            mask,
        ),
{
    let register_index: usize = id as usize / 32;
    let field: u8 = (id % 32) as u8;
    write_bits(device, registers[register_index], field, value, mask);
}

/// Reads, in place, the bits under `mask` at the bit of line `id` in a list of
/// registers that hold 32 lines each.
pub fn get_bits_in_array(device: &Device, id: u32, mask: u32, registers: &[u32]) -> (bits: u32)
    requires
        spec_array_index(id) < registers@.len(),
    ensures
        bits == device@.value(registers@[spec_array_index(id)]) & (mask << spec_array_field(id)),
{
    let register_index: usize = id as usize / 32;
    let field: u8 = (id % 32) as u8;
    let value: u32 = device.read(registers[register_index]);
    value & (mask << field)
}

/// Enables interrupt line `id` in a list of enable registers.
pub fn enable_interrupt(device: &mut Device, id: u32, interrupt_registers: &[u32])
    requires
        spec_array_index(id) < interrupt_registers@.len(),
    ensures
        final(device)@ == old(device)@.set_bit(
            interrupt_registers@[spec_array_index(id)],
            spec_array_field(id),
        ),
{
    set_bit_in_array(device, id, interrupt_registers);
}

/// Disables interrupt line `id` in a list of enable registers.
pub fn disable_interrupt(device: &mut Device, id: u32, interrupt_registers: &[u32])
    requires
        spec_array_index(id) < interrupt_registers@.len(),
    ensures
        final(device)@ == old(device)@.clear_bit(
            interrupt_registers@[spec_array_index(id)],
            spec_array_field(id),
        ),
{
    clear_bit_in_array(device, id, interrupt_registers);
}

/// A masked write keeps every bit outside `mask << field`, and the bits under
/// it become those of `value`, whenever `value` has no bit outside `mask`.
pub proof fn lemma_write_bits_keeps_outside(word: u32, field: u8, value: u32, mask: u32)
    requires
        field < 32,
        value & !mask == 0,
    ensures
        spec_write_bits(word, field, value, mask) == (word & !(mask << field)) | ((value & mask)
            << field),
        spec_write_bits(word, field, value, mask) & !(mask << field) == word & !(mask << field),
        spec_write_bits(word, field, value, mask) & (mask << field) == value << field,
{
    assert(((word & !(mask << field)) | (value << field)) == (word & !(mask << field)) | ((value
        & mask) << field)) by (bit_vector)
        requires
            value & !mask == 0,
    ;
    assert(((word & !(mask << field)) | (value << field)) & !(mask << field) == word & !(mask
        << field)) by (bit_vector)
        requires
            value & !mask == 0,
    ;
    assert(((word & !(mask << field)) | (value << field)) & (mask << field) == value << field)
        by (bit_vector)
        requires
            value & !mask == 0,
    ;
}

/// Setting a bit twice gives what setting it once gives.
pub proof fn lemma_set_bit_idempotent(word: u32, field: u8)
    requires
        field < 32,
    ensures
        spec_set_bit(spec_set_bit(word, field), field) == spec_set_bit(word, field),
        spec_get_bit(spec_set_bit(word, field), field) == 1,
{
    assert(((word | (1u32 << field)) | (1u32 << field)) == word | (1u32 << field))
        by (bit_vector);
    assert(((word | (1u32 << field)) >> field) & 1u32 == 1) by (bit_vector)
        requires
            field < 32,
    ;
}

/// Inverting a bit twice gives the word back.
pub proof fn lemma_toggle_bit_twice(word: u32, field: u8)
    requires
        field < 32,
    ensures
        spec_toggle_bit(spec_toggle_bit(word, field), field) == word,
        spec_get_bit(spec_toggle_bit(word, field), field) == 1 - spec_get_bit(word, field),
{
    assert(((word ^ (1u32 << field)) ^ (1u32 << field)) == word) by (bit_vector);
    assert((((word ^ (1u32 << field)) >> field) & 1u32) == 1 - ((word >> field) & 1u32))
        by (bit_vector)
        requires
            field < 32,
    ;
}

/// On a device, a second `set_bit` of the same bit leaves every register as
/// the first left it, and a second `toggle_bit` gives every register the word
/// that it had before the first.
pub proof fn lemma_device_set_twice_toggle_twice(state: DeviceState, register: u32, field: u8)
    requires
        field < 32,
    ensures
        state.set_bit(register, field).set_bit(register, field).memory == state.set_bit(
            register,
            field,
        ).memory,
        forall|other: u32|
            state.toggle_bit(register, field).toggle_bit(register, field).value(other)
                == state.value(other),
{
    lemma_set_bit_idempotent(state.value(register), field);
    lemma_toggle_bit_twice(state.value(register), field);
    assert(state.set_bit(register, field).set_bit(register, field).memory =~= state.set_bit(
        register,
        field,
    ).memory);
}

} // verus!
