//! The register file that every driver acts on.
//!
//! A [`Device`] maps register addresses to 32-bit words and keeps a journal of
//! the bus writes made to it, oldest first. A register that was never written
//! reads as zero.

use std::collections::HashMap;
use vstd::prelude::*;

verus! {

/// One write transaction on the bus: a register and the word stored in it.
#[derive(Clone, Copy, Debug, PartialEq, Eq, Structural)]
pub struct BusWrite {
    pub address: u32,
    pub value: u32,
}

/// The mathematical content of a [`Device`].
pub struct DeviceState {
    /// The words held by the registers that have a value.
    pub memory: Map<u32, u32>,
    /// Every bus write so far, in the order in which it was made.
    pub journal: Seq<BusWrite>,
}

impl DeviceState {
    /// The word that a read of `register` returns.
    pub open spec fn value(self, register: u32) -> u32 {
        if self.memory.dom().contains(register) {
            self.memory[register]
        } else {
            0
        }
    }

    /// The state after the hardware itself has changed `register`: no bus
    /// write is recorded.
    pub open spec fn load(self, register: u32, value: u32) -> DeviceState {
        DeviceState { memory: self.memory.insert(register, value), journal: self.journal }
    }

    /// The state after `value` was written to `register` over the bus.
    pub open spec fn write(self, register: u32, value: u32) -> DeviceState {
        DeviceState {
            memory: self.memory.insert(register, value),
            journal: self.journal.push(BusWrite { address: register, value }),
        }
    }
}

/// The register file together with the journal of writes made to it.
pub struct Device {
    memory: HashMap<u32, u32>,
    journal: Vec<BusWrite>,
}

impl View for Device {
    type V = DeviceState;

    closed spec fn view(&self) -> DeviceState {
        DeviceState { memory: self.memory@, journal: self.journal@ }
    }
}

impl Device {
    /// A device in which every register holds zero and nothing was written.
    pub fn new() -> (device: Device)
        ensures
            device@.memory == Map::<u32, u32>::empty(),
            device@.journal == Seq::<BusWrite>::empty(),
    {
        Device { memory: HashMap::new(), journal: Vec::new() }
    }

    /// Reads `register`.
    pub fn read(&self, register: u32) -> (value: u32)
        ensures
            value == self@.value(register),
    {
        broadcast use vstd::std_specs::hash::group_hash_axioms;
        match self.memory.get(&register) {
            Some(word) => *word,
            None => 0,
        }
    }

    /// Takes over a value that `register` got from the hardware itself, such
    /// as a status bit or a pin's level. This is no bus write and is not
    /// recorded.
    pub fn load(&mut self, register: u32, value: u32)
        ensures
            final(self)@ == old(self)@.load(register, value),
    {
        broadcast use vstd::std_specs::hash::group_hash_axioms;
        self.memory.insert(register, value);
    }

    /// The bus writes made so far, oldest first.
    pub fn journal(&self) -> (writes: &Vec<BusWrite>)
        ensures
            writes@ == self@.journal,
    {
        &self.journal
    }

    /// Forgets the bus writes made so far. The registers keep their values.
    pub fn clear_journal(&mut self)
        ensures
            final(self)@.memory == old(self)@.memory,
            final(self)@.journal == Seq::<BusWrite>::empty(),
    {
        self.journal.clear();
    }

    /// Writes `value` to `register` and records the write.
    pub fn write(&mut self, register: u32, value: u32)
        ensures
            final(self)@ == old(self)@.write(register, value),
    {
        broadcast use vstd::std_specs::hash::group_hash_axioms;
        self.memory.insert(register, value);
        self.journal.push(BusWrite { address: register, value });
    }
}

} // verus!
