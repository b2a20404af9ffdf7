//! The commands that read and set a memory location.

use crate::ensemble::{
    initialized, is_device_address, machine, read_memory, write_memory, MachineState, ReadWord,
    WrittenWord,
};
use lc3_ensemble::sim::Simulator;
use vstd::prelude::*;

verus! {

/// The state after the memory location was set to `data`, all of it initialized.
pub open spec fn with_memory(state: MachineState, addr: u16, data: u16) -> MachineState {
    MachineState { memory: state.memory.insert(addr, initialized(data)), ..state }
}

/// Reads the memory location, with supervisor privilege.
///
/// Memory is only read. At a device address the location may get new data
/// first, which depends on the device; it is that data which is read. There is
/// one read, since a device may give other data the next time.
pub fn get_mem_value(sim: &mut Simulator, addr: u16) -> (data: u16)
    ensures
        data == machine(*final(sim)).memory[addr].data,
        exists|read: ReadWord|
            #[trigger] read.before() == *old(sim) && read.after() == *final(sim) && read@ == (
                addr,
                data,
            ),
        !is_device_address(addr) ==> machine(*final(sim)) == machine(*old(sim)),
        is_device_address(addr) ==> machine(*final(sim)) == machine(*old(sim)) || machine(
            *final(sim),
        ) == with_memory(machine(*old(sim)), addr, data),
{
    let read: ReadWord = read_memory(sim, addr, true, false).unwrap();
    read.data()
}

/// Sets the memory location, with supervisor privilege.
///
/// Memory gets the value. At a device address the device is handed the value,
/// and decides whether the location gets it. What was written is given back.
/// There is one write, since a device may act on each.
pub fn set_mem_value(sim: &mut Simulator, addr: u16, value: u16) -> (written: WrittenWord)
    ensures
        written@ == (addr, value),
        written.before() == *old(sim),
        written.after() == *final(sim),
        !is_device_address(addr) ==> machine(*final(sim)) == with_memory(
            machine(*old(sim)),
            addr,
            value,
        ),
        is_device_address(addr) ==> machine(*final(sim)) == machine(*old(sim)) || machine(
            *final(sim),
        ) == with_memory(machine(*old(sim)), addr, value),
{
    write_memory(sim, addr, value, true, false).unwrap()
}

} // verus!
