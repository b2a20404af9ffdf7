//! The commands that read and set a register by its name.

use crate::ensemble::{
    initialized, is_loaded_from, load_control_flag, machine, pc, psr, register_data,
    set_control_flag, set_pc, set_register_data, Change, LoadedFlag, MachineState, StoredFlag,
};
use crate::text::same_text;
use lc3_ensemble::sim::Simulator;
use vstd::prelude::*;

verus! {

/// A register of the machine.
#[derive(Clone, Copy, PartialEq, Eq, Structural, Debug)]
pub enum Register {
    /// The general purpose register with that number.
    General(u8),
    /// The program counter.
    Pc,
    /// The processor status register, which cannot be set.
    Psr,
    /// The machine control register, whose highest bit says whether the machine
    /// runs.
    Mcr,
}

/// The register with the name, if there is one.
pub open spec fn register_named(name: Seq<char>) -> Option<Register> {
    if name == "r0"@ {
        Some(Register::General(0))
    } else if name == "r1"@ {
        Some(Register::General(1))
    } else if name == "r2"@ {
        Some(Register::General(2))
    } else if name == "r3"@ {
        Some(Register::General(3))
    } else if name == "r4"@ {
        Some(Register::General(4))
    } else if name == "r5"@ {
        Some(Register::General(5))
    } else if name == "r6"@ {
        Some(Register::General(6))
    } else if name == "r7"@ {
        Some(Register::General(7))
    } else if name == "pc"@ {
        Some(Register::Pc)
    } else if name == "psr"@ {
        Some(Register::Psr)
    } else if name == "mcr"@ {
        Some(Register::Mcr)
    } else {
        None
    }
}

/// The name of a register.
pub open spec fn register_name(register: Register) -> Seq<char> {
    match register {
        Register::General(0) => "r0"@,
        Register::General(1) => "r1"@,
        Register::General(2) => "r2"@,
        Register::General(3) => "r3"@,
        Register::General(4) => "r4"@,
        Register::General(5) => "r5"@,
        Register::General(6) => "r6"@,
        Register::General(_) => "r7"@,
        Register::Pc => "pc"@,
        Register::Psr => "psr"@,
        Register::Mcr => "mcr"@,
    }
}

/// Whether the name is that of a register that can be set.
pub open spec fn names_settable_register(name: Seq<char>) -> bool {
    register_named(name) is Some && register_named(name) != Some(Register::Psr)
}

/// What the register reads as in that state, on a machine that runs or not. Of
/// the machine control register only the highest bit can be set.
pub open spec fn register_value(state: MachineState, register: Register, running: bool) -> u16 {
    match register {
        Register::General(index) => state.registers[index].data,
        Register::Pc => state.pc,
        Register::Psr => state.psr,
        Register::Mcr => control_data(running),
    }
}

/// The state after the register was set to `data`, all of it initialized. The
/// machine control flag and the status register, which cannot be set, are no
/// part of what changes.
pub open spec fn with_register(state: MachineState, register: Register, data: u16) -> MachineState {
    match register {
        Register::General(index) => MachineState {
            registers: state.registers.insert(index, initialized(data)),
            ..state
        },
        Register::Pc => MachineState { pc: data, ..state },
        Register::Psr | Register::Mcr => state,
    }
}

/// Whether the machine runs after the register was set to `data`, if it ran or
/// not before and no one else sets the machine control flag.
pub open spec fn runs_after(running: bool, register: Register, data: u16) -> bool {
    match register {
        Register::Mcr => is_running(data),
        _ => running,
    }
}

/// Finds the register with the name.
pub fn find_register(name: &str) -> (register: Option<Register>)
    ensures
        register == register_named(name@),
{
    if same_text(name, "r0") {
        Some(Register::General(0))
    } else if same_text(name, "r1") {
        Some(Register::General(1))
    } else if same_text(name, "r2") {
        Some(Register::General(2))
    } else if same_text(name, "r3") {
        Some(Register::General(3))
    } else if same_text(name, "r4") {
        Some(Register::General(4))
    } else if same_text(name, "r5") {
        Some(Register::General(5))
    } else if same_text(name, "r6") {
        Some(Register::General(6))
    } else if same_text(name, "r7") {
        Some(Register::General(7))
    } else if same_text(name, "pc") {
        Some(Register::Pc)
    } else if same_text(name, "psr") {
        Some(Register::Psr)
    } else if same_text(name, "mcr") {
        Some(Register::Mcr)
    } else {
        None
    }
}

/// The data of the machine control register of a machine that runs, or not.
pub open spec fn control_data(running: bool) -> u16 {
    if running {
        0x8000
    } else {
        0
    }
}

/// Whether the machine control register with that data lets the machine run:
/// its highest bit is set.
pub open spec fn is_running(data: u16) -> bool {
    data >= 0x8000
}

/// The data of the machine control register of a machine that runs, or not.
pub fn control_word(running: bool) -> (data: u16)
    ensures
        data == control_data(running),
{
    if running {
        0x8000
    } else {
        0x0000
    }
}

/// Whether the machine control register with that data lets the machine run:
/// its highest bit is set.
pub fn control_word_runs(data: u16) -> (running: bool)
    ensures
        running == is_running(data),
{
    data >= 0x8000
}

/// What was read from a register.
#[derive(Debug)]
pub struct Reading {
    /// The data of the register.
    pub data: u16,
    /// The flag that the data of the machine control register was made of.
    pub loaded: Option<LoadedFlag>,
}

/// Reads the register with the name.
///
/// The machine control register is read by loading a flag from a cell that
/// other threads may set. The flag that was loaded is given along with the data;
/// nothing is stated of which one it is.
pub fn get_reg_value(sim: &Simulator, reg: &str) -> (read: Reading)
    requires
        register_named(reg@) is Some,
    ensures
        read.data == register_value(
            machine(*sim),
            register_named(reg@)->0,
            read.loaded matches Some(flag) && flag@,
        ),
        read.loaded is Some <==> register_named(reg@) == Some(Register::Mcr),
        read.loaded matches Some(flag) ==> is_loaded_from(*sim, flag),
{
    match find_register(reg) {
        Some(Register::General(index)) => Reading {
            data: register_data(sim, index),
            loaded: None,
        },
        Some(Register::Pc) => Reading { data: pc(sim), loaded: None },
        Some(Register::Psr) => Reading { data: psr(sim), loaded: None },
        _ => {
            let flag: LoadedFlag = load_control_flag(sim);
            Reading { data: control_word(flag.running()), loaded: Some(flag) }
        },
    }
}

/// Sets the register with the name.
///
/// The machine control register is set by storing a flag in a cell that other
/// threads may set too. The flag that was stored is given back; nothing is stated
/// of what the cell holds afterwards. There is one store, and none for another
/// register.
pub fn set_reg_value(sim: &mut Simulator, reg: &str, value: u16) -> (stored: Option<StoredFlag>)
    requires
        names_settable_register(reg@),
    ensures
        machine(*final(sim)) == with_register(
            machine(*old(sim)),
            register_named(reg@)->0,
            value,
        ),
        register_named(reg@) != Some(Register::Mcr) ==> exists|change: Change| #[trigger]
            change.before() == *old(sim) && change.after() == *final(sim),
        stored is Some <==> register_named(reg@) == Some(Register::Mcr),
        stored matches Some(flag) ==> flag@ == is_running(value),
        stored matches Some(flag) ==> flag.before() == *old(sim) && flag.after() == *final(sim),
{
    match find_register(reg) {
        Some(Register::General(index)) => {
            set_register_data(sim, index, value);
            None
        },
        Some(Register::Pc) => {
            set_pc(sim, value);
            None
        },
        _ => Some(set_control_flag(sim, control_word_runs(value))),
    }
}

} // verus!
