//! What each command does, stated of its calls: what was handed in, what came
//! back, and the machine or the buffer before and after.

use crate::assembly::{announce_assembly, assembled_line, next_step, Stage, Step};
use crate::breakpoints::{remove_breakpoint, set_breakpoint};
use crate::console::{
    clear_output, get_and_clear_output, input_byte, lemma_one_byte, InputError, PrintBuffer,
};
use crate::ensemble::{
    error_text, is_chain, is_created, is_loaded_from, machine, system_word, Change, LoadedFlag,
    MachineState, ReadWord, StoredFlag, WordState, WrittenWord,
};
use crate::execution::{finish_execution, finish_execution_if_located, write_error_line};
use crate::laws::{
    law_assembled_lines_differ, law_chain_is_connected, law_error_line, law_given_block_is_placed,
    law_given_blocks_keep_data, law_given_blocks_leave_the_rest, law_given_last_block_decides,
    law_hex4_reads_as_the_number, law_highest_bit, law_names_are_spelled, word_address,
};
use crate::listing::get_mem_line;
use crate::machine::{
    block_views, load_blocks, load_object_file, new_machine, randomize_machine,
    reinitialize_machine, with_blocks, Block,
};
use crate::memory::{get_mem_value, set_mem_value};
use crate::registers::{
    control_word, control_word_runs, find_register, get_reg_value, set_reg_value, Reading, Register,
};
use crate::text::{append_hex4, hex4, same_text};
use lc3_ensemble::sim::{SimErr, Simulator};
use vstd::prelude::*;
use vstd::utf8::{encode_utf8, encode_utf8_decode_utf8};

verus! {

/// A register is found under its name and under no other: "r" and a digit up to
/// 7, "pc", "psr" and "mcr".
pub proof fn law_register_is_found(name: &str, found: Option<Register>, digit: char)
    requires
        call_ensures(find_register, (name,), found),
    ensures
        '0' <= digit <= '7' ==> (name@ == seq!['r', digit] <==> found == Some(
            Register::General((digit as int - '0' as int) as u8),
        )),
        name@ == seq!['p', 'c'] <==> found == Some(Register::Pc),
        name@ == seq!['p', 's', 'r'] <==> found == Some(Register::Psr),
        name@ == seq!['m', 'c', 'r'] <==> found == Some(Register::Mcr),
        found matches Some(Register::General(index)) ==> index < 8,
{
    law_names_are_spelled(name@, digit);
}

/// The machine control register reads as its highest bit alone, which is set
/// exactly if the flag is.
pub proof fn law_control_word_is_the_highest_bit(running: bool, data: u16)
    requires
        call_ensures(control_word, (running,), data),
    ensures
        data == (if running {
            0x8000u16
        } else {
            0u16
        }),
{
}

/// The flag is the highest bit of what the machine control register is set to.
pub proof fn law_control_word_runs_by_the_highest_bit(data: u16, running: bool)
    requires
        call_ensures(control_word_runs, (data,), running),
    ensures
        running <==> data & 0x8000 == 0x8000,
{
    law_highest_bit(data);
}

/// A general purpose register reads as the data that the machine has in it.
pub proof fn law_general_register_is_read(sim: Simulator, reg: &str, read: Reading, digit: char)
    requires
        '0' <= digit <= '7',
        reg@ == seq!['r', digit],
        call_ensures(get_reg_value, (&sim, reg), read),
    ensures
        read.data == machine(sim).registers[(digit as int - '0' as int) as u8].data,
        read.loaded is None,
{
    law_names_are_spelled(reg@, digit);
}

/// The program counter, the status register and the machine control register
/// read as what the machine has in them, the last as the flag that was loaded.
pub proof fn law_special_register_is_read(sim: Simulator, reg: &str, read: Reading)
    requires
        reg@ == seq!['p', 'c'] || reg@ == seq!['p', 's', 'r'] || reg@ == seq!['m', 'c', 'r'],
        call_ensures(get_reg_value, (&sim, reg), read),
    ensures
        reg@ == seq!['p', 'c'] ==> read.data == machine(sim).pc && read.loaded is None,
        reg@ == seq!['p', 's', 'r'] ==> read.data == machine(sim).psr && read.loaded is None,
        reg@ == seq!['m', 'c', 'r'] ==> (read.loaded matches Some(flag) && is_loaded_from(sim, flag)
            && read.data == (if flag@ {
            0x8000u16
        } else {
            0u16
        })),
{
    law_names_are_spelled(reg@, '0');
}

/// Setting a general purpose register puts the data in it, all of it
/// initialized, and changes nothing else. No machine control flag is stored.
pub proof fn law_general_register_is_set(
    sim: &mut Simulator,
    reg: &str,
    value: u16,
    stored: Option<StoredFlag>,
    digit: char,
)
    requires
        '0' <= digit <= '7',
        reg@ == seq!['r', digit],
        call_ensures(set_reg_value, (sim, reg, value), stored),
    ensures
        machine(*final(sim)) == (MachineState {
            registers: machine(*old(sim)).registers.insert(
                (digit as int - '0' as int) as u8,
                WordState { data: value, init: 0xFFFF },
            ),
            ..machine(*old(sim))
        }),
        stored is None,
        exists|change: Change| #[trigger]
            change.before() == *old(sim) && change.after() == *final(sim),
{
    law_names_are_spelled(reg@, digit);
}

/// Setting the program counter puts the data in it, and changes nothing else. No
/// machine control flag is stored.
pub proof fn law_program_counter_is_set(
    sim: &mut Simulator,
    reg: &str,
    value: u16,
    stored: Option<StoredFlag>,
)
    requires
        reg@ == seq!['p', 'c'],
        call_ensures(set_reg_value, (sim, reg, value), stored),
    ensures
        machine(*final(sim)) == (MachineState { pc: value, ..machine(*old(sim)) }),
        stored is None,
        exists|change: Change| #[trigger]
            change.before() == *old(sim) && change.after() == *final(sim),
{
    law_names_are_spelled(reg@, '0');
}

/// Setting the machine control register stores its highest bit as the flag, once,
/// and changes nothing else.
pub proof fn law_control_register_is_set(
    sim: &mut Simulator,
    reg: &str,
    value: u16,
    stored: Option<StoredFlag>,
)
    requires
        reg@ == seq!['m', 'c', 'r'],
        call_ensures(set_reg_value, (sim, reg, value), stored),
    ensures
        machine(*final(sim)) == machine(*old(sim)),
        stored matches Some(flag) && (flag@ <==> value & 0x8000 == 0x8000) && flag.before() == *old(
            sim,
        ) && flag.after() == *final(sim),
{
    law_names_are_spelled(reg@, '0');
    law_highest_bit(value);
}

/// Reading a memory location gives the data in it. Below the devices nothing
/// changes, and at a device nothing but the location. There is one read.
pub proof fn law_memory_is_read(sim: &mut Simulator, addr: u16, data: u16, other: u16)
    requires
        call_ensures(get_mem_value, (sim, addr), data),
    ensures
        data == machine(*final(sim)).memory[addr].data,
        addr < 0xFE00 ==> machine(*final(sim)) == machine(*old(sim)),
        other != addr ==> machine(*final(sim)).memory[other] == machine(*old(sim)).memory[other],
        machine(*final(sim)) == (MachineState {
            memory: machine(*final(sim)).memory,
            ..machine(*old(sim))
        }),
        machine(*final(sim)).memory[addr] == machine(*old(sim)).memory[addr]
            || machine(*final(sim)).memory[addr].init == 0xFFFF,
        exists|read: ReadWord| #[trigger]
            read.before() == *old(sim) && read.after() == *final(sim) && read@ == (addr, data),
{
}

/// Setting a memory location puts the data in it, all of it initialized, unless a
/// device there refuses it, and changes nothing else. The data is written once.
pub proof fn law_memory_is_set(sim: &mut Simulator, addr: u16, value: u16, written: WrittenWord)
    requires
        call_ensures(set_mem_value, (sim, addr, value), written),
    ensures
        machine(*final(sim)) == (MachineState {
            memory: machine(*old(sim)).memory.insert(
                addr,
                WordState { data: value, init: 0xFFFF },
            ),
            ..machine(*old(sim))
        }) || (0xFE00 <= addr && machine(*final(sim)) == machine(*old(sim))),
        written@ == (addr, value),
        written.before() == *old(sim),
        written.after() == *final(sim),
{
}

/// Setting a breakpoint puts one at the address behind all others, and changes
/// nothing else.
pub proof fn law_breakpoint_is_set(sim: &mut Simulator, addr: u16)
    requires
        call_ensures(set_breakpoint, (sim, addr), ()),
    ensures
        machine(*final(sim)) == (MachineState {
            breakpoints: machine(*old(sim)).breakpoints.push(Some(addr)),
            ..machine(*old(sim))
        }),
        exists|change: Change| #[trigger]
            change.before() == *old(sim) && change.after() == *final(sim),
{
}

/// Removing a breakpoint keeps all that are not at the address, each as often and
/// in the order in which they were, and changes nothing else.
pub proof fn law_breakpoint_is_removed(sim: &mut Simulator, addr: u16)
    requires
        call_ensures(remove_breakpoint, (sim, addr), ()),
    ensures
        machine(*final(sim)) == (MachineState {
            breakpoints: machine(*old(sim)).breakpoints.filter(
                |breakpoint: Option<u16>| breakpoint != Some(addr),
            ),
            ..machine(*old(sim))
        }),
        exists|changes: Seq<Change>| is_chain(changes, *old(sim), *final(sim)),
{
}

/// A machine is one that was just created, with 0 for what is not initialized, or
/// with random data; nothing was written to it since.
pub proof fn law_machine_is_new(zeroed: bool, sim: Simulator)
    requires
        call_ensures(new_machine, (zeroed,), sim),
    ensures
        zeroed ==> is_created(Some(0u16), sim),
        !zeroed ==> is_created(None, sim),
{
}

/// Reinitializing gives a machine that was just created with 0 for what is not
/// initialized. Everything but the operating system holds 0.
pub proof fn law_machine_is_reinitialized(sim: Simulator, addr: u16, index: u8)
    requires
        call_ensures(reinitialize_machine, (), sim),
        index < 8,
    ensures
        is_created(Some(0u16), sim),
        machine(sim).fill == Some(0u16),
        machine(sim).registers[index] == (WordState { data: 0, init: 0 }),
        machine(sim).memory[addr] == (match system_word(addr) {
            Some(data) => WordState { data, init: 0xFFFF },
            None => WordState { data: 0, init: 0 },
        }),
        0x3000 <= addr ==> machine(sim).memory[addr] == (WordState { data: 0, init: 0 }),
        addr < 0x0200 ==> machine(sim).memory[addr].init == 0xFFFF,
        machine(sim).pc == 0x3000,
        machine(sim).psr == 0x8002,
        !machine(sim).prefetch,
        machine(sim).breakpoints.len() == 0,
{
}

/// Randomizing gives a machine that was just created with random data for what is
/// not initialized, and that nothing was written to since. The operating system
/// is in it, and nothing else is initialized.
pub proof fn law_machine_is_randomized(sim: Simulator, addr: u16, index: u8)
    requires
        call_ensures(randomize_machine, (), sim),
        index < 8,
    ensures
        is_created(None, sim),
        machine(sim).fill is None,
        machine(sim).registers[index].init == 0,
        system_word(addr) matches Some(data) ==> machine(sim).memory[addr] == (WordState {
            data,
            init: 0xFFFF,
        }),
        system_word(addr) is None ==> machine(sim).memory[addr].init == 0,
        0x3000 <= addr ==> machine(sim).memory[addr].init == 0,
        addr < 0x0200 ==> machine(sim).memory[addr].init == 0xFFFF,
        machine(sim).pc == 0x3000,
        machine(sim).psr == 0x8002,
        !machine(sim).prefetch,
        machine(sim).breakpoints.len() == 0,
{
}

/// A block is made of the start and of all of the words, if they are fewer than
/// memory has.
pub proof fn law_block_is_made(start: u16, words: Vec<Option<u16>>, block: Option<Block>)
    requires
        call_ensures(Block::new, (start, words), block),
    ensures
        block is Some <==> words@.len() < 0x1_0000,
        block matches Some(made) ==> made@.0 == start && made@.1 == words@,
{
}

/// After blocks were placed, an address at which a block has a word, and no later
/// block has any, holds that word if it is initialized. If it is not, the address
/// is uninitialized.
pub proof fn law_blocks_are_in_memory(
    sim: &mut Simulator,
    blocks: &Vec<Block>,
    k: int,
    i: int,
    addr: u16,
)
    requires
        call_ensures(load_blocks, (sim, blocks), ()),
        0 <= k < blocks@.len(),
        0 <= i < blocks@[k]@.1.len() <= 0xFFFF,
        addr == (blocks@[k]@.0 + i) % 0x1_0000,
        forall|later: int, j: int|
            #![trigger word_address(blocks@[later]@.0, j)]
            k < later < blocks@.len() && 0 <= j < blocks@[later]@.1.len()
                ==> word_address(blocks@[later]@.0, j) != addr,
    ensures
        blocks@[k]@.1[i] matches Some(data) ==> machine(*final(sim)).memory[addr] == (WordState {
            data,
            init: 0xFFFF,
        }),
        blocks@[k]@.1[i] is None ==> machine(*final(sim)).memory[addr].init == 0,
{
    law_given_last_block_decides(machine(*old(sim)).memory, blocks@, k, i, addr);
}

/// After blocks were placed, the data at an address at which a block has an
/// initialized word, and no later block has one, is that of the word.
pub proof fn law_blocks_bring_their_data(
    sim: &mut Simulator,
    blocks: &Vec<Block>,
    k: int,
    i: int,
    addr: u16,
)
    requires
        call_ensures(load_blocks, (sim, blocks), ()),
        0 <= k < blocks@.len(),
        0 <= i < blocks@[k]@.1.len() <= 0xFFFF,
        addr == (blocks@[k]@.0 + i) % 0x1_0000,
        blocks@[k]@.1[i] is Some,
        forall|later: int, j: int|
            #![trigger word_address(blocks@[later]@.0, j)]
            k < later < blocks@.len() && 0 <= j < blocks@[later]@.1.len()
                && word_address(blocks@[later]@.0, j) == addr ==> blocks@[later]@.1[j] is None,
    ensures
        machine(*final(sim)).memory[addr].data == blocks@[k]@.1[i]->0,
{
    law_given_block_is_placed(machine(*old(sim)).memory, blocks@, k, i, addr);
}

/// Placing blocks leaves the data of an address at which none of them has an
/// initialized word, and all of an address at which none of them has any. It
/// changes nothing but memory, by one change for each block.
pub proof fn law_blocks_change_nothing_else(sim: &mut Simulator, blocks: &Vec<Block>, addr: u16)
    requires
        call_ensures(load_blocks, (sim, blocks), ()),
    ensures
        (forall|k: int, i: int|
            #![trigger word_address(blocks@[k]@.0, i)]
            0 <= k < blocks@.len() && 0 <= i < blocks@[k]@.1.len()
                && word_address(blocks@[k]@.0, i) == addr ==> blocks@[k]@.1[i] is None) ==> machine(
            *final(sim),
        ).memory[addr].data == machine(*old(sim)).memory[addr].data,
        (forall|k: int, i: int|
            #![trigger word_address(blocks@[k]@.0, i)]
            0 <= k < blocks@.len() && 0 <= i < blocks@[k]@.1.len()
                ==> word_address(blocks@[k]@.0, i) != addr)
                ==> machine(*final(sim)).memory[addr] == machine(
            *old(sim),
        ).memory[addr],
        machine(*final(sim)) == (MachineState {
            memory: machine(*final(sim)).memory,
            ..machine(*old(sim))
        }),
        exists|changes: Seq<Change>|
            changes.len() == blocks@.len() && #[trigger] is_chain(changes, *old(sim), *final(sim)),
{
    if forall|k: int, i: int|
        #![trigger word_address(blocks@[k]@.0, i)]
        0 <= k < blocks@.len() && 0 <= i < blocks@[k]@.1.len()
            && word_address(blocks@[k]@.0, i) == addr ==> blocks@[k]@.1[i] is None {
        law_given_blocks_keep_data(machine(*old(sim)).memory, blocks@, addr);
    }
    if forall|k: int, i: int|
        #![trigger word_address(blocks@[k]@.0, i)]
        0 <= k < blocks@.len() && 0 <= i < blocks@[k]@.1.len()
            ==> word_address(blocks@[k]@.0, i) != addr {
        law_given_blocks_leave_the_rest(machine(*old(sim)).memory, blocks@, addr);
    }
}

/// Loading an object file gives a machine exactly if the file could be read, and
/// otherwise prints that it is malformed, and nothing in the first case.
pub proof fn law_loading_answers(
    buffer: &mut PrintBuffer,
    path: &str,
    object: Option<&Vec<Block>>,
    loaded: Option<Simulator>,
)
    requires
        call_ensures(load_object_file, (buffer, path, object), loaded),
    ensures
        loaded is Some <==> object is Some,
        object is Some ==> final(buffer)@ == old(buffer)@,
        object is None ==> final(buffer)@ == old(buffer)@ + encode_utf8(
            "error: malformed object file "@ + path@ + "\n"@,
        ),
{
}

/// A loaded machine was just created with random data, and then the blocks were
/// placed in it and nothing else was done: an address at which a block has a word,
/// and no later block has any, holds that word if it is initialized, and is
/// uninitialized if not.
pub proof fn law_loaded_machine_holds_the_program(
    buffer: &mut PrintBuffer,
    path: &str,
    blocks: &Vec<Block>,
    loaded: Option<Simulator>,
    k: int,
    i: int,
    addr: u16,
)
    requires
        call_ensures(load_object_file, (buffer, path, Some(blocks)), loaded),
        0 <= k < blocks@.len(),
        0 <= i < blocks@[k]@.1.len() <= 0xFFFF,
        addr == (blocks@[k]@.0 + i) % 0x1_0000,
        forall|later: int, j: int|
            #![trigger word_address(blocks@[later]@.0, j)]
            k < later < blocks@.len() && 0 <= j < blocks@[later]@.1.len()
                ==> word_address(blocks@[later]@.0, j) != addr,
    ensures
        blocks@[k]@.1[i] matches Some(data) ==> machine(loaded->0).memory[addr] == (WordState {
            data,
            init: 0xFFFF,
        }),
        blocks@[k]@.1[i] is None ==> machine(loaded->0).memory[addr].init == 0,
{
    let created = choose|created: Simulator| #[trigger]
        is_created(None, created) && machine(loaded->0) == (MachineState {
            memory: with_blocks(
                machine(created).memory,
                block_views(blocks@),
            ),
            ..machine(created)
        });
    law_given_last_block_decides(machine(created).memory, blocks@, k, i, addr);
}

/// Where no block of the program has a word, a loaded machine holds what it was
/// created with, and where none has an initialized word, the data of it. All but
/// its memory is as it was created, and there was one change for each block.
pub proof fn law_loaded_machine_is_otherwise_new(
    buffer: &mut PrintBuffer,
    path: &str,
    blocks: &Vec<Block>,
    loaded: Option<Simulator>,
)
    requires
        call_ensures(load_object_file, (buffer, path, Some(blocks)), loaded),
    ensures
        exists|created: Simulator| #[trigger]
            is_created(None, created) && machine(loaded->0) == (MachineState {
                memory: machine(loaded->0).memory,
                ..machine(created)
            }) && (forall|addr: u16|
                (forall|k: int, i: int|
                    #![trigger word_address(blocks@[k]@.0, i)]
                    0 <= k < blocks@.len() && 0 <= i < blocks@[k]@.1.len()
                        ==> word_address(blocks@[k]@.0, i) != addr)
                        ==> #[trigger] machine(loaded->0).memory[addr]
                    == machine(created).memory[addr]) && (forall|addr: u16|
                (forall|k: int, i: int|
                    #![trigger word_address(blocks@[k]@.0, i)]
                    0 <= k < blocks@.len() && 0 <= i < blocks@[k]@.1.len()
                        && word_address(blocks@[k]@.0, i) == addr ==> blocks@[k]@.1[i] is None)
                        ==> (
                #[trigger] machine(loaded->0).memory[addr]).data == machine(
                    created,
                ).memory[addr].data) && exists|changes: Seq<Change>|
                changes.len() == blocks@.len() && #[trigger] is_chain(changes, created, loaded->0),
        machine(loaded->0).pc == 0x3000,
        machine(loaded->0).psr == 0x8002,
        !machine(loaded->0).prefetch,
        machine(loaded->0).breakpoints.len() == 0,
        machine(loaded->0).fill is None,
        forall|index: u8| index < 8 ==> (#[trigger] machine(loaded->0).registers[index]).init == 0,
{
    let created = choose|created: Simulator| #[trigger]
        is_created(None, created) && machine(loaded->0) == (MachineState {
            memory: with_blocks(
                machine(created).memory,
                block_views(blocks@),
            ),
            ..machine(created)
        }) && exists|changes: Seq<Change>|
            changes.len() == blocks@.len() && #[trigger] is_chain(changes, created, loaded->0);
    assert forall|addr: u16|
        (forall|k: int, i: int|
            #![trigger word_address(blocks@[k]@.0, i)]
            0 <= k < blocks@.len() && 0 <= i < blocks@[k]@.1.len()
                ==> word_address(blocks@[k]@.0, i) != addr)
                implies #[trigger] machine(loaded->0).memory[addr] == machine(
        created,
    ).memory[addr] by {
        law_given_blocks_leave_the_rest(machine(created).memory, blocks@, addr);
    }
    assert forall|addr: u16|
        (forall|k: int, i: int|
            #![trigger word_address(blocks@[k]@.0, i)]
            0 <= k < blocks@.len() && 0 <= i < blocks@[k]@.1.len()
                && word_address(blocks@[k]@.0, i) == addr ==> blocks@[k]@.1[i] is None) implies (
    #[trigger] machine(loaded->0).memory[addr]).data == machine(created).memory[addr].data by {
        law_given_blocks_keep_data(machine(created).memory, blocks@, addr);
    }
}

/// Changes that lead from one value of a simulator to another follow each other
/// without a gap.
pub proof fn law_chain_has_no_gap(changes: Seq<Change>, before: Simulator, after: Simulator)
    requires
        is_chain(changes, before, after),
    ensures
        changes.len() == 0 ==> before == after,
        changes.len() > 0 ==> changes[0].before() == before && changes[changes.len() - 1].after()
            == after,
        forall|i: int|
            0 < i < changes.len() ==> (#[trigger] changes[i]).before() == changes[i - 1].after(),
{
    law_chain_is_connected(changes, before, after);
}

/// The line that is shown is, in bytes, what lies between the start and the end
/// in the source, and empty where nothing was found.
pub proof fn law_line_is_shown(
    found: Option<(&str, usize, usize)>,
    line: String,
)
    requires
        call_ensures(get_mem_line, (found,), line),
    ensures
        found is None ==> line@.len() == 0,
        found matches Some((source, start, end)) ==> encode_utf8(line@) == encode_utf8(
            source@,
        ).subrange(start as int, end as int),
{
}

/// The line that reports an error holds its description and the address, in
/// four digits in upper case that read as the number.
pub proof fn law_error_line_is_written(description: &str, addr: u16, line: String)
    requires
        call_ensures(write_error_line, (description, addr), line),
    ensures
        exists|digits: Seq<char>|
            #![trigger digits.len()]
            line@ == "error: "@ + description@ + " (instruction x"@ + digits + ")\n"@
                && digits.len() == 4 && (forall|i: int|
                0 <= i < 4 ==> '0' <= #[trigger] digits[i] <= '9' || 'A' <= digits[i] <= 'F')
                && addr == ({
                    let value = |digit: char|
                        if digit <= '9' {
                            digit as int - '0' as int
                        } else {
                            digit as int - 'A' as int + 10
                        };
                    value(digits[0]) * 0x1000 + value(digits[1]) * 0x100 + value(digits[2]) * 0x10
                        + value(digits[3])
                }),
{
    law_error_line(description@, addr);
    law_hex4_reads_as_the_number(addr);
    assert(hex4(addr).len() == 4);
}

/// The end of an execution prints nothing if there was no error. An error is
/// printed behind what there was, with its text and the address of the
/// instruction: the program counter, or the one before if it was counted up
/// already.
pub proof fn law_execution_is_finished(
    buffer: &mut PrintBuffer,
    sim: Simulator,
    result: Result<(), SimErr>,
    addr: u16,
)
    requires
        call_ensures(finish_execution, (buffer, &sim, result), ()),
        addr == (if machine(sim).prefetch {
            machine(sim).pc as int
        } else {
            machine(sim).pc - 1
        }),
    ensures
        result is Ok ==> final(buffer)@ == old(buffer)@,
        result matches Err(err) ==> final(buffer)@ == old(buffer)@ + encode_utf8(
            "error: "@ + error_text(err) + " (instruction x"@ + hex4(addr) + ")\n"@,
        ),
{
    if let Err(err) = result {
        law_error_line(error_text(err), addr);
    }
}

/// With the program counter at 0, an error is given back and not printed, and
/// otherwise it is printed and not given back.
pub proof fn law_execution_is_finished_if_located(
    buffer: &mut PrintBuffer,
    sim: Simulator,
    result: Result<(), SimErr>,
    left: Option<SimErr>,
    addr: u16,
)
    requires
        call_ensures(finish_execution_if_located, (buffer, &sim, result), left),
        machine(sim).pc != 0 ==> addr == (if machine(sim).prefetch {
            machine(sim).pc as int
        } else {
            machine(sim).pc - 1
        }),
    ensures
        result is Ok ==> left is None && final(buffer)@ == old(buffer)@,
        result matches Err(err) ==> if machine(sim).pc == 0 {
            left == Some(err) && final(buffer)@ == old(buffer)@
        } else {
            left is None && final(buffer)@ == old(buffer)@ + encode_utf8(
                "error: "@ + error_text(err) + " (instruction x"@ + hex4(addr) + ")\n"@,
            )
        },
{
    if let Err(err) = result {
        law_error_line(error_text(err), addr);
    }
}

/// A number is written behind a text in four digits in upper case that read as
/// the number.
pub proof fn law_number_is_written(text: &mut String, number: u16)
    requires
        call_ensures(append_hex4, (text, number), ()),
    ensures
        final(text)@.len() == old(text)@.len() + 4,
        final(text)@.take(old(text)@.len() as int) == old(text)@,
        ({
            let digits = final(text)@.skip(old(text)@.len() as int);
            &&& forall|i: int|
                0 <= i < 4 ==> '0' <= #[trigger] digits[i] <= '9' || 'A' <= digits[i] <= 'F'
            &&& number == ({
                    let value = |digit: char|
                        if digit <= '9' {
                            digit as int - '0' as int
                        } else {
                            digit as int - 'A' as int + 10
                        };
                    value(digits[0]) * 0x1000 + value(digits[1]) * 0x100 + value(digits[2]) * 0x10
                        + value(digits[3])
                })
        }),
{
    law_hex4_reads_as_the_number(number);
    assert(final(text)@.skip(old(text)@.len() as int) =~= hex4(number));
    assert(final(text)@.take(old(text)@.len() as int) =~= old(text)@);
}

/// Two texts are told to be the same exactly if they are.
pub proof fn law_texts_are_compared(left: &str, right: &str, same: bool)
    requires
        call_ensures(same_text, (left, right), same),
    ensures
        same <==> left@ == right@,
{
}

/// A stage that succeeded is followed by the next one: parsing by assembling,
/// assembling by writing, and writing by the announcement. A stage that failed is
/// reported.
pub proof fn law_next_step(stage: Stage, succeeded: bool, step: Step)
    requires
        call_ensures(next_step, (stage, succeeded), step),
    ensures
        !succeeded ==> step == Step::Report(stage),
        succeeded && stage == Stage::Parse ==> step == Step::Begin(Stage::Assemble),
        succeeded && stage == Stage::Assemble ==> step == Step::Begin(Stage::Write),
        succeeded && stage == Stage::Write ==> step == Step::Announce,
{
}

/// The announcement is printed behind what there was, and names the source file
/// and then the object file.
pub proof fn law_assembly_is_announced(
    buffer: &mut PrintBuffer,
    source_path: &str,
    object_path: &str,
)
    requires
        call_ensures(announce_assembly, (buffer, source_path, object_path), ()),
    ensures
        final(buffer)@ == old(buffer)@ + encode_utf8(
            "successfully assembled "@ + source_path@ + " into "@ + object_path@ + "\n"@,
        ),
{
}

/// Announcements of two object files for one source file differ.
pub proof fn law_announcements_differ(
    first: &mut PrintBuffer,
    second: &mut PrintBuffer,
    source_path: &str,
    one: &str,
    other: &str,
)
    requires
        call_ensures(announce_assembly, (first, source_path, one), ()),
        call_ensures(announce_assembly, (second, source_path, other), ()),
        old(first)@ == old(second)@,
        one@ != other@,
    ensures
        final(first)@ != final(second)@,
{
    law_assembled_lines_differ(source_path@, one@, other@);
    let left = assembled_line(source_path@, one@);
    let right = assembled_line(source_path@, other@);
    encode_utf8_decode_utf8(left);
    encode_utf8_decode_utf8(right);
    if final(first)@ == final(second)@ {
        let at = old(first)@.len() as int;
        assert(final(first)@.skip(at) =~= encode_utf8(left));
        assert(final(second)@.skip(at) =~= encode_utf8(right));
    }
}

/// A new buffer holds nothing.
pub proof fn law_buffer_is_new(buffer: PrintBuffer)
    requires
        call_ensures(PrintBuffer::new, (), buffer),
    ensures
        buffer@.len() == 0,
{
}

/// Bytes are printed behind what there was, all of them and as they are.
pub proof fn law_bytes_are_printed(buffer: &mut PrintBuffer, bytes: &[u8])
    requires
        call_ensures(PrintBuffer::write_bytes, (buffer, bytes), ()),
    ensures
        final(buffer)@ == old(buffer)@ + bytes@,
{
}

/// A text is printed behind what there was, in UTF-8.
pub proof fn law_text_is_printed(buffer: &mut PrintBuffer, text: &str)
    requires
        call_ensures(PrintBuffer::write_text, (buffer, text), ()),
    ensures
        final(buffer)@ == old(buffer)@ + encode_utf8(text@),
{
}

/// What was printed is given once, all of it, and then there is nothing.
pub proof fn law_output_is_given(buffer: &mut PrintBuffer, bytes: Vec<u8>)
    requires
        call_ensures(get_and_clear_output, (buffer,), bytes) || call_ensures(
            PrintBuffer::take,
            (buffer,),
            bytes,
        ),
    ensures
        bytes@ == old(buffer)@,
        final(buffer)@.len() == 0,
{
}

/// Clearing the output leaves nothing.
pub proof fn law_output_is_cleared(buffer: &mut PrintBuffer)
    requires
        call_ensures(clear_output, (buffer,), ()),
    ensures
        final(buffer)@.len() == 0,
{
}

/// Input is taken exactly if it is one byte, which is handed on as it is, and
/// otherwise refused.
pub proof fn law_input_is_one_byte(input: &str, byte: Result<u8, InputError>)
    requires
        call_ensures(input_byte, (input,), byte),
    ensures
        byte is Ok <==> encode_utf8(input@).len() == 1,
        byte matches Ok(value) ==> encode_utf8(input@) == seq![value],
        byte is Err ==> byte == Err::<u8, InputError>(InputError::NotOneByte),
{
    lemma_one_byte(input@);
    if byte is Ok {
        assert(encode_utf8(input@) =~= seq![byte->Ok_0]);
    }
}

/// Refused input is answered with one and the same text.
pub proof fn law_refusal_is_explained(err: InputError, text: &'static str)
    requires
        call_ensures(InputError::message, (&err,), text),
    ensures
        text@ == "more than one byte was sent at once"@,
{
}

/// A token tells what it was made of.
pub proof fn law_tokens_tell(
    loaded: LoadedFlag,
    stored: StoredFlag,
    written: WrittenWord,
    flag: bool,
    word: u16,
)
    ensures
        call_ensures(LoadedFlag::running, (&loaded,), flag) ==> flag == loaded@,
        call_ensures(StoredFlag::running, (&stored,), flag) ==> flag == stored@,
        call_ensures(WrittenWord::addr, (&written,), word) ==> word == written@.0,
        call_ensures(WrittenWord::data, (&written,), word) ==> word == written@.1,
{
}

} // verus!
