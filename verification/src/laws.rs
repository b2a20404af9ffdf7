//! What holds of the commands together.

use crate::assembly::{assembled_line, step_after, Stage, Step};
use crate::breakpoints::{lemma_without_push, without_breakpoint};
use crate::ensemble::{
    block_word, can_locate, in_user_space, initialized, instruction_address, is_chain,
    is_device_address, is_filled, is_fresh, system_word, uninitialized, with_block, Change,
    MachineState, WordState,
};
use crate::execution::error_line;
use crate::listing::is_piece;
use crate::machine::{block_views, is_loaded, malformed_line, with_blocks, Block};
use crate::memory::with_memory;
use crate::registers::{
    control_data, is_running, names_settable_register, register_name, register_named,
    register_value, runs_after, with_register, Register,
};
use crate::text::{hex4, hex_digit};
use lc3_ensemble::sim::Simulator;
use vstd::prelude::*;
use vstd::utf8::{
    encode_utf8, encode_utf8_decode_utf8, encode_utf8_valid_utf8, is_ascii_chars,
    is_ascii_chars_encode_utf8,
};

verus! {

/// The registers that can be named are the eight general purpose registers, the
/// program counter, the status register and the machine control register: each
/// has a name, and no other name is one of a register.
pub proof fn law_names_and_registers(name: Seq<char>, register: Register)
    requires
        register matches Register::General(index) ==> index < 8,
    ensures
        register_named(name) == Some(register) <==> name == register_name(register),
        register_named(name) matches Some(Register::General(index)) ==> index < 8,
{
    reveal_strlit("r0");
    reveal_strlit("r1");
    reveal_strlit("r2");
    reveal_strlit("r3");
    reveal_strlit("r4");
    reveal_strlit("r5");
    reveal_strlit("r6");
    reveal_strlit("r7");
    reveal_strlit("pc");
    reveal_strlit("psr");
    reveal_strlit("mcr");
    assert("r0"@[1] == '0');
    assert("r1"@[1] == '1');
    assert("r2"@[1] == '2');
    assert("r3"@[1] == '3');
    assert("r4"@[1] == '4');
    assert("r5"@[1] == '5');
    assert("r6"@[1] == '6');
    assert("r7"@[1] == '7');
    assert("pc"@[1] == 'c');
    assert("psr"@[1] == 's' && "psr"@.len() == 3);
    assert("mcr"@[0] == 'm' && "mcr"@.len() == 3);
}

/// A general purpose register, or the program counter, reads as what it was set
/// to, and the machine control register as the highest bit of it, if no one else
/// sets the machine control flag.
pub proof fn law_register_reads_back(
    state: MachineState,
    register: Register,
    data: u16,
    running: bool,
)
    requires
        register != Register::Psr,
    ensures
        register_value(
            with_register(state, register, data),
            register,
            runs_after(running, register, data),
        ) == (if register == Register::Mcr {
            data & 0x8000
        } else {
            data
        }),
{
    law_control_reads_back(state, data, running);
}

/// A register reads the same twice: always, unless it is the machine control
/// register, and that one exactly if the machine control flag is the same.
pub proof fn law_register_reads_the_same_again(
    state: MachineState,
    register: Register,
    first: bool,
    second: bool,
)
    ensures
        register_value(state, register, first) == register_value(state, register, second)
            <==> register != Register::Mcr || first == second,
{
}

/// A general purpose register that was set is initialized, and every other one
/// is as before.
pub proof fn law_set_register_is_initialized(state: MachineState, set: u8, data: u16, other: u8)
    ensures
        with_register(state, Register::General(set), data).registers[set].init == 0xFFFF,
        other != set ==> with_register(state, Register::General(set), data).registers[other]
            == state.registers[other],
{
}

/// Setting a register leaves every other one as it was, the machine control
/// register if no one else sets the machine control flag.
pub proof fn law_registers_are_separate(
    state: MachineState,
    set: Register,
    data: u16,
    other: Register,
    running: bool,
)
    requires
        set != other,
    ensures
        register_value(
            with_register(state, set, data),
            other,
            runs_after(running, set, data),
        ) == register_value(state, other, running),
{
}

/// Setting a register leaves the status register, memory and breakpoints as they
/// were.
pub proof fn law_registers_are_not_memory(state: MachineState, set: Register, data: u16)
    ensures
        with_register(state, set, data).psr == state.psr,
        with_register(state, set, data).memory == state.memory,
        with_register(state, set, data).breakpoints == state.breakpoints,
{
}

/// What the machine control register reads as lets the machine run exactly if
/// it was running. With the flag that setting it stores, it reads as the highest
/// bit of what it was set to.
pub proof fn law_control_reads_back(state: MachineState, data: u16, running: bool)
    ensures
        is_running(register_value(state, Register::Mcr, running)) == running,
        register_value(state, Register::Mcr, is_running(data)) == data & 0x8000,
{
    assert(data >= 0x8000 ==> data & 0x8000 == 0x8000) by (bit_vector);
    assert(data < 0x8000 ==> data & 0x8000 == 0) by (bit_vector);
}

/// A memory location that was set holds what it was set to, all of it
/// initialized, and every other one is as before.
pub proof fn law_memory_reads_back(state: MachineState, addr: u16, data: u16, other: u16)
    ensures
        with_memory(state, addr, data).memory[addr] == initialized(data),
        other != addr ==> with_memory(state, addr, data).memory[other] == state.memory[other],
{
}

/// Setting a memory location leaves registers and breakpoints as they were.
pub proof fn law_memory_is_not_registers(
    state: MachineState,
    addr: u16,
    data: u16,
    register: Register,
    running: bool,
)
    ensures
        register_value(with_memory(state, addr, data), register, running) == register_value(
            state,
            register,
            running,
        ),
        with_memory(state, addr, data).registers == state.registers,
        with_memory(state, addr, data).breakpoints == state.breakpoints,
{
}

/// A breakpoint is left by a removal exactly if it was there and is not at the
/// address.
pub proof fn law_removal_takes_the_address_only(
    breakpoints: Seq<Option<u16>>,
    addr: u16,
    breakpoint: Option<u16>,
)
    ensures
        without_breakpoint(breakpoints, addr).contains(breakpoint) <==> breakpoints.contains(
            breakpoint,
        ) && breakpoint != Some(addr),
    decreases breakpoints.len(),
{
    if breakpoints.len() > 0 {
        let rest = breakpoints.drop_last();
        let last = breakpoints.last();
        law_removal_takes_the_address_only(rest, addr, breakpoint);
        lemma_without_push(rest, last, addr);
        assert(breakpoints =~= rest.push(last));
        lemma_push_contains(rest, last, breakpoint);
        lemma_push_contains(without_breakpoint(rest, addr), last, breakpoint);
    } else {
        reveal(Seq::filter);
    }
}

proof fn lemma_push_contains(
    breakpoints: Seq<Option<u16>>,
    last: Option<u16>,
    breakpoint: Option<u16>,
)
    ensures
        breakpoints.push(last).contains(breakpoint) <==> breakpoints.contains(breakpoint)
            || breakpoint == last,
{
    if breakpoints.contains(breakpoint) {
        let index = breakpoints.index_of(breakpoint);
        assert(breakpoints.push(last)[index] == breakpoint);
    }
    assert(breakpoints.push(last)[breakpoints.len() as int] == last);
}

/// A removal changes nothing where there is no breakpoint at the address.
pub proof fn law_removal_of_nothing(breakpoints: Seq<Option<u16>>, addr: u16)
    requires
        !breakpoints.contains(Some(addr)),
    ensures
        without_breakpoint(breakpoints, addr) == breakpoints,
    decreases breakpoints.len(),
{
    if breakpoints.len() > 0 {
        let rest = breakpoints.drop_last();
        let last = breakpoints.last();
        assert(breakpoints =~= rest.push(last));
        lemma_push_contains(rest, last, Some(addr));
        law_removal_of_nothing(rest, addr);
        lemma_without_push(rest, last, addr);
    } else {
        reveal(Seq::filter);
    }
}

/// Setting a breakpoint and removing it leaves what the removal alone leaves:
/// all breakpoints as they were, if there was none at the address.
pub proof fn law_removal_undoes_setting(breakpoints: Seq<Option<u16>>, addr: u16)
    ensures
        without_breakpoint(breakpoints.push(Some(addr)), addr) == without_breakpoint(
            breakpoints,
            addr,
        ),
        !breakpoints.contains(Some(addr)) ==> without_breakpoint(
            breakpoints.push(Some(addr)),
            addr,
        ) == breakpoints,
{
    lemma_without_push(breakpoints, Some(addr), addr);
    if !breakpoints.contains(Some(addr)) {
        law_removal_of_nothing(breakpoints, addr);
    }
}

/// A second removal at the same address finds nothing.
pub proof fn law_removal_is_complete(breakpoints: Seq<Option<u16>>, addr: u16)
    ensures
        without_breakpoint(without_breakpoint(breakpoints, addr), addr) == without_breakpoint(
            breakpoints,
            addr,
        ),
{
    law_removal_takes_the_address_only(breakpoints, addr, Some(addr));
    law_removal_of_nothing(without_breakpoint(breakpoints, addr), addr);
}

/// Removals at two addresses can come in either order.
pub proof fn law_removals_commute(breakpoints: Seq<Option<u16>>, first: u16, second: u16)
    ensures
        without_breakpoint(without_breakpoint(breakpoints, first), second) == without_breakpoint(
            without_breakpoint(breakpoints, second),
            first,
        ),
    decreases breakpoints.len(),
{
    if breakpoints.len() > 0 {
        let rest = breakpoints.drop_last();
        let last = breakpoints.last();
        assert(breakpoints =~= rest.push(last));
        law_removals_commute(rest, first, second);
        lemma_without_push(rest, last, first);
        lemma_without_push(rest, last, second);
        lemma_without_push(without_breakpoint(rest, first), last, second);
        lemma_without_push(without_breakpoint(rest, second), last, first);
    } else {
        reveal(Seq::filter);
    }
}

/// A source file is assembled only after it was parsed, an object file written
/// only after it was assembled, and announced only after it was written. A stage
/// that failed is reported, and nothing follows it.
pub proof fn law_stages_come_in_order(stage: Stage, succeeded: bool)
    ensures
        step_after(stage, succeeded) != Step::Begin(Stage::Parse),
        step_after(stage, succeeded) == Step::Begin(Stage::Assemble) <==> stage == Stage::Parse
            && succeeded,
        step_after(stage, succeeded) == Step::Begin(Stage::Write) <==> stage == Stage::Assemble
            && succeeded,
        step_after(stage, succeeded) == Step::Announce <==> stage == Stage::Write && succeeded,
        step_after(stage, succeeded) is Report <==> !succeeded,
        step_after(stage, succeeded) matches Step::Report(failed) ==> failed == stage,
{
}

/// Loading starts the machine over: the program counter is at the start of user
/// space, the machine is in user mode, no breakpoint is left, and no register is
/// initialized.
pub proof fn law_loading_starts_over(
    state: MachineState,
    blocks: Seq<(u16, Seq<Option<u16>>)>,
    index: u8,
)
    requires
        is_loaded(state, blocks),
        index < 8,
    ensures
        state.pc == 0x3000,
        state.psr == 0x8002,
        !state.prefetch,
        state.breakpoints == Seq::<Option<u16>>::empty(),
        state.registers[index].init == 0,
{
}

/// The data at an address is that of the last block that has an initialized word
/// for it.
pub proof fn law_blocks_are_placed(
    memory: Map<u16, WordState>,
    blocks: Seq<(u16, Seq<Option<u16>>)>,
    k: int,
    addr: u16,
    data: u16,
)
    requires
        0 <= k < blocks.len(),
        block_word(blocks[k].0, blocks[k].1, addr) == Some(Some(data)),
        forall|later: int|
            k < later < blocks.len() ==> !(block_word(
                (#[trigger] blocks[later]).0,
                blocks[later].1,
                addr,
            ) matches Some(Some(_))),
    ensures
        with_blocks(memory, blocks)[addr].data == data,
    decreases blocks.len(),
{
    if k < blocks.len() - 1 {
        let rest = blocks.drop_last();
        assert forall|later: int| k < later < rest.len() implies !(block_word(
            (#[trigger] rest[later]).0,
            rest[later].1,
            addr,
        ) matches Some(Some(_))) by {
            assert(rest[later] == blocks[later]);
        }
        assert(rest[k] == blocks[k]);
        law_blocks_are_placed(memory, rest, k, addr, data);
    }
}

/// Whether an address is initialized is decided by the last block that it lies
/// in.
pub proof fn law_last_block_decides(
    memory: Map<u16, WordState>,
    blocks: Seq<(u16, Seq<Option<u16>>)>,
    k: int,
    addr: u16,
    word: Option<u16>,
)
    requires
        0 <= k < blocks.len(),
        block_word(blocks[k].0, blocks[k].1, addr) == Some(word),
        forall|later: int|
            k < later < blocks.len() ==> block_word(
                (#[trigger] blocks[later]).0,
                blocks[later].1,
                addr,
            ) is None,
    ensures
        word matches Some(data) ==> with_blocks(memory, blocks)[addr] == initialized(data),
        word is None ==> with_blocks(memory, blocks)[addr].init == 0,
    decreases blocks.len(),
{
    if k < blocks.len() - 1 {
        let rest = blocks.drop_last();
        assert forall|later: int| k < later < rest.len() implies block_word(
            (#[trigger] rest[later]).0,
            rest[later].1,
            addr,
        ) is None by {
            assert(rest[later] == blocks[later]);
        }
        assert(rest[k] == blocks[k]);
        law_last_block_decides(memory, rest, k, addr, word);
    }
}

/// An address that lies in no block keeps what it held.
pub proof fn law_blocks_leave_the_rest(
    memory: Map<u16, WordState>,
    blocks: Seq<(u16, Seq<Option<u16>>)>,
    addr: u16,
)
    requires
        forall|k: int|
            0 <= k < blocks.len() ==> block_word(
                (#[trigger] blocks[k]).0,
                blocks[k].1,
                addr,
            ) is None,
    ensures
        with_blocks(memory, blocks)[addr] == memory[addr],
    decreases blocks.len(),
{
    if blocks.len() > 0 {
        let rest = blocks.drop_last();
        assert forall|k: int| 0 <= k < rest.len() implies block_word(
            (#[trigger] rest[k]).0,
            rest[k].1,
            addr,
        ) is None by {
            assert(rest[k] == blocks[k]);
        }
        law_blocks_leave_the_rest(memory, rest, addr);
    }
}

/// Placing blocks a second time changes nothing.
pub proof fn law_placing_again_changes_nothing(
    memory: Map<u16, WordState>,
    blocks: Seq<(u16, Seq<Option<u16>>)>,
    addr: u16,
)
    ensures
        with_blocks(with_blocks(memory, blocks), blocks)[addr] == with_blocks(
            memory,
            blocks,
        )[addr],
{
    lemma_placed_or_kept(memory, with_blocks(memory, blocks), blocks, addr);
}

/// Of what an address holds after blocks were placed, the data and whether it is
/// initialized each come from the blocks, whatever was there, or are kept.
proof fn lemma_placed_or_kept(
    left: Map<u16, WordState>,
    right: Map<u16, WordState>,
    blocks: Seq<(u16, Seq<Option<u16>>)>,
    addr: u16,
)
    ensures
        with_blocks(left, blocks)[addr].data == with_blocks(right, blocks)[addr].data || (
        with_blocks(left, blocks)[addr].data == left[addr].data && with_blocks(
            right,
            blocks,
        )[addr].data == right[addr].data),
        with_blocks(left, blocks)[addr].init == with_blocks(right, blocks)[addr].init || (
        with_blocks(left, blocks)[addr].init == left[addr].init && with_blocks(
            right,
            blocks,
        )[addr].init == right[addr].init),
    decreases blocks.len(),
{
    if blocks.len() > 0 {
        lemma_placed_or_kept(left, right, blocks.drop_last(), addr);
    }
}

/// After loading, the words of the program are in memory: an address holds the
/// initialized word of the last block that it lies in.
pub proof fn law_program_is_in_memory(
    state: MachineState,
    blocks: Seq<(u16, Seq<Option<u16>>)>,
    k: int,
    addr: u16,
    data: u16,
)
    requires
        is_loaded(state, blocks),
        0 <= k < blocks.len(),
        block_word(blocks[k].0, blocks[k].1, addr) == Some(Some(data)),
        forall|later: int|
            k < later < blocks.len() ==> block_word(
                (#[trigger] blocks[later]).0,
                blocks[later].1,
                addr,
            ) is None,
    ensures
        state.memory[addr] == initialized(data),
{
    let fresh = choose|fresh: MachineState| #[trigger]
        is_fresh(fresh) && state == (MachineState {
            memory: with_blocks(fresh.memory, blocks),
            ..fresh
        });
    law_last_block_decides(fresh.memory, blocks, k, addr, Some(data));
}

/// After loading, the operating system is where no block of the program lies:
/// such an address holds its word for it, and is uninitialized if it has none.
pub proof fn law_loading_keeps_the_system(
    state: MachineState,
    blocks: Seq<(u16, Seq<Option<u16>>)>,
    addr: u16,
)
    requires
        is_loaded(state, blocks),
        forall|k: int|
            0 <= k < blocks.len() ==> block_word(
                (#[trigger] blocks[k]).0,
                blocks[k].1,
                addr,
            ) is None,
    ensures
        system_word(addr) matches Some(data) ==> state.memory[addr] == initialized(data),
        system_word(addr) is None ==> state.memory[addr].init == 0,
{
    let fresh = choose|fresh: MachineState| #[trigger]
        is_fresh(fresh) && state == (MachineState {
            memory: with_blocks(fresh.memory, blocks),
            ..fresh
        });
    law_blocks_leave_the_rest(fresh.memory, blocks, addr);
}

/// Fresh machines have the same operating system: what is initialized in one is
/// initialized in each, with the same data. All of its vectors are there, and
/// none of it is in user space.
pub proof fn law_fresh_machines_agree(left: MachineState, right: MachineState, addr: u16)
    requires
        is_fresh(left),
        is_fresh(right),
    ensures
        left.memory[addr].init == right.memory[addr].init,
        left.memory[addr].init != 0 ==> left.memory[addr] == right.memory[addr],
        addr < 0x0200 ==> system_word(addr) is Some,
        0x3000 <= addr ==> system_word(addr) is None,
{
}

/// The line that is shown follows from the source text and where the line starts
/// and ends in it: two lines that are shown for the same are the same.
pub proof fn law_line_is_determined(
    source: Seq<char>,
    start: int,
    end: int,
    first: Seq<char>,
    second: Seq<char>,
)
    requires
        encode_utf8(first) == encode_utf8(source).subrange(start, end),
        encode_utf8(second) == encode_utf8(source).subrange(start, end),
    ensures
        first == second,
{
    encode_utf8_decode_utf8(first);
    encode_utf8_decode_utf8(second);
}

/// A line of a source in ASCII is made of the characters between its start and
/// its end.
pub proof fn law_ascii_line(source: Seq<char>, line: Seq<char>, start: int, end: int)
    requires
        is_ascii_chars(source),
        is_piece(source, start, end),
        encode_utf8(line) == encode_utf8(source).subrange(start, end),
    ensures
        line == source.subrange(start, end),
{
    is_ascii_chars_encode_utf8(source);
    encode_utf8_valid_utf8(source);
    let piece = source.subrange(start, end);
    is_ascii_chars_encode_utf8(piece);
    assert(encode_utf8(piece) =~= encode_utf8(source).subrange(start, end));
    encode_utf8_decode_utf8(line);
    encode_utf8_decode_utf8(piece);
}

/// What is printed in two pieces is what is printed at once.
pub proof fn law_printing_joins(first: Seq<char>, second: Seq<char>)
    ensures
        encode_utf8(first) + encode_utf8(second) == encode_utf8(first + second),
    decreases first.len(),
{
    if first.len() == 0 {
        assert(first + second =~= second);
        assert(encode_utf8(first) + encode_utf8(second) =~= encode_utf8(second));
    } else {
        law_printing_joins(first.drop_first(), second);
        assert((first + second).drop_first() =~= first.drop_first() + second);
        assert(encode_utf8(first) + encode_utf8(second) =~= encode_utf8(first + second));
    }
}

/// Addresses that differ are printed differently.
pub proof fn law_printed_addresses_differ(left: u16, right: u16)
    requires
        hex4(left) == hex4(right),
    ensures
        left == right,
{
    assert(forall|a: u16, b: u16|
        a < 16 && b < 16 && #[trigger] hex_digit(a) == #[trigger] hex_digit(b) ==> a == b);
    assert(hex4(left)[0] == hex4(right)[0]);
    assert(hex4(left)[1] == hex4(right)[1]);
    assert(hex4(left)[2] == hex4(right)[2]);
    assert(hex4(left)[3] == hex4(right)[3]);
}

/// The names of registers are spelled "r" and a digit up to 7, "pc", "psr" and
/// "mcr". All of them but "psr" name a register that can be set.
pub proof fn law_names_are_spelled(name: Seq<char>, digit: char)
    ensures
        '0' <= digit <= '7' ==> (name == seq!['r', digit] <==> register_named(name) == Some(
            Register::General((digit as int - '0' as int) as u8),
        )),
        name == seq!['p', 'c'] <==> register_named(name) == Some(Register::Pc),
        name == seq!['p', 's', 'r'] <==> register_named(name) == Some(Register::Psr),
        name == seq!['m', 'c', 'r'] <==> register_named(name) == Some(Register::Mcr),
        register_named(name) matches Some(Register::General(index)) ==> index < 8,
        names_settable_register(name) <==> register_named(name) is Some && name != seq![
            'p',
            's',
            'r',
        ],
{
    reveal_strlit("r0");
    reveal_strlit("r1");
    reveal_strlit("r2");
    reveal_strlit("r3");
    reveal_strlit("r4");
    reveal_strlit("r5");
    reveal_strlit("r6");
    reveal_strlit("r7");
    reveal_strlit("pc");
    reveal_strlit("psr");
    reveal_strlit("mcr");
    assert("r0"@ =~= seq!['r', '0']);
    assert("r1"@ =~= seq!['r', '1']);
    assert("r2"@ =~= seq!['r', '2']);
    assert("r3"@ =~= seq!['r', '3']);
    assert("r4"@ =~= seq!['r', '4']);
    assert("r5"@ =~= seq!['r', '5']);
    assert("r6"@ =~= seq!['r', '6']);
    assert("r7"@ =~= seq!['r', '7']);
    assert("pc"@ =~= seq!['p', 'c']);
    assert("psr"@ =~= seq!['p', 's', 'r']);
    assert("mcr"@ =~= seq!['m', 'c', 'r']);
    assert("r0"@[1] == '0' && "r1"@[1] == '1' && "r2"@[1] == '2' && "r3"@[1] == '3');
    assert("r4"@[1] == '4' && "r5"@[1] == '5' && "r6"@[1] == '6' && "r7"@[1] == '7');
    assert("pc"@[1] == 'c' && "psr"@[1] == 's' && "mcr"@[1] == 'c');
    assert("psr"@.len() == 3 && "mcr"@.len() == 3 && "mcr"@[0] == 'm' && "psr"@[0] == 'p');
    assert(seq!['r', digit][1] == digit);
}

/// A machine runs exactly if the highest bit of its control register is set, and
/// no other bit of it ever is.
pub proof fn law_highest_bit(data: u16)
    ensures
        is_running(data) <==> data & 0x8000 == 0x8000,
        control_data(true) == 0x8000,
        control_data(false) == 0,
{
    assert(data >= 0x8000 ==> data & 0x8000 == 0x8000) by (bit_vector);
    assert(data < 0x8000 ==> data & 0x8000 == 0) by (bit_vector);
}

/// Every register reads as the data that the machine has in it.
pub proof fn law_register_reads_the_machine(state: MachineState, index: u8, running: bool)
    ensures
        register_value(state, Register::General(index), running) == state.registers[index].data,
        register_value(state, Register::Pc, running) == state.pc,
        register_value(state, Register::Psr, running) == state.psr,
        register_value(state, Register::Mcr, running) == (if running {
            0x8000u16
        } else {
            0u16
        }),
{
}

/// Setting a register puts the data itself in it, and leaves all else of the
/// machine.
pub proof fn law_register_gets_the_data(state: MachineState, index: u8, data: u16)
    ensures
        with_register(state, Register::General(index), data) == (MachineState {
            registers: state.registers.insert(index, WordState { data, init: 0xFFFF }),
            ..state
        }),
        with_register(state, Register::Pc, data) == (MachineState { pc: data, ..state }),
        with_register(state, Register::Psr, data) == state,
        with_register(state, Register::Mcr, data) == state,
{
}

/// Setting a memory location puts the data itself in it, and leaves all else of
/// the machine.
pub proof fn law_memory_gets_the_data(state: MachineState, addr: u16, data: u16)
    ensures
        with_memory(state, addr, data) == (MachineState {
            memory: state.memory.insert(addr, WordState { data, init: 0xFFFF }),
            ..state
        }),
{
}

/// A removal takes the breakpoints one by one: those of two lists in a row are
/// what is left of the first and then what is left of the second, and of a single
/// one it is left unless it is at the address.
pub proof fn law_removal_goes_one_by_one(
    first: Seq<Option<u16>>,
    second: Seq<Option<u16>>,
    breakpoint: Option<u16>,
    addr: u16,
)
    ensures
        without_breakpoint(first + second, addr) == without_breakpoint(first, addr)
            + without_breakpoint(second, addr),
        without_breakpoint(seq![breakpoint], addr) == (if breakpoint == Some(addr) {
            Seq::<Option<u16>>::empty()
        } else {
            seq![breakpoint]
        }),
        without_breakpoint(Seq::<Option<u16>>::empty(), addr).len() == 0,
    decreases second.len(),
{
    reveal(Seq::filter);
    let none = Seq::<Option<u16>>::empty();
    assert(none.push(breakpoint) =~= seq![breakpoint]);
    lemma_without_push(none, breakpoint, addr);
    if second.len() == 0 {
        assert(first + second =~= first);
    } else {
        let rest = second.drop_last();
        law_removal_goes_one_by_one(first, rest, breakpoint, addr);
        assert(rest.push(second.last()) =~= second);
        assert((first + rest).push(second.last()) =~= first + second);
        lemma_without_push(rest, second.last(), addr);
        lemma_without_push(first + rest, second.last(), addr);
    }
}

/// The blocks that are placed are the ones that were handed in, each with its
/// start and all of its words.
pub proof fn law_blocks_are_the_given_ones(blocks: Seq<Block>, k: int)
    requires
        0 <= k < blocks.len(),
    ensures
        block_views(blocks).len() == blocks.len(),
        block_views(blocks)[k].0 == blocks[k]@.0,
        block_views(blocks)[k].1 == blocks[k]@.1,
{
}

/// The address of a word of a block that begins at the start.
pub open spec fn word_address(start: u16, i: int) -> int {
    (start + i) % 0x1_0000
}

/// The first word of a block is at its start, the next one at the next address,
/// and address 0 comes after the last address.
pub proof fn law_words_follow_each_other(start: u16, i: int)
    requires
        0 <= i,
    ensures
        word_address(start, 0) == start,
        word_address(start, i + 1) == if word_address(start, i) == 0xFFFF {
            0
        } else {
            word_address(start, i) + 1
        },
        word_address(start, i) == (start + i) % 0x1_0000,
{
}

/// A block has its words at its start and from there on, around the end of memory
/// if need be, and no word at any other address.
pub proof fn law_block_has_its_words(start: u16, words: Seq<Option<u16>>, i: int, addr: u16)
    requires
        words.len() <= 0xFFFF,
    ensures
        0 <= i < words.len() && addr == (start + i) % 0x1_0000 ==> block_word(start, words, addr)
            == Some(words[i]),
        (forall|j: int|
            0 <= j < words.len() ==> #[trigger] word_address(start, j) != addr) ==> block_word(
            start,
            words,
            addr,
        ) is None,
{
    let index = (addr - start) % 0x1_0000;
    if index < words.len() {
        assert(word_address(start, index) == addr);
    }
}

/// An address in a block lies at one of its words.
proof fn lemma_block_word_lies_in(start: u16, words: Seq<Option<u16>>, addr: u16)
    ensures
        block_word(start, words, addr) matches Some(word) ==> exists|j: int|
            0 <= j < words.len() && #[trigger] word_address(start, j) == addr && words[j] == word,
{
    let index = (addr - start) % 0x1_0000;
    if index < words.len() {
        assert(word_address(start, index) == addr);
        assert(words[index] == block_word(start, words, addr)->0);
    }
}

/// Placing a block sets the initialized words of it, marks the others as
/// uninitialized, and leaves all other addresses.
pub proof fn law_block_is_placed(
    memory: Map<u16, WordState>,
    start: u16,
    words: Seq<Option<u16>>,
    addr: u16,
)
    ensures
        with_block(memory, start, words)[addr] == (match block_word(start, words, addr) {
            Some(Some(data)) => WordState { data, init: 0xFFFF },
            Some(None) => WordState { data: memory[addr].data, init: 0 },
            None => memory[addr],
        }),
{
}

/// Of the blocks that were handed in, the last one that has a word at an address
/// decides: the address holds that word if it is initialized, and is
/// uninitialized if not.
pub proof fn law_given_last_block_decides(
    memory: Map<u16, WordState>,
    blocks: Seq<Block>,
    k: int,
    i: int,
    addr: u16,
)
    requires
        0 <= k < blocks.len(),
        0 <= i < blocks[k]@.1.len() <= 0xFFFF,
        addr == (blocks[k]@.0 + i) % 0x1_0000,
        forall|later: int, j: int|
            #![trigger word_address(blocks[later]@.0, j)]
            k < later < blocks.len() && 0 <= j < blocks[later]@.1.len()
                ==> word_address(blocks[later]@.0, j) != addr,
    ensures
        blocks[k]@.1[i] matches Some(data) ==> with_blocks(memory, block_views(blocks))[addr] == (
        WordState { data, init: 0xFFFF }),
        blocks[k]@.1[i] is None ==> with_blocks(memory, block_views(blocks))[addr].init == 0,
{
    let views = block_views(blocks);
    law_block_has_its_words(blocks[k]@.0, blocks[k]@.1, i, addr);
    assert forall|later: int| k < later < views.len() implies block_word(
        (#[trigger] views[later]).0,
        views[later].1,
        addr,
    ) is None by {
        assert(views[later] == blocks[later]@);
        lemma_block_word_lies_in(blocks[later]@.0, blocks[later]@.1, addr);
    }
    law_last_block_decides(memory, views, k, addr, blocks[k]@.1[i]);
}

/// Of the blocks that were handed in, the last one that has an initialized word
/// at an address gives its data.
pub proof fn law_given_block_is_placed(
    memory: Map<u16, WordState>,
    blocks: Seq<Block>,
    k: int,
    i: int,
    addr: u16,
)
    requires
        0 <= k < blocks.len(),
        0 <= i < blocks[k]@.1.len() <= 0xFFFF,
        addr == (blocks[k]@.0 + i) % 0x1_0000,
        blocks[k]@.1[i] is Some,
        forall|later: int, j: int|
            #![trigger word_address(blocks[later]@.0, j)]
            k < later < blocks.len() && 0 <= j < blocks[later]@.1.len()
                && word_address(blocks[later]@.0, j) == addr ==> blocks[later]@.1[j] is None,
    ensures
        with_blocks(memory, block_views(blocks))[addr].data == blocks[k]@.1[i]->0,
{
    let views = block_views(blocks);
    law_block_has_its_words(blocks[k]@.0, blocks[k]@.1, i, addr);
    assert forall|later: int| k < later < views.len() implies !(block_word(
        (#[trigger] views[later]).0,
        views[later].1,
        addr,
    ) matches Some(Some(_))) by {
        assert(views[later] == blocks[later]@);
        lemma_block_word_lies_in(blocks[later]@.0, blocks[later]@.1, addr);
    }
    law_blocks_are_placed(memory, views, k, addr, blocks[k]@.1[i]->0);
}

/// Where none of the blocks that were handed in has a word, an address keeps what
/// it held.
pub proof fn law_given_blocks_leave_the_rest(
    memory: Map<u16, WordState>,
    blocks: Seq<Block>,
    addr: u16,
)
    requires
        forall|k: int, i: int|
            #![trigger word_address(blocks[k]@.0, i)]
            0 <= k < blocks.len() && 0 <= i < blocks[k]@.1.len()
                ==> word_address(blocks[k]@.0, i) != addr,
    ensures
        with_blocks(memory, block_views(blocks))[addr] == memory[addr],
{
    let views = block_views(blocks);
    assert forall|k: int| 0 <= k < views.len() implies block_word(
        (#[trigger] views[k]).0,
        views[k].1,
        addr,
    ) is None by {
        assert(views[k] == blocks[k]@);
        lemma_block_word_lies_in(blocks[k]@.0, blocks[k]@.1, addr);
    }
    law_blocks_leave_the_rest(memory, views, addr);
}

/// Where no block has an initialized word, an address keeps its data.
pub proof fn law_blocks_keep_data(
    memory: Map<u16, WordState>,
    blocks: Seq<(u16, Seq<Option<u16>>)>,
    addr: u16,
)
    requires
        forall|k: int|
            0 <= k < blocks.len() ==> !(block_word(
                (#[trigger] blocks[k]).0,
                blocks[k].1,
                addr,
            ) matches Some(Some(_))),
    ensures
        with_blocks(memory, blocks)[addr].data == memory[addr].data,
    decreases blocks.len(),
{
    if blocks.len() > 0 {
        let rest = blocks.drop_last();
        assert forall|k: int| 0 <= k < rest.len() implies !(block_word(
            (#[trigger] rest[k]).0,
            rest[k].1,
            addr,
        ) matches Some(Some(_))) by {
            assert(rest[k] == blocks[k]);
        }
        law_blocks_keep_data(memory, rest, addr);
        assert(blocks[blocks.len() - 1] == blocks.last());
    }
}

/// Where none of the blocks that were handed in has an initialized word, an
/// address keeps its data.
pub proof fn law_given_blocks_keep_data(
    memory: Map<u16, WordState>,
    blocks: Seq<Block>,
    addr: u16,
)
    requires
        forall|k: int, i: int|
            #![trigger word_address(blocks[k]@.0, i)]
            0 <= k < blocks.len() && 0 <= i < blocks[k]@.1.len()
                && word_address(blocks[k]@.0, i) == addr ==> blocks[k]@.1[i] is None,
    ensures
        with_blocks(memory, block_views(blocks))[addr].data == memory[addr].data,
{
    let views = block_views(blocks);
    assert forall|k: int| 0 <= k < views.len() implies !(block_word(
        (#[trigger] views[k]).0,
        views[k].1,
        addr,
    ) matches Some(Some(_))) by {
        assert(views[k] == blocks[k]@);
        lemma_block_word_lies_in(blocks[k]@.0, blocks[k]@.1, addr);
    }
    law_blocks_keep_data(memory, views, addr);
}

/// After loading, the blocks that were handed in are in memory: an address at
/// which one has an initialized word, and no later one has any, holds that word.
pub proof fn law_given_program_is_in_memory(
    state: MachineState,
    blocks: Seq<Block>,
    k: int,
    i: int,
    addr: u16,
    data: u16,
)
    requires
        is_loaded(state, block_views(blocks)),
        0 <= k < blocks.len(),
        0 <= i < blocks[k]@.1.len() <= 0xFFFF,
        addr == (blocks[k]@.0 + i) % 0x1_0000,
        blocks[k]@.1[i] == Some(data),
        forall|later: int, j: int|
            #![trigger word_address(blocks[later]@.0, j)]
            k < later < blocks.len() && 0 <= j < blocks[later]@.1.len()
                ==> word_address(blocks[later]@.0, j) != addr,
    ensures
        state.memory[addr].data == data,
        state.memory[addr].init == 0xFFFF,
{
    let fresh = choose|fresh: MachineState| #[trigger]
        is_fresh(fresh) && state == (MachineState {
            memory: with_blocks(fresh.memory, block_views(blocks)),
            ..fresh
        });
    law_given_last_block_decides(fresh.memory, blocks, k, i, addr);
}

/// A fresh machine is at the start of user space, in user mode and at rest, has
/// no breakpoints, holds the operating system, and has nothing else initialized.
pub proof fn law_fresh_machine(state: MachineState, addr: u16, index: u8)
    requires
        is_fresh(state),
        index < 8,
    ensures
        state.pc == 0x3000,
        state.psr == 0x8002,
        !state.prefetch,
        state.breakpoints.len() == 0,
        system_word(addr) matches Some(data) ==> state.memory[addr] == (WordState {
            data,
            init: 0xFFFF,
        }),
        system_word(addr) is None ==> state.memory[addr].init == 0,
        addr < 0x0200 ==> state.memory[addr].init == 0xFFFF,
        0x3000 <= addr ==> state.memory[addr].init == 0,
        state.registers[index].init == 0,
{
}

/// A filled machine holds the data in all registers, and in memory wherever the
/// operating system has no word.
pub proof fn law_filled_machine(state: MachineState, data: u16, addr: u16, index: u8)
    requires
        is_filled(state, data),
        index < 8,
    ensures
        state.registers[index].data == data,
        state.registers[index].init == 0,
        system_word(addr) is None ==> state.memory[addr].data == data && state.memory[addr].init
            == 0,
{
}

/// What is initialized is so in all of its bits, and what is not in none.
pub proof fn law_words(data: u16)
    ensures
        initialized(data).data == data,
        initialized(data).init == 0xFFFF,
        uninitialized(data).data == data,
        uninitialized(data).init == 0,
{
}

/// User space begins at 0x3000 and ends where the devices begin, at 0xFE00.
pub proof fn law_addresses(addr: u16)
    ensures
        in_user_space(addr) <==> 0x3000 <= addr && addr < 0xFE00,
        is_device_address(addr) <==> 0xFE00 <= addr,
{
}

/// The instruction in progress is at the program counter, or one before it if the
/// program counter was counted up already, which it was not at address 0.
pub proof fn law_instruction_is_located(state: MachineState)
    ensures
        state.prefetch ==> instruction_address(state) == state.pc,
        !state.prefetch ==> instruction_address(state) == state.pc - 1,
        can_locate(state) <==> 0 <= instruction_address(state),
{
}

/// Changes that lead from one value of a simulator to another follow each other.
pub proof fn law_chain_is_connected(changes: Seq<Change>, before: Simulator, after: Simulator)
    requires
        is_chain(changes, before, after),
    ensures
        changes.len() == 0 ==> before == after,
        changes.len() > 0 ==> changes[0].before() == before && changes[changes.len() - 1].after()
            == after,
        forall|i: int|
            0 < i < changes.len() ==> (#[trigger] changes[i]).before() == changes[i - 1].after(),
    decreases changes.len(),
{
    if changes.len() > 0 {
        let rest = changes.drop_last();
        law_chain_is_connected(rest, before, changes.last().before());
        assert forall|i: int| 0 < i < changes.len() implies (#[trigger] changes[i]).before()
            == changes[i - 1].after() by {
            if i < rest.len() {
                assert(rest[i] == changes[i]);
                assert(rest[i - 1] == changes[i - 1]);
            } else {
                assert(rest[i - 1] == changes[i - 1]);
            }
        }
        if rest.len() > 0 {
            assert(rest[0] == changes[0]);
        }
    }
}

/// The line about an assembled file names the source file and then the object
/// file.
pub proof fn law_assembled_line(source_path: Seq<char>, object_path: Seq<char>)
    ensures
        assembled_line(source_path, object_path) == "successfully assembled "@ + source_path
            + " into "@ + object_path + "\n"@,
{
}

/// For one source file, the lines about two object files differ, and so do, for
/// one object file, the lines about two source files.
pub proof fn law_assembled_lines_differ(path: Seq<char>, one: Seq<char>, other: Seq<char>)
    requires
        one != other,
    ensures
        assembled_line(path, one) != assembled_line(path, other),
        assembled_line(one, path) != assembled_line(other, path),
{
    let start = "successfully assembled "@;
    let middle = " into "@;
    if assembled_line(path, one) == assembled_line(path, other) {
        let at = start.len() + path.len() + middle.len();
        let left = assembled_line(path, one);
        assert(left.len() == at + one.len() + "\n"@.len());
        assert(assembled_line(path, other).len() == at + other.len() + "\n"@.len());
        assert(left.subrange(at as int, (at + one.len()) as int) =~= one);
        assert(assembled_line(path, other).subrange(at as int, (at + other.len()) as int)
            =~= other);
    }
    if assembled_line(one, path) == assembled_line(other, path) {
        let left = assembled_line(one, path);
        let at = start.len();
        let rest = middle.len() + path.len() + "\n"@.len();
        assert(left.len() == at + one.len() + rest);
        assert(assembled_line(other, path).len() == at + other.len() + rest);
        assert(left.subrange(at as int, (at + one.len()) as int) =~= one);
        assert(assembled_line(other, path).subrange(at as int, (at + other.len()) as int)
            =~= other);
    }
}

/// The line about a malformed file names the file.
pub proof fn law_malformed_line(path: Seq<char>)
    ensures
        malformed_line(path) == "error: malformed object file "@ + path + "\n"@,
{
}

/// The line about an error holds its description and the address.
pub proof fn law_error_line(description: Seq<char>, addr: u16)
    ensures
        error_line(description, addr) == "error: "@ + description + " (instruction x"@ + hex4(addr)
            + ")\n"@,
{
}

/// A number is written in four digits in upper case that read as the number.
pub proof fn law_hex4_reads_as_the_number(number: u16)
    ensures
        hex4(number).len() == 4,
        forall|i: int|
            0 <= i < 4 ==> '0' <= #[trigger] hex4(number)[i] <= '9' || 'A' <= hex4(number)[i] <= 'F',
        number == ({
            let value = |digit: char|
                if digit <= '9' {
                    digit as int - '0' as int
                } else {
                    digit as int - 'A' as int + 10
                };
            value(hex4(number)[0]) * 0x1000 + value(hex4(number)[1]) * 0x100 + value(
                hex4(number)[2],
            ) * 0x10 + value(hex4(number)[3])
        }),
{
    let first = number / 0x1000;
    let second = number / 0x100 % 0x10;
    let third = number / 0x10 % 0x10;
    let fourth = number % 0x10;
    lemma_hex_digit(first);
    lemma_hex_digit(second);
    lemma_hex_digit(third);
    lemma_hex_digit(fourth);
    assert(number == first * 0x1000 + second * 0x100 + third * 0x10 + fourth);
}

/// A digit is the one for the value.
proof fn lemma_hex_digit(value: u16)
    requires
        value < 16,
    ensures
        value < 10 ==> '0' <= hex_digit(value) <= '9' && hex_digit(value) as int == '0' as int
            + value,
        10 <= value ==> 'A' <= hex_digit(value) <= 'F' && hex_digit(value) as int == 'A' as int
            + value - 10,
{
}

} // verus!
