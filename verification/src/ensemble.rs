//! The boundary to the `lc3_ensemble` crate, which executes LC-3 code: its types,
//! what their values hold, and what its functions do.

use lc3_ensemble::ast::reg_consts::{R0, R1, R2, R3, R4, R5, R6, R7};
use lc3_ensemble::sim::debug::{Breakpoint, Comparator};
use lc3_ensemble::sim::mem::{MemAccessCtx, Word, WordCreateStrategy};
use lc3_ensemble::sim::{SimErr, Simulator};
use vstd::prelude::*;

verus! {

/// `lc3_ensemble::sim::Simulator`, the machine that executes LC-3 code.
#[verifier::external_type_specification]
#[verifier::external_body]
pub struct ExSimulator(lc3_ensemble::sim::Simulator);

/// `lc3_ensemble::sim::SimErr`, why an execution or a memory access failed.
#[verifier::external_type_specification]
#[verifier::external_body]
pub struct ExSimErr(lc3_ensemble::sim::SimErr);

/// What a register or a memory location holds.
pub struct WordState {
    /// The data.
    pub data: u16,
    /// Which bits of the data are initialized.
    pub init: u16,
}

/// A word with all of its bits initialized.
pub open spec fn initialized(data: u16) -> WordState {
    WordState { data, init: 0xFFFF }
}

/// A word with none of its bits initialized.
pub open spec fn uninitialized(data: u16) -> WordState {
    WordState { data, init: 0 }
}

/// What a simulator holds, as far as the commands read or change it.
///
/// The machine control flag is not part of it: it sits in an atomic cell that
/// the simulator shares with whoever holds a handle to it.
#[verifier::ext_equal]
pub struct MachineState {
    /// The general purpose registers, by number.
    pub registers: Map<u8, WordState>,
    /// The program counter.
    pub pc: u16,
    /// The processor status register.
    pub psr: u16,
    /// Whether the program counter still names the instruction in progress.
    pub prefetch: bool,
    /// The memory locations, by address.
    pub memory: Map<u16, WordState>,
    /// The breakpoints in order: the address of one that stops when the program
    /// counter equals it, nothing for one of another kind.
    pub breakpoints: Seq<Option<u16>>,
    /// How the words that nothing initializes are created: with that data, or
    /// with data that is drawn at random.
    pub fill: Option<u16>,
}

/// The contents of a simulator.
pub uninterp spec fn machine(sim: Simulator) -> MachineState;

/// The word that the operating system has for the address, if it has one.
pub uninterp spec fn system_word(addr: u16) -> Option<u16>;

/// The text that describes an error.
pub uninterp spec fn error_text(err: SimErr) -> Seq<char>;

/// Whether a program may use the address without privilege.
pub open spec fn in_user_space(addr: u16) -> bool {
    0x3000 <= addr < 0xFE00
}

/// Whether the address belongs to a device rather than to memory.
pub open spec fn is_device_address(addr: u16) -> bool {
    0xFE00 <= addr
}

/// Whether the memory holds the operating system, and nothing else is
/// initialized.
pub open spec fn holds_system(memory: Map<u16, WordState>) -> bool {
    forall|addr: u16|
        #![trigger memory[addr]]
        match system_word(addr) {
            Some(data) => memory[addr] == initialized(data),
            None => memory[addr].init == 0,
        }
}

/// The state of a machine that nothing has run on: the operating system lies
/// below user space, from its vectors on, and everything else is uninitialized.
pub open spec fn is_fresh(state: MachineState) -> bool {
    &&& state.pc == 0x3000
    &&& state.psr == 0x8002
    &&& !state.prefetch
    &&& state.breakpoints == Seq::<Option<u16>>::empty()
    &&& holds_system(state.memory)
    &&& forall|addr: u16| addr < 0x0200 ==> (#[trigger] state.memory[addr]).init == 0xFFFF
    &&& forall|addr: u16| 0x3000 <= addr ==> (#[trigger] state.memory[addr]).init == 0
    &&& forall|index: u8| index < 8 ==> (#[trigger] state.registers[index]).init == 0
}

/// Whether the registers, and the memory that the operating system has no word
/// for, hold `data` and are uninitialized.
pub open spec fn is_filled(state: MachineState, data: u16) -> bool {
    &&& forall|index: u8|
        index < 8 ==> #[trigger] state.registers[index] == uninitialized(data)
    &&& forall|addr: u16|
        system_word(addr) is None ==> #[trigger] state.memory[addr] == uninitialized(data)
}

/// Whether `Simulator::prefetch_pc` has an address to give: the program counter
/// is not one past an instruction at the end of memory.
pub open spec fn can_locate(state: MachineState) -> bool {
    state.prefetch || state.pc != 0
}

/// The address of the instruction in progress, or of the last one.
pub open spec fn instruction_address(state: MachineState) -> int {
    if state.prefetch {
        state.pc as int
    } else {
        state.pc - 1
    }
}

/// The memory after the words were placed from `start` on, around the end of
/// memory if need be. An uninitialized word leaves the data that was there, but
/// not that it was initialized.
pub open spec fn with_block(
    memory: Map<u16, WordState>,
    start: u16,
    words: Seq<Option<u16>>,
) -> Map<u16, WordState> {
    Map::new(
        |addr: u16| true,
        |addr: u16|
            match block_word(start, words, addr) {
                Some(Some(data)) => initialized(data),
                Some(None) => uninitialized(memory[addr].data),
                None => memory[addr],
            },
    )
}

/// The word that a block from `start` on has for the address, if the address
/// lies in the block.
pub open spec fn block_word(start: u16, words: Seq<Option<u16>>, addr: u16) -> Option<
    Option<u16>,
> {
    let index = (addr - start) % 0x1_0000;
    if index < words.len() {
        Some(words[index])
    } else {
        None
    }
}

/// `Simulator::new`, with the strategy `WordCreateStrategy::Known` for a given
/// fill and `WordCreateStrategy::Unseeded` for none: a fresh machine that holds
/// the operating system, which is the same in all of them. Its vectors are the
/// first 0x200 words, and it ends below user space. Everything else is
/// uninitialized, and holds the fill or random data. The machine keeps the
/// strategy in a field of its own. Which data is drawn at random is left unsaid.
#[verifier::external_body]
pub(crate) fn new_simulator(fill: Option<u16>) -> (sim: Simulator)
    ensures
        is_fresh(machine(sim)),
        machine(sim).fill == fill,
        forall|addr: u16|
            system_word(addr) is Some ==> #[trigger] machine(sim).memory[addr] == initialized(
                system_word(addr)->0,
            ),
        fill matches Some(data) ==> is_filled(machine(sim), data),
{
    Simulator::new(fill.map_or(WordCreateStrategy::Unseeded, WordCreateStrategy::Known))
}

/// Whether a call of `new_simulator` with that fill gave the simulator, which
/// nothing has changed since.
pub closed spec fn is_created(fill: Option<u16>, sim: Simulator) -> bool {
    call_ensures(new_simulator, (fill,), sim)
}

/// A simulator that was just created is what the call that creates one gave.
pub(crate) proof fn law_created_by_the_call(fill: Option<u16>, sim: Simulator)
    ensures
        is_created(fill, sim) <==> call_ensures(new_simulator, (fill,), sim),
{
}

/// Creates a simulator whose uninitialized words hold the fill, or random data.
pub(crate) fn create_simulator(fill: Option<u16>) -> (sim: Simulator)
    ensures
        is_created(fill, sim),
        is_fresh(machine(sim)),
        machine(sim).fill == fill,
        fill matches Some(data) ==> is_filled(machine(sim), data),
{
    new_simulator(fill)
}

/// One change of a simulator, by a call that neither reaches a device nor stores
/// the machine control flag. Only such a call makes a value of this type.
pub struct Change {
    before: Ghost<Simulator>,
    after: Ghost<Simulator>,
}

impl Change {
    /// The simulator right before the change.
    pub closed spec fn before(&self) -> Simulator {
        self.before@
    }

    /// The simulator right after the change.
    pub closed spec fn after(&self) -> Simulator {
        self.after@
    }
}

/// Whether the changes, one after the other and nothing in between, lead from
/// one value of a simulator to another.
pub open spec fn is_chain(changes: Seq<Change>, before: Simulator, after: Simulator) -> bool
    decreases changes.len(),
{
    if changes.len() == 0 {
        before == after
    } else {
        changes.last().after() == after && is_chain(
            changes.drop_last(),
            before,
            changes.last().before(),
        )
    }
}

/// A change behind a chain makes a longer chain.
pub(crate) proof fn lemma_chain_push(changes: Seq<Change>, change: Change, before: Simulator)
    requires
        is_chain(changes, before, change.before()),
    ensures
        is_chain(changes.push(change), before, change.after()),
{
    assert(changes.push(change).drop_last() =~= changes);
}

/// `RegFile`'s `Index::index`, whose word `Word::get` turns into a number: the
/// data of the general purpose register with that number.
#[verifier::external_body]
pub(crate) fn register_data(sim: &Simulator, index: u8) -> (data: u16)
    requires
        index < 8,
    ensures
        data == machine(*sim).registers[index].data,
{
    sim.reg_file[[R0, R1, R2, R3, R4, R5, R6, R7][usize::from(index)]].get()
}

/// `Word::set` on the word that `RegFile`'s `IndexMut::index_mut` gives: the
/// register with that number gets the data, all of it initialized, and nothing
/// else changes.
#[verifier::external_body]
pub(crate) fn set_register_data(sim: &mut Simulator, index: u8, data: u16) -> (change: Change)
    requires
        index < 8,
    ensures
        change.before() == *old(sim),
        change.after() == *final(sim),
        machine(*final(sim)) == (MachineState {
            registers: machine(*old(sim)).registers.insert(index, initialized(data)),
            ..machine(*old(sim))
        }),
{
    let ghost before = *sim;
    sim.reg_file[[R0, R1, R2, R3, R4, R5, R6, R7][usize::from(index)]].set(data);
    Change { before: Ghost(before), after: Ghost(*sim) }
}

/// The field `Simulator::pc`.
#[verifier::external_body]
pub(crate) fn pc(sim: &Simulator) -> (addr: u16)
    ensures
        addr == machine(*sim).pc,
{
    sim.pc
}

/// An assignment to the field `Simulator::pc`, which changes nothing else.
#[verifier::external_body]
pub(crate) fn set_pc(sim: &mut Simulator, addr: u16) -> (change: Change)
    ensures
        change.before() == *old(sim),
        change.after() == *final(sim),
        machine(*final(sim)) == (MachineState { pc: addr, ..machine(*old(sim)) }),
{
    let ghost before = *sim;
    sim.pc = addr;
    Change { before: Ghost(before), after: Ghost(*sim) }
}

/// `Simulator::psr`, whose only field is the register's data.
#[verifier::external_body]
pub(crate) fn psr(sim: &Simulator) -> (data: u16)
    ensures
        data == machine(*sim).psr,
{
    sim.psr().0
}

/// A flag that was loaded from the machine control cell of a simulator. Only
/// loading one makes a value of this type.
#[derive(Debug)]
pub struct LoadedFlag {
    running: bool,
}

impl View for LoadedFlag {
    type V = bool;

    closed spec fn view(&self) -> bool {
        self.running
    }
}

impl LoadedFlag {
    /// The flag that was loaded.
    pub fn running(&self) -> (running: bool)
        ensures
            running == self@,
    {
        self.running
    }
}

/// `AtomicBool::load` on the cell that `Simulator::mcr` gives: whether the
/// machine is running. Nothing is claimed of the result, since another thread
/// may set the cell at any time.
#[verifier::external_body]
pub(crate) fn control_flag(sim: &Simulator) -> (loaded: LoadedFlag) {
    LoadedFlag { running: sim.mcr().load(std::sync::atomic::Ordering::Relaxed) }
}

/// Whether a call of `control_flag` on the simulator gave the flag.
pub closed spec fn is_loaded_from(sim: Simulator, flag: LoadedFlag) -> bool {
    call_ensures(control_flag, (&sim,), flag)
}

/// A flag that was loaded from a simulator is what the call that loads one gave.
pub(crate) proof fn law_loaded_by_the_call(sim: Simulator, flag: LoadedFlag)
    ensures
        is_loaded_from(sim, flag) <==> call_ensures(control_flag, (&sim,), flag),
{
}

/// Loads the machine control flag of the simulator.
pub(crate) fn load_control_flag(sim: &Simulator) -> (loaded: LoadedFlag)
    ensures
        is_loaded_from(*sim, loaded),
{
    control_flag(sim)
}

/// A flag that was stored in the machine control cell of a simulator. Only
/// storing one makes a value of this type.
pub struct StoredFlag {
    running: bool,
    before: Ghost<Simulator>,
    after: Ghost<Simulator>,
}

impl View for StoredFlag {
    type V = bool;

    closed spec fn view(&self) -> bool {
        self.running
    }
}

impl StoredFlag {
    /// The simulator right before the store.
    pub closed spec fn before(&self) -> Simulator {
        self.before@
    }

    /// The simulator right after the store.
    pub closed spec fn after(&self) -> Simulator {
        self.after@
    }

    /// The flag that was stored.
    pub fn running(&self) -> (running: bool)
        ensures
            running == self@,
    {
        self.running
    }
}

/// `AtomicBool::store` on the cell that `Simulator::mcr` gives; the result tells
/// what was stored. Nothing is claimed of what the cell holds afterwards, since
/// another thread may set it at any time. Nothing else changes. The store itself
/// could go through a shared reference; this function asks for an exclusive one,
/// so that what only reads a machine cannot call it.
#[verifier::external_body]
pub(crate) fn set_control_flag(sim: &mut Simulator, running: bool) -> (stored: StoredFlag)
    ensures
        stored@ == running,
        stored.before() == *old(sim),
        stored.after() == *final(sim),
        machine(*final(sim)) == machine(*old(sim)),
{
    let ghost before = *sim;
    sim.mcr().store(running, std::sync::atomic::Ordering::Relaxed);
    StoredFlag { running, before: Ghost(before), after: Ghost(*sim) }
}

/// `Simulator::prefetch_pc`: the address of the instruction in progress, or of
/// the last one. It panics where that would lie below address 0.
pub assume_specification[ Simulator::prefetch_pc ](sim: &Simulator) -> (addr: u16)
    requires
        can_locate(machine(*sim)),
    ensures
        addr == instruction_address(machine(*sim)),
;

/// A word that was read from an address of a simulator, be it memory or a
/// device. Only reading one makes a value of this type.
pub struct ReadWord {
    addr: u16,
    data: u16,
    before: Ghost<Simulator>,
    after: Ghost<Simulator>,
}

impl View for ReadWord {
    type V = (u16, u16);

    closed spec fn view(&self) -> (u16, u16) {
        (self.addr, self.data)
    }
}

impl ReadWord {
    /// The simulator right before the read.
    pub closed spec fn before(&self) -> Simulator {
        self.before@
    }

    /// The simulator right after the read.
    pub closed spec fn after(&self) -> Simulator {
        self.after@
    }

    /// The data that was read.
    pub fn data(&self) -> (data: u16)
        ensures
            data == self@.1,
    {
        self.data
    }
}

/// `Mem::read`, whose word `Word::get` turns into a number; the result also tells
/// where it was read. It fails only for
/// an unprivileged access outside of user space. A device may put new data,
/// initialized, at the address first, if it is a device address; nothing else
/// changes. What data a device gives is left unsaid: it depends on what is
/// connected.
#[verifier::external_body]
pub(crate) fn read_memory(
    sim: &mut Simulator,
    addr: u16,
    privileged: bool,
    strict: bool,
) -> (word: Result<ReadWord, SimErr>)
    ensures
        word is Ok <==> privileged || in_user_space(addr),
        word is Err ==> machine(*final(sim)) == machine(*old(sim)),
        word matches Ok(read) ==> read@ == (addr, machine(*final(sim)).memory[addr].data),
        word matches Ok(read) ==> read.before() == *old(sim) && read.after() == *final(sim),
        word matches Ok(read) ==> machine(*final(sim)) == machine(*old(sim)) || (
        is_device_address(addr) && machine(*final(sim)) == (MachineState {
            memory: machine(*old(sim)).memory.insert(addr, initialized(read@.1)),
            ..machine(*old(sim))
        })),
{
    let ghost before = *sim;
    match sim.mem.read(addr, MemAccessCtx { privileged, strict }) {
        Ok(word) => Ok(
            ReadWord { addr, data: word.get(), before: Ghost(before), after: Ghost(*sim) },
        ),
        Err(err) => Err(err),
    }
}

/// A word that was written to an address of a simulator, be it memory or a
/// device. Only writing one makes a value of this type.
pub struct WrittenWord {
    addr: u16,
    data: u16,
    before: Ghost<Simulator>,
    after: Ghost<Simulator>,
}

impl View for WrittenWord {
    type V = (u16, u16);

    closed spec fn view(&self) -> (u16, u16) {
        (self.addr, self.data)
    }
}

impl WrittenWord {
    /// The simulator right before the write.
    pub closed spec fn before(&self) -> Simulator {
        self.before@
    }

    /// The simulator right after the write.
    pub closed spec fn after(&self) -> Simulator {
        self.after@
    }

    /// The address that was written to.
    pub fn addr(&self) -> (addr: u16)
        ensures
            addr == self@.0,
    {
        self.addr
    }

    /// The data that was written.
    pub fn data(&self) -> (data: u16)
        ensures
            data == self@.1,
    {
        self.data
    }
}

/// `Mem::write` of the initialized word that `Word::new_init` makes of the data;
/// the result tells what was written where. It fails only for an unprivileged
/// access outside of user space. Memory gets the data, all of it initialized. A
/// device is handed the data, and its address gets it only if the device accepts
/// it, which is left unsaid: it depends on what is connected. Nothing else
/// changes.
#[verifier::external_body]
pub(crate) fn write_memory(
    sim: &mut Simulator,
    addr: u16,
    data: u16,
    privileged: bool,
    strict: bool,
) -> (written: Result<WrittenWord, SimErr>)
    ensures
        written is Ok <==> privileged || in_user_space(addr),
        written matches Ok(word) ==> word@ == (addr, data),
        written matches Ok(word) ==> word.before() == *old(sim) && word.after() == *final(sim),
        written is Err ==> machine(*final(sim)) == machine(*old(sim)),
        written is Ok ==> machine(*final(sim)) == (MachineState {
            memory: machine(*old(sim)).memory.insert(addr, initialized(data)),
            ..machine(*old(sim))
        }) || (is_device_address(addr) && machine(*final(sim)) == machine(*old(sim))),
{
    let ghost before = *sim;
    match sim.mem.write(addr, Word::new_init(data), MemAccessCtx { privileged, strict }) {
        Ok(()) => Ok(WrittenWord { addr, data, before: Ghost(before), after: Ghost(*sim) }),
        Err(err) => Err(err),
    }
}

/// `Mem::copy_obj_block`: places the words in memory from `start` on, marks an
/// uninitialized word as such without changing its data, and changes nothing
/// else. It can panic on more words than a block of an object file can have, and
/// would go over its own words.
#[verifier::external_body]
pub(crate) fn copy_block(
    sim: &mut Simulator,
    start: u16,
    words: &Vec<Option<u16>>,
) -> (change: Change)
    requires
        words@.len() <= 0xFFFF,
    ensures
        change.before() == *old(sim),
        change.after() == *final(sim),
        machine(*final(sim)) == (MachineState {
            memory: with_block(machine(*old(sim)).memory, start, words@),
            ..machine(*old(sim))
        }),
{
    let ghost before = *sim;
    sim.mem.copy_obj_block(start, words);
    Change { before: Ghost(before), after: Ghost(*sim) }
}

/// `Vec::len` on the field `Simulator::breakpoints`.
#[verifier::external_body]
pub(crate) fn breakpoint_count(sim: &Simulator) -> (count: usize)
    ensures
        count == machine(*sim).breakpoints.len(),
{
    sim.breakpoints.len()
}

/// `Breakpoint`'s `PartialEq::eq`: whether the breakpoint at that index is the
/// one that stops when the program counter equals the address.
#[verifier::external_body]
pub(crate) fn breakpoint_stops_at(sim: &Simulator, index: usize, addr: u16) -> (same: bool)
    requires
        index < machine(*sim).breakpoints.len(),
    ensures
        same == (machine(*sim).breakpoints[index as int] == Some(addr)),
{
    sim.breakpoints[index] == Breakpoint::PC(Comparator::eq(addr))
}

/// `Vec::push` on the field `Simulator::breakpoints`, of the breakpoint that
/// stops when the program counter equals the address.
#[verifier::external_body]
pub(crate) fn push_breakpoint(sim: &mut Simulator, addr: u16) -> (change: Change)
    ensures
        change.before() == *old(sim),
        change.after() == *final(sim),
        machine(*final(sim)) == (MachineState {
            breakpoints: machine(*old(sim)).breakpoints.push(Some(addr)),
            ..machine(*old(sim))
        }),
{
    let ghost before = *sim;
    sim.breakpoints.push(Breakpoint::PC(Comparator::eq(addr)));
    Change { before: Ghost(before), after: Ghost(*sim) }
}

/// `Vec::remove` on the field `Simulator::breakpoints`.
#[verifier::external_body]
pub(crate) fn delete_breakpoint(sim: &mut Simulator, index: usize) -> (change: Change)
    requires
        index < machine(*old(sim)).breakpoints.len(),
    ensures
        change.before() == *old(sim),
        change.after() == *final(sim),
        machine(*final(sim)) == (MachineState {
            breakpoints: machine(*old(sim)).breakpoints.remove(index as int),
            ..machine(*old(sim))
        }),
{
    let ghost before = *sim;
    sim.breakpoints.remove(index);
    Change { before: Ghost(before), after: Ghost(*sim) }
}

/// `SimErr`'s `Display`: the text that describes the error.
#[verifier::external_body]
pub(crate) fn describe_error(err: &SimErr) -> (text: String)
    ensures
        text@ == error_text(*err),
{
    err.to_string()
}

} // verus!
