//! The commands that set up the machine: a new one, and one with a program.

use crate::console::PrintBuffer;
use crate::ensemble::{
    copy_block, create_simulator, is_chain, is_created, is_filled, is_fresh, lemma_chain_push,
    machine, with_block, Change, MachineState, WordState,
};
use lc3_ensemble::sim::Simulator;
use vstd::prelude::*;
use vstd::utf8::encode_utf8;

verus! {

/// Consecutive words of an assembled program, some of which may be left
/// uninitialized. There are fewer words than memory has.
pub struct Block {
    start: u16,
    words: Vec<Option<u16>>,
}

impl View for Block {
    type V = (u16, Seq<Option<u16>>);

    closed spec fn view(&self) -> (u16, Seq<Option<u16>>) {
        (self.start, self.words@)
    }
}

impl Block {
    #[verifier::type_invariant]
    spec fn fits(self) -> bool {
        self.words@.len() <= 0xFFFF
    }

    /// The words from the address `start` on, unless there are too many.
    pub fn new(start: u16, words: Vec<Option<u16>>) -> (block: Option<Block>)
        ensures
            block is Some <==> words@.len() <= 0xFFFF,
            block matches Some(made) ==> made@ == (start, words@),
    {
        if words.len() <= 0xFFFF {
            Some(Block { start, words })
        } else {
            None
        }
    }
}

/// The starts and the words of the blocks.
pub open spec fn block_views(blocks: Seq<Block>) -> Seq<(u16, Seq<Option<u16>>)> {
    blocks.map_values(|block: Block| block@)
}

/// The memory after the blocks were placed one after the other.
pub open spec fn with_blocks(
    memory: Map<u16, WordState>,
    blocks: Seq<(u16, Seq<Option<u16>>)>,
) -> Map<u16, WordState>
    decreases blocks.len(),
{
    if blocks.len() == 0 {
        memory
    } else {
        with_block(with_blocks(memory, blocks.drop_last()), blocks.last().0, blocks.last().1)
    }
}

/// Whether the state is that of a fresh machine in which the blocks were placed.
pub open spec fn is_loaded(state: MachineState, blocks: Seq<(u16, Seq<Option<u16>>)>) -> bool {
    exists|fresh: MachineState| #[trigger]
        is_fresh(fresh) && state == (MachineState {
            memory: with_blocks(fresh.memory, blocks),
            ..fresh
        })
}

/// The line that reports an object file that cannot be read.
pub open spec fn malformed_line(path: Seq<char>) -> Seq<char> {
    "error: malformed object file "@ + path + "\n"@
}

/// A fresh machine, of which what is not initialized is 0 or random.
pub fn new_machine(zeroed: bool) -> (sim: Simulator)
    ensures
        is_created(
            if zeroed {
                Some(0u16)
            } else {
                None
            },
            sim,
        ),
        is_fresh(machine(sim)),
        machine(sim).fill == (if zeroed {
            Some(0u16)
        } else {
            None
        }),
        zeroed ==> is_filled(machine(sim), 0),
{
    if zeroed {
        create_simulator(Some(0))
    } else {
        create_simulator(None)
    }
}

/// The machine to go on with when the machine is to be reinitialized: a fresh
/// one that holds 0 where nothing is initialized.
pub fn reinitialize_machine() -> (sim: Simulator)
    ensures
        is_created(Some(0u16), sim),
        is_fresh(machine(sim)),
        machine(sim).fill == Some(0u16),
        is_filled(machine(sim), 0),
{
    new_machine(true)
}

/// The machine to go on with when the machine is to be randomized: a fresh one
/// that holds random data where nothing is initialized.
pub fn randomize_machine() -> (sim: Simulator)
    ensures
        is_created(None, sim),
        is_fresh(machine(sim)),
        machine(sim).fill is None,
{
    new_machine(false)
}

/// Places the blocks in memory one after the other.
pub fn load_blocks(sim: &mut Simulator, blocks: &Vec<Block>)
    ensures
        machine(*final(sim)) == (MachineState {
            memory: with_blocks(machine(*old(sim)).memory, block_views(blocks@)),
            ..machine(*old(sim))
        }),
        exists|changes: Seq<Change>|
            changes.len() == blocks@.len() && #[trigger] is_chain(
                changes,
                *old(sim),
                *final(sim),
            ),
{
    let ghost start = *sim;
    let ghost mut changes: Seq<Change> = Seq::empty();
    let ghost before = machine(*sim);
    let ghost all = block_views(blocks@);
    let mut index: usize = 0;
    while index < blocks.len()
        invariant
            index <= blocks@.len(),
            changes.len() == index,
            is_chain(changes, start, *sim),
            all == block_views(blocks@),
            machine(*sim) == (MachineState {
                memory: with_blocks(before.memory, all.take(index as int)),
                ..before
            }),
        decreases blocks@.len() - index,
    {
        let block: &Block = &blocks[index];
        proof {
            use_type_invariant(block);
            assert(all.take(index + 1).drop_last() =~= all.take(index as int));
            assert(all.take(index + 1).last() == block@);
        }
        let change: Change = copy_block(sim, block.start, &block.words);
        proof {
            lemma_chain_push(changes, change, start);
            changes = changes.push(change);
        }
        index += 1;
    }
    proof {
        assert(all.take(index as int) =~= all);
    }
}

/// Loads what was read from an object file, and gives the machine to go on with:
/// a fresh one, with random data, that holds the program. If nothing could be
/// read, that is printed, and there is no new machine.
pub fn load_object_file(
    buffer: &mut PrintBuffer,
    path: &str,
    object: Option<&Vec<Block>>,
) -> (loaded: Option<Simulator>)
    ensures
        loaded is Some <==> object is Some,
        object matches Some(blocks) ==> is_loaded(machine(loaded->0), block_views(blocks@)),
        object matches Some(blocks) ==> exists|created: Simulator| #[trigger]
            is_created(None, created) && machine(loaded->0) == (MachineState {
                memory: with_blocks(machine(created).memory, block_views(blocks@)),
                ..machine(created)
            }) && exists|changes: Seq<Change>|
                changes.len() == blocks@.len() && #[trigger] is_chain(
                    changes,
                    created,
                    loaded->0,
                ),
        object is Some ==> machine(loaded->0).fill is None,
        object is Some ==> final(buffer)@ == old(buffer)@,
        object is None ==> final(buffer)@ == old(buffer)@ + encode_utf8(malformed_line(path@)),
{
    match object {
        Some(blocks) => {
            let mut sim: Simulator = new_machine(false);
            let ghost created = sim;
            load_blocks(&mut sim, blocks);
            proof {
                assert(is_created(None, created));
            }
            Some(sim)
        },
        None => {
            let mut line: String = "error: malformed object file ".to_owned();
            line.append(path);
            line.append("\n");
            buffer.write_text(line.as_str());
            None
        },
    }
}

} // verus!
