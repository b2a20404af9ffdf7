//! The commands that set and remove breakpoints.

use crate::ensemble::{
    breakpoint_count, breakpoint_stops_at, delete_breakpoint, is_chain, lemma_chain_push, machine,
    push_breakpoint, Change, MachineState,
};
use lc3_ensemble::sim::Simulator;
use vstd::prelude::*;

verus! {

/// The breakpoints that are left, in order, when every breakpoint at the
/// address is taken out.
pub open spec fn without_breakpoint(
    breakpoints: Seq<Option<u16>>,
    addr: u16,
) -> Seq<Option<u16>> {
    breakpoints.filter(|breakpoint: Option<u16>| breakpoint != Some(addr))
}

/// One more breakpoint decides by itself whether it is left.
pub(crate) proof fn lemma_without_push(breakpoints: Seq<Option<u16>>, breakpoint: Option<u16>, addr: u16)
    ensures
        without_breakpoint(breakpoints.push(breakpoint), addr) == if breakpoint == Some(addr) {
            without_breakpoint(breakpoints, addr)
        } else {
            without_breakpoint(breakpoints, addr).push(breakpoint)
        },
{
    reveal(Seq::filter);
    assert(breakpoints.push(breakpoint).drop_last() =~= breakpoints);
}

/// Adds a breakpoint that stops when the program counter equals the address.
pub fn set_breakpoint(sim: &mut Simulator, addr: u16)
    ensures
        machine(*final(sim)) == (MachineState {
            breakpoints: machine(*old(sim)).breakpoints.push(Some(addr)),
            ..machine(*old(sim))
        }),
        exists|change: Change| #[trigger]
            change.before() == *old(sim) && change.after() == *final(sim),
{
    push_breakpoint(sim, addr);
}

/// Removes every breakpoint that stops when the program counter equals the
/// address, and keeps the others in order.
pub fn remove_breakpoint(sim: &mut Simulator, addr: u16)
    ensures
        machine(*final(sim)) == (MachineState {
            breakpoints: without_breakpoint(machine(*old(sim)).breakpoints, addr),
            ..machine(*old(sim))
        }),
        exists|changes: Seq<Change>| is_chain(changes, *old(sim), *final(sim)),
{
    let ghost start = *sim;
    let ghost mut changes: Seq<Change> = Seq::empty();
    let ghost before = machine(*sim);
    let ghost all = before.breakpoints;
    let ghost mut seen: int = 0;
    let mut index: usize = 0;
    proof {
        reveal(Seq::filter);
        assert(all.take(0) =~= Seq::<Option<u16>>::empty());
        assert(without_breakpoint(all.take(0), addr) + all.skip(0) =~= all);
    }
    while index < breakpoint_count(sim)
        invariant
            is_chain(changes, start, *sim),
            0 <= seen <= all.len(),
            all == before.breakpoints,
            index == without_breakpoint(all.take(seen), addr).len(),
            machine(*sim) == (MachineState {
                breakpoints: without_breakpoint(all.take(seen), addr) + all.skip(seen),
                ..before
            }),
        decreases machine(*sim).breakpoints.len() - index,
    {
        let ghost kept = without_breakpoint(all.take(seen), addr);
        let ghost current = machine(*sim).breakpoints;
        proof {
            assert(current[index as int] == all[seen]);
            assert(all.take(seen + 1) =~= all.take(seen).push(all[seen]));
            lemma_without_push(all.take(seen), all[seen], addr);
        }
        if breakpoint_stops_at(sim, index, addr) {
            let change: Change = delete_breakpoint(sim, index);
            proof {
                lemma_chain_push(changes, change, start);
                changes = changes.push(change);
                assert(current.remove(index as int) =~= kept + all.skip(seen + 1));
            }
        } else {
            index += 1;
            proof {
                assert(current =~= kept.push(all[seen]) + all.skip(seen + 1));
            }
        }
        proof {
            seen = seen + 1;
        }
    }
    proof {
        assert(seen == all.len());
        assert(all.take(seen) =~= all);
        assert(without_breakpoint(all, addr) + all.skip(seen) =~= without_breakpoint(all, addr));
    }
}

} // verus!
