//! The frame that every stage of the instruction generator works in: move
//! the state to where the incoming instructions lead, let the stage carry
//! out and record what it adds, and move the state back.

use vstd::prelude::*;
use crate::fitting::{advance, rewind, tracks};
use crate::instruction::{Instruction, StateInstructions};
use crate::laws::{apply_all_concat, apply_all_keeps_bounds};
use crate::state::State;

verus! {

/// Appends the instructions of `added` to `list`.
pub fn append_instructions(list: &mut Vec<Instruction>, added: &Vec<Instruction>)
    ensures
        final(list)@ == old(list)@ + added@,
{
    let mut i: usize = 0;
    while i < added.len()
        invariant
            i <= added.len(),
            list@ == old(list)@ + added@.take(i as int),
        decreases added.len() - i,
    {
        list.push(added[i]);
        assert(added@.take(i + 1) =~= added@.take(i as int).push(added@[i as int]));
        assert(old(list)@ + added@.take(i + 1) =~= (old(list)@ + added@.take(i as int)).push(
            added@[i as int],
        ));
        i += 1;
    }
    assert(added@.take(added.len() as int) =~= added@);
}

/// Moves the state to where the instructions of `incoming` lead.
pub fn enter(state: &mut State, incoming: &StateInstructions)
    requires
        old(state).in_bounds(),
        old(state).all_applicable(incoming.instruction_list@),
    ensures
        tracks(*old(state), incoming.instruction_list@, *final(state)),
        final(state).in_bounds(),
        *final(state) == old(state).apply_all(incoming.instruction_list@),
{
    proof {
        apply_all_keeps_bounds(*state, incoming.instruction_list@);
    }
    advance(state, &incoming.instruction_list);
}

/// Moves the state back to its origin and gives the branch that `incoming`
/// becomes with the instructions of `added` after its own.
pub(crate) fn leave(
    state: &mut State,
    incoming: StateInstructions,
    added: &Vec<Instruction>,
    Ghost(origin): Ghost<State>,
) -> (r: StateInstructions)
    requires
        origin.in_bounds(),
        origin.all_applicable(incoming.instruction_list@),
        tracks(origin.apply_all(incoming.instruction_list@), added@, *old(state)),
    ensures
        *final(state) == origin,
        r.percentage == incoming.percentage,
        r.instruction_list@ == incoming.instruction_list@ + added@,
        origin.all_applicable(r.instruction_list@),
{
    let mut incoming = incoming;
    let ghost positioned = origin.apply_all(incoming.instruction_list@);
    rewind(state, added, Ghost(positioned));
    rewind(state, &incoming.instruction_list, Ghost(origin));
    proof {
        apply_all_concat(origin, incoming.instruction_list@, added@);
    }
    append_instructions(&mut incoming.instruction_list, added);
    incoming
}

} // verus!
