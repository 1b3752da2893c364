//! What holds of the boosts that a move gives: every boost that is
//! recorded changes its stage, in the direction that was asked for and by
//! no more than was asked for, and leaves the stage between the lowest and
//! the highest.

use vstd::prelude::*;
use crate::choices::ChoiceView;
use crate::effects::boost_steps;
use crate::fitting::boost_fits;
use crate::instruction::Instruction;
use crate::laws::{apply_all_push, apply_keeps_bounds};
use crate::state::{SideReference, State};
use crate::steps::{run, Step};

verus! {

/// Whether `instruction` records the boost that `step` asks for: a boost
/// of the same stat of the same side, not of nothing, in the direction
/// that was asked for and of no more than was asked for.
pub open spec fn is_boost_of(instruction: Instruction, step: Step) -> bool {
    &&& step matches Step::Boost { side_ref, stat, amount }
    &&& instruction matches Instruction::Boost(boost)
    &&& boost.side_ref == side_ref
    &&& boost.stat == stat
    &&& boost.amount != 0
    &&& amount > 0 ==> 0 < boost.amount <= amount
    &&& amount < 0 ==> amount <= boost.amount < 0
}

/// Whether every instruction of `list` records the boost of a step of
/// `steps`.
pub open spec fn all_boosts_of(list: Seq<Instruction>, steps: Seq<Step>) -> bool {
    forall|j: int|
        0 <= j < list.len() ==> exists|i: int|
            0 <= i < steps.len() && is_boost_of(#[trigger] list[j], #[trigger] steps[i])
}

/// The instruction of a boost on a state within its bounds, if there is
/// one, records that boost and fits the state: the stage that it leads to
/// lies between the lowest and the highest.
pub proof fn boost_is_clamped(s: State, step: Step)
    requires
        s.in_bounds(),
        step is Boost,
    ensures
        step.instruction(s) matches Some(instruction) ==> is_boost_of(instruction, step)
            && s.applicable(instruction),
{
    let side = s.side(step->Boost_side_ref);
    assert(side.at(side.active_index).in_bounds());
    match step.instruction(s) {
        Some(Instruction::Boost(boost)) => {
            boost_fits(s, boost);
        },
        _ => {},
    }
}

/// The instructions of a list of boosts, run on a state within its bounds:
/// each records the boost of one of the steps, the whole list fits the
/// state, and the state that it leads to is within its bounds.
pub proof fn boosts_run_to_boosts(s: State, steps: Seq<Step>)
    requires
        s.in_bounds(),
        forall|i: int| 0 <= i < steps.len() ==> (#[trigger] steps[i]) is Boost,
    ensures
        all_boosts_of(run(s, steps), steps),
        s.all_applicable(run(s, steps)),
        s.apply_all(run(s, steps)).in_bounds(),
    decreases steps.len(),
{
    if steps.len() > 0 {
        let before = run(s, steps.drop_last());
        let middle = s.apply_all(before);
        let last = steps.last();
        boosts_run_to_boosts(s, steps.drop_last());
        boost_is_clamped(middle, last);
        match last.instruction(middle) {
            Some(instruction) => {
                assert(run(s, steps) =~= before.push(instruction));
                apply_all_push(s, before, instruction);
                apply_keeps_bounds(middle, instruction);
                assert forall|j: int| 0 <= j < run(s, steps).len() implies exists|i: int|
                    0 <= i < steps.len() && is_boost_of(
                        #[trigger] run(s, steps)[j],
                        #[trigger] steps[i],
                    ) by {
                    if j < before.len() {
                        let i = choose|i: int|
                            0 <= i < steps.drop_last().len() && is_boost_of(
                                #[trigger] before[j],
                                #[trigger] steps.drop_last()[i],
                            );
                        assert(is_boost_of(run(s, steps)[j], steps[i]));
                    } else {
                        assert(is_boost_of(run(s, steps)[j], steps[steps.len() - 1]));
                    }
                }
            },
            None => {
                assert(run(s, steps) =~= before);
                assert forall|j: int| 0 <= j < run(s, steps).len() implies exists|i: int|
                    0 <= i < steps.len() && is_boost_of(
                        #[trigger] run(s, steps)[j],
                        #[trigger] steps[i],
                    ) by {
                    let i = choose|i: int|
                        0 <= i < steps.drop_last().len() && is_boost_of(
                            #[trigger] before[j],
                            #[trigger] steps.drop_last()[i],
                        );
                    assert(is_boost_of(run(s, steps)[j], steps[i]));
                }
            },
        }
    }
}

/// The steps of the boosts of a move are boosts of the side that the move
/// aims at, each of the amount that the move asks for its stat.
pub proof fn boost_steps_are_boosts(s: State, choice: ChoiceView, attacking_side: SideReference)
    ensures
        forall|i: int|
            0 <= i < boost_steps(s, choice, attacking_side).len() ==> (#[trigger] boost_steps(
                s,
                choice,
                attacking_side,
            )[i]) is Boost,
{
}

/// The boosts of a move, over all its stats: on a state within its bounds
/// every boost that is recorded changes its stage in the direction that
/// the move asks for and by no more than it asks for, every one of them
/// fits, so that no stage leaves the stages, and the state that they lead
/// to is within its bounds.
pub proof fn boosts_of_a_move_are_clamped(s: State, choice: ChoiceView, attacking_side: SideReference)
    requires
        s.in_bounds(),
    ensures
        all_boosts_of(
            run(s, boost_steps(s, choice, attacking_side)),
            boost_steps(s, choice, attacking_side),
        ),
        s.all_applicable(run(s, boost_steps(s, choice, attacking_side))),
        s.apply_all(run(s, boost_steps(s, choice, attacking_side))).in_bounds(),
{
    boost_steps_are_boosts(s, choice, attacking_side);
    boosts_run_to_boosts(s, boost_steps(s, choice, attacking_side));
}

} // verus!
