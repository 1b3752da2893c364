//! The stages that a move goes through once it has hit. Each stage moves
//! the state to where the incoming branch leads, reads what its part of
//! the choice asks for, carries that out step by step, and moves the state
//! back: the branch it returns is the incoming branch with the instructions
//! of those steps after its own.

use vstd::prelude::*;
use crate::branches::Branch;
use crate::choices::{Choice, ChoiceView};
use crate::effects::{
    boost_steps, build_boost_steps, build_hazard_clear_steps, build_heal_steps,
    build_side_condition_steps, build_special_effect_steps, build_status_steps,
    build_volatile_status_steps, hazard_clear_steps, heal_steps, side_condition_steps,
    special_effect_steps, status_steps, volatile_status_steps,
};
use crate::instruction::{Instruction, StateInstructions};
use crate::perform::perform_all;
use crate::stages::{enter, leave};
use crate::state::{PokemonIndex, PokemonMoveIndex, SideReference, State};
use crate::steps::{run, Step};

verus! {

/// The stages that read one part of the choice each.
#[derive(Clone, Copy, Debug, PartialEq, Eq, Structural)]
pub enum Stage {
    SpecialEffect,
    SideConditions,
    HazardClearing,
    VolatileStatuses,
    StatusEffects,
    Boosts,
    Heal,
}

impl Stage {
    /// What the stage asks for on the state `s`.
    pub open spec fn steps(self, s: State, choice: ChoiceView, attacking_side: SideReference) -> Seq<
        Step,
    > {
        match self {
            Stage::SpecialEffect => special_effect_steps(s, choice, attacking_side),
            Stage::SideConditions => side_condition_steps(s, choice, attacking_side),
            Stage::HazardClearing => hazard_clear_steps(s, choice, attacking_side),
            Stage::VolatileStatuses => volatile_status_steps(s, choice, attacking_side),
            Stage::StatusEffects => status_steps(s, choice, attacking_side),
            Stage::Boosts => boost_steps(s, choice, attacking_side),
            Stage::Heal => heal_steps(s, choice, attacking_side),
        }
    }

    /// The instructions that the stage adds to a branch that has led to the
    /// state `s`.
    pub open spec fn instructions(self, s: State, choice: ChoiceView, attacking_side: SideReference) -> Seq<
        Instruction,
    > {
        run(s, self.steps(s, choice, attacking_side))
    }

    /// The stages that follow the damage of a move, in their order.
    pub open spec fn after_damage() -> Seq<Stage> {
        seq![
            Stage::SideConditions,
            Stage::HazardClearing,
            Stage::VolatileStatuses,
            Stage::StatusEffects,
            Stage::Boosts,
            Stage::Heal,
        ]
    }

    pub fn build_steps(&self, state: &State, choice: &Choice, attacking_side: &SideReference) -> (r:
        Vec<Step>)
        ensures
            r@ == self.steps(*state, choice@, *attacking_side),
    {
        match self {
            Stage::SpecialEffect => build_special_effect_steps(state, choice, attacking_side),
            Stage::SideConditions => build_side_condition_steps(state, choice, attacking_side),
            Stage::HazardClearing => build_hazard_clear_steps(state, choice, attacking_side),
            Stage::VolatileStatuses => build_volatile_status_steps(state, choice, attacking_side),
            Stage::StatusEffects => build_status_steps(state, choice, attacking_side),
            Stage::Boosts => build_boost_steps(state, choice, attacking_side),
            Stage::Heal => build_heal_steps(state, choice, attacking_side),
        }
    }
}

/// What a branch becomes when `steps` are carried out after it: the state
/// is moved to where the branch leads, the steps are carried out there one
/// after the other, and the state is moved back.
pub fn extend_branch(state: &mut State, steps: &Vec<Step>, incoming: StateInstructions) -> (r:
    StateInstructions)
    requires
        old(state).in_bounds(),
        old(state).all_applicable(incoming.instruction_list@),
    ensures
        *final(state) == *old(state),
        r@ == incoming@.followed_by(run(old(state).apply_all(incoming.instruction_list@), steps@)),
        old(state).all_applicable(r.instruction_list@),
{
    enter(state, &incoming);
    let added = perform_all(state, steps);
    leave(state, incoming, &added, Ghost(*old(state)))
}

/// Runs one stage on one branch.
pub fn run_stage(
    stage: Stage,
    state: &mut State,
    choice: &Choice,
    attacking_side: &SideReference,
    incoming: StateInstructions,
) -> (r: StateInstructions)
    requires
        old(state).in_bounds(),
        old(state).all_applicable(incoming.instruction_list@),
    ensures
        *final(state) == *old(state),
        r@ == incoming@.followed_by(
            stage.instructions(
                old(state).apply_all(incoming.instruction_list@),
                choice@,
                *attacking_side,
            ),
        ),
        old(state).all_applicable(r.instruction_list@),
{
    enter(state, &incoming);
    let steps = stage.build_steps(state, choice, attacking_side);
    let added = perform_all(state, &steps);
    leave(state, incoming, &added, Ghost(*old(state)))
}

/// What a list of branches becomes when `stage` is run on each of them.
pub open spec fn staged(
    stage: Stage,
    s: State,
    choice: ChoiceView,
    attacking_side: SideReference,
    incoming: Seq<Branch>,
) -> Seq<Branch> {
    Seq::new(
        incoming.len(),
        |i: int|
            incoming[i].followed_by(
                stage.instructions(s.apply_all(incoming[i].instructions), choice, attacking_side),
            ),
    )
}

/// Runs one stage on every branch of a list.
pub fn run_instruction_generation_fn_for_move_hit(
    stage: Stage,
    state: &mut State,
    choice: &Choice,
    side_reference: &SideReference,
    incoming_instructions: Vec<StateInstructions>,
) -> (r: Vec<StateInstructions>)
    requires
        old(state).in_bounds(),
        crate::branches::all_fit(*old(state), crate::branches::branches(incoming_instructions@)),
    ensures
        *final(state) == *old(state),
        crate::branches::branches(r@) == staged(
            stage,
            *old(state),
            choice@,
            *side_reference,
            crate::branches::branches(incoming_instructions@),
        ),
        crate::branches::all_fit(*old(state), crate::branches::branches(r@)),
        crate::branches::total(crate::branches::branches(r@)) == crate::branches::total(
            crate::branches::branches(incoming_instructions@),
        ),
{
    let mut incoming_instructions = incoming_instructions;
    let ghost incoming = crate::branches::branches(incoming_instructions@);
    let mut continuing: Vec<StateInstructions> = Vec::new();
    let n = incoming_instructions.len();
    let mut i: usize = 0;
    while i < n
        invariant
            i <= n,
            n == incoming_instructions.len(),
            n == incoming.len(),
            *state == *old(state),
            state.in_bounds(),
            crate::branches::all_fit(*state, incoming),
            forall|j: int| i <= j < n ==> (#[trigger] incoming_instructions@[j])@ == incoming[j],
            continuing.len() == i,
            forall|j: int|
                0 <= j < i ==> (#[trigger] continuing@[j])@ == staged(
                    stage,
                    *state,
                    choice@,
                    *side_reference,
                    incoming,
                )[j],
            forall|j: int|
                0 <= j < i ==> state.all_applicable((#[trigger] continuing@[j]).instruction_list@),
            crate::branches::total(crate::branches::branches(continuing@))
                == crate::branches::total(incoming.take(i as int)),
        decreases n - i,
    {
        let mut taken = StateInstructions::default();
        core::mem::swap(&mut taken, &mut incoming_instructions[i]);
        assert(taken@ == incoming[i as int]);
        assert(state.all_applicable(incoming[i as int].instructions));
        let next = run_stage(stage, state, choice, side_reference, taken);
        proof {
            crate::branches::branches_push(continuing@, next);
            crate::branches::total_push(crate::branches::branches(continuing@), next@);
            assert(incoming.take(i + 1).drop_last() =~= incoming.take(i as int));
        }
        continuing.push(next);
        i += 1;
    }
    assert(incoming.take(n as int) =~= incoming);
    assert(crate::branches::branches(continuing@) =~= staged(
        stage,
        *state,
        choice@,
        *side_reference,
        incoming,
    ));
    continuing
}

/// One more layer of the side condition of the choice.
pub fn generate_instructions_from_side_conditions(
    state: &mut State,
    choice: &Choice,
    attacking_side_reference: &SideReference,
    incoming_instructions: StateInstructions,
) -> (r: StateInstructions)
    requires
        old(state).in_bounds(),
        old(state).all_applicable(incoming_instructions.instruction_list@),
    ensures
        *final(state) == *old(state),
        r@ == incoming_instructions@.followed_by(
            run(
                old(state).apply_all(incoming_instructions.instruction_list@),
                side_condition_steps(
                    old(state).apply_all(incoming_instructions.instruction_list@),
                    choice@,
                    *attacking_side_reference,
                ),
            ),
        ),
        old(state).all_applicable(r.instruction_list@),
{
    run_stage(Stage::SideConditions, state, choice, attacking_side_reference, incoming_instructions)
}

/// The clearing or swapping of hazards that the move of the choice does.
pub fn get_instructions_from_hazard_clearing_moves(
    state: &mut State,
    choice: &Choice,
    attacking_side_reference: &SideReference,
    incoming_instructions: StateInstructions,
) -> (r: StateInstructions)
    requires
        old(state).in_bounds(),
        old(state).all_applicable(incoming_instructions.instruction_list@),
    ensures
        *final(state) == *old(state),
        r@ == incoming_instructions@.followed_by(
            run(
                old(state).apply_all(incoming_instructions.instruction_list@),
                hazard_clear_steps(
                    old(state).apply_all(incoming_instructions.instruction_list@),
                    choice@,
                    *attacking_side_reference,
                ),
            ),
        ),
        old(state).all_applicable(r.instruction_list@),
{
    run_stage(Stage::HazardClearing, state, choice, attacking_side_reference, incoming_instructions)
}

/// The volatile status of the choice.
pub fn get_instructions_from_volatile_statuses(
    state: &mut State,
    choice: &Choice,
    attacking_side_reference: &SideReference,
    incoming_instructions: StateInstructions,
) -> (r: StateInstructions)
    requires
        old(state).in_bounds(),
        old(state).all_applicable(incoming_instructions.instruction_list@),
    ensures
        *final(state) == *old(state),
        r@ == incoming_instructions@.followed_by(
            run(
                old(state).apply_all(incoming_instructions.instruction_list@),
                volatile_status_steps(
                    old(state).apply_all(incoming_instructions.instruction_list@),
                    choice@,
                    *attacking_side_reference,
                ),
            ),
        ),
        old(state).all_applicable(r.instruction_list@),
{
    run_stage(
        Stage::VolatileStatuses,
        state,
        choice,
        attacking_side_reference,
        incoming_instructions,
    )
}

/// The status of the choice.
pub fn get_instructions_from_status_effects(
    state: &mut State,
    choice: &Choice,
    attacking_side_reference: &SideReference,
    incoming_instructions: StateInstructions,
) -> (r: StateInstructions)
    requires
        old(state).in_bounds(),
        old(state).all_applicable(incoming_instructions.instruction_list@),
    ensures
        *final(state) == *old(state),
        r@ == incoming_instructions@.followed_by(
            run(
                old(state).apply_all(incoming_instructions.instruction_list@),
                status_steps(
                    old(state).apply_all(incoming_instructions.instruction_list@),
                    choice@,
                    *attacking_side_reference,
                ),
            ),
        ),
        old(state).all_applicable(r.instruction_list@),
{
    run_stage(Stage::StatusEffects, state, choice, attacking_side_reference, incoming_instructions)
}

/// The boosts of the choice.
pub fn get_instructions_from_boosts(
    state: &mut State,
    choice: &Choice,
    attacking_side_reference: &SideReference,
    incoming_instructions: StateInstructions,
) -> (r: StateInstructions)
    requires
        old(state).in_bounds(),
        old(state).all_applicable(incoming_instructions.instruction_list@),
    ensures
        *final(state) == *old(state),
        r@ == incoming_instructions@.followed_by(
            run(
                old(state).apply_all(incoming_instructions.instruction_list@),
                boost_steps(
                    old(state).apply_all(incoming_instructions.instruction_list@),
                    choice@,
                    *attacking_side_reference,
                ),
            ),
        ),
        old(state).all_applicable(r.instruction_list@),
{
    run_stage(Stage::Boosts, state, choice, attacking_side_reference, incoming_instructions)
}

/// The heal of the choice.
pub fn get_instructions_from_heal(
    state: &mut State,
    choice: &Choice,
    attacking_side_reference: &SideReference,
    incoming_instructions: StateInstructions,
) -> (r: StateInstructions)
    requires
        old(state).in_bounds(),
        old(state).all_applicable(incoming_instructions.instruction_list@),
    ensures
        *final(state) == *old(state),
        r@ == incoming_instructions@.followed_by(
            run(
                old(state).apply_all(incoming_instructions.instruction_list@),
                heal_steps(
                    old(state).apply_all(incoming_instructions.instruction_list@),
                    choice@,
                    *attacking_side_reference,
                ),
            ),
        ),
        old(state).all_applicable(r.instruction_list@),
{
    run_stage(Stage::Heal, state, choice, attacking_side_reference, incoming_instructions)
}

/// What the move of the choice does beyond the parts of its description.
pub fn generate_instructions_from_move_special_effect(
    state: &mut State,
    choice: &Choice,
    side_reference: &SideReference,
    incoming_instructions: StateInstructions,
) -> (r: StateInstructions)
    requires
        old(state).in_bounds(),
        old(state).all_applicable(incoming_instructions.instruction_list@),
    ensures
        *final(state) == *old(state),
        r@ == incoming_instructions@.followed_by(
            run(
                old(state).apply_all(incoming_instructions.instruction_list@),
                special_effect_steps(
                    old(state).apply_all(incoming_instructions.instruction_list@),
                    choice@,
                    *side_reference,
                ),
            ),
        ),
        old(state).all_applicable(r.instruction_list@),
{
    run_stage(Stage::SpecialEffect, state, choice, side_reference, incoming_instructions)
}

/// What a switch asks for: every move of the creature that leaves is
/// enabled again, then the creature at `next_index` comes in.
pub open spec fn switch_steps(side_ref: SideReference, next_index: PokemonIndex) -> Seq<Step> {
    seq![
        Step::EnableMove { side_ref, move_index: PokemonMoveIndex::M0 },
        Step::EnableMove { side_ref, move_index: PokemonMoveIndex::M1 },
        Step::EnableMove { side_ref, move_index: PokemonMoveIndex::M2 },
        Step::EnableMove { side_ref, move_index: PokemonMoveIndex::M3 },
        Step::Switch { side_ref, next_index },
    ]
}

/// The one branch of a switch: the incoming branch, then an instruction
/// that enables each disabled move of the creature that leaves, then the
/// switch to the creature at `new_pokemon_index`.
pub fn generate_instructions_from_switch(
    state: &mut State,
    new_pokemon_index: PokemonIndex,
    switching_side: SideReference,
    incoming_instructions: StateInstructions,
) -> (r: Vec<StateInstructions>)
    requires
        old(state).in_bounds(),
        old(state).all_applicable(incoming_instructions.instruction_list@),
    ensures
        *final(state) == *old(state),
        r.len() == 1,
        r[0]@ == incoming_instructions@.followed_by(
            run(
                old(state).apply_all(incoming_instructions.instruction_list@),
                switch_steps(switching_side, new_pokemon_index),
            ),
        ),
        old(state).all_applicable(r[0].instruction_list@),
{
    let mut steps: Vec<Step> = Vec::new();
    steps.push(Step::EnableMove { side_ref: switching_side, move_index: PokemonMoveIndex::M0 });
    steps.push(Step::EnableMove { side_ref: switching_side, move_index: PokemonMoveIndex::M1 });
    steps.push(Step::EnableMove { side_ref: switching_side, move_index: PokemonMoveIndex::M2 });
    steps.push(Step::EnableMove { side_ref: switching_side, move_index: PokemonMoveIndex::M3 });
    steps.push(Step::Switch { side_ref: switching_side, next_index: new_pokemon_index });
    assert(steps@ =~= switch_steps(switching_side, new_pokemon_index));
    let branch = extend_branch(state, &steps, incoming_instructions);
    let mut r: Vec<StateInstructions> = Vec::new();
    r.push(branch);
    r
}

} // verus!
