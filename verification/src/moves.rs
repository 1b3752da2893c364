//! A half-turn: everything that the choice of one side does, from the
//! incoming branch to the branches that it splits into.

use vstd::prelude::*;
use crate::abilities::ability_before_move_steps;
use crate::branches::{
    all_fit, all_in_bounds, all_undone, branches, branches_push,
    fitting_branches_are_undone_and_in_bounds, total, total_concat, total_push, Branch,
};
use crate::choices::{Choice, ChoiceView, MoveCategory};
use crate::combine::{
    combine_duplicate_instructions, combined, combined_is_some, combined_keeps_fit,
};
use crate::damage_calc::{calculate_damage, damage_amounts, DamageRolls};
use crate::fitting::rewind;
use crate::generate_instructions::{
    generate_instructions_from_move_special_effect, generate_instructions_from_switch,
    run_instruction_generation_fn_for_move_hit, staged, switch_steps, Stage,
};
use crate::half_turn::{
    before_move, cannot_use_move, check_move_hit_or_miss, damage_steps,
    generate_instructions_from_damage, generate_instructions_from_existing_status_conditions,
    held_back, hitting, missing, move_blocked, proceeding, update_choice, updated_choice,
};
use crate::instruction::StateInstructions;
use crate::stages::{enter, leave};
use crate::state::{SideReference, State};
use crate::steps::run;

verus! {

/// The percentage of the roll `k` of `n` rolls: the `n`-th part of the
/// whole, rounded down, and for the last roll what the others leave.
pub open spec fn roll_share(percentage: int, n: int, k: int) -> int {
    if k < n - 1 {
        percentage / n
    } else {
        percentage - (n - 1) * (percentage / n)
    }
}

/// The branches that a hit splits into by the amounts of damage that it
/// can deal: one for each amount, with its share of the percentage and
/// with what that damage does.
pub open spec fn damage_split(
    s: State,
    choice: ChoiceView,
    attacking_side: SideReference,
    hit: Branch,
    amounts: Seq<i16>,
) -> Seq<Branch> {
    let positioned = s.apply_all(hit.instructions);
    Seq::new(
        amounts.len(),
        |k: int|
            hit.weighing(roll_share(hit.percentage, amounts.len() as int, k)).followed_by(
                run(positioned, damage_steps(positioned, choice, attacking_side, amounts[k])),
            ),
    )
}

/// The branches of a move that has hit: split by its damage, if it deals
/// any, and then taken through the stages that follow the damage, in their
/// order.
#[verifier::opaque]
pub open spec fn hit_branches(
    s: State,
    choice: ChoiceView,
    attacking_side: SideReference,
    hit: Branch,
    damage: Option<Seq<i16>>,
) -> Seq<Branch> {
    let damaged = match damage {
        Some(amounts) => damage_split(s, choice, attacking_side, hit, amounts),
        None => seq![hit],
    };
    staged(
        Stage::Heal,
        s,
        choice,
        attacking_side,
        staged(
            Stage::Boosts,
            s,
            choice,
            attacking_side,
            staged(
                Stage::StatusEffects,
                s,
                choice,
                attacking_side,
                staged(
                    Stage::VolatileStatuses,
                    s,
                    choice,
                    attacking_side,
                    staged(
                        Stage::HazardClearing,
                        s,
                        choice,
                        attacking_side,
                        staged(Stage::SideConditions, s, choice, attacking_side, damaged),
                    ),
                ),
            ),
        ),
    )
}

/// The branches of a move that is carried out: the branch in which it
/// misses, if it can miss, and then the branches in which it hits, if it
/// can hit.
#[verifier::opaque]
pub open spec fn hit_or_miss_branches(
    s: State,
    choice: ChoiceView,
    attacking_side: SideReference,
    special: Branch,
    damage: Option<Seq<i16>>,
) -> Seq<Branch> {
    missing(s, choice, attacking_side, special) + (match hitting(choice, special) {
        Some(hit) => hit_branches(s, choice, attacking_side, hit, damage),
        None => Seq::empty(),
    })
}

/// The branches of a move whose user has got past its status: the move is
/// blocked, or it does what is special to it and then misses or hits.
#[verifier::opaque]
pub open spec fn free_branches(
    s: State,
    choice: ChoiceView,
    attacking_side: SideReference,
    proceed: Branch,
    damage: Option<Seq<i16>>,
) -> Seq<Branch> {
    let positioned = s.apply_all(proceed.instructions);
    if move_blocked(positioned, choice, attacking_side) {
        seq![proceed]
    } else {
        hit_or_miss_branches(
            s,
            choice,
            attacking_side,
            proceed.followed_by(
                Stage::SpecialEffect.instructions(positioned, choice, attacking_side),
            ),
            damage,
        )
    }
}

/// The branches of a move before those with the same instructions are
/// combined: the branch in which the status of the user holds it back, if
/// there is one, and then the branches in which it does not.
#[verifier::opaque]
pub open spec fn used_move_branches(
    s: State,
    choice: ChoiceView,
    attacking_side: SideReference,
    prepared: Branch,
    damage: Option<Seq<i16>>,
) -> Seq<Branch> {
    held_back(s, attacking_side, prepared) + free_branches(
        s,
        choice,
        attacking_side,
        proceeding(s, attacking_side, prepared),
        damage,
    )
}

/// The branches that the choice of one side splits the incoming branch
/// into. A switch gives one branch. A move that drags and is not the first
/// of the turn, or whose user has fainted, leaves the incoming branch as it
/// is. Any other move is updated by the abilities and items of both sides,
/// the ability of the user acts before it, its damage is calculated, and
/// the branches of its use are combined.
pub open spec fn move_branches(
    s: State,
    choice: ChoiceView,
    attacking_side: SideReference,
    incoming: Branch,
) -> Seq<Branch> {
    let positioned = s.apply_all(incoming.instructions);
    if choice.category == MoveCategory::Switch {
        seq![
            incoming.followed_by(run(positioned, switch_steps(attacking_side, choice.switch_id))),
        ]
    } else if !choice.first_move && choice.flags.drag {
        seq![incoming]
    } else if positioned.active(attacking_side).hp == 0 {
        seq![incoming]
    } else {
        let updated = updated_choice(positioned, choice, attacking_side);
        let before = run(positioned, ability_before_move_steps(positioned, updated, attacking_side));
        let damage = damage_amounts(
            positioned.apply_all(before),
            attacking_side,
            updated,
            DamageRolls::Average,
        );
        combined(
            used_move_branches(s, updated, attacking_side, incoming.followed_by(before), damage),
        )
    }
}

/// A hit gives a branch for each amount of its damage, or one where it
/// deals none.
pub proof fn hit_branches_are_some(
    s: State,
    choice: ChoiceView,
    attacking_side: SideReference,
    hit: Branch,
    damage: Option<Seq<i16>>,
)
    requires
        damage matches Some(amounts) ==> amounts.len() >= 1,
    ensures
        hit_branches(s, choice, attacking_side, hit, damage).len() >= 1,
{
    reveal(hit_branches);
}

/// A move that is carried out misses or hits: it gives a branch at least.
pub proof fn hit_or_miss_branches_are_some(
    s: State,
    choice: ChoiceView,
    attacking_side: SideReference,
    special: Branch,
    damage: Option<Seq<i16>>,
)
    requires
        damage matches Some(amounts) ==> amounts.len() >= 1,
    ensures
        hit_or_miss_branches(s, choice, attacking_side, special, damage).len() >= 1,
{
    reveal(hit_or_miss_branches);
    match hitting(choice, special) {
        Some(hit) => {
            hit_branches_are_some(s, choice, attacking_side, hit, damage);
        },
        None => {
            assert(missing(s, choice, attacking_side, special).len() == 1);
        },
    }
}

/// The use of a move gives a branch at least.
pub proof fn used_move_branches_are_some(
    s: State,
    choice: ChoiceView,
    attacking_side: SideReference,
    prepared: Branch,
    damage: Option<Seq<i16>>,
)
    requires
        damage matches Some(amounts) ==> amounts.len() >= 1,
    ensures
        used_move_branches(s, choice, attacking_side, prepared, damage).len() >= 1,
{
    reveal(used_move_branches);
    reveal(free_branches);
    let proceed = proceeding(s, attacking_side, prepared);
    let positioned = s.apply_all(proceed.instructions);
    if !move_blocked(positioned, choice, attacking_side) {
        hit_or_miss_branches_are_some(
            s,
            choice,
            attacking_side,
            proceed.followed_by(
                Stage::SpecialEffect.instructions(positioned, choice, attacking_side),
            ),
            damage,
        );
    }
}

/// The damage of the average roll is one amount.
pub proof fn average_damage_is_one_amount(s: State, attacking_side: SideReference, choice: ChoiceView)
    ensures
        damage_amounts(s, attacking_side, choice, DamageRolls::Average) matches Some(amounts)
            ==> amounts.len() == 1,
{
}

/// A move always gives a branch, whatever the percentage that comes in:
/// a hit that deals damage has a branch for each of its amounts, of which
/// there is one at least, and a move that cannot hit has the branch of
/// its miss.
pub proof fn move_branches_are_some(
    s: State,
    choice: ChoiceView,
    attacking_side: SideReference,
    incoming: Branch,
)
    ensures
        move_branches(s, choice, attacking_side, incoming).len() >= 1,
{
    let positioned = s.apply_all(incoming.instructions);
    if choice.category != MoveCategory::Switch && !(!choice.first_move && choice.flags.drag)
        && positioned.active(attacking_side).hp != 0 {
        let updated = updated_choice(positioned, choice, attacking_side);
        let before = run(positioned, ability_before_move_steps(positioned, updated, attacking_side));
        let damage = damage_amounts(
            positioned.apply_all(before),
            attacking_side,
            updated,
            DamageRolls::Average,
        );
        let prepared = incoming.followed_by(before);
        average_damage_is_one_amount(positioned.apply_all(before), attacking_side, updated);
        used_move_branches_are_some(s, updated, attacking_side, prepared, damage);
        combined_is_some(used_move_branches(s, updated, attacking_side, prepared, damage));
    }
}

/// The amounts of a calculated damage as a plain value.
pub open spec fn amounts_of(damage: Option<Vec<i16>>) -> Option<Seq<i16>> {
    match damage {
        Some(amounts) => Some(amounts@),
        None => None,
    }
}

/// The list that holds `branch` alone.
fn single(branch: StateInstructions) -> (r: Vec<StateInstructions>)
    ensures
        r.len() == 1,
        r[0] == branch,
        branches(r@) == seq![branch@],
        total(branches(r@)) == branch.percentage,
{
    let mut r: Vec<StateInstructions> = Vec::new();
    proof {
        total_push(Seq::<Branch>::empty(), branch@);
        assert(Seq::<Branch>::empty().push(branch@) =~= seq![branch@]);
    }
    r.push(branch);
    assert(branches(r@) =~= seq![branch@]);
    r
}

/// Takes the one branch out of a list that holds one.
fn only(list: Vec<StateInstructions>) -> (r: StateInstructions)
    requires
        list.len() == 1,
    ensures
        r == list[0],
{
    let mut list = list;
    let mut taken = StateInstructions::default();
    core::mem::swap(&mut taken, &mut list[0]);
    taken
}

/// Moves the branches of `added` to the end of `list`.
fn append_branches(list: &mut Vec<StateInstructions>, added: Vec<StateInstructions>)
    ensures
        branches(final(list)@) == branches(old(list)@) + branches(added@),
{
    let mut added = added;
    let ghost incoming = branches(added@);
    let n = added.len();
    let mut i: usize = 0;
    while i < n
        invariant
            i <= n,
            n == added.len(),
            n == incoming.len(),
            forall|j: int| i <= j < n ==> (#[trigger] added@[j])@ == incoming[j],
            branches(list@) == branches(old(list)@) + incoming.take(i as int),
        decreases n - i,
    {
        let mut taken = StateInstructions::default();
        core::mem::swap(&mut taken, &mut added[i]);
        proof {
            branches_push(list@, taken);
            assert((branches(old(list)@) + incoming.take(i as int)).push(incoming[i as int])
                =~= branches(old(list)@) + incoming.take(i + 1));
        }
        list.push(taken);
        i += 1;
    }
    assert(incoming.take(n as int) =~= incoming);
}

/// Splits a hit by the amounts of damage that it can deal.
fn damage_branches(
    state: &mut State,
    choice: &Choice,
    attacking_side: &SideReference,
    hit: StateInstructions,
    amounts: &Vec<i16>,
) -> (r: Vec<StateInstructions>)
    requires
        old(state).in_bounds(),
        old(state).all_applicable(hit.instruction_list@),
        amounts.len() > 0,
        choice.accuracy > 0,
    ensures
        *final(state) == *old(state),
        branches(r@) == damage_split(*old(state), choice@, *attacking_side, hit@, amounts@),
        all_fit(*old(state), branches(r@)),
        total(branches(r@)) == hit.percentage,
{
    let n = amounts.len();
    let each: u32 = ((hit.percentage as u64) / (n as u64)) as u32;
    let mut r: Vec<StateInstructions> = Vec::new();
    let mut k: usize = 0;
    assert(each * (n - 1) <= hit.percentage) by (nonlinear_arith)
        requires
            each == (hit.percentage as int) / (n as int),
            n > 0,
            hit.percentage >= 0,
    ;
    while k < n
        invariant
            k <= n,
            n == amounts.len(),
            n > 0,
            choice.accuracy > 0,
            each == (hit.percentage as int) / (n as int),
            each * (n - 1) <= hit.percentage,
            *state == *old(state),
            state.in_bounds(),
            state.all_applicable(hit.instruction_list@),
            r.len() == k,
            forall|j: int|
                0 <= j < k ==> (#[trigger] r@[j])@ == damage_split(
                    *state,
                    choice@,
                    *attacking_side,
                    hit@,
                    amounts@,
                )[j],
            forall|j: int| 0 <= j < k ==> state.all_applicable((#[trigger] r@[j]).instruction_list@),
            total(branches(r@)) == (if k < n {
                k * each
            } else {
                hit.percentage as int
            }),
        decreases n - k,
    {
        let mut part = hit.duplicate();
        part.percentage = if k < n - 1 {
            each
        } else {
            assert(each * (n - 1) == (n - 1) * ((hit.percentage as int) / (n as int)))
                by (nonlinear_arith)
                requires
                    each == (hit.percentage as int) / (n as int),
            ;
            (hit.percentage as u64 - (each as u64) * ((n - 1) as u64)) as u32
        };
        let damaged = generate_instructions_from_damage(
            state,
            choice,
            amounts[k],
            attacking_side,
            part,
        );
        let branch = only(damaged);
        proof {
            branches_push(r@, branch);
            total_push(branches(r@), branch@);
            assert(k * each + each == (k + 1) * each) by (nonlinear_arith);
        }
        r.push(branch);
        k += 1;
    }
    assert(branches(r@) =~= damage_split(*state, choice@, *attacking_side, hit@, amounts@));
    r
}

/// Takes a hit through its damage and the stages that follow it.
fn finish_hit(
    state: &mut State,
    choice: &Choice,
    attacking_side: &SideReference,
    hit: StateInstructions,
    damage: &Option<Vec<i16>>,
) -> (r: Vec<StateInstructions>)
    requires
        old(state).in_bounds(),
        old(state).all_applicable(hit.instruction_list@),
        damage matches Some(amounts) ==> amounts.len() > 0,
        choice.accuracy > 0,
    ensures
        *final(state) == *old(state),
        branches(r@) == hit_branches(
            *old(state),
            choice@,
            *attacking_side,
            hit@,
            amounts_of(*damage),
        ),
        all_fit(*old(state), branches(r@)),
        total(branches(r@)) == hit.percentage,
{
    proof {
        reveal(hit_branches);
    }
    let next = match damage {
        Some(amounts) => damage_branches(state, choice, attacking_side, hit, amounts),
        None => single(hit),
    };
    let next = run_instruction_generation_fn_for_move_hit(
        Stage::SideConditions,
        state,
        choice,
        attacking_side,
        next,
    );
    let next = run_instruction_generation_fn_for_move_hit(
        Stage::HazardClearing,
        state,
        choice,
        attacking_side,
        next,
    );
    let next = run_instruction_generation_fn_for_move_hit(
        Stage::VolatileStatuses,
        state,
        choice,
        attacking_side,
        next,
    );
    let next = run_instruction_generation_fn_for_move_hit(
        Stage::StatusEffects,
        state,
        choice,
        attacking_side,
        next,
    );
    let next = run_instruction_generation_fn_for_move_hit(
        Stage::Boosts,
        state,
        choice,
        attacking_side,
        next,
    );
    run_instruction_generation_fn_for_move_hit(Stage::Heal, state, choice, attacking_side, next)
}

/// The branches of a move that is carried out.
fn hit_or_miss(
    state: &mut State,
    choice: &Choice,
    attacking_side: &SideReference,
    special: StateInstructions,
    damage: &Option<Vec<i16>>,
) -> (r: Vec<StateInstructions>)
    requires
        old(state).in_bounds(),
        old(state).all_applicable(special.instruction_list@),
        damage matches Some(amounts) ==> amounts.len() > 0,
    ensures
        *final(state) == *old(state),
        branches(r@) == hit_or_miss_branches(
            *old(state),
            choice@,
            *attacking_side,
            special@,
            amounts_of(*damage),
        ),
        all_fit(*old(state), branches(r@)),
        total(branches(r@)) == special.percentage,
{
    proof {
        reveal(hit_or_miss_branches);
    }
    let ghost origin = *state;
    let ghost special_branch = special@;
    let mut list: Vec<StateInstructions> = Vec::new();
    let hit = check_move_hit_or_miss(state, choice, attacking_side, special, &mut list);
    let ghost missed = missing(origin, choice@, *attacking_side, special_branch);
    assert(branches(list@) =~= missed);
    match hit {
        Some(hit) => {
            let finished = finish_hit(state, choice, attacking_side, hit, damage);
            proof {
                total_concat(missed, branches(finished@));
            }
            append_branches(&mut list, finished);
        },
        None => {
            assert(branches(list@) + Seq::<Branch>::empty() =~= branches(list@));
        },
    }
    list
}

/// The branches of a move whose user has got past its status.
fn use_free(
    state: &mut State,
    choice: &Choice,
    attacking_side: &SideReference,
    proceed: StateInstructions,
    damage: &Option<Vec<i16>>,
) -> (r: Vec<StateInstructions>)
    requires
        old(state).in_bounds(),
        old(state).all_applicable(proceed.instruction_list@),
        damage matches Some(amounts) ==> amounts.len() > 0,
    ensures
        *final(state) == *old(state),
        branches(r@) == free_branches(
            *old(state),
            choice@,
            *attacking_side,
            proceed@,
            amounts_of(*damage),
        ),
        all_fit(*old(state), branches(r@)),
        total(branches(r@)) == proceed.percentage,
{
    proof {
        reveal(free_branches);
    }
    let ghost origin = *state;
    enter(state, &proceed);
    let blocked = cannot_use_move(state, choice, attacking_side);
    rewind(state, &proceed.instruction_list, Ghost(origin));
    if blocked {
        return single(proceed);
    }
    let special = generate_instructions_from_move_special_effect(
        state,
        choice,
        attacking_side,
        proceed,
    );
    hit_or_miss(state, choice, attacking_side, special, damage)
}

/// The branches of a move, before those with the same instructions are
/// combined.
fn use_move(
    state: &mut State,
    choice: &Choice,
    attacking_side: &SideReference,
    prepared: StateInstructions,
    damage: &Option<Vec<i16>>,
) -> (r: Vec<StateInstructions>)
    requires
        old(state).in_bounds(),
        old(state).all_applicable(prepared.instruction_list@),
        damage matches Some(amounts) ==> amounts.len() > 0,
    ensures
        *final(state) == *old(state),
        branches(r@) == used_move_branches(
            *old(state),
            choice@,
            *attacking_side,
            prepared@,
            amounts_of(*damage),
        ),
        all_fit(*old(state), branches(r@)),
        total(branches(r@)) == prepared.percentage,
{
    proof {
        reveal(used_move_branches);
    }
    let ghost origin = *state;
    let ghost prepared_branch = prepared@;
    let mut list: Vec<StateInstructions> = Vec::new();
    let proceeds = generate_instructions_from_existing_status_conditions(
        state,
        attacking_side,
        prepared,
        &mut list,
    );
    let ghost held = held_back(origin, *attacking_side, prepared_branch);
    assert(branches(list@) =~= held);
    let proceed = only(proceeds);
    assert(branches(proceeds@) =~= seq![proceed@]);
    proof {
        total_push(Seq::<Branch>::empty(), proceed@);
        assert(Seq::<Branch>::empty().push(proceed@) =~= seq![proceed@]);
    }
    let free = use_free(state, choice, attacking_side, proceed, damage);
    proof {
        total_concat(held, branches(free@));
    }
    append_branches(&mut list, free);
    list
}

/// The branches that the choice of one side splits the incoming branch
/// into. The state is left as it was. The instructions of every branch fit
/// it: every branch is undone exactly by its reverse, and leads to a state
/// in bounds. There is a branch at least, and the percentages of the
/// branches add up to the percentage of the incoming branch.
pub fn generate_instructions_from_move(
    state: &mut State,
    choice: Choice,
    defender_choice: &Choice,
    attacking_side: SideReference,
    incoming_instructions: StateInstructions,
) -> (r: Vec<StateInstructions>)
    requires
        old(state).in_bounds(),
        old(state).all_applicable(incoming_instructions.instruction_list@),
    ensures
        *final(state) == *old(state),
        branches(r@) == move_branches(*old(state), choice@, attacking_side, incoming_instructions@),
        all_fit(*old(state), branches(r@)),
        all_undone(*old(state), branches(r@)),
        all_in_bounds(*old(state), branches(r@)),
        total(branches(r@)) == incoming_instructions.percentage,
        r.len() >= 1,
{
    let ghost described = choice@;
    let ghost incoming = incoming_instructions@;
    let r = branches_of_move(state, choice, defender_choice, attacking_side, incoming_instructions);
    proof {
        fitting_branches_are_undone_and_in_bounds(*old(state), branches(r@));
        move_branches_are_some(*old(state), described, attacking_side, incoming);
    }
    r
}

fn branches_of_move(
    state: &mut State,
    choice: Choice,
    defender_choice: &Choice,
    attacking_side: SideReference,
    incoming_instructions: StateInstructions,
) -> (r: Vec<StateInstructions>)
    requires
        old(state).in_bounds(),
        old(state).all_applicable(incoming_instructions.instruction_list@),
    ensures
        *final(state) == *old(state),
        branches(r@) == move_branches(*old(state), choice@, attacking_side, incoming_instructions@),
        all_fit(*old(state), branches(r@)),
        total(branches(r@)) == incoming_instructions.percentage,
{
    let ghost origin = *state;
    if choice.category == MoveCategory::Switch {
        let r = generate_instructions_from_switch(
            state,
            choice.switch_id,
            attacking_side,
            incoming_instructions,
        );
        proof {
            assert(branches(r@) =~= seq![r[0]@]);
            total_push(Seq::<Branch>::empty(), r[0]@);
            assert(Seq::<Branch>::empty().push(r[0]@) =~= seq![r[0]@]);
        }
        return r;
    }
    if !choice.first_move && choice.flags.drag {
        return single(incoming_instructions);
    }
    enter(state, &incoming_instructions);
    if state.get_side_immutable(&attacking_side).get_active_immutable().hp == 0 {
        rewind(state, &incoming_instructions.instruction_list, Ghost(origin));
        return single(incoming_instructions);
    }
    let mut choice = choice;
    update_choice(state, &mut choice, defender_choice, &attacking_side);
    let before = before_move(state, &choice, &attacking_side);
    proof {
        crate::fitting::tracked_state_in_bounds(
            origin.apply_all(incoming_instructions.instruction_list@),
            before@,
            *state,
        );
    }
    let damage = calculate_damage(state, attacking_side, &choice, DamageRolls::Average);
    let prepared = leave(state, incoming_instructions, &before, Ghost(origin));
    let list = use_move(state, &choice, &attacking_side, prepared, &damage);
    proof {
        combined_keeps_fit(origin, branches(list@));
    }
    combine_duplicate_instructions(list)
}

} // verus!
