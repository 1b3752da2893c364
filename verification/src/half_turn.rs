//! The parts of a half-turn that come before the stages of a move that has
//! hit: what the attacker makes of its choice, whether it gets to move at
//! all, whether the move hits, and what the damage does.

use vstd::prelude::*;
use crate::abilities::{
    ability_after_damage_hit, ability_after_damage_hit_steps, ability_before_move,
    ability_before_move_steps, ability_modified_attack_against,
    ability_modified_attack_being_used, ability_modify_attack_against,
    ability_modify_attack_being_used, Abilities,
};
use crate::branches::{branches, branches_push, share, share_of, total, total_push, Branch};
use crate::choices::{Choice, ChoiceView, Choices, MoveCategory};
use crate::effects::{fraction, fraction_of};
use crate::instruction::{Instruction, StateInstructions};
use crate::items::{
    item_modified_attack_against, item_modified_attack_being_used, item_modify_attack_against,
    item_modify_attack_being_used, Items,
};
use crate::perform::{append_steps, perform_all};
use crate::stages::{enter, leave};
use crate::state::{
    clip16, PokemonBoostableStat, PokemonSideCondition, PokemonStatus, PokemonType,
    PokemonVolatileStatus, SideReference, State,
};
use crate::steps::{run, Step};

verus! {

/// The chance, in percent, that a paralyzed creature cannot move.
pub const FULLY_PARALYZED: u32 = 25;

/// The chance, in percent, that a frozen creature thaws.
pub const THAW: u32 = 20;

/// The chance, in percent, that a sleeping creature wakes up.
pub const WAKE_UP: u32 = 33;

/// Whether the attacker cannot use its move: it is taunted and the move
/// does no damage, or it has flinched, or the move is an electric one
/// against a ground creature, or a powder against a grass creature.
pub open spec fn move_blocked(s: State, choice: ChoiceView, attacking_side: SideReference) -> bool {
    let attacker = s.active(attacking_side);
    let defender = s.active(attacking_side.other());
    ||| (attacker.volatile_statuses.has(PokemonVolatileStatus::Taunt) && choice.category
        == MoveCategory::Status)
    ||| attacker.volatile_statuses.has(PokemonVolatileStatus::Flinch)
    ||| (choice.move_type == PokemonType::Electric && defender.is_of_type(PokemonType::Ground))
    ||| (choice.flags.powder && defender.is_of_type(PokemonType::Grass))
}

pub fn cannot_use_move(state: &State, choice: &Choice, attacking_side_ref: &SideReference) -> (r:
    bool)
    ensures
        r == move_blocked(*state, choice@, *attacking_side_ref),
{
    let attacker = state.get_side_immutable(attacking_side_ref).get_active_immutable();
    let defender = state.get_side_immutable(
        &attacking_side_ref.get_other_side(),
    ).get_active_immutable();
    if attacker.volatile_statuses.contains(&PokemonVolatileStatus::Taunt) && choice.category
        == MoveCategory::Status {
        true
    } else if attacker.volatile_statuses.contains(&PokemonVolatileStatus::Flinch) {
        true
    } else if choice.move_type == PokemonType::Electric && defender.has_type(
        &PokemonType::Ground,
    ) {
        true
    } else {
        choice.flags.powder && defender.has_type(&PokemonType::Grass)
    }
}

/// What a move makes of its own choice: a facade doubles for an attacker
/// with a status, a hex for a target with one, and acrobatics for an
/// attacker without an item.
pub open spec fn move_modified(s: State, choice: ChoiceView, attacking_side: SideReference) -> ChoiceView {
    let attacker = s.active(attacking_side);
    let defender = s.active(attacking_side.other());
    let doubled = match choice.move_id {
        Choices::FACADE => attacker.status == PokemonStatus::Burn || attacker.status
            == PokemonStatus::Poison || attacker.status == PokemonStatus::Toxic || attacker.status
            == PokemonStatus::Paralyze,
        Choices::HEX => defender.status != PokemonStatus::NONE,
        Choices::ACROBATICS => attacker.item == Items::NONE,
        _ => false,
    };
    if doubled {
        choice.with_power_scaled(2, 1)
    } else {
        choice
    }
}

fn modify_move(state: &State, attacker_choice: &mut Choice, attacking_side: &SideReference)
    ensures
        final(attacker_choice)@ == move_modified(*state, old(attacker_choice)@, *attacking_side),
{
    let attacker = state.get_side_immutable(attacking_side).get_active_immutable();
    let defender = state.get_side_immutable(
        &attacking_side.get_other_side(),
    ).get_active_immutable();
    let doubled = match attacker_choice.move_id {
        Choices::FACADE => attacker.status == PokemonStatus::Burn || attacker.status
            == PokemonStatus::Poison || attacker.status == PokemonStatus::Toxic || attacker.status
            == PokemonStatus::Paralyze,
        Choices::HEX => defender.status != PokemonStatus::NONE,
        Choices::ACROBATICS => attacker.item == Items::NONE,
        _ => false,
    };
    if doubled {
        attacker_choice.scale_base_power(2, 1);
    }
}

/// The choice of the attacker as it is carried out: what the move itself,
/// then the ability of the attacker, then the ability of the defender,
/// then the item of the attacker, then the item of the defender make of
/// it.
pub open spec fn updated_choice(s: State, choice: ChoiceView, attacking_side: SideReference) -> ChoiceView {
    item_modified_attack_against(
        s,
        item_modified_attack_being_used(
            s,
            ability_modified_attack_against(
                s,
                ability_modified_attack_being_used(
                    s,
                    move_modified(s, choice, attacking_side),
                    attacking_side,
                ),
                attacking_side,
            ),
            attacking_side,
        ),
        attacking_side,
    )
}

/// Updates the choice of the attacker to what is carried out.
pub fn update_choice(
    state: &State,
    attacker_choice: &mut Choice,
    defender_choice: &Choice,
    attacking_side: &SideReference,
)
    ensures
        final(attacker_choice)@ == updated_choice(*state, old(attacker_choice)@, *attacking_side),
{
    modify_move(state, attacker_choice, attacking_side);
    ability_modify_attack_being_used(state, attacker_choice, attacking_side);
    ability_modify_attack_against(state, attacker_choice, attacking_side);
    item_modify_attack_being_used(state, attacker_choice, attacking_side);
    item_modify_attack_against(state, attacker_choice, attacking_side);
}

/// What the ability of the attacker does before the move: carried out on
/// the state, which is left where the instructions lead.
pub fn before_move(state: &mut State, choice: &Choice, attacking_side: &SideReference) -> (r: Vec<
    Instruction,
>)
    requires
        old(state).in_bounds(),
    ensures
        r@ == run(*old(state), ability_before_move_steps(*old(state), choice@, *attacking_side)),
        crate::fitting::tracks(*old(state), r@, *final(state)),
{
    let steps = ability_before_move(state, choice, attacking_side);
    perform_all(state, &steps)
}

/// The branch in which a creature with a status gets past it and moves:
/// a paralyzed creature in 75 of 100 cases, a frozen one where it thaws
/// and a sleeping one where it wakes up, which ends the status.
pub open spec fn proceeding(s: State, attacking_side: SideReference, incoming: Branch) -> Branch {
    let positioned = s.apply_all(incoming.instructions);
    let cured = run(
        positioned,
        seq![Step::SetStatus { side_ref: attacking_side, status: PokemonStatus::NONE }],
    );
    match positioned.active(attacking_side).status {
        PokemonStatus::Paralyze => incoming.weighing(
            incoming.percentage - share_of(incoming.percentage, FULLY_PARALYZED as int, 100),
        ),
        PokemonStatus::Freeze => incoming.weighing(
            share_of(incoming.percentage, THAW as int, 100),
        ).followed_by(cured),
        PokemonStatus::Sleep => incoming.weighing(
            share_of(incoming.percentage, WAKE_UP as int, 100),
        ).followed_by(cured),
        _ => incoming,
    }
}

/// The branch, if there is one, in which a creature with a status does not
/// get to move: the rest of the percentage, and nothing added.
pub open spec fn held_back(s: State, attacking_side: SideReference, incoming: Branch) -> Seq<
    Branch,
> {
    let positioned = s.apply_all(incoming.instructions);
    match positioned.active(attacking_side).status {
        PokemonStatus::Paralyze => seq![
            incoming.weighing(share_of(incoming.percentage, FULLY_PARALYZED as int, 100)),
        ],
        PokemonStatus::Freeze => seq![
            incoming.weighing(
                incoming.percentage - share_of(incoming.percentage, THAW as int, 100),
            ),
        ],
        PokemonStatus::Sleep => seq![
            incoming.weighing(
                incoming.percentage - share_of(incoming.percentage, WAKE_UP as int, 100),
            ),
        ],
        _ => Seq::empty(),
    }
}

/// Splits the incoming branch by the status of the attacker. The branch in
/// which the attacker moves is returned, alone in its list; the branch in
/// which it does not, if there is one, is put at the end of
/// `frozen_instructions`. The two percentages add up to the incoming one.
pub fn generate_instructions_from_existing_status_conditions(
    state: &mut State,
    attacking_side_ref: &SideReference,
    incoming_instructions: StateInstructions,
    frozen_instructions: &mut Vec<StateInstructions>,
) -> (r: Vec<StateInstructions>)
    requires
        old(state).in_bounds(),
        old(state).all_applicable(incoming_instructions.instruction_list@),
    ensures
        *final(state) == *old(state),
        r.len() == 1,
        r[0]@ == proceeding(*old(state), *attacking_side_ref, incoming_instructions@),
        old(state).all_applicable(r[0].instruction_list@),
        branches(final(frozen_instructions)@) == branches(old(frozen_instructions)@) + held_back(
            *old(state),
            *attacking_side_ref,
            incoming_instructions@,
        ),
        total(branches(r@)) + total(
            held_back(*old(state), *attacking_side_ref, incoming_instructions@),
        ) == incoming_instructions.percentage,
{
    let ghost origin = *state;
    let ghost incoming = incoming_instructions@;
    enter(state, &incoming_instructions);
    let status = state.get_side_immutable(attacking_side_ref).get_active_immutable().status;
    let mut steps: Vec<Step> = Vec::new();
    let percentage = incoming_instructions.percentage;
    let mut moving = percentage;
    let mut waiting: Option<u32> = None;
    match status {
        PokemonStatus::Paralyze => {
            let part = share(percentage, FULLY_PARALYZED, 100);
            waiting = Some(part);
            moving = percentage - part;
        },
        PokemonStatus::Freeze => {
            moving = share(percentage, THAW, 100);
            waiting = Some(percentage - moving);
            steps.push(Step::SetStatus { side_ref: *attacking_side_ref, status: PokemonStatus::NONE });
        },
        PokemonStatus::Sleep => {
            moving = share(percentage, WAKE_UP, 100);
            waiting = Some(percentage - moving);
            steps.push(Step::SetStatus { side_ref: *attacking_side_ref, status: PokemonStatus::NONE });
        },
        _ => {},
    }
    if let Some(part) = waiting {
        let mut held = incoming_instructions.duplicate();
        held.percentage = part;
        proof {
            branches_push(frozen_instructions@, held);
        }
        frozen_instructions.push(held);
    }
    assert(branches(frozen_instructions@) =~= branches(old(frozen_instructions)@) + held_back(
        origin,
        *attacking_side_ref,
        incoming,
    ));
    let added = perform_all(state, &steps);
    let mut proceeds = leave(state, incoming_instructions, &added, Ghost(origin));
    proceeds.percentage = moving;
    proof {
        assert(run(origin.apply_all(incoming.instructions), Seq::<Step>::empty())
            =~= Seq::<Instruction>::empty());
        assert(incoming.instructions + Seq::<Instruction>::empty() =~= incoming.instructions);
        assert(steps@ =~= Seq::<Step>::empty() || steps@ =~= seq![
            Step::SetStatus { side_ref: *attacking_side_ref, status: PokemonStatus::NONE },
        ]);
    }
    let mut r: Vec<StateInstructions> = Vec::new();
    r.push(proceeds);
    proof {
        assert(branches(r@) =~= seq![proceeds@]);
        total_push(Seq::<Branch>::empty(), proceeds@);
        assert(Seq::<Branch>::empty().push(proceeds@) =~= seq![proceeds@]);
        let held = held_back(origin, *attacking_side_ref, incoming);
        if held.len() == 1 {
            total_push(Seq::<Branch>::empty(), held[0]);
            assert(Seq::<Branch>::empty().push(held[0]) =~= held);
        }
    }
    r
}

/// The accuracy of the choice, in percent and no more than a hundred.
pub open spec fn accuracy_of(choice: ChoiceView) -> int {
    if choice.accuracy > 100 {
        100
    } else {
        choice.accuracy as int
    }
}

/// What a miss asks for: the attacker takes the crash of its move, and a
/// blunder policy that can be taken from it is used up and raises its speed
/// by two stages.
pub open spec fn miss_steps(s: State, choice: ChoiceView, attacking_side: SideReference) -> Seq<Step> {
    let attacker = s.active(attacking_side);
    let crash = match choice.crash {
        Some(crash_fraction) => seq![
            Step::Damage {
                side_ref: attacking_side,
                amount: clip16(fraction_of(attacker.maxhp as int, crash_fraction as int)),
            },
        ],
        None => Seq::empty(),
    };
    let policy = if attacker.item == Items::BLUNDERPOLICY && attacker.can_lose_item() {
        seq![
            Step::SetItem { side_ref: attacking_side, item: Items::NONE },
            Step::Boost { side_ref: attacking_side, stat: PokemonBoostableStat::Speed, amount: 2 },
        ]
    } else {
        Seq::empty()
    };
    crash + policy
}

fn build_miss_steps(state: &State, choice: &Choice, attacking_side: &SideReference) -> (r: Vec<
    Step,
>)
    ensures
        r@ == miss_steps(*state, choice@, *attacking_side),
{
    let mut steps: Vec<Step> = Vec::new();
    let attacker = state.get_side_immutable(attacking_side).get_active_immutable();
    if let Some(crash_fraction) = choice.crash {
        steps.push(
            Step::Damage {
                side_ref: *attacking_side,
                amount: fraction(attacker.maxhp, crash_fraction),
            },
        );
    }
    if attacker.item == Items::BLUNDERPOLICY && attacker.item_can_be_removed() {
        steps.push(Step::SetItem { side_ref: *attacking_side, item: Items::NONE });
        steps.push(
            Step::Boost { side_ref: *attacking_side, stat: PokemonBoostableStat::Speed, amount: 2 },
        );
    }
    assert(steps@ =~= miss_steps(*state, choice@, *attacking_side));
    steps
}

/// The branch in which the move hits, if it can hit: the share of the
/// accuracy in the percentage, and nothing added.
pub open spec fn hitting(choice: ChoiceView, incoming: Branch) -> Option<Branch> {
    if accuracy_of(choice) > 0 {
        Some(incoming.weighing(share_of(incoming.percentage, accuracy_of(choice), 100)))
    } else {
        None
    }
}

/// The branch in which the move misses, if it can miss: the rest of the
/// percentage, and what a miss asks for.
pub open spec fn missing(s: State, choice: ChoiceView, attacking_side: SideReference, incoming: Branch) -> Seq<
    Branch,
> {
    let positioned = s.apply_all(incoming.instructions);
    if accuracy_of(choice) < 100 {
        seq![
            incoming.weighing(
                incoming.percentage - share_of(incoming.percentage, accuracy_of(choice), 100),
            ).followed_by(run(positioned, miss_steps(positioned, choice, attacking_side))),
        ]
    } else {
        Seq::empty()
    }
}

/// Splits the incoming branch by whether the move hits. The branch in
/// which it hits is returned, if the move can hit; the branch in which it
/// misses, if it can miss, is put at the end of `frozen_instructions`. The
/// percentages add up to the incoming one.
pub fn check_move_hit_or_miss(
    state: &mut State,
    choice: &Choice,
    attacking_side_ref: &SideReference,
    incoming_instructions: StateInstructions,
    frozen_instructions: &mut Vec<StateInstructions>,
) -> (r: Option<StateInstructions>)
    requires
        old(state).in_bounds(),
        old(state).all_applicable(incoming_instructions.instruction_list@),
    ensures
        *final(state) == *old(state),
        r.is_some() == hitting(choice@, incoming_instructions@).is_some(),
        r matches Some(hit) ==> hit@ == hitting(choice@, incoming_instructions@).unwrap()
            && old(state).all_applicable(hit.instruction_list@),
        branches(final(frozen_instructions)@) == branches(old(frozen_instructions)@) + missing(
            *old(state),
            choice@,
            *attacking_side_ref,
            incoming_instructions@,
        ),
        crate::branches::all_fit(
            *old(state),
            missing(*old(state), choice@, *attacking_side_ref, incoming_instructions@),
        ),
        (match hitting(choice@, incoming_instructions@) {
            Some(hit) => hit.percentage,
            None => 0,
        }) + total(missing(*old(state), choice@, *attacking_side_ref, incoming_instructions@))
            == incoming_instructions.percentage,
{
    let ghost origin = *state;
    let ghost incoming = incoming_instructions@;
    let accuracy: u32 = if choice.accuracy > 100 {
        100
    } else {
        choice.accuracy as u32
    };
    let percentage = incoming_instructions.percentage;
    let hit_part = share(percentage, accuracy, 100);
    assert(accuracy == 100 ==> hit_part == percentage) by (nonlinear_arith)
        requires
            hit_part == share_of(percentage as int, accuracy as int, 100),
            percentage >= 0,
    ;
    assert(accuracy == 0 ==> hit_part == 0) by (nonlinear_arith)
        requires
            hit_part == share_of(percentage as int, accuracy as int, 100),
            percentage >= 0,
    ;
    let hit = if accuracy > 0 {
        let mut hit = incoming_instructions.duplicate();
        hit.percentage = hit_part;
        Some(hit)
    } else {
        None
    };
    if accuracy < 100 {
        enter(state, &incoming_instructions);
        let steps = build_miss_steps(state, choice, attacking_side_ref);
        let added = perform_all(state, &steps);
        let mut missed = leave(state, incoming_instructions, &added, Ghost(origin));
        missed.percentage = percentage - hit_part;
        proof {
            branches_push(frozen_instructions@, missed);
            let miss = missing(origin, choice@, *attacking_side_ref, incoming);
            assert(miss =~= seq![missed@]);
            total_push(Seq::<Branch>::empty(), missed@);
            assert(Seq::<Branch>::empty().push(missed@) =~= miss);
        }
        frozen_instructions.push(missed);
    }
    assert(branches(frozen_instructions@) =~= branches(old(frozen_instructions)@) + missing(
        origin,
        choice@,
        *attacking_side_ref,
        incoming,
    ));
    hit
}

/// The damage that is dealt: no more than the hit points that the target
/// has, and one less against a sturdy target at full health.
pub open spec fn damage_dealt(s: State, attacking_side: SideReference, calculated_damage: i16) -> i16 {
    let defender = s.active(attacking_side.other());
    let capped = if calculated_damage < defender.hp {
        calculated_damage
    } else {
        defender.hp
    };
    if defender.ability == Abilities::STURDY && defender.maxhp == defender.hp && capped > 0 {
        (capped - 1) as i16
    } else {
        capped
    }
}

fn get_damage_dealt(state: &State, attacking_side: &SideReference, calculated_damage: i16) -> (r:
    i16)
    ensures
        r == damage_dealt(*state, *attacking_side, calculated_damage),
{
    let defender = state.get_side_immutable(
        &attacking_side.get_other_side(),
    ).get_active_immutable();
    let capped = if calculated_damage < defender.hp {
        calculated_damage
    } else {
        defender.hp
    };
    if defender.ability == Abilities::STURDY && defender.maxhp == defender.hp && capped > 0 {
        capped - 1
    } else {
        capped
    }
}

/// What a move asks for after it has dealt damage: a knock-off takes the
/// item of the target where it can be taken, a stone axe lays rocks and a
/// ceaseless edge one more layer of spikes on the side of the target.
pub open spec fn move_after_damage_hit_steps(s: State, choice: ChoiceView, attacking_side: SideReference) -> Seq<
    Step,
> {
    let defending_side = attacking_side.other();
    match choice.move_id {
        Choices::KNOCKOFF => if s.active(defending_side).can_lose_item() {
            seq![Step::SetItem { side_ref: defending_side, item: Items::NONE }]
        } else {
            Seq::empty()
        },
        Choices::STONEAXE => seq![
            Step::SetSideCondition {
                side_ref: defending_side,
                condition: PokemonSideCondition::Stealthrock,
                value: 1,
            },
        ],
        Choices::CEASELESSEDGE => seq![
            Step::SetSideCondition {
                side_ref: defending_side,
                condition: PokemonSideCondition::Spikes,
                value: crate::state::clip8(
                    s.side(defending_side).side_conditions.value(PokemonSideCondition::Spikes) + 1,
                ),
            },
        ],
        _ => Seq::empty(),
    }
}

/// What the damage of a move asks for: the damage that is dealt, what the
/// ability of the attacker does after it, the drain and the recoil of the
/// move as fractions of the damage dealt, and what the move itself does
/// after it.
pub open spec fn damage_steps(
    s: State,
    choice: ChoiceView,
    attacking_side: SideReference,
    calculated_damage: i16,
) -> Seq<Step> {
    let dealt = damage_dealt(s, attacking_side, calculated_damage);
    let drain = match choice.drain {
        Some(drain_fraction) => seq![
            Step::Heal {
                side_ref: attacking_side,
                amount: clip16(fraction_of(dealt as int, drain_fraction as int)),
                keep_zero: true,
            },
        ],
        None => Seq::empty(),
    };
    let recoil = match choice.recoil {
        Some(recoil_fraction) => seq![
            Step::Damage {
                side_ref: attacking_side,
                amount: clip16(fraction_of(dealt as int, recoil_fraction as int)),
            },
        ],
        None => Seq::empty(),
    };
    seq![Step::Damage { side_ref: attacking_side.other(), amount: dealt }]
        + ability_after_damage_hit_steps(s, attacking_side, dealt) + drain + recoil
        + move_after_damage_hit_steps(s, choice, attacking_side)
}

fn push_move_after_damage_hit_steps(
    steps: &mut Vec<Step>,
    state: &State,
    choice: &Choice,
    attacking_side: &SideReference,
)
    ensures
        final(steps)@ == old(steps)@ + move_after_damage_hit_steps(
            *state,
            choice@,
            *attacking_side,
        ),
{
    let defending_side = attacking_side.get_other_side();
    match choice.move_id {
        Choices::KNOCKOFF => {
            if state.get_side_immutable(
                &defending_side,
            ).get_active_immutable().item_can_be_removed() {
                steps.push(Step::SetItem { side_ref: defending_side, item: Items::NONE });
            }
        },
        Choices::STONEAXE => {
            steps.push(
                Step::SetSideCondition {
                    side_ref: defending_side,
                    condition: PokemonSideCondition::Stealthrock,
                    value: 1,
                },
            );
        },
        Choices::CEASELESSEDGE => {
            let spikes = state.get_side_immutable(&defending_side).get_side_condition(
                PokemonSideCondition::Spikes,
            );
            steps.push(
                Step::SetSideCondition {
                    side_ref: defending_side,
                    condition: PokemonSideCondition::Spikes,
                    value: crate::state::saturating_add8(spikes, 1),
                },
            );
        },
        _ => {},
    }
    assert(steps@ =~= old(steps)@ + move_after_damage_hit_steps(*state, choice@, *attacking_side));
}

fn build_damage_steps(
    state: &State,
    choice: &Choice,
    attacking_side: &SideReference,
    calculated_damage: i16,
) -> (r: Vec<Step>)
    ensures
        r@ == damage_steps(*state, choice@, *attacking_side, calculated_damage),
{
    let dealt = get_damage_dealt(state, attacking_side, calculated_damage);
    let mut steps: Vec<Step> = Vec::new();
    steps.push(Step::Damage { side_ref: attacking_side.get_other_side(), amount: dealt });
    let after_hit = ability_after_damage_hit(state, attacking_side, dealt);
    append_steps(&mut steps, &after_hit);
    if let Some(drain_fraction) = choice.drain {
        steps.push(
            Step::Heal {
                side_ref: *attacking_side,
                amount: fraction(dealt, drain_fraction),
                keep_zero: true,
            },
        );
    }
    if let Some(recoil_fraction) = choice.recoil {
        steps.push(
            Step::Damage { side_ref: *attacking_side, amount: fraction(dealt, recoil_fraction) },
        );
    }
    push_move_after_damage_hit_steps(&mut steps, state, choice, attacking_side);
    assert(steps@ =~= damage_steps(*state, choice@, *attacking_side, calculated_damage));
    steps
}

/// The one branch of a move that has hit and deals `calculated_damage`:
/// the incoming branch, then the damage, as far as the target has hit
/// points, then what the ability of the attacker, the drain and the recoil
/// of the move and the move itself do after it. A move that cannot hit
/// has no branch.
pub fn generate_instructions_from_damage(
    state: &mut State,
    choice: &Choice,
    calculated_damage: i16,
    attacking_side_ref: &SideReference,
    incoming_instructions: StateInstructions,
) -> (r: Vec<StateInstructions>)
    requires
        old(state).in_bounds(),
        old(state).all_applicable(incoming_instructions.instruction_list@),
    ensures
        *final(state) == *old(state),
        choice.accuracy == 0 ==> r.len() == 0,
        choice.accuracy > 0 ==> r.len() == 1 && r[0]@ == incoming_instructions@.followed_by(
            run(
                old(state).apply_all(incoming_instructions.instruction_list@),
                damage_steps(
                    old(state).apply_all(incoming_instructions.instruction_list@),
                    choice@,
                    *attacking_side_ref,
                    calculated_damage,
                ),
            ),
        ) && old(state).all_applicable(r[0].instruction_list@),
{
    if choice.accuracy == 0 {
        return Vec::new();
    }
    let ghost origin = *state;
    enter(state, &incoming_instructions);
    let steps = build_damage_steps(state, choice, attacking_side_ref, calculated_damage);
    let added = perform_all(state, &steps);
    let branch = leave(state, incoming_instructions, &added, Ghost(origin));
    let mut r: Vec<StateInstructions> = Vec::new();
    r.push(branch);
    r
}

/// No sleep clause is in force.
pub fn sleep_clause_activated() -> (r: bool)
    ensures
        !r,
{
    false
}

/// A move that drags the target out does not do so yet: the state and the
/// branches are left as they are.
pub fn get_instructions_from_drag(
    state: &mut State,
    choice: &Choice,
    attacking_side_reference: &SideReference,
    incoming_instructions: &StateInstructions,
    final_instructions: &mut Vec<StateInstructions>,
)
    ensures
        *final(state) == *old(state),
        *final(final_instructions) == *old(final_instructions),
{
}

} // verus!
