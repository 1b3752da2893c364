//! When an instruction fits a state, said over what can be read from the
//! state; and the one way in which the generator grows a list of
//! instructions: carry the instruction out, then record it.

use vstd::prelude::*;
use crate::instruction::{
    BoostInstruction, ChangeItemInstruction, ChangeSideConditionInstruction,
    ChangeStatusInstruction, ChangeTerrain, ChangeType, ChangeWeather, DamageInstruction,
    DecrementWishInstruction, DisableMoveInstruction, EnableMoveInstruction, HealInstruction,
    IncrementWishInstruction, Instruction, SetSubstituteHealthInstruction, SwitchInstruction,
    VolatileStatusInstruction, WISH_TURNS,
};
use crate::laws::{apply_all_keeps_bounds, apply_all_push, reverse_all_undoes_apply_all};
use crate::state::{Side, State, StateTerrain, StateWeather, MAX_BOOST, MIN_BOOST};

verus! {

/// `current` is what `list` makes of `origin`, and `list` fits `origin`,
/// which is in bounds.
pub open spec fn tracks(origin: State, list: Seq<Instruction>, current: State) -> bool {
    &&& origin.in_bounds()
    &&& origin.all_applicable(list)
    &&& current == origin.apply_all(list)
}

/// A state that tracks a list is in bounds.
pub proof fn tracked_state_in_bounds(origin: State, list: Seq<Instruction>, current: State)
    requires
        tracks(origin, list, current),
    ensures
        current.in_bounds(),
{
    apply_all_keeps_bounds(origin, list);
}

/// Carries out `instruction` and appends it to `list`.
pub(crate) fn record(
    state: &mut State,
    list: &mut Vec<Instruction>,
    instruction: Instruction,
    Ghost(origin): Ghost<State>,
)
    requires
        tracks(origin, old(list)@, *old(state)),
        old(state).applicable(instruction),
    ensures
        tracks(origin, final(list)@, *final(state)),
        final(list)@ == old(list)@.push(instruction),
        *final(state) == old(state).apply_one(instruction),
{
    proof {
        apply_all_push(origin, list@, instruction);
    }
    state.apply_one_instruction(&instruction);
    list.push(instruction);
}

/// Undoes the whole of `list`, which the state tracks: the state is at its
/// origin again.
pub(crate) fn rewind(state: &mut State, list: &Vec<Instruction>, Ghost(origin): Ghost<State>)
    requires
        tracks(origin, list@, *old(state)),
    ensures
        *final(state) == origin,
{
    proof {
        reverse_all_undoes_apply_all(origin, list@);
    }
    state.reverse_instructions(list);
}

/// Carries out the whole of `list`, which fits the state.
pub fn advance(state: &mut State, list: &Vec<Instruction>)
    requires
        old(state).in_bounds(),
        old(state).all_applicable(list@),
    ensures
        tracks(*old(state), list@, *final(state)),
{
    state.apply_instructions(list);
}

/// A switch fits where the creature it leaves is the active one.
pub proof fn switch_fits(state: State, i: SwitchInstruction)
    requires
        state.side(i.side_ref).active_index == i.previous_index,
    ensures
        state.applicable(Instruction::Switch(i)),
{
    reveal(Side::fits_switch);
}

/// A volatile status can be put on a creature that does not have it.
pub proof fn volatile_status_fits(state: State, i: VolatileStatusInstruction)
    requires
        !state.active(i.side_ref).volatile_statuses.has(i.volatile_status),
    ensures
        state.applicable(Instruction::VolatileStatus(i)),
{
    reveal(Side::fits_volatile_status);
}

/// A volatile status can be taken from a creature that has it.
pub proof fn remove_volatile_status_fits(state: State, i: VolatileStatusInstruction)
    requires
        state.active(i.side_ref).volatile_statuses.has(i.volatile_status),
    ensures
        state.applicable(Instruction::RemoveVolatileStatus(i)),
{
    reveal(Side::fits_remove_volatile_status);
}

/// A change of status fits where the old status is the creature's.
pub proof fn change_status_fits(state: State, i: ChangeStatusInstruction)
    requires
        state.side(i.side_ref).at(i.pokemon_index).status == i.old_status,
    ensures
        state.applicable(Instruction::ChangeStatus(i)),
{
    reveal(Side::fits_change_status);
}

/// A heal fits where it leaves the hit points between zero and the
/// maximum.
pub proof fn heal_fits(state: State, i: HealInstruction)
    requires
        0 <= state.active(i.side_ref).hp + i.heal_amount <= state.active(i.side_ref).maxhp,
    ensures
        state.applicable(Instruction::Heal(i)),
{
    reveal(Side::fits_heal);
}

/// A damage fits where it is not negative and not more than the hit points
/// left.
pub proof fn damage_fits(state: State, i: DamageInstruction)
    requires
        0 <= i.damage_amount <= state.active(i.side_ref).hp,
    ensures
        state.applicable(Instruction::Damage(i)),
{
    reveal(Side::fits_damage);
}

/// A boost fits where it leaves the stage between the lowest and the
/// highest.
pub proof fn boost_fits(state: State, i: BoostInstruction)
    requires
        MIN_BOOST <= state.active(i.side_ref).boost(i.stat) + i.amount <= MAX_BOOST,
    ensures
        state.applicable(Instruction::Boost(i)),
{
    reveal(Side::fits_boost);
}

/// A change of a side condition fits where it leaves the count between
/// zero and the cap of the condition.
pub proof fn change_side_condition_fits(state: State, i: ChangeSideConditionInstruction)
    requires
        0 <= state.side(i.side_ref).side_conditions.value(i.side_condition) + i.amount
            <= i.side_condition.cap(),
    ensures
        state.applicable(Instruction::ChangeSideCondition(i)),
{
    reveal(Side::fits_change_side_condition);
}

/// A change of weather fits where the previous weather is the state's.
pub proof fn change_weather_fits(state: State, i: ChangeWeather)
    requires
        state.weather == (StateWeather {
            weather_type: i.previous_weather,
            turns_remaining: i.previous_weather_turns_remaining,
        }),
    ensures
        state.applicable(Instruction::ChangeWeather(i)),
{
}

/// A change of terrain fits where the previous terrain is the state's.
pub proof fn change_terrain_fits(state: State, i: ChangeTerrain)
    requires
        state.terrain == (StateTerrain {
            terrain_type: i.previous_terrain,
            turns_remaining: i.previous_terrain_turns_remaining,
        }),
    ensures
        state.applicable(Instruction::ChangeTerrain(i)),
{
}

/// A change of type fits where the old types are the creature's.
pub proof fn change_type_fits(state: State, i: ChangeType)
    requires
        state.active(i.side_ref).types == (i.old_first_type, i.old_second_type),
    ensures
        state.applicable(Instruction::ChangeType(i)),
{
    reveal(Side::fits_change_type);
}

/// A change of item fits where the current item is the creature's.
pub proof fn change_item_fits(state: State, i: ChangeItemInstruction)
    requires
        state.active(i.side_ref).item == i.current_item,
    ensures
        state.applicable(Instruction::ChangeItem(i)),
{
    reveal(Side::fits_change_item);
}

/// A move that is enabled can be disabled.
pub proof fn disable_move_fits(state: State, i: DisableMoveInstruction)
    requires
        !state.active(i.side_ref).move_at(i.move_index).disabled,
    ensures
        state.applicable(Instruction::DisableMove(i)),
{
    reveal(Side::fits_disable_move);
}

/// A move that is disabled can be enabled.
pub proof fn enable_move_fits(state: State, i: EnableMoveInstruction)
    requires
        state.active(i.side_ref).move_at(i.move_index).disabled,
    ensures
        state.applicable(Instruction::EnableMove(i)),
{
    reveal(Side::fits_enable_move);
}

/// A wish can be started where neither its turns nor its amount leave
/// their types.
pub proof fn increment_wish_fits(state: State, i: IncrementWishInstruction)
    requires
        state.side(i.side_ref).wish.turns_remaining + WISH_TURNS <= i8::MAX,
        i16::MIN <= state.side(i.side_ref).wish.heal_amount + i.heal_amount <= i16::MAX,
    ensures
        state.applicable(Instruction::IncrementWish(i)),
{
    reveal(Side::fits_increment_wish);
}

/// The turns of a wish can be counted down where they are above the lowest
/// number of their type.
pub proof fn decrement_wish_fits(state: State, i: DecrementWishInstruction)
    requires
        state.side(i.side_ref).wish.turns_remaining > i8::MIN,
    ensures
        state.applicable(Instruction::DecrementWish(i)),
{
    reveal(Side::fits_decrement_wish);
}

/// The health of a substitute can be set where the previous health is the
/// creature's.
pub proof fn set_substitute_health_fits(state: State, i: SetSubstituteHealthInstruction)
    requires
        state.active(i.side_ref).substitute_health == i.previous_health,
    ensures
        state.applicable(Instruction::SetSubstituteHealth(i)),
{
    reveal(Side::fits_set_substitute_health);
}

} // verus!
