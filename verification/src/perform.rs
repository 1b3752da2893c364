//! Carrying steps out: each step is fitted to the state as it is, carried
//! out and recorded.

use vstd::prelude::*;
use crate::fitting::{
    boost_fits, change_item_fits, change_side_condition_fits, change_status_fits,
    change_terrain_fits, change_type_fits, change_weather_fits, damage_fits,
    decrement_wish_fits, disable_move_fits, enable_move_fits, heal_fits, increment_wish_fits,
    record, remove_volatile_status_fits, set_substitute_health_fits, switch_fits,
    tracked_state_in_bounds, tracks, volatile_status_fits,
};
use crate::instruction::{
    BoostInstruction, ChangeItemInstruction, ChangeSideConditionInstruction,
    ChangeStatusInstruction, ChangeTerrain, ChangeType, ChangeWeather, DamageInstruction,
    DecrementWishInstruction, DisableMoveInstruction, EnableMoveInstruction, HealInstruction,
    IncrementWishInstruction, Instruction, SetSubstituteHealthInstruction, SwitchInstruction,
    VolatileStatusInstruction,
};
use crate::items::Items;
use crate::state::{
    PokemonBoostableStat, PokemonIndex, PokemonMoveIndex, PokemonSideCondition, PokemonStatus,
    PokemonType, PokemonVolatileStatus, SideReference, State, Terrain, Weather, MAX_BOOST,
    MIN_BOOST,
};
use crate::steps::{clamp_i32, run, Step};

verus! {

/// Whether `r` is the instruction of `step` on `state`, and fits it.
pub open spec fn fitted(state: State, step: Step, r: Option<Instruction>) -> bool {
    &&& r == step.instruction(state)
    &&& r matches Some(instruction) ==> state.applicable(instruction)
}

fn fit_damage(state: &State, side_ref: SideReference, amount: i16) -> (r: Option<Instruction>)
    requires
        state.in_bounds(),
    ensures
        fitted(*state, Step::Damage { side_ref, amount }, r),
{
    let active = state.get_side_immutable(&side_ref).get_active_immutable();
    assert(state.side(side_ref).at(state.side(side_ref).active_index).in_bounds());
    let dealt = clamp_i32(amount as i32, 0, active.hp as i32) as i16;
    let i = DamageInstruction { side_ref, damage_amount: dealt };
    proof {
        damage_fits(*state, i);
    }
    Some(Instruction::Damage(i))
}

fn fit_heal(state: &State, side_ref: SideReference, amount: i16, keep_zero: bool) -> (r: Option<
    Instruction,
>)
    requires
        state.in_bounds(),
    ensures
        fitted(*state, Step::Heal { side_ref, amount, keep_zero }, r),
{
    let active = state.get_side_immutable(&side_ref).get_active_immutable();
    assert(state.side(side_ref).at(state.side(side_ref).active_index).in_bounds());
    let healed = clamp_i32(
        amount as i32,
        -(active.hp as i32),
        active.maxhp as i32 - active.hp as i32,
    ) as i16;
    if healed != 0 || keep_zero {
        let i = HealInstruction { side_ref, heal_amount: healed };
        proof {
            heal_fits(*state, i);
        }
        Some(Instruction::Heal(i))
    } else {
        None
    }
}

fn fit_boost(state: &State, side_ref: SideReference, stat: PokemonBoostableStat, amount: i8) -> (r:
    Option<Instruction>)
    requires
        state.in_bounds(),
    ensures
        fitted(*state, Step::Boost { side_ref, stat, amount }, r),
{
    let active = state.get_side_immutable(&side_ref).get_active_immutable();
    assert(state.side(side_ref).at(state.side(side_ref).active_index).in_bounds());
    let stage = active.get_boost_from_boost_enum(&stat);
    let change = (clamp_i32(stage as i32 + amount as i32, MIN_BOOST as i32, MAX_BOOST as i32)
        - stage as i32) as i8;
    if change != 0 {
        let i = BoostInstruction { side_ref, stat, amount: change };
        proof {
            boost_fits(*state, i);
        }
        Some(Instruction::Boost(i))
    } else {
        None
    }
}

/// The most layers a side can hold of `condition`.
pub fn side_condition_cap(condition: PokemonSideCondition) -> (r: i8)
    ensures
        r == condition.cap(),
{
    match condition {
        PokemonSideCondition::Spikes => 3,
        PokemonSideCondition::ToxicSpikes => 2,
        PokemonSideCondition::Stealthrock => 1,
        PokemonSideCondition::StickyWeb => 1,
        _ => i8::MAX,
    }
}

fn fit_side_condition(
    state: &State,
    side_ref: SideReference,
    condition: PokemonSideCondition,
    value: i8,
) -> (r: Option<Instruction>)
    requires
        state.in_bounds(),
    ensures
        fitted(*state, Step::SetSideCondition { side_ref, condition, value }, r),
{
    let count = state.get_side_immutable(&side_ref).get_side_condition(condition);
    assert(0 <= state.side(side_ref).side_conditions.value(condition) <= condition.cap());
    let cap = side_condition_cap(condition);
    let change = (clamp_i32(value as i32, 0, cap as i32) - count as i32) as i8;
    if change != 0 {
        let i = ChangeSideConditionInstruction {
            side_ref,
            side_condition: condition,
            amount: change,
        };
        proof {
            change_side_condition_fits(*state, i);
        }
        Some(Instruction::ChangeSideCondition(i))
    } else {
        None
    }
}

fn fit_status(state: &State, side_ref: SideReference, status: PokemonStatus) -> (r: Option<
    Instruction,
>)
    ensures
        fitted(*state, Step::SetStatus { side_ref, status }, r),
{
    let side = state.get_side_immutable(&side_ref);
    let i = ChangeStatusInstruction {
        side_ref,
        pokemon_index: side.active_index,
        old_status: side.get_active_immutable().status,
        new_status: status,
    };
    proof {
        change_status_fits(*state, i);
    }
    Some(Instruction::ChangeStatus(i))
}

fn fit_apply_volatile(state: &State, side_ref: SideReference, status: PokemonVolatileStatus) -> (r:
    Option<Instruction>)
    ensures
        fitted(*state, Step::ApplyVolatileStatus { side_ref, status }, r),
{
    let active = state.get_side_immutable(&side_ref).get_active_immutable();
    if !active.volatile_statuses.contains(&status) {
        let i = VolatileStatusInstruction { side_ref, volatile_status: status };
        proof {
            volatile_status_fits(*state, i);
        }
        Some(Instruction::VolatileStatus(i))
    } else {
        None
    }
}

fn fit_remove_volatile(state: &State, side_ref: SideReference, status: PokemonVolatileStatus) -> (r:
    Option<Instruction>)
    ensures
        fitted(*state, Step::RemoveVolatileStatus { side_ref, status }, r),
{
    let active = state.get_side_immutable(&side_ref).get_active_immutable();
    if active.volatile_statuses.contains(&status) {
        let i = VolatileStatusInstruction { side_ref, volatile_status: status };
        proof {
            remove_volatile_status_fits(*state, i);
        }
        Some(Instruction::RemoveVolatileStatus(i))
    } else {
        None
    }
}

fn fit_item(state: &State, side_ref: SideReference, item: Items) -> (r: Option<Instruction>)
    ensures
        fitted(*state, Step::SetItem { side_ref, item }, r),
{
    let current = state.get_side_immutable(&side_ref).get_active_immutable().item;
    if current != item {
        let i = ChangeItemInstruction { side_ref, current_item: current, new_item: item };
        proof {
            change_item_fits(*state, i);
        }
        Some(Instruction::ChangeItem(i))
    } else {
        None
    }
}

fn fit_terrain(state: &State, terrain: Terrain, turns: i8) -> (r: Option<Instruction>)
    ensures
        fitted(*state, Step::SetTerrain { terrain, turns }, r),
{
    if state.terrain.terrain_type != terrain || state.terrain.turns_remaining != turns {
        let i = ChangeTerrain {
            new_terrain: terrain,
            new_terrain_turns_remaining: turns,
            previous_terrain: state.terrain.terrain_type,
            previous_terrain_turns_remaining: state.terrain.turns_remaining,
        };
        proof {
            change_terrain_fits(*state, i);
        }
        Some(Instruction::ChangeTerrain(i))
    } else {
        None
    }
}

fn fit_weather(state: &State, weather: Weather, turns: i8) -> (r: Option<Instruction>)
    ensures
        fitted(*state, Step::SetWeather { weather, turns }, r),
{
    if state.weather.weather_type != weather || state.weather.turns_remaining != turns {
        let i = ChangeWeather {
            new_weather: weather,
            new_weather_turns_remaining: turns,
            previous_weather: state.weather.weather_type,
            previous_weather_turns_remaining: state.weather.turns_remaining,
        };
        proof {
            change_weather_fits(*state, i);
        }
        Some(Instruction::ChangeWeather(i))
    } else {
        None
    }
}

fn fit_types(state: &State, side_ref: SideReference, first: PokemonType, second: PokemonType) -> (r:
    Option<Instruction>)
    ensures
        fitted(*state, Step::SetTypes { side_ref, first, second }, r),
{
    let types = state.get_side_immutable(&side_ref).get_active_immutable().types;
    if types.0 != first || types.1 != second {
        let i = ChangeType {
            side_ref,
            new_first_type: first,
            new_second_type: second,
            old_first_type: types.0,
            old_second_type: types.1,
        };
        proof {
            change_type_fits(*state, i);
        }
        Some(Instruction::ChangeType(i))
    } else {
        None
    }
}

fn fit_enable_move(state: &State, side_ref: SideReference, move_index: PokemonMoveIndex) -> (r:
    Option<Instruction>)
    ensures
        fitted(*state, Step::EnableMove { side_ref, move_index }, r),
{
    let active = state.get_side_immutable(&side_ref).get_active_immutable();
    if active.get_move(move_index).disabled {
        let i = EnableMoveInstruction { side_ref, move_index };
        proof {
            enable_move_fits(*state, i);
        }
        Some(Instruction::EnableMove(i))
    } else {
        None
    }
}

fn fit_disable_move(state: &State, side_ref: SideReference, move_index: PokemonMoveIndex) -> (r:
    Option<Instruction>)
    ensures
        fitted(*state, Step::DisableMove { side_ref, move_index }, r),
{
    let active = state.get_side_immutable(&side_ref).get_active_immutable();
    if !active.get_move(move_index).disabled {
        let i = DisableMoveInstruction { side_ref, move_index };
        proof {
            disable_move_fits(*state, i);
        }
        Some(Instruction::DisableMove(i))
    } else {
        None
    }
}

fn fit_switch(state: &State, side_ref: SideReference, next_index: PokemonIndex) -> (r: Option<
    Instruction,
>)
    ensures
        fitted(*state, Step::Switch { side_ref, next_index }, r),
{
    let i = SwitchInstruction {
        side_ref,
        previous_index: state.get_side_immutable(&side_ref).active_index,
        next_index,
    };
    proof {
        switch_fits(*state, i);
    }
    Some(Instruction::Switch(i))
}

fn fit_start_wish(state: &State, side_ref: SideReference, heal_amount: i16) -> (r: Option<
    Instruction,
>)
    ensures
        fitted(*state, Step::StartWish { side_ref, heal_amount }, r),
{
    let wish = state.get_side_immutable(&side_ref).wish;
    if wish.turns_remaining == 0 {
        let change = clamp_i32(
            heal_amount as i32 - wish.heal_amount as i32,
            i16::MIN as i32,
            i16::MAX as i32,
        ) as i16;
        let i = IncrementWishInstruction { side_ref, heal_amount: change };
        proof {
            increment_wish_fits(*state, i);
        }
        Some(Instruction::IncrementWish(i))
    } else {
        None
    }
}

fn fit_count_down_wish(state: &State, side_ref: SideReference) -> (r: Option<Instruction>)
    ensures
        fitted(*state, Step::CountDownWish { side_ref }, r),
{
    if state.get_side_immutable(&side_ref).wish.turns_remaining > 0 {
        let i = DecrementWishInstruction { side_ref };
        proof {
            decrement_wish_fits(*state, i);
        }
        Some(Instruction::DecrementWish(i))
    } else {
        None
    }
}

fn fit_substitute_health(state: &State, side_ref: SideReference, health: i16) -> (r: Option<
    Instruction,
>)
    ensures
        fitted(*state, Step::SetSubstituteHealth { side_ref, health }, r),
{
    let current = state.get_side_immutable(&side_ref).get_active_immutable().substitute_health;
    if current != health {
        let i = SetSubstituteHealthInstruction {
            side_ref,
            previous_health: current,
            new_health: health,
        };
        proof {
            set_substitute_health_fits(*state, i);
        }
        Some(Instruction::SetSubstituteHealth(i))
    } else {
        None
    }
}

/// The instruction of `step` on `state`, if the step changes anything. The
/// instruction fits the state.
pub fn fit(state: &State, step: &Step) -> (r: Option<Instruction>)
    requires
        state.in_bounds(),
    ensures
        r == step.instruction(*state),
        r matches Some(instruction) ==> state.applicable(instruction),
{
    match *step {
        Step::Damage { side_ref, amount } => fit_damage(state, side_ref, amount),
        Step::Heal { side_ref, amount, keep_zero } => fit_heal(state, side_ref, amount, keep_zero),
        Step::Boost { side_ref, stat, amount } => fit_boost(state, side_ref, stat, amount),
        Step::SetSideCondition { side_ref, condition, value } => fit_side_condition(
            state,
            side_ref,
            condition,
            value,
        ),
        Step::SetStatus { side_ref, status } => fit_status(state, side_ref, status),
        Step::ApplyVolatileStatus { side_ref, status } => fit_apply_volatile(
            state,
            side_ref,
            status,
        ),
        Step::RemoveVolatileStatus { side_ref, status } => fit_remove_volatile(
            state,
            side_ref,
            status,
        ),
        Step::SetItem { side_ref, item } => fit_item(state, side_ref, item),
        Step::SetTerrain { terrain, turns } => fit_terrain(state, terrain, turns),
        Step::SetWeather { weather, turns } => fit_weather(state, weather, turns),
        Step::SetTypes { side_ref, first, second } => fit_types(state, side_ref, first, second),
        Step::EnableMove { side_ref, move_index } => fit_enable_move(state, side_ref, move_index),
        Step::DisableMove { side_ref, move_index } => fit_disable_move(
            state,
            side_ref,
            move_index,
        ),
        Step::Switch { side_ref, next_index } => fit_switch(state, side_ref, next_index),
        Step::StartWish { side_ref, heal_amount } => fit_start_wish(state, side_ref, heal_amount),
        Step::CountDownWish { side_ref } => fit_count_down_wish(state, side_ref),
        Step::SetSubstituteHealth { side_ref, health } => fit_substitute_health(
            state,
            side_ref,
            health,
        ),
    }
}

/// Carries `step` out on the state and records its instruction, if it has
/// one.
pub(crate) fn perform(
    state: &mut State,
    added: &mut Vec<Instruction>,
    step: &Step,
    Ghost(origin): Ghost<State>,
)
    requires
        tracks(origin, old(added)@, *old(state)),
    ensures
        tracks(origin, final(added)@, *final(state)),
        final(added)@ == old(added)@ + step.instructions(*old(state)),
{
    proof {
        tracked_state_in_bounds(origin, added@, *state);
    }
    match fit(state, step) {
        Some(instruction) => {
            record(state, added, instruction, Ghost(origin));
            assert(added@ =~= old(added)@ + seq![instruction]);
        },
        None => {
            assert(added@ =~= old(added)@ + Seq::<Instruction>::empty());
        },
    }
}

/// Carries the steps of `steps` out one after the other, and gives the
/// instructions that this took. The state is left where they lead.
pub fn perform_all(state: &mut State, steps: &Vec<Step>) -> (added: Vec<Instruction>)
    requires
        old(state).in_bounds(),
    ensures
        added@ == run(*old(state), steps@),
        tracks(*old(state), added@, *final(state)),
{
    let mut added: Vec<Instruction> = Vec::new();
    let mut i: usize = 0;
    while i < steps.len()
        invariant
            i <= steps.len(),
            tracks(*old(state), added@, *state),
            added@ == run(*old(state), steps@.take(i as int)),
        decreases steps.len() - i,
    {
        assert(steps@.take(i + 1).drop_last() =~= steps@.take(i as int));
        perform(state, &mut added, &steps[i], Ghost(*old(state)));
        i += 1;
    }
    assert(steps@.take(steps.len() as int) =~= steps@);
    added
}

/// Appends the steps of `added` to `list`.
pub fn append_steps(list: &mut Vec<Step>, added: &Vec<Step>)
    ensures
        final(list)@ == old(list)@ + added@,
{
    let mut i: usize = 0;
    while i < added.len()
        invariant
            i <= added.len(),
            list@ == old(list)@ + added@.take(i as int),
        decreases added.len() - i,
    {
        list.push(added[i]);
        assert(added@.take(i + 1) =~= added@.take(i as int).push(added@[i as int]));
        assert(old(list)@ + added@.take(i + 1) =~= (old(list)@ + added@.take(i as int)).push(
            added@[i as int],
        ));
        i += 1;
    }
    assert(added@.take(added.len() as int) =~= added@);
}

} // verus!
