//! Steps: what the generator asks for, before it is fitted to a state.
//!
//! A step names a change ("damage this side by 40", "bring the spikes of
//! that side to zero"). `Step::instruction` turns it into the instruction
//! that makes the change on a given state, clamped so that it fits: damage
//! is no more than the hit points left, a heal stops at the maximum, a
//! boost stops at the last stage, a side condition stops at its cap. A step
//! that would change nothing gives no instruction. `run` carries a list of
//! steps out one after the other, each on the state that the ones before
//! it lead to.

use vstd::prelude::*;
use crate::instruction::{
    BoostInstruction, ChangeItemInstruction, ChangeSideConditionInstruction,
    ChangeStatusInstruction, ChangeTerrain, ChangeType, ChangeWeather, DamageInstruction,
    DecrementWishInstruction, DisableMoveInstruction, EnableMoveInstruction, HealInstruction,
    IncrementWishInstruction, Instruction, SetSubstituteHealthInstruction, SwitchInstruction,
    VolatileStatusInstruction,
};
use crate::items::Items;
use crate::laws::apply_all_concat;
use crate::state::{
    PokemonBoostableStat, PokemonIndex, PokemonMoveIndex, PokemonSideCondition, PokemonStatus,
    PokemonType, PokemonVolatileStatus, SideReference, State, Terrain, Weather, MAX_BOOST,
    MIN_BOOST,
};

verus! {

#[derive(Clone, Copy, Debug, PartialEq, Eq, Structural)]
pub enum Step {
    /// Take `amount` hit points from the active creature, as far as it has
    /// them.
    Damage { side_ref: SideReference, amount: i16 },
    /// Give `amount` hit points to the active creature, as far as it lacks
    /// them; a negative amount takes them, as far as it has them. With
    /// `keep_zero` the heal is recorded even where it comes to nothing.
    Heal { side_ref: SideReference, amount: i16, keep_zero: bool },
    /// Move the stage of `stat` by `amount`, as far as the stages go.
    Boost { side_ref: SideReference, stat: PokemonBoostableStat, amount: i8 },
    /// Bring the count of `condition` to `value`, within zero and its cap.
    SetSideCondition { side_ref: SideReference, condition: PokemonSideCondition, value: i8 },
    /// Give the active creature the status `status`.
    SetStatus { side_ref: SideReference, status: PokemonStatus },
    /// Put `status` on the active creature, unless it has it.
    ApplyVolatileStatus { side_ref: SideReference, status: PokemonVolatileStatus },
    /// Take `status` from the active creature, if it has it.
    RemoveVolatileStatus { side_ref: SideReference, status: PokemonVolatileStatus },
    /// Give the active creature the item `item`.
    SetItem { side_ref: SideReference, item: Items },
    SetTerrain { terrain: Terrain, turns: i8 },
    SetWeather { weather: Weather, turns: i8 },
    SetTypes { side_ref: SideReference, first: PokemonType, second: PokemonType },
    EnableMove { side_ref: SideReference, move_index: PokemonMoveIndex },
    DisableMove { side_ref: SideReference, move_index: PokemonMoveIndex },
    Switch { side_ref: SideReference, next_index: PokemonIndex },
    /// Start a wish that will heal `heal_amount`, unless one is under way.
    StartWish { side_ref: SideReference, heal_amount: i16 },
    /// Count the turns of a wish down by one, if one is under way.
    CountDownWish { side_ref: SideReference },
    SetSubstituteHealth { side_ref: SideReference, health: i16 },
}

/// `value`, or the nearer of `low` and `high` where it lies outside of
/// them.
pub open spec fn clamp(value: int, low: int, high: int) -> int {
    if value < low {
        low
    } else if value > high {
        high
    } else {
        value
    }
}

pub fn clamp_i32(value: i32, low: i32, high: i32) -> (r: i32)
    ensures
        r == clamp(value as int, low as int, high as int),
{
    if value < low {
        low
    } else if value > high {
        high
    } else {
        value
    }
}

pub open spec fn damage_instruction(s: State, side_ref: SideReference, amount: i16) -> Option<
    Instruction,
> {
    Some(
        Instruction::Damage(
            DamageInstruction {
                side_ref,
                damage_amount: clamp(amount as int, 0, s.active(side_ref).hp as int) as i16,
            },
        ),
    )
}

pub open spec fn heal_instruction(
    s: State,
    side_ref: SideReference,
    amount: i16,
    keep_zero: bool,
) -> Option<Instruction> {
    let active = s.active(side_ref);
    let healed = clamp(amount as int, -active.hp, active.maxhp - active.hp);
    if healed != 0 || keep_zero {
        Some(Instruction::Heal(HealInstruction { side_ref, heal_amount: healed as i16 }))
    } else {
        None
    }
}

pub open spec fn boost_instruction(
    s: State,
    side_ref: SideReference,
    stat: PokemonBoostableStat,
    amount: i8,
) -> Option<Instruction> {
    let stage = s.active(side_ref).boost(stat);
    let change = clamp(stage + amount, MIN_BOOST as int, MAX_BOOST as int) - stage;
    if change != 0 {
        Some(Instruction::Boost(BoostInstruction { side_ref, stat, amount: change as i8 }))
    } else {
        None
    }
}

pub open spec fn side_condition_instruction(
    s: State,
    side_ref: SideReference,
    condition: PokemonSideCondition,
    value: i8,
) -> Option<Instruction> {
    let count = s.side(side_ref).side_conditions.value(condition);
    let change = clamp(value as int, 0, condition.cap()) - count;
    if change != 0 {
        Some(
            Instruction::ChangeSideCondition(
                ChangeSideConditionInstruction {
                    side_ref,
                    side_condition: condition,
                    amount: change as i8,
                },
            ),
        )
    } else {
        None
    }
}

pub open spec fn status_instruction(s: State, side_ref: SideReference, status: PokemonStatus) -> Option<
    Instruction,
> {
    Some(
        Instruction::ChangeStatus(
            ChangeStatusInstruction {
                side_ref,
                pokemon_index: s.side(side_ref).active_index,
                old_status: s.active(side_ref).status,
                new_status: status,
            },
        ),
    )
}

pub open spec fn apply_volatile_instruction(
    s: State,
    side_ref: SideReference,
    status: PokemonVolatileStatus,
) -> Option<Instruction> {
    if !s.active(side_ref).volatile_statuses.has(status) {
        Some(
            Instruction::VolatileStatus(
                VolatileStatusInstruction { side_ref, volatile_status: status },
            ),
        )
    } else {
        None
    }
}

pub open spec fn remove_volatile_instruction(
    s: State,
    side_ref: SideReference,
    status: PokemonVolatileStatus,
) -> Option<Instruction> {
    if s.active(side_ref).volatile_statuses.has(status) {
        Some(
            Instruction::RemoveVolatileStatus(
                VolatileStatusInstruction { side_ref, volatile_status: status },
            ),
        )
    } else {
        None
    }
}

pub open spec fn item_instruction(s: State, side_ref: SideReference, item: Items) -> Option<
    Instruction,
> {
    let current = s.active(side_ref).item;
    if current != item {
        Some(
            Instruction::ChangeItem(
                ChangeItemInstruction { side_ref, current_item: current, new_item: item },
            ),
        )
    } else {
        None
    }
}

pub open spec fn terrain_instruction(s: State, terrain: Terrain, turns: i8) -> Option<Instruction> {
    if s.terrain.terrain_type != terrain || s.terrain.turns_remaining != turns {
        Some(
            Instruction::ChangeTerrain(
                ChangeTerrain {
                    new_terrain: terrain,
                    new_terrain_turns_remaining: turns,
                    previous_terrain: s.terrain.terrain_type,
                    previous_terrain_turns_remaining: s.terrain.turns_remaining,
                },
            ),
        )
    } else {
        None
    }
}

pub open spec fn weather_instruction(s: State, weather: Weather, turns: i8) -> Option<Instruction> {
    if s.weather.weather_type != weather || s.weather.turns_remaining != turns {
        Some(
            Instruction::ChangeWeather(
                ChangeWeather {
                    new_weather: weather,
                    new_weather_turns_remaining: turns,
                    previous_weather: s.weather.weather_type,
                    previous_weather_turns_remaining: s.weather.turns_remaining,
                },
            ),
        )
    } else {
        None
    }
}

pub open spec fn types_instruction(
    s: State,
    side_ref: SideReference,
    first: PokemonType,
    second: PokemonType,
) -> Option<Instruction> {
    let types = s.active(side_ref).types;
    if types != (first, second) {
        Some(
            Instruction::ChangeType(
                ChangeType {
                    side_ref,
                    new_first_type: first,
                    new_second_type: second,
                    old_first_type: types.0,
                    old_second_type: types.1,
                },
            ),
        )
    } else {
        None
    }
}

pub open spec fn enable_move_instruction(
    s: State,
    side_ref: SideReference,
    move_index: PokemonMoveIndex,
) -> Option<Instruction> {
    if s.active(side_ref).move_at(move_index).disabled {
        Some(Instruction::EnableMove(EnableMoveInstruction { side_ref, move_index }))
    } else {
        None
    }
}

pub open spec fn disable_move_instruction(
    s: State,
    side_ref: SideReference,
    move_index: PokemonMoveIndex,
) -> Option<Instruction> {
    if !s.active(side_ref).move_at(move_index).disabled {
        Some(Instruction::DisableMove(DisableMoveInstruction { side_ref, move_index }))
    } else {
        None
    }
}

pub open spec fn switch_instruction(s: State, side_ref: SideReference, next_index: PokemonIndex) -> Option<
    Instruction,
> {
    Some(
        Instruction::Switch(
            SwitchInstruction {
                side_ref,
                previous_index: s.side(side_ref).active_index,
                next_index,
            },
        ),
    )
}

pub open spec fn start_wish_instruction(s: State, side_ref: SideReference, heal_amount: i16) -> Option<
    Instruction,
> {
    let wish = s.side(side_ref).wish;
    if wish.turns_remaining == 0 {
        Some(
            Instruction::IncrementWish(
                IncrementWishInstruction {
                    side_ref,
                    heal_amount: clamp(
                        heal_amount - wish.heal_amount,
                        i16::MIN as int,
                        i16::MAX as int,
                    ) as i16,
                },
            ),
        )
    } else {
        None
    }
}

pub open spec fn count_down_wish_instruction(s: State, side_ref: SideReference) -> Option<
    Instruction,
> {
    if s.side(side_ref).wish.turns_remaining > 0 {
        Some(Instruction::DecrementWish(DecrementWishInstruction { side_ref }))
    } else {
        None
    }
}

pub open spec fn substitute_health_instruction(s: State, side_ref: SideReference, health: i16) -> Option<
    Instruction,
> {
    let current = s.active(side_ref).substitute_health;
    if current != health {
        Some(
            Instruction::SetSubstituteHealth(
                SetSubstituteHealthInstruction {
                    side_ref,
                    previous_health: current,
                    new_health: health,
                },
            ),
        )
    } else {
        None
    }
}

impl Step {
    /// The instruction that makes the change of this step on the state `s`,
    /// if there is anything to change.
    pub open spec fn instruction(self, s: State) -> Option<Instruction> {
        match self {
            Step::Damage { side_ref, amount } => damage_instruction(s, side_ref, amount),
            Step::Heal { side_ref, amount, keep_zero } => heal_instruction(
                s,
                side_ref,
                amount,
                keep_zero,
            ),
            Step::Boost { side_ref, stat, amount } => boost_instruction(s, side_ref, stat, amount),
            Step::SetSideCondition { side_ref, condition, value } => side_condition_instruction(
                s,
                side_ref,
                condition,
                value,
            ),
            Step::SetStatus { side_ref, status } => status_instruction(s, side_ref, status),
            Step::ApplyVolatileStatus { side_ref, status } => apply_volatile_instruction(
                s,
                side_ref,
                status,
            ),
            Step::RemoveVolatileStatus { side_ref, status } => remove_volatile_instruction(
                s,
                side_ref,
                status,
            ),
            Step::SetItem { side_ref, item } => item_instruction(s, side_ref, item),
            Step::SetTerrain { terrain, turns } => terrain_instruction(s, terrain, turns),
            Step::SetWeather { weather, turns } => weather_instruction(s, weather, turns),
            Step::SetTypes { side_ref, first, second } => types_instruction(
                s,
                side_ref,
                first,
                second,
            ),
            Step::EnableMove { side_ref, move_index } => enable_move_instruction(
                s,
                side_ref,
                move_index,
            ),
            Step::DisableMove { side_ref, move_index } => disable_move_instruction(
                s,
                side_ref,
                move_index,
            ),
            Step::Switch { side_ref, next_index } => switch_instruction(s, side_ref, next_index),
            Step::StartWish { side_ref, heal_amount } => start_wish_instruction(
                s,
                side_ref,
                heal_amount,
            ),
            Step::CountDownWish { side_ref } => count_down_wish_instruction(s, side_ref),
            Step::SetSubstituteHealth { side_ref, health } => substitute_health_instruction(
                s,
                side_ref,
                health,
            ),
        }
    }

    /// The instructions of this step on the state `s`: one or none.
    pub open spec fn instructions(self, s: State) -> Seq<Instruction> {
        match self.instruction(s) {
            Some(instruction) => seq![instruction],
            None => Seq::empty(),
        }
    }
}

/// The instructions of the steps of `steps`, each made on the state that
/// the instructions before it lead to.
pub open spec fn run(s: State, steps: Seq<Step>) -> Seq<Instruction>
    decreases steps.len(),
{
    if steps.len() == 0 {
        Seq::empty()
    } else {
        let before = run(s, steps.drop_last());
        before + steps.last().instructions(s.apply_all(before))
    }
}

/// Running two lists of steps one after the other is running the second
/// on the state that the first leads to.
pub proof fn run_concat(s: State, first: Seq<Step>, second: Seq<Step>)
    ensures
        run(s, first + second) == run(s, first) + run(s.apply_all(run(s, first)), second),
    decreases second.len(),
{
    if second.len() == 0 {
        assert(first + second =~= first);
        assert(run(s, first) + Seq::<Instruction>::empty() =~= run(s, first));
    } else {
        assert((first + second).drop_last() =~= first + second.drop_last());
        assert((first + second).last() == second.last());
        run_concat(s, first, second.drop_last());
        let a = run(s, first);
        let b = run(s.apply_all(a), second.drop_last());
        apply_all_concat(s, a, b);
        let last = second.last().instructions(s.apply_all(a + b));
        assert((a + b) + last =~= a + (b + last));
    }
}

} // verus!
