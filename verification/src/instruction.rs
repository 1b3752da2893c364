//! The instructions: the small changes a turn is made of.
//!
//! Each instruction carries what is needed to undo it. `State::apply_one`
//! and `State::reverse_one` say what an instruction does to a state and how
//! it is undone; both are total, and saturate where a count would leave its
//! type. `State::applicable` says when an instruction fits a state: what the
//! instruction recorded of the state is true of it, and no count saturates.
//! An applicable instruction is undone exactly by its reverse, and keeps the
//! bounds of the state.

use vstd::prelude::*;
use crate::items::Items;
use crate::state::{
    clip16, clip8, Pokemon, PokemonBoostableStat, PokemonIndex, PokemonMoveIndex,
    PokemonSideCondition, PokemonStatus, PokemonType, PokemonVolatileStatus, Side,
    SideReference, State, StateTerrain, StateWeather, Terrain, Weather, Wish, MAX_BOOST,
    MIN_BOOST,
};

verus! {

/// One millionth of a percent: the unit of `StateInstructions::percentage`.
pub const PERCENT: u32 = 1_000_000;

/// The percentage of what is certain.
pub const CERTAIN: u32 = 100_000_000;

/// The turns a wish takes to come true.
pub const WISH_TURNS: i8 = 2;

#[derive(Clone, Copy, Debug, PartialEq, Eq, Structural)]
pub struct SwitchInstruction {
    pub side_ref: SideReference,
    pub previous_index: PokemonIndex,
    pub next_index: PokemonIndex,
}

#[derive(Clone, Copy, Debug, PartialEq, Eq, Structural)]
pub struct VolatileStatusInstruction {
    pub side_ref: SideReference,
    pub volatile_status: PokemonVolatileStatus,
}

#[derive(Clone, Copy, Debug, PartialEq, Eq, Structural)]
pub struct ChangeStatusInstruction {
    pub side_ref: SideReference,
    pub pokemon_index: PokemonIndex,
    pub old_status: PokemonStatus,
    pub new_status: PokemonStatus,
}

#[derive(Clone, Copy, Debug, PartialEq, Eq, Structural)]
pub struct HealInstruction {
    pub side_ref: SideReference,
    pub heal_amount: i16,
}

#[derive(Clone, Copy, Debug, PartialEq, Eq, Structural)]
pub struct DamageInstruction {
    pub side_ref: SideReference,
    pub damage_amount: i16,
}

#[derive(Clone, Copy, Debug, PartialEq, Eq, Structural)]
pub struct BoostInstruction {
    pub side_ref: SideReference,
    pub stat: PokemonBoostableStat,
    pub amount: i8,
}

#[derive(Clone, Copy, Debug, PartialEq, Eq, Structural)]
pub struct ChangeSideConditionInstruction {
    pub side_ref: SideReference,
    pub side_condition: PokemonSideCondition,
    pub amount: i8,
}

#[derive(Clone, Copy, Debug, PartialEq, Eq, Structural)]
pub struct ChangeWeather {
    pub new_weather: Weather,
    pub new_weather_turns_remaining: i8,
    pub previous_weather: Weather,
    pub previous_weather_turns_remaining: i8,
}

#[derive(Clone, Copy, Debug, PartialEq, Eq, Structural)]
pub struct ChangeTerrain {
    pub new_terrain: Terrain,
    pub new_terrain_turns_remaining: i8,
    pub previous_terrain: Terrain,
    pub previous_terrain_turns_remaining: i8,
}

#[derive(Clone, Copy, Debug, PartialEq, Eq, Structural)]
pub struct ChangeType {
    pub side_ref: SideReference,
    pub new_first_type: PokemonType,
    pub new_second_type: PokemonType,
    pub old_first_type: PokemonType,
    pub old_second_type: PokemonType,
}

#[derive(Clone, Copy, Debug, PartialEq, Eq, Structural)]
pub struct ChangeItemInstruction {
    pub side_ref: SideReference,
    pub current_item: Items,
    pub new_item: Items,
}

#[derive(Clone, Copy, Debug, PartialEq, Eq, Structural)]
pub struct DisableMoveInstruction {
    pub side_ref: SideReference,
    pub move_index: PokemonMoveIndex,
}

#[derive(Clone, Copy, Debug, PartialEq, Eq, Structural)]
pub struct EnableMoveInstruction {
    pub side_ref: SideReference,
    pub move_index: PokemonMoveIndex,
}

/// Starts a wish: the turns left grow by `WISH_TURNS` and the amount that
/// the wish will heal by `heal_amount`.
#[derive(Clone, Copy, Debug, PartialEq, Eq, Structural)]
pub struct IncrementWishInstruction {
    pub side_ref: SideReference,
    pub heal_amount: i16,
}

#[derive(Clone, Copy, Debug, PartialEq, Eq, Structural)]
pub struct DecrementWishInstruction {
    pub side_ref: SideReference,
}

#[derive(Clone, Copy, Debug, PartialEq, Eq, Structural)]
pub struct SetSubstituteHealthInstruction {
    pub side_ref: SideReference,
    pub previous_health: i16,
    pub new_health: i16,
}

#[derive(Clone, Copy, Debug, PartialEq, Eq, Structural)]
pub enum Instruction {
    Switch(SwitchInstruction),
    VolatileStatus(VolatileStatusInstruction),
    RemoveVolatileStatus(VolatileStatusInstruction),
    ChangeStatus(ChangeStatusInstruction),
    Heal(HealInstruction),
    Damage(DamageInstruction),
    Boost(BoostInstruction),
    ChangeSideCondition(ChangeSideConditionInstruction),
    ChangeWeather(ChangeWeather),
    ChangeTerrain(ChangeTerrain),
    ChangeType(ChangeType),
    ChangeItem(ChangeItemInstruction),
    DisableMove(DisableMoveInstruction),
    EnableMove(EnableMoveInstruction),
    IncrementWish(IncrementWishInstruction),
    DecrementWish(DecrementWishInstruction),
    SetSubstituteHealth(SetSubstituteHealthInstruction),
}

/// One branch of a turn: how likely it is, in millionths of a percent, and
/// the instructions that lead to it, in order.
#[derive(Clone, Debug, PartialEq, Eq)]
pub struct StateInstructions {
    pub percentage: u32,
    pub instruction_list: Vec<Instruction>,
}

impl Default for StateInstructions {
    /// The branch that is certain and changes nothing.
    fn default() -> (r: StateInstructions)
        ensures
            r.percentage == CERTAIN,
            r.instruction_list@ == Seq::<Instruction>::empty(),
    {
        StateInstructions { percentage: CERTAIN, instruction_list: Vec::new() }
    }
}

impl StateInstructions {
    /// A copy of this branch.
    pub fn duplicate(&self) -> (r: StateInstructions)
        ensures
            r.percentage == self.percentage,
            r.instruction_list@ == self.instruction_list@,
    {
        let list = self.instruction_list.clone();
        assert(list@ =~= self.instruction_list@);
        StateInstructions { percentage: self.percentage, instruction_list: list }
    }
}

impl Instruction {
    /// The side whose creature or conditions the instruction changes; the
    /// weather and the terrain belong to neither.
    pub open spec fn side(self) -> Option<SideReference> {
        match self {
            Instruction::Switch(i) => Some(i.side_ref),
            Instruction::VolatileStatus(i) => Some(i.side_ref),
            Instruction::RemoveVolatileStatus(i) => Some(i.side_ref),
            Instruction::ChangeStatus(i) => Some(i.side_ref),
            Instruction::Heal(i) => Some(i.side_ref),
            Instruction::Damage(i) => Some(i.side_ref),
            Instruction::Boost(i) => Some(i.side_ref),
            Instruction::ChangeSideCondition(i) => Some(i.side_ref),
            Instruction::ChangeWeather(_) => None,
            Instruction::ChangeTerrain(_) => None,
            Instruction::ChangeType(i) => Some(i.side_ref),
            Instruction::ChangeItem(i) => Some(i.side_ref),
            Instruction::DisableMove(i) => Some(i.side_ref),
            Instruction::EnableMove(i) => Some(i.side_ref),
            Instruction::IncrementWish(i) => Some(i.side_ref),
            Instruction::DecrementWish(i) => Some(i.side_ref),
            Instruction::SetSubstituteHealth(i) => Some(i.side_ref),
        }
    }
}

impl Instruction {
    /// The side that the instruction names, if it names one.
    pub fn get_side(&self) -> (r: Option<SideReference>)
        ensures
            r == self.side(),
    {
        match self {
            Instruction::Switch(i) => Some(i.side_ref),
            Instruction::VolatileStatus(i) => Some(i.side_ref),
            Instruction::RemoveVolatileStatus(i) => Some(i.side_ref),
            Instruction::ChangeStatus(i) => Some(i.side_ref),
            Instruction::Heal(i) => Some(i.side_ref),
            Instruction::Damage(i) => Some(i.side_ref),
            Instruction::Boost(i) => Some(i.side_ref),
            Instruction::ChangeSideCondition(i) => Some(i.side_ref),
            Instruction::ChangeWeather(_) => None,
            Instruction::ChangeTerrain(_) => None,
            Instruction::ChangeType(i) => Some(i.side_ref),
            Instruction::ChangeItem(i) => Some(i.side_ref),
            Instruction::DisableMove(i) => Some(i.side_ref),
            Instruction::EnableMove(i) => Some(i.side_ref),
            Instruction::IncrementWish(i) => Some(i.side_ref),
            Instruction::DecrementWish(i) => Some(i.side_ref),
            Instruction::SetSubstituteHealth(i) => Some(i.side_ref),
        }
    }
}

impl Side {
    #[verifier::opaque]
    pub open spec fn after_switch(self, i: SwitchInstruction) -> Side {
        Side { active_index: i.next_index, ..self }
    }

    #[verifier::opaque]
    pub open spec fn before_switch(self, i: SwitchInstruction) -> Side {
        Side { active_index: i.previous_index, ..self }
    }

    #[verifier::opaque]
    pub open spec fn fits_switch(self, i: SwitchInstruction) -> bool {
        self.active_index == i.previous_index
    }

    #[verifier::opaque]
    pub open spec fn after_volatile_status(self, i: VolatileStatusInstruction) -> Side {
        let active = self.active();
        self.with_active(
            Pokemon {
                volatile_statuses: active.volatile_statuses.with(i.volatile_status, true),
                ..active
            },
        )
    }

    #[verifier::opaque]
    pub open spec fn before_volatile_status(self, i: VolatileStatusInstruction) -> Side {
        let active = self.active();
        self.with_active(
            Pokemon {
                volatile_statuses: active.volatile_statuses.with(i.volatile_status, false),
                ..active
            },
        )
    }

    #[verifier::opaque]
    pub open spec fn fits_volatile_status(self, i: VolatileStatusInstruction) -> bool {
        !self.active().volatile_statuses.has(i.volatile_status)
    }

    #[verifier::opaque]
    pub open spec fn after_remove_volatile_status(self, i: VolatileStatusInstruction) -> Side {
        let active = self.active();
        self.with_active(
            Pokemon {
                volatile_statuses: active.volatile_statuses.with(i.volatile_status, false),
                ..active
            },
        )
    }

    #[verifier::opaque]
    pub open spec fn before_remove_volatile_status(self, i: VolatileStatusInstruction) -> Side {
        let active = self.active();
        self.with_active(
            Pokemon {
                volatile_statuses: active.volatile_statuses.with(i.volatile_status, true),
                ..active
            },
        )
    }

    #[verifier::opaque]
    pub open spec fn fits_remove_volatile_status(self, i: VolatileStatusInstruction) -> bool {
        self.active().volatile_statuses.has(i.volatile_status)
    }

    #[verifier::opaque]
    pub open spec fn after_change_status(self, i: ChangeStatusInstruction) -> Side {
        self.with_pokemon(
            i.pokemon_index,
            Pokemon { status: i.new_status, ..self.at(i.pokemon_index) },
        )
    }

    #[verifier::opaque]
    pub open spec fn before_change_status(self, i: ChangeStatusInstruction) -> Side {
        self.with_pokemon(
            i.pokemon_index,
            Pokemon { status: i.old_status, ..self.at(i.pokemon_index) },
        )
    }

    #[verifier::opaque]
    pub open spec fn fits_change_status(self, i: ChangeStatusInstruction) -> bool {
        self.at(i.pokemon_index).status == i.old_status
    }

    #[verifier::opaque]
    pub open spec fn after_heal(self, i: HealInstruction) -> Side {
        let active = self.active();
        self.with_active(Pokemon { hp: clip16(active.hp + i.heal_amount), ..active })
    }

    #[verifier::opaque]
    pub open spec fn before_heal(self, i: HealInstruction) -> Side {
        let active = self.active();
        self.with_active(Pokemon { hp: clip16(active.hp - i.heal_amount), ..active })
    }

    #[verifier::opaque]
    pub open spec fn fits_heal(self, i: HealInstruction) -> bool {
        0 <= self.active().hp + i.heal_amount <= self.active().maxhp
    }

    #[verifier::opaque]
    pub open spec fn after_damage(self, i: DamageInstruction) -> Side {
        let active = self.active();
        self.with_active(Pokemon { hp: clip16(active.hp - i.damage_amount), ..active })
    }

    #[verifier::opaque]
    pub open spec fn before_damage(self, i: DamageInstruction) -> Side {
        let active = self.active();
        self.with_active(Pokemon { hp: clip16(active.hp + i.damage_amount), ..active })
    }

    #[verifier::opaque]
    pub open spec fn fits_damage(self, i: DamageInstruction) -> bool {
        0 <= i.damage_amount <= self.active().hp
    }

    #[verifier::opaque]
    pub open spec fn after_boost(self, i: BoostInstruction) -> Side {
        let active = self.active();
        self.with_active(active.with_boost(i.stat, clip8(active.boost(i.stat) + i.amount)))
    }

    #[verifier::opaque]
    pub open spec fn before_boost(self, i: BoostInstruction) -> Side {
        let active = self.active();
        self.with_active(active.with_boost(i.stat, clip8(active.boost(i.stat) - i.amount)))
    }

    #[verifier::opaque]
    pub open spec fn fits_boost(self, i: BoostInstruction) -> bool {
        MIN_BOOST <= self.active().boost(i.stat) + i.amount <= MAX_BOOST
    }

    #[verifier::opaque]
    pub open spec fn after_change_side_condition(self, i: ChangeSideConditionInstruction) -> Side {
        Side {
            side_conditions: self.side_conditions.with(
                i.side_condition,
                clip8(self.side_conditions.value(i.side_condition) + i.amount),
            ),
            ..self
        }
    }

    #[verifier::opaque]
    pub open spec fn before_change_side_condition(self, i: ChangeSideConditionInstruction) -> Side {
        Side {
            side_conditions: self.side_conditions.with(
                i.side_condition,
                clip8(self.side_conditions.value(i.side_condition) - i.amount),
            ),
            ..self
        }
    }

    #[verifier::opaque]
    pub open spec fn fits_change_side_condition(self, i: ChangeSideConditionInstruction) -> bool {
        0 <= self.side_conditions.value(i.side_condition) + i.amount <= i.side_condition.cap()
    }

    #[verifier::opaque]
    pub open spec fn after_change_type(self, i: ChangeType) -> Side {
        let active = self.active();
        self.with_active(Pokemon { types: (i.new_first_type, i.new_second_type), ..active })
    }

    #[verifier::opaque]
    pub open spec fn before_change_type(self, i: ChangeType) -> Side {
        let active = self.active();
        self.with_active(Pokemon { types: (i.old_first_type, i.old_second_type), ..active })
    }

    #[verifier::opaque]
    pub open spec fn fits_change_type(self, i: ChangeType) -> bool {
        self.active().types == (i.old_first_type, i.old_second_type)
    }

    #[verifier::opaque]
    pub open spec fn after_change_item(self, i: ChangeItemInstruction) -> Side {
        let active = self.active();
        self.with_active(Pokemon { item: i.new_item, ..active })
    }

    #[verifier::opaque]
    pub open spec fn before_change_item(self, i: ChangeItemInstruction) -> Side {
        let active = self.active();
        self.with_active(Pokemon { item: i.current_item, ..active })
    }

    #[verifier::opaque]
    pub open spec fn fits_change_item(self, i: ChangeItemInstruction) -> bool {
        self.active().item == i.current_item
    }

    #[verifier::opaque]
    pub open spec fn after_disable_move(self, i: DisableMoveInstruction) -> Side {
        self.with_active(self.active().with_move_disabled(i.move_index, true))
    }

    #[verifier::opaque]
    pub open spec fn before_disable_move(self, i: DisableMoveInstruction) -> Side {
        self.with_active(self.active().with_move_disabled(i.move_index, false))
    }

    #[verifier::opaque]
    pub open spec fn fits_disable_move(self, i: DisableMoveInstruction) -> bool {
        !self.active().move_at(i.move_index).disabled
    }

    #[verifier::opaque]
    pub open spec fn after_enable_move(self, i: EnableMoveInstruction) -> Side {
        self.with_active(self.active().with_move_disabled(i.move_index, false))
    }

    #[verifier::opaque]
    pub open spec fn before_enable_move(self, i: EnableMoveInstruction) -> Side {
        self.with_active(self.active().with_move_disabled(i.move_index, true))
    }

    #[verifier::opaque]
    pub open spec fn fits_enable_move(self, i: EnableMoveInstruction) -> bool {
        self.active().move_at(i.move_index).disabled
    }

    #[verifier::opaque]
    pub open spec fn after_increment_wish(self, i: IncrementWishInstruction) -> Side {
        Side {
            wish: Wish {
                turns_remaining: clip8(self.wish.turns_remaining + WISH_TURNS),
                heal_amount: clip16(self.wish.heal_amount + i.heal_amount),
            },
            ..self
        }
    }

    #[verifier::opaque]
    pub open spec fn before_increment_wish(self, i: IncrementWishInstruction) -> Side {
        Side {
            wish: Wish {
                turns_remaining: clip8(self.wish.turns_remaining - WISH_TURNS),
                heal_amount: clip16(self.wish.heal_amount - i.heal_amount),
            },
            ..self
        }
    }

    #[verifier::opaque]
    pub open spec fn fits_increment_wish(self, i: IncrementWishInstruction) -> bool {
        {
            &&& self.wish.turns_remaining + WISH_TURNS <= i8::MAX
            &&& i16::MIN <= self.wish.heal_amount + i.heal_amount <= i16::MAX
        }
    }

    #[verifier::opaque]
    pub open spec fn after_decrement_wish(self, i: DecrementWishInstruction) -> Side {
        Side {
            wish: Wish { turns_remaining: clip8(self.wish.turns_remaining - 1), ..self.wish },
            ..self
        }
    }

    #[verifier::opaque]
    pub open spec fn before_decrement_wish(self, i: DecrementWishInstruction) -> Side {
        Side {
            wish: Wish { turns_remaining: clip8(self.wish.turns_remaining + 1), ..self.wish },
            ..self
        }
    }

    #[verifier::opaque]
    pub open spec fn fits_decrement_wish(self, i: DecrementWishInstruction) -> bool {
        self.wish.turns_remaining - 1 >= i8::MIN
    }

    #[verifier::opaque]
    pub open spec fn after_set_substitute_health(self, i: SetSubstituteHealthInstruction) -> Side {
        let active = self.active();
        self.with_active(Pokemon { substitute_health: i.new_health, ..active })
    }

    #[verifier::opaque]
    pub open spec fn before_set_substitute_health(self, i: SetSubstituteHealthInstruction) -> Side {
        let active = self.active();
        self.with_active(Pokemon { substitute_health: i.previous_health, ..active })
    }

    #[verifier::opaque]
    pub open spec fn fits_set_substitute_health(self, i: SetSubstituteHealthInstruction) -> bool {
        self.active().substitute_health == i.previous_health
    }

    /// What `instruction` does to the side it names.
    pub open spec fn apply_one(self, instruction: Instruction) -> Side {
        match instruction {
            Instruction::Switch(i) => self.after_switch(i),
            Instruction::VolatileStatus(i) => self.after_volatile_status(i),
            Instruction::RemoveVolatileStatus(i) => self.after_remove_volatile_status(i),
            Instruction::ChangeStatus(i) => self.after_change_status(i),
            Instruction::Heal(i) => self.after_heal(i),
            Instruction::Damage(i) => self.after_damage(i),
            Instruction::Boost(i) => self.after_boost(i),
            Instruction::ChangeSideCondition(i) => self.after_change_side_condition(i),
            Instruction::ChangeType(i) => self.after_change_type(i),
            Instruction::ChangeItem(i) => self.after_change_item(i),
            Instruction::DisableMove(i) => self.after_disable_move(i),
            Instruction::EnableMove(i) => self.after_enable_move(i),
            Instruction::IncrementWish(i) => self.after_increment_wish(i),
            Instruction::DecrementWish(i) => self.after_decrement_wish(i),
            Instruction::SetSubstituteHealth(i) => self.after_set_substitute_health(i),
            Instruction::ChangeWeather(_) => self,
            Instruction::ChangeTerrain(_) => self,
        }
    }

    /// How `instruction` is undone on the side it names.
    pub open spec fn reverse_one(self, instruction: Instruction) -> Side {
        match instruction {
            Instruction::Switch(i) => self.before_switch(i),
            Instruction::VolatileStatus(i) => self.before_volatile_status(i),
            Instruction::RemoveVolatileStatus(i) => self.before_remove_volatile_status(i),
            Instruction::ChangeStatus(i) => self.before_change_status(i),
            Instruction::Heal(i) => self.before_heal(i),
            Instruction::Damage(i) => self.before_damage(i),
            Instruction::Boost(i) => self.before_boost(i),
            Instruction::ChangeSideCondition(i) => self.before_change_side_condition(i),
            Instruction::ChangeType(i) => self.before_change_type(i),
            Instruction::ChangeItem(i) => self.before_change_item(i),
            Instruction::DisableMove(i) => self.before_disable_move(i),
            Instruction::EnableMove(i) => self.before_enable_move(i),
            Instruction::IncrementWish(i) => self.before_increment_wish(i),
            Instruction::DecrementWish(i) => self.before_decrement_wish(i),
            Instruction::SetSubstituteHealth(i) => self.before_set_substitute_health(i),
            Instruction::ChangeWeather(_) => self,
            Instruction::ChangeTerrain(_) => self,
        }
    }

    /// Whether `instruction` fits this side: what it recorded of the side is
    /// true, no count saturates, and the bounds of the side are kept.
    pub open spec fn applicable(self, instruction: Instruction) -> bool {
        match instruction {
            Instruction::Switch(i) => self.fits_switch(i),
            Instruction::VolatileStatus(i) => self.fits_volatile_status(i),
            Instruction::RemoveVolatileStatus(i) => self.fits_remove_volatile_status(i),
            Instruction::ChangeStatus(i) => self.fits_change_status(i),
            Instruction::Heal(i) => self.fits_heal(i),
            Instruction::Damage(i) => self.fits_damage(i),
            Instruction::Boost(i) => self.fits_boost(i),
            Instruction::ChangeSideCondition(i) => self.fits_change_side_condition(i),
            Instruction::ChangeType(i) => self.fits_change_type(i),
            Instruction::ChangeItem(i) => self.fits_change_item(i),
            Instruction::DisableMove(i) => self.fits_disable_move(i),
            Instruction::EnableMove(i) => self.fits_enable_move(i),
            Instruction::IncrementWish(i) => self.fits_increment_wish(i),
            Instruction::DecrementWish(i) => self.fits_decrement_wish(i),
            Instruction::SetSubstituteHealth(i) => self.fits_set_substitute_health(i),
            Instruction::ChangeWeather(_) => true,
            Instruction::ChangeTerrain(_) => true,
        }
    }
}

impl State {
    /// The state after `instruction`.
    pub open spec fn apply_one(self, instruction: Instruction) -> State {
        match instruction {
            Instruction::ChangeWeather(i) => State {
                weather: StateWeather {
                    weather_type: i.new_weather,
                    turns_remaining: i.new_weather_turns_remaining,
                },
                ..self
            },
            Instruction::ChangeTerrain(i) => State {
                terrain: StateTerrain {
                    terrain_type: i.new_terrain,
                    turns_remaining: i.new_terrain_turns_remaining,
                },
                ..self
            },
            _ => {
                let side_ref = instruction.side().unwrap();
                self.with_side(side_ref, self.side(side_ref).apply_one(instruction))
            },
        }
    }

    /// The state after `instruction` is undone.
    pub open spec fn reverse_one(self, instruction: Instruction) -> State {
        match instruction {
            Instruction::ChangeWeather(i) => State {
                weather: StateWeather {
                    weather_type: i.previous_weather,
                    turns_remaining: i.previous_weather_turns_remaining,
                },
                ..self
            },
            Instruction::ChangeTerrain(i) => State {
                terrain: StateTerrain {
                    terrain_type: i.previous_terrain,
                    turns_remaining: i.previous_terrain_turns_remaining,
                },
                ..self
            },
            _ => {
                let side_ref = instruction.side().unwrap();
                self.with_side(side_ref, self.side(side_ref).reverse_one(instruction))
            },
        }
    }

    /// Whether `instruction` fits this state: what it recorded of the state
    /// is true of it, no count saturates, and the bounds are kept.
    pub open spec fn applicable(self, instruction: Instruction) -> bool {
        match instruction {
            Instruction::ChangeWeather(i) => self.weather == (StateWeather {
                weather_type: i.previous_weather,
                turns_remaining: i.previous_weather_turns_remaining,
            }),
            Instruction::ChangeTerrain(i) => self.terrain == (StateTerrain {
                terrain_type: i.previous_terrain,
                turns_remaining: i.previous_terrain_turns_remaining,
            }),
            _ => self.side(instruction.side().unwrap()).applicable(instruction),
        }
    }

    /// The state after the instructions of `list`, first to last.
    pub open spec fn apply_all(self, list: Seq<Instruction>) -> State
        decreases list.len(),
    {
        if list.len() == 0 {
            self
        } else {
            self.apply_all(list.drop_last()).apply_one(list.last())
        }
    }

    /// The state after the instructions of `list` are undone, last to
    /// first.
    pub open spec fn reverse_all(self, list: Seq<Instruction>) -> State
        decreases list.len(),
    {
        if list.len() == 0 {
            self
        } else {
            self.reverse_one(list.last()).reverse_all(list.drop_last())
        }
    }

    /// Whether each instruction of `list` fits the state that the ones
    /// before it lead to.
    pub open spec fn all_applicable(self, list: Seq<Instruction>) -> bool
        decreases list.len(),
    {
        if list.len() == 0 {
            true
        } else {
            &&& self.all_applicable(list.drop_last())
            &&& self.apply_all(list.drop_last()).applicable(list.last())
        }
    }
}

} // verus!
