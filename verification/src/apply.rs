//! Applying instructions to a state and undoing them, and the laws of the
//! two: an applicable list is undone exactly by its reverse, and a state in
//! bounds stays in bounds under it.

use vstd::prelude::*;
use crate::instruction::{
    BoostInstruction, ChangeItemInstruction, ChangeSideConditionInstruction,
    ChangeStatusInstruction, ChangeType, DamageInstruction, DecrementWishInstruction,
    DisableMoveInstruction, EnableMoveInstruction, HealInstruction, IncrementWishInstruction,
    Instruction, SetSubstituteHealthInstruction, SwitchInstruction, VolatileStatusInstruction,
    WISH_TURNS,
};
use crate::state::{
    saturating_add16, saturating_add8, saturating_sub16, saturating_sub8, Pokemon, Side,
    SideReference, State, StateTerrain, StateWeather, Wish,
};

verus! {

impl Side {
    fn apply_switch(&mut self, i: &SwitchInstruction)
        ensures
            *final(self) == old(self).after_switch(*i),
    {
        proof {
            reveal(Side::after_switch);
        }
        *self = Side { active_index: i.next_index, ..*self };
    }

    fn reverse_switch(&mut self, i: &SwitchInstruction)
        ensures
            *final(self) == old(self).before_switch(*i),
    {
        proof {
            reveal(Side::before_switch);
        }
        *self = Side { active_index: i.previous_index, ..*self };
    }

    fn apply_volatile_status(&mut self, i: &VolatileStatusInstruction)
        ensures
            *final(self) == old(self).after_volatile_status(*i),
    {
        proof {
            reveal(Side::after_volatile_status);
        }
        let mut active = *self.get_active_immutable();
        active.volatile_statuses.insert(i.volatile_status);
        self.set_active(active);
    }

    fn reverse_volatile_status(&mut self, i: &VolatileStatusInstruction)
        ensures
            *final(self) == old(self).before_volatile_status(*i),
    {
        proof {
            reveal(Side::before_volatile_status);
        }
        let mut active = *self.get_active_immutable();
        active.volatile_statuses.remove(&i.volatile_status);
        self.set_active(active);
    }

    fn apply_remove_volatile_status(&mut self, i: &VolatileStatusInstruction)
        ensures
            *final(self) == old(self).after_remove_volatile_status(*i),
    {
        proof {
            reveal(Side::after_remove_volatile_status);
        }
        let mut active = *self.get_active_immutable();
        active.volatile_statuses.remove(&i.volatile_status);
        self.set_active(active);
    }

    fn reverse_remove_volatile_status(&mut self, i: &VolatileStatusInstruction)
        ensures
            *final(self) == old(self).before_remove_volatile_status(*i),
    {
        proof {
            reveal(Side::before_remove_volatile_status);
        }
        let mut active = *self.get_active_immutable();
        active.volatile_statuses.insert(i.volatile_status);
        self.set_active(active);
    }

    fn apply_change_status(&mut self, i: &ChangeStatusInstruction)
        ensures
            *final(self) == old(self).after_change_status(*i),
    {
        proof {
            reveal(Side::after_change_status);
        }
        let target = *self.get_pokemon(i.pokemon_index);
        self.set_pokemon(i.pokemon_index, Pokemon { status: i.new_status, ..target });
    }

    fn reverse_change_status(&mut self, i: &ChangeStatusInstruction)
        ensures
            *final(self) == old(self).before_change_status(*i),
    {
        proof {
            reveal(Side::before_change_status);
        }
        let target = *self.get_pokemon(i.pokemon_index);
        self.set_pokemon(i.pokemon_index, Pokemon { status: i.old_status, ..target });
    }

    fn apply_heal(&mut self, i: &HealInstruction)
        ensures
            *final(self) == old(self).after_heal(*i),
    {
        proof {
            reveal(Side::after_heal);
        }
        let active = *self.get_active_immutable();
        self.set_active(Pokemon { hp: saturating_add16(active.hp, i.heal_amount), ..active });
    }

    fn reverse_heal(&mut self, i: &HealInstruction)
        ensures
            *final(self) == old(self).before_heal(*i),
    {
        proof {
            reveal(Side::before_heal);
        }
        let active = *self.get_active_immutable();
        self.set_active(Pokemon { hp: saturating_sub16(active.hp, i.heal_amount), ..active });
    }

    fn apply_damage(&mut self, i: &DamageInstruction)
        ensures
            *final(self) == old(self).after_damage(*i),
    {
        proof {
            reveal(Side::after_damage);
        }
        let active = *self.get_active_immutable();
        self.set_active(Pokemon { hp: saturating_sub16(active.hp, i.damage_amount), ..active });
    }

    fn reverse_damage(&mut self, i: &DamageInstruction)
        ensures
            *final(self) == old(self).before_damage(*i),
    {
        proof {
            reveal(Side::before_damage);
        }
        let active = *self.get_active_immutable();
        self.set_active(Pokemon { hp: saturating_add16(active.hp, i.damage_amount), ..active });
    }

    fn apply_boost(&mut self, i: &BoostInstruction)
        ensures
            *final(self) == old(self).after_boost(*i),
    {
        proof {
            reveal(Side::after_boost);
        }
        let mut active = *self.get_active_immutable();
        let boost = saturating_add8(active.get_boost_from_boost_enum(&i.stat), i.amount);
        active.set_boost(&i.stat, boost);
        self.set_active(active);
    }

    fn reverse_boost(&mut self, i: &BoostInstruction)
        ensures
            *final(self) == old(self).before_boost(*i),
    {
        proof {
            reveal(Side::before_boost);
        }
        let mut active = *self.get_active_immutable();
        let boost = saturating_sub8(active.get_boost_from_boost_enum(&i.stat), i.amount);
        active.set_boost(&i.stat, boost);
        self.set_active(active);
    }

    fn apply_change_side_condition(&mut self, i: &ChangeSideConditionInstruction)
        ensures
            *final(self) == old(self).after_change_side_condition(*i),
    {
        proof {
            reveal(Side::after_change_side_condition);
        }
        let mut conditions = self.side_conditions;
        let value = saturating_add8(conditions.get(i.side_condition), i.amount);
        conditions.set(i.side_condition, value);
        *self = Side { side_conditions: conditions, ..*self };
    }

    fn reverse_change_side_condition(&mut self, i: &ChangeSideConditionInstruction)
        ensures
            *final(self) == old(self).before_change_side_condition(*i),
    {
        proof {
            reveal(Side::before_change_side_condition);
        }
        let mut conditions = self.side_conditions;
        let value = saturating_sub8(conditions.get(i.side_condition), i.amount);
        conditions.set(i.side_condition, value);
        *self = Side { side_conditions: conditions, ..*self };
    }

    fn apply_change_type(&mut self, i: &ChangeType)
        ensures
            *final(self) == old(self).after_change_type(*i),
    {
        proof {
            reveal(Side::after_change_type);
        }
        let active = *self.get_active_immutable();
        self.set_active(Pokemon { types: (i.new_first_type, i.new_second_type), ..active });
    }

    fn reverse_change_type(&mut self, i: &ChangeType)
        ensures
            *final(self) == old(self).before_change_type(*i),
    {
        proof {
            reveal(Side::before_change_type);
        }
        let active = *self.get_active_immutable();
        self.set_active(Pokemon { types: (i.old_first_type, i.old_second_type), ..active });
    }

    fn apply_change_item(&mut self, i: &ChangeItemInstruction)
        ensures
            *final(self) == old(self).after_change_item(*i),
    {
        proof {
            reveal(Side::after_change_item);
        }
        let active = *self.get_active_immutable();
        self.set_active(Pokemon { item: i.new_item, ..active });
    }

    fn reverse_change_item(&mut self, i: &ChangeItemInstruction)
        ensures
            *final(self) == old(self).before_change_item(*i),
    {
        proof {
            reveal(Side::before_change_item);
        }
        let active = *self.get_active_immutable();
        self.set_active(Pokemon { item: i.current_item, ..active });
    }

    fn apply_disable_move(&mut self, i: &DisableMoveInstruction)
        ensures
            *final(self) == old(self).after_disable_move(*i),
    {
        proof {
            reveal(Side::after_disable_move);
        }
        let mut active = *self.get_active_immutable();
        active.set_move_disabled(i.move_index, true);
        self.set_active(active);
    }

    fn reverse_disable_move(&mut self, i: &DisableMoveInstruction)
        ensures
            *final(self) == old(self).before_disable_move(*i),
    {
        proof {
            reveal(Side::before_disable_move);
        }
        let mut active = *self.get_active_immutable();
        active.set_move_disabled(i.move_index, false);
        self.set_active(active);
    }

    fn apply_enable_move(&mut self, i: &EnableMoveInstruction)
        ensures
            *final(self) == old(self).after_enable_move(*i),
    {
        proof {
            reveal(Side::after_enable_move);
        }
        let mut active = *self.get_active_immutable();
        active.set_move_disabled(i.move_index, false);
        self.set_active(active);
    }

    fn reverse_enable_move(&mut self, i: &EnableMoveInstruction)
        ensures
            *final(self) == old(self).before_enable_move(*i),
    {
        proof {
            reveal(Side::before_enable_move);
        }
        let mut active = *self.get_active_immutable();
        active.set_move_disabled(i.move_index, true);
        self.set_active(active);
    }

    fn apply_increment_wish(&mut self, i: &IncrementWishInstruction)
        ensures
            *final(self) == old(self).after_increment_wish(*i),
    {
        proof {
            reveal(Side::after_increment_wish);
        }
        let wish = Wish {
            turns_remaining: saturating_add8(self.wish.turns_remaining, WISH_TURNS),
            heal_amount: saturating_add16(self.wish.heal_amount, i.heal_amount),
        };
        *self = Side { wish: wish, ..*self };
    }

    fn reverse_increment_wish(&mut self, i: &IncrementWishInstruction)
        ensures
            *final(self) == old(self).before_increment_wish(*i),
    {
        proof {
            reveal(Side::before_increment_wish);
        }
        let wish = Wish {
            turns_remaining: saturating_sub8(self.wish.turns_remaining, WISH_TURNS),
            heal_amount: saturating_sub16(self.wish.heal_amount, i.heal_amount),
        };
        *self = Side { wish: wish, ..*self };
    }

    fn apply_decrement_wish(&mut self, i: &DecrementWishInstruction)
        ensures
            *final(self) == old(self).after_decrement_wish(*i),
    {
        proof {
            reveal(Side::after_decrement_wish);
        }
        let wish = Wish {
            turns_remaining: saturating_sub8(self.wish.turns_remaining, 1),
            ..self.wish
        };
        *self = Side { wish: wish, ..*self };
    }

    fn reverse_decrement_wish(&mut self, i: &DecrementWishInstruction)
        ensures
            *final(self) == old(self).before_decrement_wish(*i),
    {
        proof {
            reveal(Side::before_decrement_wish);
        }
        let wish = Wish {
            turns_remaining: saturating_add8(self.wish.turns_remaining, 1),
            ..self.wish
        };
        *self = Side { wish: wish, ..*self };
    }

    fn apply_set_substitute_health(&mut self, i: &SetSubstituteHealthInstruction)
        ensures
            *final(self) == old(self).after_set_substitute_health(*i),
    {
        proof {
            reveal(Side::after_set_substitute_health);
        }
        let active = *self.get_active_immutable();
        self.set_active(Pokemon { substitute_health: i.new_health, ..active });
    }

    fn reverse_set_substitute_health(&mut self, i: &SetSubstituteHealthInstruction)
        ensures
            *final(self) == old(self).before_set_substitute_health(*i),
    {
        proof {
            reveal(Side::before_set_substitute_health);
        }
        let active = *self.get_active_immutable();
        self.set_active(Pokemon { substitute_health: i.previous_health, ..active });
    }

    /// Carries out `instruction` on this side.
    pub fn apply_one_instruction(&mut self, instruction: &Instruction)
        ensures
            *final(self) == old(self).apply_one(*instruction),
    {
        match instruction {
            Instruction::Switch(i) => self.apply_switch(i),
            Instruction::VolatileStatus(i) => self.apply_volatile_status(i),
            Instruction::RemoveVolatileStatus(i) => self.apply_remove_volatile_status(i),
            Instruction::ChangeStatus(i) => self.apply_change_status(i),
            Instruction::Heal(i) => self.apply_heal(i),
            Instruction::Damage(i) => self.apply_damage(i),
            Instruction::Boost(i) => self.apply_boost(i),
            Instruction::ChangeSideCondition(i) => self.apply_change_side_condition(i),
            Instruction::ChangeType(i) => self.apply_change_type(i),
            Instruction::ChangeItem(i) => self.apply_change_item(i),
            Instruction::DisableMove(i) => self.apply_disable_move(i),
            Instruction::EnableMove(i) => self.apply_enable_move(i),
            Instruction::IncrementWish(i) => self.apply_increment_wish(i),
            Instruction::DecrementWish(i) => self.apply_decrement_wish(i),
            Instruction::SetSubstituteHealth(i) => self.apply_set_substitute_health(i),
            Instruction::ChangeWeather(_) => {},
            Instruction::ChangeTerrain(_) => {},
        }
    }

    /// Undoes `instruction` on this side.
    pub fn reverse_one_instruction(&mut self, instruction: &Instruction)
        ensures
            *final(self) == old(self).reverse_one(*instruction),
    {
        match instruction {
            Instruction::Switch(i) => self.reverse_switch(i),
            Instruction::VolatileStatus(i) => self.reverse_volatile_status(i),
            Instruction::RemoveVolatileStatus(i) => self.reverse_remove_volatile_status(i),
            Instruction::ChangeStatus(i) => self.reverse_change_status(i),
            Instruction::Heal(i) => self.reverse_heal(i),
            Instruction::Damage(i) => self.reverse_damage(i),
            Instruction::Boost(i) => self.reverse_boost(i),
            Instruction::ChangeSideCondition(i) => self.reverse_change_side_condition(i),
            Instruction::ChangeType(i) => self.reverse_change_type(i),
            Instruction::ChangeItem(i) => self.reverse_change_item(i),
            Instruction::DisableMove(i) => self.reverse_disable_move(i),
            Instruction::EnableMove(i) => self.reverse_enable_move(i),
            Instruction::IncrementWish(i) => self.reverse_increment_wish(i),
            Instruction::DecrementWish(i) => self.reverse_decrement_wish(i),
            Instruction::SetSubstituteHealth(i) => self.reverse_set_substitute_health(i),
            Instruction::ChangeWeather(_) => {},
            Instruction::ChangeTerrain(_) => {},
        }
    }
}

impl State {
    fn apply_on_side(&mut self, side_ref: &SideReference, instruction: &Instruction)
        requires
            instruction.side() == Some(*side_ref),
        ensures
            *final(self) == old(self).apply_one(*instruction),
    {
        let mut side = *self.get_side_immutable(side_ref);
        side.apply_one_instruction(instruction);
        self.set_side(side_ref, side);
    }

    fn apply_on_field(&mut self, instruction: &Instruction)
        requires
            instruction.side().is_none(),
        ensures
            *final(self) == old(self).apply_one(*instruction),
    {
        match instruction {
            Instruction::ChangeWeather(i) => {
                let weather = StateWeather {
                    weather_type: i.new_weather,
                    turns_remaining: i.new_weather_turns_remaining,
                };
                *self = State { weather: weather, ..*self };
            },
            Instruction::ChangeTerrain(i) => {
                let terrain = StateTerrain {
                    terrain_type: i.new_terrain,
                    turns_remaining: i.new_terrain_turns_remaining,
                };
                *self = State { terrain: terrain, ..*self };
            },
            _ => {},
        }
    }

    /// Carries out `instruction`.
    pub fn apply_one_instruction(&mut self, instruction: &Instruction)
        ensures
            *final(self) == old(self).apply_one(*instruction),
    {
        match instruction.get_side() {
            Some(side_ref) => self.apply_on_side(&side_ref, instruction),
            None => self.apply_on_field(instruction),
        }
    }

    fn reverse_on_side(&mut self, side_ref: &SideReference, instruction: &Instruction)
        requires
            instruction.side() == Some(*side_ref),
        ensures
            *final(self) == old(self).reverse_one(*instruction),
    {
        let mut side = *self.get_side_immutable(side_ref);
        side.reverse_one_instruction(instruction);
        self.set_side(side_ref, side);
    }

    fn reverse_on_field(&mut self, instruction: &Instruction)
        requires
            instruction.side().is_none(),
        ensures
            *final(self) == old(self).reverse_one(*instruction),
    {
        match instruction {
            Instruction::ChangeWeather(i) => {
                let weather = StateWeather {
                    weather_type: i.previous_weather,
                    turns_remaining: i.previous_weather_turns_remaining,
                };
                *self = State { weather: weather, ..*self };
            },
            Instruction::ChangeTerrain(i) => {
                let terrain = StateTerrain {
                    terrain_type: i.previous_terrain,
                    turns_remaining: i.previous_terrain_turns_remaining,
                };
                *self = State { terrain: terrain, ..*self };
            },
            _ => {},
        }
    }

    /// Undoes `instruction`.
    pub fn reverse_one_instruction(&mut self, instruction: &Instruction)
        ensures
            *final(self) == old(self).reverse_one(*instruction),
    {
        match instruction.get_side() {
            Some(side_ref) => self.reverse_on_side(&side_ref, instruction),
            None => self.reverse_on_field(instruction),
        }
    }

    /// Carries out the instructions of `list`, first to last.
    pub fn apply_instructions(&mut self, list: &Vec<Instruction>)
        ensures
            *final(self) == old(self).apply_all(list@),
    {
        let mut i: usize = 0;
        while i < list.len()
            invariant
                i <= list.len(),
                *self == old(self).apply_all(list@.take(i as int)),
            decreases list.len() - i,
        {
            assert(list@.take(i + 1).drop_last() =~= list@.take(i as int));
            self.apply_one_instruction(&list[i]);
            i += 1;
        }
        assert(list@.take(list.len() as int) =~= list@);
    }

    /// Undoes the instructions of `list`, last to first.
    pub fn reverse_instructions(&mut self, list: &Vec<Instruction>)
        ensures
            *final(self) == old(self).reverse_all(list@),
    {
        let mut i: usize = list.len();
        assert(list@.take(list.len() as int) =~= list@);
        while i > 0
            invariant
                i <= list.len(),
                self.reverse_all(list@.take(i as int)) == old(self).reverse_all(list@),
            decreases i,
        {
            assert(list@.take(i as int).drop_last() =~= list@.take(i - 1));
            i -= 1;
            self.reverse_one_instruction(&list[i]);
        }
    }
}

} // verus!
