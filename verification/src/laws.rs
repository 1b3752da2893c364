//! The laws of applying and undoing: a list of instructions that fits a
//! state is undone exactly by its reverse, and leaves a state in bounds in
//! bounds.

use vstd::prelude::*;
use crate::instruction::{
    BoostInstruction, ChangeItemInstruction, ChangeSideConditionInstruction,
    ChangeStatusInstruction, ChangeType, DamageInstruction, DecrementWishInstruction,
    DisableMoveInstruction, EnableMoveInstruction, HealInstruction, IncrementWishInstruction,
    Instruction, SetSubstituteHealthInstruction, SwitchInstruction, VolatileStatusInstruction,
};
use crate::accessors::{
    boost_in_bounds, boost_read_after_set, boost_read_other_after_set, boost_set_same,
    boost_set_twice, condition_set_and_read,
};
use crate::state::{
    clip8, PokemonBoostableStat, PokemonIndex, PokemonSideCondition, Side, State,
};

verus! {

proof fn switch_is_undone(side: Side, i: SwitchInstruction)
    requires
        side.fits_switch(i),
    ensures
        side.after_switch(i).before_switch(i) == side,
{
    reveal(Side::after_switch);
    reveal(Side::before_switch);
    reveal(Side::fits_switch);
    let back = side.after_switch(i).before_switch(i);
    assert(back.pokemon =~= side.pokemon);
}

proof fn switch_keeps_bounds(side: Side, i: SwitchInstruction)
    requires
        side.in_bounds(),
        side.fits_switch(i),
    ensures
        side.after_switch(i).in_bounds(),
{
    reveal(Side::after_switch);
    reveal(Side::fits_switch);
    let after = side.after_switch(i);
    assert forall|index: PokemonIndex| (#[trigger] after.at(index)).in_bounds() by {
        assert(side.at(index).in_bounds());
    }
}

proof fn volatile_status_is_undone(side: Side, i: VolatileStatusInstruction)
    requires
        side.fits_volatile_status(i),
    ensures
        side.after_volatile_status(i).before_volatile_status(i) == side,
{
    reveal(Side::after_volatile_status);
    reveal(Side::before_volatile_status);
    reveal(Side::fits_volatile_status);
    let back = side.after_volatile_status(i).before_volatile_status(i);
    assert(back.pokemon =~= side.pokemon);
}

proof fn volatile_status_keeps_bounds(side: Side, i: VolatileStatusInstruction)
    requires
        side.in_bounds(),
        side.fits_volatile_status(i),
    ensures
        side.after_volatile_status(i).in_bounds(),
{
    reveal(Side::after_volatile_status);
    reveal(Side::fits_volatile_status);
    let after = side.after_volatile_status(i);
    assert forall|index: PokemonIndex| (#[trigger] after.at(index)).in_bounds() by {
        assert(side.at(index).in_bounds());
    }
}

proof fn remove_volatile_status_is_undone(side: Side, i: VolatileStatusInstruction)
    requires
        side.fits_remove_volatile_status(i),
    ensures
        side.after_remove_volatile_status(i).before_remove_volatile_status(i) == side,
{
    reveal(Side::after_remove_volatile_status);
    reveal(Side::before_remove_volatile_status);
    reveal(Side::fits_remove_volatile_status);
    let back = side.after_remove_volatile_status(i).before_remove_volatile_status(i);
    assert(back.pokemon =~= side.pokemon);
}

proof fn remove_volatile_status_keeps_bounds(side: Side, i: VolatileStatusInstruction)
    requires
        side.in_bounds(),
        side.fits_remove_volatile_status(i),
    ensures
        side.after_remove_volatile_status(i).in_bounds(),
{
    reveal(Side::after_remove_volatile_status);
    reveal(Side::fits_remove_volatile_status);
    let after = side.after_remove_volatile_status(i);
    assert forall|index: PokemonIndex| (#[trigger] after.at(index)).in_bounds() by {
        assert(side.at(index).in_bounds());
    }
}

proof fn change_status_is_undone(side: Side, i: ChangeStatusInstruction)
    requires
        side.fits_change_status(i),
    ensures
        side.after_change_status(i).before_change_status(i) == side,
{
    reveal(Side::after_change_status);
    reveal(Side::before_change_status);
    reveal(Side::fits_change_status);
    let back = side.after_change_status(i).before_change_status(i);
    assert(back.pokemon =~= side.pokemon);
}

proof fn change_status_keeps_bounds(side: Side, i: ChangeStatusInstruction)
    requires
        side.in_bounds(),
        side.fits_change_status(i),
    ensures
        side.after_change_status(i).in_bounds(),
{
    reveal(Side::after_change_status);
    reveal(Side::fits_change_status);
    let after = side.after_change_status(i);
    assert forall|index: PokemonIndex| (#[trigger] after.at(index)).in_bounds() by {
        assert(side.at(index).in_bounds());
    }
}

proof fn heal_is_undone(side: Side, i: HealInstruction)
    requires
        side.fits_heal(i),
    ensures
        side.after_heal(i).before_heal(i) == side,
{
    reveal(Side::after_heal);
    reveal(Side::before_heal);
    reveal(Side::fits_heal);
    let back = side.after_heal(i).before_heal(i);
    assert(back.pokemon =~= side.pokemon);
}

proof fn heal_keeps_bounds(side: Side, i: HealInstruction)
    requires
        side.in_bounds(),
        side.fits_heal(i),
    ensures
        side.after_heal(i).in_bounds(),
{
    reveal(Side::after_heal);
    reveal(Side::fits_heal);
    let after = side.after_heal(i);
    assert forall|index: PokemonIndex| (#[trigger] after.at(index)).in_bounds() by {
        assert(side.at(index).in_bounds());
    }
}

proof fn damage_is_undone(side: Side, i: DamageInstruction)
    requires
        side.fits_damage(i),
    ensures
        side.after_damage(i).before_damage(i) == side,
{
    reveal(Side::after_damage);
    reveal(Side::before_damage);
    reveal(Side::fits_damage);
    let back = side.after_damage(i).before_damage(i);
    assert(back.pokemon =~= side.pokemon);
}

proof fn damage_keeps_bounds(side: Side, i: DamageInstruction)
    requires
        side.in_bounds(),
        side.fits_damage(i),
    ensures
        side.after_damage(i).in_bounds(),
{
    reveal(Side::after_damage);
    reveal(Side::fits_damage);
    let after = side.after_damage(i);
    assert forall|index: PokemonIndex| (#[trigger] after.at(index)).in_bounds() by {
        assert(side.at(index).in_bounds());
    }
}

proof fn boost_is_undone(side: Side, i: BoostInstruction)
    requires
        side.fits_boost(i),
    ensures
        side.after_boost(i).before_boost(i) == side,
{
    reveal(Side::after_boost);
    reveal(Side::before_boost);
    reveal(Side::fits_boost);
    let back = side.after_boost(i).before_boost(i);
    let active = side.active();
    boost_read_after_set(active, i.stat, clip8(active.boost(i.stat) + i.amount));
    boost_set_twice(
        active,
        i.stat,
        clip8(active.boost(i.stat) + i.amount),
        active.boost(i.stat),
    );
    boost_set_same(active, i.stat);
    assert(back.pokemon =~= side.pokemon);
}

proof fn boost_keeps_bounds(side: Side, i: BoostInstruction)
    requires
        side.in_bounds(),
        side.fits_boost(i),
    ensures
        side.after_boost(i).in_bounds(),
{
    reveal(Side::after_boost);
    reveal(Side::fits_boost);
    let after = side.after_boost(i);
    let active = side.active();
    let value = clip8(active.boost(i.stat) + i.amount);
    boost_read_after_set(active, i.stat, value);
    assert forall|index: PokemonIndex| (#[trigger] after.at(index)).in_bounds() by {
        assert(side.at(index).in_bounds());
        if index == side.active_index {
            let raised = active.with_boost(i.stat, value);
            assert(after.at(index) == raised);
            assert forall|other: PokemonBoostableStat| other != i.stat implies raised.boost(other)
                == active.boost(other) by {
                boost_read_other_after_set(active, i.stat, value, other);
            }
            assert(boost_in_bounds(raised.boost(PokemonBoostableStat::Attack)));
            assert(boost_in_bounds(raised.boost(PokemonBoostableStat::Defense)));
            assert(boost_in_bounds(raised.boost(PokemonBoostableStat::SpecialAttack)));
            assert(boost_in_bounds(raised.boost(PokemonBoostableStat::SpecialDefense)));
            assert(boost_in_bounds(raised.boost(PokemonBoostableStat::Speed)));
            assert(boost_in_bounds(raised.boost(PokemonBoostableStat::Evasion)));
            assert(boost_in_bounds(raised.boost(PokemonBoostableStat::Accuracy)));
        }
    }
}

proof fn change_side_condition_is_undone(side: Side, i: ChangeSideConditionInstruction)
    requires
        side.fits_change_side_condition(i),
    ensures
        side.after_change_side_condition(i).before_change_side_condition(i) == side,
{
    reveal(Side::after_change_side_condition);
    reveal(Side::before_change_side_condition);
    reveal(Side::fits_change_side_condition);
    let back = side.after_change_side_condition(i).before_change_side_condition(i);
    condition_set_and_read(
        side.side_conditions,
        i.side_condition,
        clip8(side.side_conditions.value(i.side_condition) + i.amount),
    );
    assert(back.pokemon =~= side.pokemon);
}

proof fn change_side_condition_keeps_bounds(side: Side, i: ChangeSideConditionInstruction)
    requires
        side.in_bounds(),
        side.fits_change_side_condition(i),
    ensures
        side.after_change_side_condition(i).in_bounds(),
{
    reveal(Side::after_change_side_condition);
    reveal(Side::fits_change_side_condition);
    let after = side.after_change_side_condition(i);
    condition_set_and_read(
        side.side_conditions,
        i.side_condition,
        clip8(side.side_conditions.value(i.side_condition) + i.amount),
    );
    assert forall|condition: PokemonSideCondition|
        0 <= #[trigger] after.side_conditions.value(condition) <= condition.cap() by {
        assert(0 <= side.side_conditions.value(condition) <= condition.cap());
    }
    assert forall|index: PokemonIndex| (#[trigger] after.at(index)).in_bounds() by {
        assert(side.at(index).in_bounds());
    }
}

proof fn change_type_is_undone(side: Side, i: ChangeType)
    requires
        side.fits_change_type(i),
    ensures
        side.after_change_type(i).before_change_type(i) == side,
{
    reveal(Side::after_change_type);
    reveal(Side::before_change_type);
    reveal(Side::fits_change_type);
    let back = side.after_change_type(i).before_change_type(i);
    assert(back.pokemon =~= side.pokemon);
}

proof fn change_type_keeps_bounds(side: Side, i: ChangeType)
    requires
        side.in_bounds(),
        side.fits_change_type(i),
    ensures
        side.after_change_type(i).in_bounds(),
{
    reveal(Side::after_change_type);
    reveal(Side::fits_change_type);
    let after = side.after_change_type(i);
    assert forall|index: PokemonIndex| (#[trigger] after.at(index)).in_bounds() by {
        assert(side.at(index).in_bounds());
    }
}

proof fn change_item_is_undone(side: Side, i: ChangeItemInstruction)
    requires
        side.fits_change_item(i),
    ensures
        side.after_change_item(i).before_change_item(i) == side,
{
    reveal(Side::after_change_item);
    reveal(Side::before_change_item);
    reveal(Side::fits_change_item);
    let back = side.after_change_item(i).before_change_item(i);
    assert(back.pokemon =~= side.pokemon);
}

proof fn change_item_keeps_bounds(side: Side, i: ChangeItemInstruction)
    requires
        side.in_bounds(),
        side.fits_change_item(i),
    ensures
        side.after_change_item(i).in_bounds(),
{
    reveal(Side::after_change_item);
    reveal(Side::fits_change_item);
    let after = side.after_change_item(i);
    assert forall|index: PokemonIndex| (#[trigger] after.at(index)).in_bounds() by {
        assert(side.at(index).in_bounds());
    }
}

proof fn disable_move_is_undone(side: Side, i: DisableMoveInstruction)
    requires
        side.fits_disable_move(i),
    ensures
        side.after_disable_move(i).before_disable_move(i) == side,
{
    reveal(Side::after_disable_move);
    reveal(Side::before_disable_move);
    reveal(Side::fits_disable_move);
    let back = side.after_disable_move(i).before_disable_move(i);
    assert(back.active().moves =~= side.active().moves);
    assert(back.pokemon =~= side.pokemon);
}

proof fn disable_move_keeps_bounds(side: Side, i: DisableMoveInstruction)
    requires
        side.in_bounds(),
        side.fits_disable_move(i),
    ensures
        side.after_disable_move(i).in_bounds(),
{
    reveal(Side::after_disable_move);
    reveal(Side::fits_disable_move);
    let after = side.after_disable_move(i);
    assert forall|index: PokemonIndex| (#[trigger] after.at(index)).in_bounds() by {
        assert(side.at(index).in_bounds());
    }
}

proof fn enable_move_is_undone(side: Side, i: EnableMoveInstruction)
    requires
        side.fits_enable_move(i),
    ensures
        side.after_enable_move(i).before_enable_move(i) == side,
{
    reveal(Side::after_enable_move);
    reveal(Side::before_enable_move);
    reveal(Side::fits_enable_move);
    let back = side.after_enable_move(i).before_enable_move(i);
    assert(back.active().moves =~= side.active().moves);
    assert(back.pokemon =~= side.pokemon);
}

proof fn enable_move_keeps_bounds(side: Side, i: EnableMoveInstruction)
    requires
        side.in_bounds(),
        side.fits_enable_move(i),
    ensures
        side.after_enable_move(i).in_bounds(),
{
    reveal(Side::after_enable_move);
    reveal(Side::fits_enable_move);
    let after = side.after_enable_move(i);
    assert forall|index: PokemonIndex| (#[trigger] after.at(index)).in_bounds() by {
        assert(side.at(index).in_bounds());
    }
}

proof fn increment_wish_is_undone(side: Side, i: IncrementWishInstruction)
    requires
        side.fits_increment_wish(i),
    ensures
        side.after_increment_wish(i).before_increment_wish(i) == side,
{
    reveal(Side::after_increment_wish);
    reveal(Side::before_increment_wish);
    reveal(Side::fits_increment_wish);
    let back = side.after_increment_wish(i).before_increment_wish(i);
    assert(back.pokemon =~= side.pokemon);
}

proof fn increment_wish_keeps_bounds(side: Side, i: IncrementWishInstruction)
    requires
        side.in_bounds(),
        side.fits_increment_wish(i),
    ensures
        side.after_increment_wish(i).in_bounds(),
{
    reveal(Side::after_increment_wish);
    reveal(Side::fits_increment_wish);
    let after = side.after_increment_wish(i);
    assert forall|index: PokemonIndex| (#[trigger] after.at(index)).in_bounds() by {
        assert(side.at(index).in_bounds());
    }
}

proof fn decrement_wish_is_undone(side: Side, i: DecrementWishInstruction)
    requires
        side.fits_decrement_wish(i),
    ensures
        side.after_decrement_wish(i).before_decrement_wish(i) == side,
{
    reveal(Side::after_decrement_wish);
    reveal(Side::before_decrement_wish);
    reveal(Side::fits_decrement_wish);
    let back = side.after_decrement_wish(i).before_decrement_wish(i);
    assert(back.pokemon =~= side.pokemon);
}

proof fn decrement_wish_keeps_bounds(side: Side, i: DecrementWishInstruction)
    requires
        side.in_bounds(),
        side.fits_decrement_wish(i),
    ensures
        side.after_decrement_wish(i).in_bounds(),
{
    reveal(Side::after_decrement_wish);
    reveal(Side::fits_decrement_wish);
    let after = side.after_decrement_wish(i);
    assert forall|index: PokemonIndex| (#[trigger] after.at(index)).in_bounds() by {
        assert(side.at(index).in_bounds());
    }
}

proof fn set_substitute_health_is_undone(side: Side, i: SetSubstituteHealthInstruction)
    requires
        side.fits_set_substitute_health(i),
    ensures
        side.after_set_substitute_health(i).before_set_substitute_health(i) == side,
{
    reveal(Side::after_set_substitute_health);
    reveal(Side::before_set_substitute_health);
    reveal(Side::fits_set_substitute_health);
    let back = side.after_set_substitute_health(i).before_set_substitute_health(i);
    assert(back.pokemon =~= side.pokemon);
}

proof fn set_substitute_health_keeps_bounds(side: Side, i: SetSubstituteHealthInstruction)
    requires
        side.in_bounds(),
        side.fits_set_substitute_health(i),
    ensures
        side.after_set_substitute_health(i).in_bounds(),
{
    reveal(Side::after_set_substitute_health);
    reveal(Side::fits_set_substitute_health);
    let after = side.after_set_substitute_health(i);
    assert forall|index: PokemonIndex| (#[trigger] after.at(index)).in_bounds() by {
        assert(side.at(index).in_bounds());
    }
}

/// An instruction that fits a side is undone exactly by its reverse.
pub proof fn side_reverse_undoes_apply(side: Side, instruction: Instruction)
    requires
        instruction.side().is_some(),
        side.applicable(instruction),
    ensures
        side.apply_one(instruction).reverse_one(instruction) == side,
{
    match instruction {
        Instruction::Switch(i) => switch_is_undone(side, i),
        Instruction::VolatileStatus(i) => volatile_status_is_undone(side, i),
        Instruction::RemoveVolatileStatus(i) => remove_volatile_status_is_undone(side, i),
        Instruction::ChangeStatus(i) => change_status_is_undone(side, i),
        Instruction::Heal(i) => heal_is_undone(side, i),
        Instruction::Damage(i) => damage_is_undone(side, i),
        Instruction::Boost(i) => boost_is_undone(side, i),
        Instruction::ChangeSideCondition(i) => change_side_condition_is_undone(side, i),
        Instruction::ChangeType(i) => change_type_is_undone(side, i),
        Instruction::ChangeItem(i) => change_item_is_undone(side, i),
        Instruction::DisableMove(i) => disable_move_is_undone(side, i),
        Instruction::EnableMove(i) => enable_move_is_undone(side, i),
        Instruction::IncrementWish(i) => increment_wish_is_undone(side, i),
        Instruction::DecrementWish(i) => decrement_wish_is_undone(side, i),
        Instruction::SetSubstituteHealth(i) => set_substitute_health_is_undone(side, i),
        Instruction::ChangeWeather(_) => {},
        Instruction::ChangeTerrain(_) => {},
    }
}

/// An instruction that fits a state is undone exactly by its reverse:
/// applying it and then reversing it gives the state back.
pub proof fn reverse_undoes_apply(state: State, instruction: Instruction)
    requires
        state.applicable(instruction),
    ensures
        state.apply_one(instruction).reverse_one(instruction) == state,
{
    if instruction.side().is_some() {
        side_reverse_undoes_apply(state.side(instruction.side().unwrap()), instruction);
    }
}

/// A list of instructions that fits a state is undone exactly by its
/// reverse: applying the list first to last and then reversing it last to
/// first gives the state back.
pub proof fn reverse_all_undoes_apply_all(state: State, list: Seq<Instruction>)
    requires
        state.all_applicable(list),
    ensures
        state.apply_all(list).reverse_all(list) == state,
    decreases list.len(),
{
    if list.len() > 0 {
        reverse_undoes_apply(state.apply_all(list.drop_last()), list.last());
        reverse_all_undoes_apply_all(state, list.drop_last());
    }
}

/// An instruction that fits a side in bounds leaves it in bounds.
pub proof fn side_apply_keeps_bounds(side: Side, instruction: Instruction)
    requires
        instruction.side().is_some(),
        side.in_bounds(),
        side.applicable(instruction),
    ensures
        side.apply_one(instruction).in_bounds(),
{
    match instruction {
        Instruction::Switch(i) => switch_keeps_bounds(side, i),
        Instruction::VolatileStatus(i) => volatile_status_keeps_bounds(side, i),
        Instruction::RemoveVolatileStatus(i) => remove_volatile_status_keeps_bounds(side, i),
        Instruction::ChangeStatus(i) => change_status_keeps_bounds(side, i),
        Instruction::Heal(i) => heal_keeps_bounds(side, i),
        Instruction::Damage(i) => damage_keeps_bounds(side, i),
        Instruction::Boost(i) => boost_keeps_bounds(side, i),
        Instruction::ChangeSideCondition(i) => change_side_condition_keeps_bounds(side, i),
        Instruction::ChangeType(i) => change_type_keeps_bounds(side, i),
        Instruction::ChangeItem(i) => change_item_keeps_bounds(side, i),
        Instruction::DisableMove(i) => disable_move_keeps_bounds(side, i),
        Instruction::EnableMove(i) => enable_move_keeps_bounds(side, i),
        Instruction::IncrementWish(i) => increment_wish_keeps_bounds(side, i),
        Instruction::DecrementWish(i) => decrement_wish_keeps_bounds(side, i),
        Instruction::SetSubstituteHealth(i) => set_substitute_health_keeps_bounds(side, i),
        Instruction::ChangeWeather(_) => {},
        Instruction::ChangeTerrain(_) => {},
    }
}

/// An instruction that fits a state in bounds leaves it in bounds: no hit
/// points below zero or above the maximum, no stage outside of -6 to +6,
/// no layer above its cap.
pub proof fn apply_keeps_bounds(state: State, instruction: Instruction)
    requires
        state.in_bounds(),
        state.applicable(instruction),
    ensures
        state.apply_one(instruction).in_bounds(),
{
    if instruction.side().is_some() {
        side_apply_keeps_bounds(state.side(instruction.side().unwrap()), instruction);
    }
}

/// A list of instructions that fits a state in bounds leaves it in bounds.
pub proof fn apply_all_keeps_bounds(state: State, list: Seq<Instruction>)
    requires
        state.in_bounds(),
        state.all_applicable(list),
    ensures
        state.apply_all(list).in_bounds(),
    decreases list.len(),
{
    if list.len() > 0 {
        apply_all_keeps_bounds(state, list.drop_last());
        apply_keeps_bounds(state.apply_all(list.drop_last()), list.last());
    }
}

/// Applying two lists one after the other is applying their concatenation,
/// and the concatenation fits where the first list fits the state and the
/// second one the state that the first leads to.
pub proof fn apply_all_concat(state: State, first: Seq<Instruction>, second: Seq<Instruction>)
    ensures
        state.apply_all(first + second) == state.apply_all(first).apply_all(second),
        state.all_applicable(first + second) == (state.all_applicable(first) && state.apply_all(
            first,
        ).all_applicable(second)),
    decreases second.len(),
{
    if second.len() == 0 {
        assert(first + second =~= first);
    } else {
        assert((first + second).drop_last() =~= first + second.drop_last());
        assert((first + second).last() == second.last());
        apply_all_concat(state, first, second.drop_last());
    }
}

/// Applying a list with one more instruction at its end is applying the
/// list and then the instruction.
pub proof fn apply_all_push(state: State, list: Seq<Instruction>, instruction: Instruction)
    ensures
        state.apply_all(list.push(instruction)) == state.apply_all(list).apply_one(instruction),
        state.all_applicable(list.push(instruction)) == (state.all_applicable(list)
            && state.apply_all(list).applicable(instruction)),
{
    assert(list.push(instruction).drop_last() =~= list);
}

} // verus!
