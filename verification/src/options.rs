//! What the sides can choose in a state, and whether the battle is over.

use vstd::prelude::*;
use crate::choices::Choices;
use crate::evaluate::alive_count;
use crate::state::{
    LastUsedMove, MoveChoice, Pokemon, PokemonIndex, PokemonMoveIndex, Side, SideReference, State,
};

verus! {

/// The choice of the move at the place `index`, where the creature has a
/// move there that is not disabled.
pub open spec fn move_option(pokemon: Pokemon, index: PokemonMoveIndex) -> Seq<MoveChoice> {
    let slot = pokemon.move_at(index);
    if slot.id != Choices::NONE && !slot.disabled {
        seq![MoveChoice::Move(index)]
    } else {
        Seq::empty()
    }
}

/// The moves that a creature can choose, in the order of its moves.
pub open spec fn move_options(pokemon: Pokemon) -> Seq<MoveChoice> {
    move_option(pokemon, PokemonMoveIndex::M0) + move_option(pokemon, PokemonMoveIndex::M1)
        + move_option(pokemon, PokemonMoveIndex::M2) + move_option(pokemon, PokemonMoveIndex::M3)
}

/// The choice of the switch to the place `index`, where a living creature
/// that is not the active one stands there.
pub open spec fn switch_option(side: Side, index: PokemonIndex) -> Seq<MoveChoice> {
    if index != side.active_index && side.at(index).hp > 0 {
        seq![MoveChoice::Switch(index)]
    } else {
        Seq::empty()
    }
}

/// The switches that a side can choose, in the order of its creatures.
pub open spec fn switch_options(side: Side) -> Seq<MoveChoice> {
    switch_option(side, PokemonIndex::P0) + switch_option(side, PokemonIndex::P1) + switch_option(
        side,
        PokemonIndex::P2,
    ) + switch_option(side, PokemonIndex::P3) + switch_option(side, PokemonIndex::P4)
        + switch_option(side, PokemonIndex::P5)
}

/// `options`, or the choice of nothing where there is no option.
pub open spec fn or_nothing(options: Seq<MoveChoice>) -> Seq<MoveChoice> {
    if options.len() == 0 {
        seq![MoveChoice::NONE]
    } else {
        options
    }
}

/// What a side can choose: a side whose active creature has fainted must
/// switch; a side that faces a fainted creature waits; any other side can
/// use a move of its active creature or switch.
pub open spec fn side_options(s: State, side_ref: SideReference) -> Seq<MoveChoice> {
    let side = s.side(side_ref);
    if side.active().hp <= 0 {
        or_nothing(switch_options(side))
    } else if s.side(side_ref.other()).active().hp <= 0 {
        seq![MoveChoice::NONE]
    } else {
        or_nothing(move_options(side.active()) + switch_options(side))
    }
}

/// The result of the battle so far: 1 where the second side has no living
/// creature, else -1 where the first side has none, else 0.
pub open spec fn battle_result(s: State) -> int {
    if alive_count(s.side_two) == 0 {
        1
    } else if alive_count(s.side_one) == 0 {
        -1
    } else {
        0
    }
}

fn push_move_option(options: &mut Vec<MoveChoice>, pokemon: &Pokemon, index: PokemonMoveIndex)
    ensures
        final(options)@ == old(options)@ + move_option(*pokemon, index),
{
    let slot = pokemon.get_move(index);
    if slot.id != Choices::NONE && !slot.disabled {
        options.push(MoveChoice::Move(index));
    }
    assert(options@ =~= old(options)@ + move_option(*pokemon, index));
}

fn push_switch_option(options: &mut Vec<MoveChoice>, side: &Side, index: PokemonIndex)
    ensures
        final(options)@ == old(options)@ + switch_option(*side, index),
{
    if index != side.active_index && side.get_pokemon(index).hp > 0 {
        options.push(MoveChoice::Switch(index));
    }
    assert(options@ =~= old(options)@ + switch_option(*side, index));
}

fn push_switch_options(options: &mut Vec<MoveChoice>, side: &Side)
    ensures
        final(options)@ == old(options)@ + switch_options(*side),
{
    push_switch_option(options, side, PokemonIndex::P0);
    push_switch_option(options, side, PokemonIndex::P1);
    push_switch_option(options, side, PokemonIndex::P2);
    push_switch_option(options, side, PokemonIndex::P3);
    push_switch_option(options, side, PokemonIndex::P4);
    push_switch_option(options, side, PokemonIndex::P5);
    assert(options@ =~= old(options)@ + (switch_option(*side, PokemonIndex::P0) + switch_option(
        *side,
        PokemonIndex::P1,
    ) + switch_option(*side, PokemonIndex::P2) + switch_option(*side, PokemonIndex::P3)
        + switch_option(*side, PokemonIndex::P4) + switch_option(*side, PokemonIndex::P5)));
}

fn alive(side: &Side, index: PokemonIndex) -> (r: bool)
    ensures
        r == (crate::evaluate::alive_at(*side, index) == 1),
        !r == (crate::evaluate::alive_at(*side, index) == 0),
{
    side.get_pokemon(index).hp > 0
}

fn has_alive(side: &Side) -> (r: bool)
    ensures
        r == (alive_count(*side) > 0),
{
    alive(side, PokemonIndex::P0) || alive(side, PokemonIndex::P1) || alive(
        side,
        PokemonIndex::P2,
    ) || alive(side, PokemonIndex::P3) || alive(side, PokemonIndex::P4) || alive(
        side,
        PokemonIndex::P5,
    )
}

impl Pokemon {
    /// Puts the moves that this creature can choose at the end of
    /// `options`.
    pub fn add_available_moves(&self, options: &mut Vec<MoveChoice>, last_used_move: &LastUsedMove)
        ensures
            final(options)@ == old(options)@ + move_options(*self),
    {
        push_move_option(options, self, PokemonMoveIndex::M0);
        push_move_option(options, self, PokemonMoveIndex::M1);
        push_move_option(options, self, PokemonMoveIndex::M2);
        push_move_option(options, self, PokemonMoveIndex::M3);
        assert(options@ =~= old(options)@ + (move_option(*self, PokemonMoveIndex::M0)
            + move_option(*self, PokemonMoveIndex::M1) + move_option(*self, PokemonMoveIndex::M2)
            + move_option(*self, PokemonMoveIndex::M3)));
    }
}

impl State {
    /// Whether the battle is over, and for whom: 1 where the second side
    /// has no living creature, else -1 where the first side has none, else
    /// 0.
    pub fn battle_is_over(&self) -> (r: i8)
        ensures
            r == battle_result(*self),
    {
        if !has_alive(&self.side_two) {
            1
        } else if !has_alive(&self.side_one) {
            -1
        } else {
            0
        }
    }

    fn get_side_options(&self, side_ref: SideReference) -> (r: Vec<MoveChoice>)
        ensures
            r@ == side_options(*self, side_ref),
            0 < r.len() <= 10,
    {
        let side = self.get_side_immutable(&side_ref);
        let other = self.get_side_immutable(&side_ref.get_other_side());
        let mut options: Vec<MoveChoice> = Vec::new();
        if side.get_active_immutable().hp <= 0 {
            push_switch_options(&mut options, side);
        } else if other.get_active_immutable().hp <= 0 {
        } else {
            side.get_active_immutable().add_available_moves(&mut options, &side.last_used_move);
            push_switch_options(&mut options, side);
        }
        if options.len() == 0 {
            options.push(MoveChoice::NONE);
        }
        assert(options@ =~= side_options(*self, side_ref));
        options
    }

    /// What the first side can choose, and what the second side can
    /// choose. Neither list is empty: a side that has nothing to choose
    /// from can choose nothing.
    pub fn get_all_options(&self) -> (r: (Vec<MoveChoice>, Vec<MoveChoice>))
        ensures
            r.0@ == side_options(*self, SideReference::SideOne),
            r.1@ == side_options(*self, SideReference::SideTwo),
            0 < r.0.len() <= 10,
            0 < r.1.len() <= 10,
    {
        (
            self.get_side_options(SideReference::SideOne),
            self.get_side_options(SideReference::SideTwo),
        )
    }
}

/// The switches to all six places.
pub open spec fn all_switches() -> Seq<MoveChoice> {
    seq![
        MoveChoice::Switch(PokemonIndex::P0),
        MoveChoice::Switch(PokemonIndex::P1),
        MoveChoice::Switch(PokemonIndex::P2),
        MoveChoice::Switch(PokemonIndex::P3),
        MoveChoice::Switch(PokemonIndex::P4),
        MoveChoice::Switch(PokemonIndex::P5),
    ]
}

/// The options of `options` that are no switches.
pub open spec fn without_switches(options: Seq<MoveChoice>) -> Seq<MoveChoice> {
    options.filter(|option: MoveChoice| !(option is Switch))
}

/// What a side can choose as a player sees it: before the battle, one of
/// its six creatures; in a slow turn of a switching move, a move of its
/// active creature; else what `side_options` gives, without the switches
/// where the side is trapped.
pub open spec fn shown_options(s: State, side_ref: SideReference) -> Seq<MoveChoice> {
    let side = s.side(side_ref);
    if s.team_preview {
        all_switches()
    } else if side.slow_uturn_move {
        move_options(side.active())
    } else if side.force_trapped {
        without_switches(side_options(s, side_ref))
    } else {
        side_options(s, side_ref)
    }
}

fn remove_switches(options: &Vec<MoveChoice>) -> (r: Vec<MoveChoice>)
    ensures
        r@ == without_switches(options@),
        r.len() <= options.len(),
{
    let mut kept: Vec<MoveChoice> = Vec::new();
    let mut i: usize = 0;
    while i < options.len()
        invariant
            i <= options.len(),
            kept.len() <= i,
            kept@ == without_switches(options@.take(i as int)),
        decreases options.len() - i,
    {
        proof {
            assert(options@.take(i + 1).drop_last() =~= options@.take(i as int));
            reveal(Seq::filter);
        }
        match options[i] {
            MoveChoice::Switch(_) => {},
            _ => {
                kept.push(options[i]);
            },
        }
        i += 1;
    }
    assert(options@.take(options.len() as int) =~= options@);
    kept
}

fn get_shown_options(state: &State, side_ref: SideReference) -> (r: Vec<MoveChoice>)
    ensures
        r@ == shown_options(*state, side_ref),
        r.len() <= 10,
{
    let side = state.get_side_immutable(&side_ref);
    if state.team_preview {
        let mut options: Vec<MoveChoice> = Vec::new();
        options.push(MoveChoice::Switch(PokemonIndex::P0));
        options.push(MoveChoice::Switch(PokemonIndex::P1));
        options.push(MoveChoice::Switch(PokemonIndex::P2));
        options.push(MoveChoice::Switch(PokemonIndex::P3));
        options.push(MoveChoice::Switch(PokemonIndex::P4));
        options.push(MoveChoice::Switch(PokemonIndex::P5));
        assert(options@ =~= all_switches());
        options
    } else if side.slow_uturn_move {
        let mut options: Vec<MoveChoice> = Vec::new();
        side.get_active_immutable().add_available_moves(&mut options, &side.last_used_move);
        assert(options@ =~= move_options(side.active()));
        options
    } else {
        let options = state.get_side_options(side_ref);
        if side.force_trapped {
            remove_switches(&options)
        } else {
            options
        }
    }
}

/// What the first side and the second side can choose, as a player sees
/// it: no more than ten options each.
pub fn io_get_all_options(state: &State) -> (r: (Vec<MoveChoice>, Vec<MoveChoice>))
    ensures
        r.0@ == shown_options(*state, SideReference::SideOne),
        r.1@ == shown_options(*state, SideReference::SideTwo),
        r.0.len() <= 10,
        r.1.len() <= 10,
{
    (
        get_shown_options(state, SideReference::SideOne),
        get_shown_options(state, SideReference::SideTwo),
    )
}

} // verus!
