//! The evaluator: a score for a state, in hundredths of a point. What
//! speaks for the first side counts up, what speaks for the second side
//! counts down by as much.

use vstd::prelude::*;
use crate::abilities::Abilities;
use crate::choices::MoveCategory;
use crate::state::{Pokemon, PokemonIndex, PokemonMoveIndex, PokemonStatus, Side, State};

verus! {

pub const POKEMON_ALIVE: i64 = 7500;

pub const POKEMON_HP: i64 = 10000;

pub const POKEMON_ATTACK_BOOST: i64 = 15;

pub const POKEMON_DEFENSE_BOOST: i64 = 15;

pub const POKEMON_SPECIAL_ATTACK_BOOST: i64 = 15;

pub const POKEMON_SPECIAL_DEFENSE_BOOST: i64 = 15;

pub const POKEMON_SPEED_BOOST: i64 = 25;

pub const POKEMON_FROZEN: i64 = -4000;

pub const POKEMON_ASLEEP: i64 = -2500;

pub const POKEMON_PARALYZED: i64 = -2500;

pub const POKEMON_TOXIC: i64 = -3000;

pub const POKEMON_POISONED: i64 = -1000;

pub const POKEMON_BURNED: i64 = -2500;

/// The score of a burn on a creature whose ability turns a status to its
/// use.
pub const BURNED_TO_USE: i64 = -200;

pub const LEECH_SEED: i64 = -3000;

pub const SUBSTITUTE: i64 = 4000;

pub const CONFUSION: i64 = -2000;

pub const REFLECT: i64 = 2000;

pub const LIGHT_SCREEN: i64 = 2000;

pub const STICKY_WEB: i64 = -2500;

pub const AURORA_VEIL: i64 = 4000;

pub const SAFE_GUARD: i64 = 500;

pub const TAILWIND: i64 = 700;

pub const STEALTH_ROCK: i64 = -1000;

pub const SPIKES: i64 = -700;

pub const TOXIC_SPIKES: i64 = -700;

/// What a stage is worth, in hundredths, before the weight of its stat. A
/// stage outside of the stages counts as the nearest stage.
pub open spec fn boost_multiplier(boost: i8) -> int {
    if boost >= 6 {
        330
    } else if boost == 5 {
        315
    } else if boost == 4 {
        300
    } else if boost == 3 {
        250
    } else if boost == 2 {
        200
    } else if boost == 1 {
        100
    } else if boost == 0 {
        0
    } else if boost == -1 {
        -100
    } else if boost == -2 {
        -200
    } else if boost == -3 {
        -250
    } else if boost == -4 {
        -300
    } else if boost == -5 {
        -315
    } else {
        -330
    }
}

pub fn get_boost_multiplier(boost: i8) -> (r: i64)
    ensures
        r == boost_multiplier(boost),
        -330 <= r <= 330,
{
    if boost >= 6 {
        330
    } else if boost == 5 {
        315
    } else if boost == 4 {
        300
    } else if boost == 3 {
        250
    } else if boost == 2 {
        200
    } else if boost == 1 {
        100
    } else if boost == 0 {
        0
    } else if boost == -1 {
        -100
    } else if boost == -2 {
        -200
    } else if boost == -3 {
        -250
    } else if boost == -4 {
        -300
    } else if boost == -5 {
        -315
    } else {
        -330
    }
}

/// One for a physical move, zero for another.
pub open spec fn physical(pokemon: Pokemon, index: PokemonMoveIndex) -> int {
    if pokemon.move_at(index).category == MoveCategory::Physical {
        1
    } else {
        0
    }
}

/// How many of the moves of a creature are physical.
pub open spec fn physical_moves(pokemon: Pokemon) -> int {
    physical(pokemon, PokemonMoveIndex::M0) + physical(pokemon, PokemonMoveIndex::M1) + physical(
        pokemon,
        PokemonMoveIndex::M2,
    ) + physical(pokemon, PokemonMoveIndex::M3)
}

/// What a burn is worth: little to a creature whose ability turns it to
/// its use; to another, the more the more physical moves it has, and half
/// of that where its special attack is above its attack.
pub open spec fn burn_score(pokemon: Pokemon) -> int {
    if pokemon.ability == Abilities::GUTS || pokemon.ability == Abilities::MARVELSCALE
        || pokemon.ability == Abilities::QUICKFEET {
        BURNED_TO_USE as int
    } else if pokemon.special_attack > pokemon.attack {
        physical_moves(pokemon) * POKEMON_BURNED / 2
    } else {
        physical_moves(pokemon) * POKEMON_BURNED
    }
}

fn count_physical(pokemon: &Pokemon, index: PokemonMoveIndex) -> (r: i64)
    ensures
        r == physical(*pokemon, index),
{
    if pokemon.get_move(index).category == MoveCategory::Physical {
        1
    } else {
        0
    }
}

fn evaluate_burned(pokemon: &Pokemon) -> (r: i64)
    ensures
        r == burn_score(*pokemon),
        -10000 <= r <= 0,
{
    if pokemon.ability == Abilities::GUTS || pokemon.ability == Abilities::MARVELSCALE
        || pokemon.ability == Abilities::QUICKFEET {
        return BURNED_TO_USE;
    }
    let multiplier: i64 = count_physical(pokemon, PokemonMoveIndex::M0) + count_physical(
        pokemon,
        PokemonMoveIndex::M1,
    ) + count_physical(pokemon, PokemonMoveIndex::M2) + count_physical(
        pokemon,
        PokemonMoveIndex::M3,
    );
    if pokemon.special_attack > pokemon.attack {
        multiplier * POKEMON_BURNED / 2
    } else {
        multiplier * POKEMON_BURNED
    }
}

/// What the health of a creature is worth: the part of its maximum hit
/// points that it has, of `POKEMON_HP`.
pub open spec fn health_score(pokemon: Pokemon) -> int {
    if pokemon.maxhp > 0 && pokemon.hp > 0 {
        POKEMON_HP * pokemon.hp / (pokemon.maxhp as int)
    } else {
        0
    }
}

/// What the status of a creature is worth.
pub open spec fn status_score(pokemon: Pokemon) -> int {
    match pokemon.status {
        PokemonStatus::Burn => burn_score(pokemon),
        PokemonStatus::Freeze => POKEMON_FROZEN as int,
        PokemonStatus::Sleep => POKEMON_ASLEEP as int,
        PokemonStatus::Paralyze => POKEMON_PARALYZED as int,
        PokemonStatus::Toxic => POKEMON_TOXIC as int,
        PokemonStatus::Poison => POKEMON_POISONED as int,
        PokemonStatus::NONE => 0,
    }
}

/// What the stages of a creature are worth.
pub open spec fn boost_score(pokemon: Pokemon) -> int {
    boost_multiplier(pokemon.attack_boost) * POKEMON_ATTACK_BOOST + boost_multiplier(
        pokemon.defense_boost,
    ) * POKEMON_DEFENSE_BOOST + boost_multiplier(pokemon.special_attack_boost)
        * POKEMON_SPECIAL_ATTACK_BOOST + boost_multiplier(pokemon.special_defense_boost)
        * POKEMON_SPECIAL_DEFENSE_BOOST + boost_multiplier(pokemon.speed_boost)
        * POKEMON_SPEED_BOOST
}

/// What the volatile statuses of a creature are worth.
pub open spec fn volatile_score(pokemon: Pokemon) -> int {
    (if pokemon.volatile_statuses.leech_seed {
        LEECH_SEED as int
    } else {
        0
    }) + (if pokemon.volatile_statuses.substitute {
        SUBSTITUTE as int
    } else {
        0
    }) + (if pokemon.volatile_statuses.confusion {
        CONFUSION as int
    } else {
        0
    })
}

/// What a living creature is worth.
pub open spec fn pokemon_score(pokemon: Pokemon) -> int {
    POKEMON_ALIVE + health_score(pokemon) + boost_score(pokemon) + status_score(pokemon)
        + volatile_score(pokemon)
}

fn evaluate_pokemon(pokemon: &Pokemon) -> (r: i64)
    ensures
        r == pokemon_score(*pokemon),
        -100_000 <= r <= 400_000_000,
{
    let health: i64 = if pokemon.maxhp > 0 && pokemon.hp > 0 {
        assert(0 <= 10000 * (pokemon.hp as int) / (pokemon.maxhp as int) <= 10000 * 32767)
            by (nonlinear_arith)
            requires
                0 < pokemon.hp as int <= 32767,
                0 < pokemon.maxhp as int,
        ;
        POKEMON_HP * (pokemon.hp as i64) / (pokemon.maxhp as i64)
    } else {
        0
    };
    let boosts: i64 = get_boost_multiplier(pokemon.attack_boost) * POKEMON_ATTACK_BOOST
        + get_boost_multiplier(pokemon.defense_boost) * POKEMON_DEFENSE_BOOST
        + get_boost_multiplier(pokemon.special_attack_boost) * POKEMON_SPECIAL_ATTACK_BOOST
        + get_boost_multiplier(pokemon.special_defense_boost) * POKEMON_SPECIAL_DEFENSE_BOOST
        + get_boost_multiplier(pokemon.speed_boost) * POKEMON_SPEED_BOOST;
    let status: i64 = match pokemon.status {
        PokemonStatus::Burn => evaluate_burned(pokemon),
        PokemonStatus::Freeze => POKEMON_FROZEN,
        PokemonStatus::Sleep => POKEMON_ASLEEP,
        PokemonStatus::Paralyze => POKEMON_PARALYZED,
        PokemonStatus::Toxic => POKEMON_TOXIC,
        PokemonStatus::Poison => POKEMON_POISONED,
        PokemonStatus::NONE => 0,
    };
    let mut volatiles: i64 = 0;
    if pokemon.volatile_statuses.leech_seed {
        volatiles = volatiles + LEECH_SEED;
    }
    if pokemon.volatile_statuses.substitute {
        volatiles = volatiles + SUBSTITUTE;
    }
    if pokemon.volatile_statuses.confusion {
        volatiles = volatiles + CONFUSION;
    }
    POKEMON_ALIVE + health + boosts + status + volatiles
}

/// What the creature at the place `index` adds to the score of its side:
/// its worth, if it is alive.
pub open spec fn place_score(side: Side, index: PokemonIndex) -> int {
    if side.at(index).hp > 0 {
        pokemon_score(side.at(index))
    } else {
        0
    }
}

/// One for a living creature at the place `index`, zero for another.
pub open spec fn alive_at(side: Side, index: PokemonIndex) -> int {
    if side.at(index).hp > 0 {
        1
    } else {
        0
    }
}

/// How many creatures of a side are alive.
pub open spec fn alive_count(side: Side) -> int {
    alive_at(side, PokemonIndex::P0) + alive_at(side, PokemonIndex::P1) + alive_at(
        side,
        PokemonIndex::P2,
    ) + alive_at(side, PokemonIndex::P3) + alive_at(side, PokemonIndex::P4) + alive_at(
        side,
        PokemonIndex::P5,
    )
}

/// What the creatures of a side are worth together.
pub open spec fn team_score(side: Side) -> int {
    place_score(side, PokemonIndex::P0) + place_score(side, PokemonIndex::P1) + place_score(
        side,
        PokemonIndex::P2,
    ) + place_score(side, PokemonIndex::P3) + place_score(side, PokemonIndex::P4) + place_score(
        side,
        PokemonIndex::P5,
    )
}

/// What the conditions of a side are worth: the screens and the winds for
/// it, the web against it, and the hazards against it once for every
/// creature that is alive.
pub open spec fn conditions_score(side: Side) -> int {
    let conditions = side.side_conditions;
    conditions.reflect * REFLECT + conditions.light_screen * LIGHT_SCREEN + conditions.sticky_web
        * STICKY_WEB + conditions.aurora_veil * AURORA_VEIL + conditions.safeguard * SAFE_GUARD
        + conditions.tailwind * TAILWIND + conditions.stealth_rock * STEALTH_ROCK * alive_count(
        side,
    ) + conditions.spikes * SPIKES * alive_count(side) + conditions.toxic_spikes * TOXIC_SPIKES
        * alive_count(side)
}

/// What a side is worth.
pub open spec fn side_score(side: Side) -> int {
    team_score(side) + conditions_score(side)
}

/// The score of a state: what the first side is worth less what the second
/// side is worth.
pub open spec fn evaluation(s: State) -> int {
    side_score(s.side_one) - side_score(s.side_two)
}

/// The state with its sides changed over.
pub open spec fn sides_swapped(s: State) -> State {
    State { side_one: s.side_two, side_two: s.side_one, ..s }
}

/// The evaluator is symmetric: with the sides changed over, the score of a
/// state is the negative of what it was.
pub proof fn evaluation_is_symmetric(s: State)
    ensures
        evaluation(sides_swapped(s)) == -evaluation(s),
{
}

fn evaluate_place(side: &Side, index: PokemonIndex) -> (r: (i64, i64))
    ensures
        r.0 == place_score(*side, index),
        r.1 == alive_at(*side, index),
        -100_000 <= r.0 <= 400_000_000,
{
    let pokemon = side.get_pokemon(index);
    if pokemon.hp > 0 {
        (evaluate_pokemon(pokemon), 1)
    } else {
        (0, 0)
    }
}

fn evaluate_side(side: &Side) -> (r: i64)
    ensures
        r == side_score(*side),
        -10_000_000_000 <= r <= 10_000_000_000,
{
    let p0 = evaluate_place(side, PokemonIndex::P0);
    let p1 = evaluate_place(side, PokemonIndex::P1);
    let p2 = evaluate_place(side, PokemonIndex::P2);
    let p3 = evaluate_place(side, PokemonIndex::P3);
    let p4 = evaluate_place(side, PokemonIndex::P4);
    let p5 = evaluate_place(side, PokemonIndex::P5);
    let team: i64 = p0.0 + p1.0 + p2.0 + p3.0 + p4.0 + p5.0;
    let alive: i64 = p0.1 + p1.1 + p2.1 + p3.1 + p4.1 + p5.1;
    let conditions = &side.side_conditions;
    let rocks: i64 = conditions.stealth_rock as i64 * STEALTH_ROCK;
    let spikes: i64 = conditions.spikes as i64 * SPIKES;
    let toxic_spikes: i64 = conditions.toxic_spikes as i64 * TOXIC_SPIKES;
    assert(-128_000 * 6 <= rocks * alive <= 128_000 * 6) by (nonlinear_arith)
        requires
            -128_000 <= rocks <= 128_000,
            0 <= alive <= 6,
    ;
    assert(-128_000 * 6 <= spikes * alive <= 128_000 * 6) by (nonlinear_arith)
        requires
            -128_000 <= spikes <= 128_000,
            0 <= alive <= 6,
    ;
    assert(-128_000 * 6 <= toxic_spikes * alive <= 128_000 * 6) by (nonlinear_arith)
        requires
            -128_000 <= toxic_spikes <= 128_000,
            0 <= alive <= 6,
    ;
    team + conditions.reflect as i64 * REFLECT + conditions.light_screen as i64 * LIGHT_SCREEN
        + conditions.sticky_web as i64 * STICKY_WEB + conditions.aurora_veil as i64 * AURORA_VEIL
        + conditions.safeguard as i64 * SAFE_GUARD + conditions.tailwind as i64 * TAILWIND + rocks
        * alive + spikes * alive + toxic_spikes * alive
}

/// The score of the state, in hundredths of a point: for every living
/// creature its being alive, its health, its stages, its status and its
/// volatile statuses, and for every side its conditions; all of it counted
/// up for the first side and down for the second.
pub fn evaluate(state: &State) -> (r: i64)
    ensures
        r == evaluation(*state),
        -20_000_000_000 <= r <= 20_000_000_000,
{
    evaluate_side(&state.side_one) - evaluate_side(&state.side_two)
}

} // verus!
