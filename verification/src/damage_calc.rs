//! The damage calculator: what a damaging move takes from its target, in
//! whole hit points.
//!
//! The calculation is carried out in whole numbers. Each factor is a
//! fraction that is multiplied in and rounded down, in a fixed order, and
//! no intermediate value is let above `DAMAGE_CAP`, which is far above
//! what any creature can have or lose.

use vstd::prelude::*;
use crate::abilities::Abilities;
use crate::choices::{Choice, ChoiceView, MoveCategory};
use crate::state::{
    Pokemon, PokemonStatus, PokemonType, SideReference, State, Terrain, Weather, MAX_BOOST,
    MIN_BOOST,
};

verus! {

/// Which of the sixteen rolls of a hit are told apart.
#[derive(Clone, Copy, Debug, PartialEq, Eq, Structural)]
pub enum DamageRolls {
    /// One amount: the mean roll.
    Average,
    /// Three amounts: the lowest roll, the mean roll, the highest roll.
    MinMaxAverage,
    /// Sixteen amounts, from the lowest roll to the highest.
    AllRolls,
}

/// No intermediate value of the calculation is let above this.
pub const DAMAGE_CAP: u64 = 1_000_000_000;

/// What `type_effectiveness_modifier` gives for a move that is neither
/// strong nor weak against its target: four quarters.
pub const NEUTRAL: u8 = 4;

/// The mean roll, in thousandths.
pub const AVERAGE_ROLL: u64 = 925;

/// The lowest roll, in thousandths.
pub const LOWEST_ROLL: u64 = 850;

/// How strong a move of the type `attacking` is against a creature of the
/// type `defending`, in halves: 0 for no effect, 1 for half, 2 for the
/// plain effect, 4 for double.
pub open spec fn effectiveness(attacking: PokemonType, defending: PokemonType) -> int {
    match attacking {
        PokemonType::Normal => match defending {
            PokemonType::Rock | PokemonType::Steel => 1,
            PokemonType::GhostType => 0,
            _ => 2,
        },
        PokemonType::Fire => match defending {
            PokemonType::Grass | PokemonType::Ice | PokemonType::Bug | PokemonType::Steel => 4,
            PokemonType::Fire | PokemonType::Water | PokemonType::Rock | PokemonType::Dragon => 1,
            _ => 2,
        },
        PokemonType::Water => match defending {
            PokemonType::Fire | PokemonType::Ground | PokemonType::Rock => 4,
            PokemonType::Water | PokemonType::Grass | PokemonType::Dragon => 1,
            _ => 2,
        },
        PokemonType::Electric => match defending {
            PokemonType::Water | PokemonType::Flying => 4,
            PokemonType::Electric | PokemonType::Grass | PokemonType::Dragon => 1,
            PokemonType::Ground => 0,
            _ => 2,
        },
        PokemonType::Grass => match defending {
            PokemonType::Water | PokemonType::Ground | PokemonType::Rock => 4,
            PokemonType::Fire | PokemonType::Grass | PokemonType::Poison | PokemonType::Flying | PokemonType::Bug | PokemonType::Dragon | PokemonType::Steel => 1,
            _ => 2,
        },
        PokemonType::Ice => match defending {
            PokemonType::Grass | PokemonType::Ground | PokemonType::Flying | PokemonType::Dragon => 4,
            PokemonType::Fire | PokemonType::Water | PokemonType::Ice | PokemonType::Steel => 1,
            _ => 2,
        },
        PokemonType::Fighting => match defending {
            PokemonType::Normal | PokemonType::Ice | PokemonType::Rock | PokemonType::Dark | PokemonType::Steel => 4,
            PokemonType::Poison | PokemonType::Flying | PokemonType::Psychic | PokemonType::Bug | PokemonType::Fairy => 1,
            PokemonType::GhostType => 0,
            _ => 2,
        },
        PokemonType::Poison => match defending {
            PokemonType::Grass | PokemonType::Fairy => 4,
            PokemonType::Poison | PokemonType::Ground | PokemonType::Rock | PokemonType::GhostType => 1,
            PokemonType::Steel => 0,
            _ => 2,
        },
        PokemonType::Ground => match defending {
            PokemonType::Fire | PokemonType::Electric | PokemonType::Poison | PokemonType::Rock | PokemonType::Steel => 4,
            PokemonType::Grass | PokemonType::Bug => 1,
            PokemonType::Flying => 0,
            _ => 2,
        },
        PokemonType::Flying => match defending {
            PokemonType::Grass | PokemonType::Fighting | PokemonType::Bug => 4,
            PokemonType::Electric | PokemonType::Rock | PokemonType::Steel => 1,
            _ => 2,
        },
        PokemonType::Psychic => match defending {
            PokemonType::Fighting | PokemonType::Poison => 4,
            PokemonType::Psychic | PokemonType::Steel => 1,
            PokemonType::Dark => 0,
            _ => 2,
        },
        PokemonType::Bug => match defending {
            PokemonType::Grass | PokemonType::Psychic | PokemonType::Dark => 4,
            PokemonType::Fire | PokemonType::Fighting | PokemonType::Poison | PokemonType::Flying | PokemonType::GhostType | PokemonType::Steel | PokemonType::Fairy => 1,
            _ => 2,
        },
        PokemonType::Rock => match defending {
            PokemonType::Fire | PokemonType::Ice | PokemonType::Flying | PokemonType::Bug => 4,
            PokemonType::Fighting | PokemonType::Ground | PokemonType::Steel => 1,
            _ => 2,
        },
        PokemonType::GhostType => match defending {
            PokemonType::Psychic | PokemonType::GhostType => 4,
            PokemonType::Dark => 1,
            PokemonType::Normal => 0,
            _ => 2,
        },
        PokemonType::Dragon => match defending {
            PokemonType::Dragon => 4,
            PokemonType::Steel => 1,
            PokemonType::Fairy => 0,
            _ => 2,
        },
        PokemonType::Dark => match defending {
            PokemonType::Psychic | PokemonType::GhostType => 4,
            PokemonType::Fighting | PokemonType::Dark | PokemonType::Fairy => 1,
            _ => 2,
        },
        PokemonType::Steel => match defending {
            PokemonType::Ice | PokemonType::Rock | PokemonType::Fairy => 4,
            PokemonType::Fire | PokemonType::Water | PokemonType::Electric | PokemonType::Steel => 1,
            _ => 2,
        },
        PokemonType::Fairy => match defending {
            PokemonType::Fighting | PokemonType::Dragon | PokemonType::Dark => 4,
            PokemonType::Fire | PokemonType::Poison | PokemonType::Steel => 1,
            _ => 2,
        },
        PokemonType::Typeless => 2,
    }}

pub fn get_effectiveness(attacking: &PokemonType, defending: &PokemonType) -> (r: u8)
    ensures
        r == effectiveness(*attacking, *defending),
        r <= 4,
{
    match *attacking {
        PokemonType::Normal => match *defending {
            PokemonType::Rock | PokemonType::Steel => 1,
            PokemonType::GhostType => 0,
            _ => 2,
        },
        PokemonType::Fire => match *defending {
            PokemonType::Grass | PokemonType::Ice | PokemonType::Bug | PokemonType::Steel => 4,
            PokemonType::Fire | PokemonType::Water | PokemonType::Rock | PokemonType::Dragon => 1,
            _ => 2,
        },
        PokemonType::Water => match *defending {
            PokemonType::Fire | PokemonType::Ground | PokemonType::Rock => 4,
            PokemonType::Water | PokemonType::Grass | PokemonType::Dragon => 1,
            _ => 2,
        },
        PokemonType::Electric => match *defending {
            PokemonType::Water | PokemonType::Flying => 4,
            PokemonType::Electric | PokemonType::Grass | PokemonType::Dragon => 1,
            PokemonType::Ground => 0,
            _ => 2,
        },
        PokemonType::Grass => match *defending {
            PokemonType::Water | PokemonType::Ground | PokemonType::Rock => 4,
            PokemonType::Fire | PokemonType::Grass | PokemonType::Poison | PokemonType::Flying | PokemonType::Bug | PokemonType::Dragon | PokemonType::Steel => 1,
            _ => 2,
        },
        PokemonType::Ice => match *defending {
            PokemonType::Grass | PokemonType::Ground | PokemonType::Flying | PokemonType::Dragon => 4,
            PokemonType::Fire | PokemonType::Water | PokemonType::Ice | PokemonType::Steel => 1,
            _ => 2,
        },
        PokemonType::Fighting => match *defending {
            PokemonType::Normal | PokemonType::Ice | PokemonType::Rock | PokemonType::Dark | PokemonType::Steel => 4,
            PokemonType::Poison | PokemonType::Flying | PokemonType::Psychic | PokemonType::Bug | PokemonType::Fairy => 1,
            PokemonType::GhostType => 0,
            _ => 2,
        },
        PokemonType::Poison => match *defending {
            PokemonType::Grass | PokemonType::Fairy => 4,
            PokemonType::Poison | PokemonType::Ground | PokemonType::Rock | PokemonType::GhostType => 1,
            PokemonType::Steel => 0,
            _ => 2,
        },
        PokemonType::Ground => match *defending {
            PokemonType::Fire | PokemonType::Electric | PokemonType::Poison | PokemonType::Rock | PokemonType::Steel => 4,
            PokemonType::Grass | PokemonType::Bug => 1,
            PokemonType::Flying => 0,
            _ => 2,
        },
        PokemonType::Flying => match *defending {
            PokemonType::Grass | PokemonType::Fighting | PokemonType::Bug => 4,
            PokemonType::Electric | PokemonType::Rock | PokemonType::Steel => 1,
            _ => 2,
        },
        PokemonType::Psychic => match *defending {
            PokemonType::Fighting | PokemonType::Poison => 4,
            PokemonType::Psychic | PokemonType::Steel => 1,
            PokemonType::Dark => 0,
            _ => 2,
        },
        PokemonType::Bug => match *defending {
            PokemonType::Grass | PokemonType::Psychic | PokemonType::Dark => 4,
            PokemonType::Fire | PokemonType::Fighting | PokemonType::Poison | PokemonType::Flying | PokemonType::GhostType | PokemonType::Steel | PokemonType::Fairy => 1,
            _ => 2,
        },
        PokemonType::Rock => match *defending {
            PokemonType::Fire | PokemonType::Ice | PokemonType::Flying | PokemonType::Bug => 4,
            PokemonType::Fighting | PokemonType::Ground | PokemonType::Steel => 1,
            _ => 2,
        },
        PokemonType::GhostType => match *defending {
            PokemonType::Psychic | PokemonType::GhostType => 4,
            PokemonType::Dark => 1,
            PokemonType::Normal => 0,
            _ => 2,
        },
        PokemonType::Dragon => match *defending {
            PokemonType::Dragon => 4,
            PokemonType::Steel => 1,
            PokemonType::Fairy => 0,
            _ => 2,
        },
        PokemonType::Dark => match *defending {
            PokemonType::Psychic | PokemonType::GhostType => 4,
            PokemonType::Fighting | PokemonType::Dark | PokemonType::Fairy => 1,
            _ => 2,
        },
        PokemonType::Steel => match *defending {
            PokemonType::Ice | PokemonType::Rock | PokemonType::Fairy => 4,
            PokemonType::Fire | PokemonType::Water | PokemonType::Electric | PokemonType::Steel => 1,
            _ => 2,
        },
        PokemonType::Fairy => match *defending {
            PokemonType::Fighting | PokemonType::Dragon | PokemonType::Dark => 4,
            PokemonType::Fire | PokemonType::Poison | PokemonType::Steel => 1,
            _ => 2,
        },
        PokemonType::Typeless => 2,
    }}

/// How strong a move of the type `attacking` is against a creature of the
/// two types `defending`, in quarters: `NEUTRAL` is the plain effect.
pub open spec fn type_effectiveness(attacking: PokemonType, defending: (PokemonType, PokemonType)) -> int {
    effectiveness(attacking, defending.0) * effectiveness(attacking, defending.1)
}

pub fn type_effectiveness_modifier(
    attacking_type: &PokemonType,
    defending_types: &(PokemonType, PokemonType),
) -> (r: u8)
    ensures
        r == type_effectiveness(*attacking_type, *defending_types),
        r <= 16,
{
    let first = get_effectiveness(attacking_type, &defending_types.0);
    let second = get_effectiveness(attacking_type, &defending_types.1);
    assert(0 <= first * second <= 16) by (nonlinear_arith)
        requires
            0 <= first <= 4,
            0 <= second <= 4,
    ;
    first * second
}

/// `value` times `numerator` over `denominator`, rounded down and no more
/// than `DAMAGE_CAP`.
pub open spec fn scaled(value: int, numerator: int, denominator: int) -> int {
    let product = value * numerator / denominator;
    if product > DAMAGE_CAP {
        DAMAGE_CAP as int
    } else {
        product
    }
}

pub fn scale(value: u64, numerator: u64, denominator: u64) -> (r: u64)
    requires
        value <= DAMAGE_CAP,
        numerator <= 1000,
        denominator >= 1,
    ensures
        r == scaled(value as int, numerator as int, denominator as int),
        r <= DAMAGE_CAP,
{
    assert(0 <= value * numerator <= 1_000_000_000 * 1000) by (nonlinear_arith)
        requires
            0 <= value <= 1_000_000_000,
            0 <= numerator <= 1000,
    ;
    let product: u64 = value * numerator / denominator;
    if product > DAMAGE_CAP {
        DAMAGE_CAP
    } else {
        product
    }
}

/// A stat at a stage: each stage above zero adds a half of the stat, each
/// stage below zero makes the stat two parts of one part more. A stat below
/// zero counts as zero, and a stage outside of the stages as the nearest
/// stage.
pub open spec fn boosted_stat(stat: int, stage: int) -> int {
    let plain = if stat < 0 {
        0
    } else {
        stat
    };
    let bounded = if stage < MIN_BOOST {
        MIN_BOOST as int
    } else if stage > MAX_BOOST {
        MAX_BOOST as int
    } else {
        stage
    };
    if bounded >= 0 {
        plain * (2 + bounded) / 2
    } else {
        plain * 2 / (2 - bounded)
    }
}

pub fn calculate_boosted_stat(stat: i16, stage: i8) -> (r: u64)
    ensures
        r == boosted_stat(stat as int, stage as int),
        r <= 131_068,
{
    let plain: u64 = if stat < 0 {
        0
    } else {
        stat as u64
    };
    let bounded: i8 = if stage < MIN_BOOST {
        MIN_BOOST
    } else if stage > MAX_BOOST {
        MAX_BOOST
    } else {
        stage
    };
    if bounded >= 0 {
        let factor: u64 = 2 + bounded as u64;
        assert(0 <= plain * factor <= 32767 * 8) by (nonlinear_arith)
            requires
                0 <= plain <= 32767,
                2 <= factor <= 8,
        ;
        plain * factor / 2
    } else {
        let divisor: u64 = (2 - bounded as i16) as u64;
        plain * 2 / divisor
    }
}

/// The numerator, over two, of what the weather does to the move: sun
/// strengthens fire and weakens water, rain does the opposite.
pub open spec fn weather_factor(s: State, choice: ChoiceView) -> int {
    let sunny = s.weather.weather_type == Weather::Sun || s.weather.weather_type
        == Weather::HarshSun;
    let rainy = s.weather.weather_type == Weather::Rain || s.weather.weather_type
        == Weather::HeavyRain;
    if (sunny && choice.move_type == PokemonType::Fire) || (rainy && choice.move_type
        == PokemonType::Water) {
        3
    } else if (sunny && choice.move_type == PokemonType::Water) || (rainy && choice.move_type
        == PokemonType::Fire) {
        1
    } else {
        2
    }
}

fn get_weather_factor(state: &State, choice: &Choice) -> (r: u64)
    ensures
        r == weather_factor(*state, choice@),
        r <= 3,
{
    let sunny = state.weather.weather_type == Weather::Sun || state.weather.weather_type
        == Weather::HarshSun;
    let rainy = state.weather.weather_type == Weather::Rain || state.weather.weather_type
        == Weather::HeavyRain;
    if (sunny && choice.move_type == PokemonType::Fire) || (rainy && choice.move_type
        == PokemonType::Water) {
        3
    } else if (sunny && choice.move_type == PokemonType::Water) || (rainy && choice.move_type
        == PokemonType::Fire) {
        1
    } else {
        2
    }
}

/// The numerator, over two, of what the attacker's own type adds to a move
/// of that type: a half more, or as much again for an adaptable creature.
pub open spec fn same_type_factor(attacker: Pokemon, choice: ChoiceView) -> int {
    if choice.move_type != PokemonType::Typeless && attacker.is_of_type(choice.move_type) {
        if attacker.ability == Abilities::ADAPTABILITY {
            4
        } else {
            3
        }
    } else {
        2
    }
}

fn get_same_type_factor(attacker: &Pokemon, choice: &Choice) -> (r: u64)
    ensures
        r == same_type_factor(*attacker, choice@),
        r <= 4,
{
    if choice.move_type != PokemonType::Typeless && attacker.has_type(&choice.move_type) {
        if attacker.ability == Abilities::ADAPTABILITY {
            4
        } else {
            3
        }
    } else {
        2
    }
}

/// The numerator, over two, of what a burn does to a physical move: it
/// halves it, unless the attacker has guts.
pub open spec fn burn_factor(attacker: Pokemon, choice: ChoiceView) -> int {
    if attacker.status == PokemonStatus::Burn && choice.category == MoveCategory::Physical
        && attacker.ability != Abilities::GUTS {
        1
    } else {
        2
    }
}

fn get_burn_factor(attacker: &Pokemon, choice: &Choice) -> (r: u64)
    ensures
        r == burn_factor(*attacker, choice@),
        r <= 2,
{
    if attacker.status == PokemonStatus::Burn && choice.category == MoveCategory::Physical
        && attacker.ability != Abilities::GUTS {
        1
    } else {
        2
    }
}

/// The numerator, over two, of what the screens of the defending side do
/// to the move: a reflect halves a physical move, a light screen a special
/// one, an aurora veil both.
pub open spec fn screen_factor(s: State, defending_side: SideReference, choice: ChoiceView) -> int {
    let conditions = s.side(defending_side).side_conditions;
    if (choice.category == MoveCategory::Physical && conditions.reflect > 0) || (choice.category
        == MoveCategory::Special && conditions.light_screen > 0) || conditions.aurora_veil > 0 {
        1
    } else {
        2
    }
}

fn get_screen_factor(state: &State, defending_side: &SideReference, choice: &Choice) -> (r: u64)
    ensures
        r == screen_factor(*state, *defending_side, choice@),
        r <= 2,
{
    let conditions = &state.get_side_immutable(defending_side).side_conditions;
    if (choice.category == MoveCategory::Physical && conditions.reflect > 0) || (choice.category
        == MoveCategory::Special && conditions.light_screen > 0) || conditions.aurora_veil > 0 {
        1
    } else {
        2
    }
}

/// The numerator, over ten, of what the terrain does to the move: the
/// electric, grassy and psychic terrains strengthen moves of their type
/// from an attacker on the ground, the misty terrain halves dragon moves
/// against a defender on the ground.
pub open spec fn terrain_factor(s: State, attacker: Pokemon, defender: Pokemon, choice: ChoiceView) -> int {
    let terrain = s.terrain.terrain_type;
    if attacker.grounded() && ((terrain == Terrain::ElectricTerrain && choice.move_type
        == PokemonType::Electric) || (terrain == Terrain::GrassyTerrain && choice.move_type
        == PokemonType::Grass) || (terrain == Terrain::PsychicTerrain && choice.move_type
        == PokemonType::Psychic)) {
        13
    } else if terrain == Terrain::MistyTerrain && choice.move_type == PokemonType::Dragon
        && defender.grounded() {
        5
    } else {
        10
    }
}

fn get_terrain_factor(state: &State, attacker: &Pokemon, defender: &Pokemon, choice: &Choice) -> (r:
    u64)
    ensures
        r == terrain_factor(*state, *attacker, *defender, choice@),
        r <= 13,
{
    let terrain = state.terrain.terrain_type;
    if attacker.is_grounded() && ((terrain == Terrain::ElectricTerrain && choice.move_type
        == PokemonType::Electric) || (terrain == Terrain::GrassyTerrain && choice.move_type
        == PokemonType::Grass) || (terrain == Terrain::PsychicTerrain && choice.move_type
        == PokemonType::Psychic)) {
        13
    } else if terrain == Terrain::MistyTerrain && choice.move_type == PokemonType::Dragon
        && defender.is_grounded() {
        5
    } else {
        10
    }
}

/// The damage of the move before any factor: from the level of the
/// attacker, the base power of the move, and the attack of the one over
/// the defense of the other, each at its stage.
pub open spec fn base_damage(attacker: Pokemon, defender: Pokemon, choice: ChoiceView) -> int {
    let physical = choice.category == MoveCategory::Physical;
    let attack = if physical {
        boosted_stat(attacker.attack as int, attacker.attack_boost as int)
    } else {
        boosted_stat(attacker.special_attack as int, attacker.special_attack_boost as int)
    };
    let defense = if physical {
        boosted_stat(defender.defense as int, defender.defense_boost as int)
    } else {
        boosted_stat(defender.special_defense as int, defender.special_defense_boost as int)
    };
    let level = if attacker.level < 0 {
        0
    } else {
        attacker.level as int
    };
    let per_level = 2 * level / 5 + 2;
    let raw = per_level * choice.base_power * attack / (if defense < 1 {
        1
    } else {
        defense
    }) / 1000 / 50 + 2;
    if raw > DAMAGE_CAP {
        DAMAGE_CAP as int
    } else {
        raw
    }
}

fn get_base_damage(attacker: &Pokemon, defender: &Pokemon, choice: &Choice) -> (r: u64)
    ensures
        r == base_damage(*attacker, *defender, choice@),
        r <= DAMAGE_CAP,
{
    let physical = choice.category == MoveCategory::Physical;
    let attack = if physical {
        calculate_boosted_stat(attacker.attack, attacker.attack_boost)
    } else {
        calculate_boosted_stat(attacker.special_attack, attacker.special_attack_boost)
    };
    let defense = if physical {
        calculate_boosted_stat(defender.defense, defender.defense_boost)
    } else {
        calculate_boosted_stat(defender.special_defense, defender.special_defense_boost)
    };
    let level: u64 = if attacker.level < 0 {
        0
    } else {
        attacker.level as u64
    };
    let per_level: u64 = 2 * level / 5 + 2;
    let power: u64 = choice.base_power as u64;
    assert(0 <= per_level * power <= 52 * 0xffff_ffff) by (nonlinear_arith)
        requires
            0 <= per_level <= 52,
            0 <= power <= 0xffff_ffff,
    ;
    assert(0 <= per_level * power * attack <= 52 * 0xffff_ffff * 131_068) by (nonlinear_arith)
        requires
            0 <= per_level * power <= 52 * 0xffff_ffff,
            0 <= attack <= 131_068,
    ;
    let divisor: u64 = if defense < 1 {
        1
    } else {
        defense
    };
    let raw: u64 = per_level * power * attack / divisor / 1000 / 50 + 2;
    if raw > DAMAGE_CAP {
        DAMAGE_CAP
    } else {
        raw
    }
}

/// The damage of the move with every factor but the roll: the base damage,
/// then the type of the move against the types of the defender, the
/// weather, the attacker's own type, a burn, the screens, the terrain.
pub open spec fn damage_before_roll(s: State, attacking_side: SideReference, choice: ChoiceView) -> int {
    let attacker = s.active(attacking_side);
    let defender = s.active(attacking_side.other());
    let by_type = scaled(
        base_damage(attacker, defender, choice),
        type_effectiveness(choice.move_type, defender.types),
        4,
    );
    let by_weather = scaled(by_type, weather_factor(s, choice), 2);
    let by_own_type = scaled(by_weather, same_type_factor(attacker, choice), 2);
    let by_burn = scaled(by_own_type, burn_factor(attacker, choice), 2);
    let by_screens = scaled(by_burn, screen_factor(s, attacking_side.other(), choice), 2);
    scaled(by_screens, terrain_factor(s, attacker, defender, choice), 10)
}

/// A roll of `thousandths` on the damage `damage`, as hit points: no more
/// than the most that hit points can be.
pub open spec fn rolled(damage: int, thousandths: int) -> i16 {
    let amount = scaled(damage, thousandths, 1000);
    if amount > i16::MAX {
        i16::MAX
    } else {
        amount as i16
    }
}

fn roll(damage: u64, thousandths: u64) -> (r: i16)
    requires
        damage <= DAMAGE_CAP,
        thousandths <= 1000,
    ensures
        r == rolled(damage as int, thousandths as int),
        r >= 0,
{
    let amount = scale(damage, thousandths, 1000);
    if amount > i16::MAX as u64 {
        i16::MAX
    } else {
        amount as i16
    }
}

/// Whether the choice deals damage at all: it is a physical or a special
/// move, and it has power.
pub open spec fn deals_damage(choice: ChoiceView) -> bool {
    (choice.category == MoveCategory::Physical || choice.category == MoveCategory::Special)
        && choice.base_power > 0
}

/// The amounts that the move can take from its target, one for each roll
/// that `rolls` tells apart; nothing for a choice that deals no damage.
pub open spec fn damage_amounts(
    s: State,
    attacking_side: SideReference,
    choice: ChoiceView,
    rolls: DamageRolls,
) -> Option<Seq<i16>> {
    if !deals_damage(choice) {
        None
    } else {
        let damage = damage_before_roll(s, attacking_side, choice);
        Some(
            match rolls {
                DamageRolls::Average => seq![rolled(damage, AVERAGE_ROLL as int)],
                DamageRolls::MinMaxAverage => seq![
                    rolled(damage, LOWEST_ROLL as int),
                    rolled(damage, AVERAGE_ROLL as int),
                    rolled(damage, 1000),
                ],
                DamageRolls::AllRolls => Seq::new(
                    16,
                    |k: int| rolled(damage, LOWEST_ROLL + 10 * k),
                ),
            },
        )
    }
}

/// The amounts that the move of `choice` can take from the active
/// creature of the other side, one for each roll that `rolls` tells apart;
/// nothing for a choice that deals no damage. No amount is negative.
pub fn calculate_damage(
    state: &State,
    attacking_side: SideReference,
    choice: &Choice,
    rolls: DamageRolls,
) -> (r: Option<Vec<i16>>)
    ensures
        r.is_some() == damage_amounts(*state, attacking_side, choice@, rolls).is_some(),
        r matches Some(amounts) ==> amounts@ == damage_amounts(
            *state,
            attacking_side,
            choice@,
            rolls,
        ).unwrap() && forall|k: int| 0 <= k < amounts.len() ==> #[trigger] amounts[k] >= 0,
{
    let damaging = (choice.category == MoveCategory::Physical || choice.category
        == MoveCategory::Special) && choice.base_power > 0;
    if !damaging {
        return None;
    }
    let defending_side = attacking_side.get_other_side();
    let attacker = state.get_side_immutable(&attacking_side).get_active_immutable();
    let defender = state.get_side_immutable(&defending_side).get_active_immutable();
    let base = get_base_damage(attacker, defender, choice);
    let by_type = scale(
        base,
        type_effectiveness_modifier(&choice.move_type, &defender.types) as u64,
        4,
    );
    let by_weather = scale(by_type, get_weather_factor(state, choice), 2);
    let by_own_type = scale(by_weather, get_same_type_factor(attacker, choice), 2);
    let by_burn = scale(by_own_type, get_burn_factor(attacker, choice), 2);
    let by_screens = scale(by_burn, get_screen_factor(state, &defending_side, choice), 2);
    let damage = scale(by_screens, get_terrain_factor(state, attacker, defender, choice), 10);
    let mut amounts: Vec<i16> = Vec::new();
    match rolls {
        DamageRolls::Average => {
            amounts.push(roll(damage, AVERAGE_ROLL));
        },
        DamageRolls::MinMaxAverage => {
            amounts.push(roll(damage, LOWEST_ROLL));
            amounts.push(roll(damage, AVERAGE_ROLL));
            amounts.push(roll(damage, 1000));
        },
        DamageRolls::AllRolls => {
            let mut k: u64 = 0;
            while k < 16
                invariant
                    k <= 16,
                    damage <= DAMAGE_CAP,
                    amounts.len() == k,
                    forall|j: int|
                        0 <= j < k ==> #[trigger] amounts[j] == rolled(
                            damage as int,
                            LOWEST_ROLL + 10 * j,
                        ),
                    forall|j: int| 0 <= j < k ==> #[trigger] amounts[j] >= 0,
                decreases 16 - k,
            {
                amounts.push(roll(damage, LOWEST_ROLL + 10 * k));
                k += 1;
            }
        },
    }
    assert(amounts@ =~= damage_amounts(*state, attacking_side, choice@, rolls).unwrap());
    Some(amounts)
}

} // verus!
