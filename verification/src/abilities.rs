//! Abilities and what they do to a move before, while and after it is used.

use vstd::prelude::*;
use crate::choices::{Choice, ChoiceView, Choices, MoveCategory};
use crate::state::{
    Pokemon, PokemonBoostableStat, PokemonType, SideReference, State,
};
use crate::steps::Step;

verus! {

/// The abilities this crate knows by name.
#[allow(non_camel_case_types)]
#[derive(Clone, Copy, Debug, PartialEq, Eq, Structural)]
pub enum Abilities {
    NONE,
    ADAPTABILITY,
    BEASTBOOST,
    CLEARBODY,
    COMATOSE,
    COMPOUNDEYES,
    FLASHFIRE,
    FULLMETALBODY,
    GUTS,
    HUGEPOWER,
    IMMUNITY,
    INSOMNIA,
    INTIMIDATE,
    IRONFIST,
    LEVITATE,
    LIBERO,
    LIMBER,
    MAGMAARMOR,
    MARVELSCALE,
    MOXIE,
    NOGUARD,
    PASTELVEIL,
    PROTEAN,
    PUREPOWER,
    PURIFYINGSALT,
    QUICKFEET,
    SHIELDSDOWN,
    SPEEDBOOST,
    STICKYHOLD,
    STURDY,
    SWEETVEIL,
    TECHNICIAN,
    THICKFAT,
    VITALSPIRIT,
    VOLTABSORB,
    WATERABSORB,
    WATERBUBBLE,
    WATERVEIL,
    WHITESMOKE,
}

/// The stat of a creature that is highest, the earlier one where two are
/// equal: attack, defense, special attack, special defense, speed.
pub open spec fn highest_stat(pokemon: Pokemon) -> PokemonBoostableStat {
    let attack = pokemon.attack;
    let defense = pokemon.defense;
    let special_attack = pokemon.special_attack;
    let special_defense = pokemon.special_defense;
    let speed = pokemon.speed;
    if attack >= defense && attack >= special_attack && attack >= special_defense && attack
        >= speed {
        PokemonBoostableStat::Attack
    } else if defense >= special_attack && defense >= special_defense && defense >= speed {
        PokemonBoostableStat::Defense
    } else if special_attack >= special_defense && special_attack >= speed {
        PokemonBoostableStat::SpecialAttack
    } else if special_defense >= speed {
        PokemonBoostableStat::SpecialDefense
    } else {
        PokemonBoostableStat::Speed
    }
}

pub fn get_highest_stat(pokemon: &Pokemon) -> (r: PokemonBoostableStat)
    ensures
        r == highest_stat(*pokemon),
{
    let attack = pokemon.attack;
    let defense = pokemon.defense;
    let special_attack = pokemon.special_attack;
    let special_defense = pokemon.special_defense;
    let speed = pokemon.speed;
    if attack >= defense && attack >= special_attack && attack >= special_defense && attack
        >= speed {
        PokemonBoostableStat::Attack
    } else if defense >= special_attack && defense >= special_defense && defense >= speed {
        PokemonBoostableStat::Defense
    } else if special_attack >= special_defense && special_attack >= speed {
        PokemonBoostableStat::SpecialAttack
    } else if special_defense >= speed {
        PokemonBoostableStat::SpecialDefense
    } else {
        PokemonBoostableStat::Speed
    }
}

/// What the ability of the attacker asks for before its move: a protean
/// creature takes the type of the move.
pub open spec fn ability_before_move_steps(s: State, choice: ChoiceView, attacking_side: SideReference) -> Seq<
    Step,
> {
    let ability = s.active(attacking_side).ability;
    if (ability == Abilities::PROTEAN || ability == Abilities::LIBERO) && choice.move_type
        != PokemonType::Typeless {
        seq![
            Step::SetTypes {
                side_ref: attacking_side,
                first: choice.move_type,
                second: PokemonType::Typeless,
            },
        ]
    } else {
        Seq::empty()
    }
}

pub fn ability_before_move(state: &State, choice: &Choice, attacking_side: &SideReference) -> (r:
    Vec<Step>)
    ensures
        r@ == ability_before_move_steps(*state, choice@, *attacking_side),
{
    let mut steps: Vec<Step> = Vec::new();
    let ability = state.get_side_immutable(attacking_side).get_active_immutable().ability;
    if (ability == Abilities::PROTEAN || ability == Abilities::LIBERO) && choice.move_type
        != PokemonType::Typeless {
        steps.push(
            Step::SetTypes {
                side_ref: *attacking_side,
                first: choice.move_type,
                second: PokemonType::Typeless,
            },
        );
    }
    assert(steps@ =~= ability_before_move_steps(*state, choice@, *attacking_side));
    steps
}

/// What the ability of the attacker asks for after its move has dealt
/// `damage_dealt`: where that was all the hit points the target had, a
/// beast boost raises the highest stat of the attacker and a moxie its
/// attack.
pub open spec fn ability_after_damage_hit_steps(
    s: State,
    attacking_side: SideReference,
    damage_dealt: i16,
) -> Seq<Step> {
    let attacker = s.active(attacking_side);
    let defender = s.active(attacking_side.other());
    let knocked_out = damage_dealt > 0 && damage_dealt >= defender.hp;
    if knocked_out && attacker.ability == Abilities::BEASTBOOST {
        seq![Step::Boost { side_ref: attacking_side, stat: highest_stat(attacker), amount: 1 }]
    } else if knocked_out && attacker.ability == Abilities::MOXIE {
        seq![
            Step::Boost { side_ref: attacking_side, stat: PokemonBoostableStat::Attack, amount: 1 },
        ]
    } else {
        Seq::empty()
    }
}

pub fn ability_after_damage_hit(state: &State, attacking_side: &SideReference, damage_dealt: i16) -> (r:
    Vec<Step>)
    ensures
        r@ == ability_after_damage_hit_steps(*state, *attacking_side, damage_dealt),
{
    let mut steps: Vec<Step> = Vec::new();
    let attacker = state.get_side_immutable(attacking_side).get_active_immutable();
    let defender = state.get_side_immutable(
        &attacking_side.get_other_side(),
    ).get_active_immutable();
    let knocked_out = damage_dealt > 0 && damage_dealt >= defender.hp;
    if knocked_out && attacker.ability == Abilities::BEASTBOOST {
        steps.push(
            Step::Boost { side_ref: *attacking_side, stat: get_highest_stat(attacker), amount: 1 },
        );
    } else if knocked_out && attacker.ability == Abilities::MOXIE {
        steps.push(
            Step::Boost {
                side_ref: *attacking_side,
                stat: PokemonBoostableStat::Attack,
                amount: 1,
            },
        );
    }
    assert(steps@ =~= ability_after_damage_hit_steps(*state, *attacking_side, damage_dealt));
    steps
}

/// What the ability of a creature asks for at the end of a turn: a speed
/// boost raises the speed.
pub open spec fn ability_end_of_turn_steps(s: State, side_ref: SideReference) -> Seq<Step> {
    if s.active(side_ref).ability == Abilities::SPEEDBOOST {
        seq![Step::Boost { side_ref, stat: PokemonBoostableStat::Speed, amount: 1 }]
    } else {
        Seq::empty()
    }
}

pub fn ability_end_of_turn(state: &State, side_ref: &SideReference) -> (r: Vec<Step>)
    ensures
        r@ == ability_end_of_turn_steps(*state, *side_ref),
{
    let mut steps: Vec<Step> = Vec::new();
    if state.get_side_immutable(side_ref).get_active_immutable().ability
        == Abilities::SPEEDBOOST {
        steps.push(Step::Boost { side_ref: *side_ref, stat: PokemonBoostableStat::Speed, amount: 1 });
    }
    assert(steps@ =~= ability_end_of_turn_steps(*state, *side_ref));
    steps
}

/// What the ability of a creature asks for when it comes in: an
/// intimidating creature lowers the attack of the creature it faces,
/// unless that one keeps its stats.
pub open spec fn ability_on_switch_in_steps(s: State, side_ref: SideReference) -> Seq<Step> {
    if s.active(side_ref).ability == Abilities::INTIMIDATE && !s.active(
        side_ref.other(),
    ).keeps_stats() {
        seq![
            Step::Boost {
                side_ref: side_ref.other(),
                stat: PokemonBoostableStat::Attack,
                amount: -1i8,
            },
        ]
    } else {
        Seq::empty()
    }
}

pub fn ability_on_switch_in(state: &State, side_ref: &SideReference) -> (r: Vec<Step>)
    ensures
        r@ == ability_on_switch_in_steps(*state, *side_ref),
{
    let mut steps: Vec<Step> = Vec::new();
    let other = side_ref.get_other_side();
    if state.get_side_immutable(side_ref).get_active_immutable().ability == Abilities::INTIMIDATE
        && !state.get_side_immutable(
        &other,
    ).get_active_immutable().immune_to_stats_lowered_by_opponent() {
        steps.push(Step::Boost { side_ref: other, stat: PokemonBoostableStat::Attack, amount: -1 });
    }
    assert(steps@ =~= ability_on_switch_in_steps(*state, *side_ref));
    steps
}

/// What the ability of the attacker makes of its choice: huge power and
/// pure power double a physical move, a technician strengthens a move of
/// no more than sixty points by a half, an iron fist a punch by a fifth,
/// compound eyes raise the accuracy by three tenths, and with no guard the
/// move cannot miss.
pub open spec fn ability_modified_attack_being_used(
    s: State,
    choice: ChoiceView,
    attacking_side: SideReference,
) -> ChoiceView {
    match s.active(attacking_side).ability {
        Abilities::HUGEPOWER | Abilities::PUREPOWER => if choice.category
            == MoveCategory::Physical {
            choice.with_power_scaled(2, 1)
        } else {
            choice
        },
        Abilities::TECHNICIAN => if choice.base_power <= 60_000 {
            choice.with_power_scaled(3, 2)
        } else {
            choice
        },
        Abilities::IRONFIST => if choice.flags.punch {
            choice.with_power_scaled(6, 5)
        } else {
            choice
        },
        Abilities::COMPOUNDEYES => ChoiceView {
            accuracy: if choice.accuracy * 13 / 10 > 100 {
                100
            } else {
                (choice.accuracy * 13 / 10) as u8
            },
            ..choice
        },
        Abilities::NOGUARD => ChoiceView { accuracy: 100, ..choice },
        _ => choice,
    }
}

pub fn ability_modify_attack_being_used(
    state: &State,
    attacker_choice: &mut Choice,
    attacking_side: &SideReference,
)
    ensures
        final(attacker_choice)@ == ability_modified_attack_being_used(
            *state,
            old(attacker_choice)@,
            *attacking_side,
        ),
{
    match state.get_side_immutable(attacking_side).get_active_immutable().ability {
        Abilities::HUGEPOWER | Abilities::PUREPOWER => {
            if attacker_choice.category == MoveCategory::Physical {
                attacker_choice.scale_base_power(2, 1);
            }
        },
        Abilities::TECHNICIAN => {
            if attacker_choice.base_power <= 60_000 {
                attacker_choice.scale_base_power(3, 2);
            }
        },
        Abilities::IRONFIST => {
            if attacker_choice.flags.punch {
                attacker_choice.scale_base_power(6, 5);
            }
        },
        Abilities::COMPOUNDEYES => {
            let raised: u16 = attacker_choice.accuracy as u16 * 13 / 10;
            attacker_choice.accuracy = if raised > 100 {
                100
            } else {
                raised as u8
            };
        },
        Abilities::NOGUARD => {
            attacker_choice.accuracy = 100;
        },
        _ => {},
    }
}

/// What the ability of the defender makes of the choice of the attacker: a
/// levitating creature is out of reach of ground moves but the thousand
/// arrows, the absorbing abilities take the power from moves of their
/// type, thick fat halves fire and ice, and with no guard the move cannot
/// miss.
pub open spec fn ability_modified_attack_against(
    s: State,
    choice: ChoiceView,
    attacking_side: SideReference,
) -> ChoiceView {
    match s.active(attacking_side.other()).ability {
        Abilities::LEVITATE => if choice.move_type == PokemonType::Ground && choice.move_id
            != Choices::THOUSANDARROWS {
            ChoiceView { base_power: 0, ..choice }
        } else {
            choice
        },
        Abilities::VOLTABSORB => if choice.move_type == PokemonType::Electric {
            ChoiceView { base_power: 0, ..choice }
        } else {
            choice
        },
        Abilities::WATERABSORB => if choice.move_type == PokemonType::Water {
            ChoiceView { base_power: 0, ..choice }
        } else {
            choice
        },
        Abilities::FLASHFIRE => if choice.move_type == PokemonType::Fire {
            ChoiceView { base_power: 0, ..choice }
        } else {
            choice
        },
        Abilities::THICKFAT => if choice.move_type == PokemonType::Fire || choice.move_type
            == PokemonType::Ice {
            choice.with_power_scaled(1, 2)
        } else {
            choice
        },
        Abilities::NOGUARD => ChoiceView { accuracy: 100, ..choice },
        _ => choice,
    }
}

pub fn ability_modify_attack_against(
    state: &State,
    attacker_choice: &mut Choice,
    attacking_side: &SideReference,
)
    ensures
        final(attacker_choice)@ == ability_modified_attack_against(
            *state,
            old(attacker_choice)@,
            *attacking_side,
        ),
{
    let defending_side = attacking_side.get_other_side();
    match state.get_side_immutable(&defending_side).get_active_immutable().ability {
        Abilities::LEVITATE => {
            if attacker_choice.move_type == PokemonType::Ground && attacker_choice.move_id
                != Choices::THOUSANDARROWS {
                attacker_choice.base_power = 0;
            }
        },
        Abilities::VOLTABSORB => {
            if attacker_choice.move_type == PokemonType::Electric {
                attacker_choice.base_power = 0;
            }
        },
        Abilities::WATERABSORB => {
            if attacker_choice.move_type == PokemonType::Water {
                attacker_choice.base_power = 0;
            }
        },
        Abilities::FLASHFIRE => {
            if attacker_choice.move_type == PokemonType::Fire {
                attacker_choice.base_power = 0;
            }
        },
        Abilities::THICKFAT => {
            if attacker_choice.move_type == PokemonType::Fire || attacker_choice.move_type
                == PokemonType::Ice {
                attacker_choice.scale_base_power(1, 2);
            }
        },
        Abilities::NOGUARD => {
            attacker_choice.accuracy = 100;
        },
        _ => {},
    }
}

} // verus!
