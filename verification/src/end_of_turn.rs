//! What the end of a turn does, phase by phase: the weather, the statuses,
//! the leech seeds, the wishes, the items, the abilities, the conditions of
//! the sides, the weather and the terrain themselves, and the volatile
//! statuses that last one turn. Each phase reads the state that the phases
//! before it have left, and a creature that has fainted takes no part.

use vstd::prelude::*;
use crate::abilities::{ability_end_of_turn, ability_end_of_turn_steps};
use crate::fitting::tracks;
use crate::instruction::Instruction;
use crate::items::{build_item_end_of_turn_steps, item_end_of_turn_steps};
use crate::laws::{apply_all_concat, apply_all_keeps_bounds};
use crate::perform::{append_steps, perform_all};
use crate::stages::append_instructions;
use crate::state::{
    clip16, clip8, divide, quotient, saturating_sub8, PokemonSideCondition, PokemonStatus,
    PokemonType, PokemonVolatileStatus, SideReference, State, Terrain, Weather,
};
use crate::steps::{run, Step};

verus! {

#[derive(Clone, Copy, Debug, PartialEq, Eq, Structural)]
pub enum Phase {
    Weather,
    Status,
    LeechSeed,
    Wish,
    Items,
    Abilities,
    SideConditions,
    Field,
    Volatiles,
}

impl Phase {
    /// The phases of the end of a turn, in their order.
    pub open spec fn all() -> Seq<Phase> {
        seq![
            Phase::Weather,
            Phase::Status,
            Phase::LeechSeed,
            Phase::Wish,
            Phase::Items,
            Phase::Abilities,
            Phase::SideConditions,
            Phase::Field,
            Phase::Volatiles,
        ]
    }
}

/// A sandstorm takes a sixteenth of the maximum hit points from every
/// creature that is not of the rock, ground or steel type, and a hail from
/// every creature that is not of the ice type.
pub open spec fn weather_steps(s: State, side_ref: SideReference) -> Seq<Step> {
    let pokemon = s.active(side_ref);
    let sand = s.weather.weather_type == Weather::Sand && !pokemon.is_of_type(PokemonType::Rock)
        && !pokemon.is_of_type(PokemonType::Ground) && !pokemon.is_of_type(PokemonType::Steel);
    let hail = s.weather.weather_type == Weather::Hail && !pokemon.is_of_type(PokemonType::Ice);
    if pokemon.hp > 0 && (sand || hail) {
        seq![Step::Damage { side_ref, amount: quotient(pokemon.maxhp as int, 16) as i16 }]
    } else {
        Seq::empty()
    }
}

fn build_weather_steps(state: &State, side_ref: SideReference) -> (r: Vec<Step>)
    ensures
        r@ == weather_steps(*state, side_ref),
{
    let mut steps: Vec<Step> = Vec::new();
    let pokemon = state.get_side_immutable(&side_ref).get_active_immutable();
    let sand = state.weather.weather_type == Weather::Sand && !pokemon.has_type(
        &PokemonType::Rock,
    ) && !pokemon.has_type(&PokemonType::Ground) && !pokemon.has_type(&PokemonType::Steel);
    let hail = state.weather.weather_type == Weather::Hail && !pokemon.has_type(&PokemonType::Ice);
    if pokemon.hp > 0 && (sand || hail) {
        steps.push(Step::Damage { side_ref, amount: divide(pokemon.maxhp, 16) });
    }
    assert(steps@ =~= weather_steps(*state, side_ref));
    steps
}

/// A burn takes a sixteenth of the maximum hit points, a poison an eighth,
/// and a toxic poison one sixteenth more with every turn that it has
/// lasted, which the toxic count of the side keeps.
pub open spec fn status_damage_steps(s: State, side_ref: SideReference) -> Seq<Step> {
    let pokemon = s.active(side_ref);
    let count = s.side(side_ref).side_conditions.toxic_count;
    if pokemon.hp <= 0 {
        Seq::empty()
    } else {
        match pokemon.status {
            PokemonStatus::Burn => seq![
                Step::Damage { side_ref, amount: quotient(pokemon.maxhp as int, 16) as i16 },
            ],
            PokemonStatus::Poison => seq![
                Step::Damage { side_ref, amount: quotient(pokemon.maxhp as int, 8) as i16 },
            ],
            PokemonStatus::Toxic => seq![
                Step::Damage {
                    side_ref,
                    amount: clip16(quotient(pokemon.maxhp * (count + 1), 16)),
                },
                Step::SetSideCondition {
                    side_ref,
                    condition: PokemonSideCondition::ToxicCount,
                    value: clip8(count + 1),
                },
            ],
            _ => Seq::empty(),
        }
    }
}

fn build_status_damage_steps(state: &State, side_ref: SideReference) -> (r: Vec<Step>)
    ensures
        r@ == status_damage_steps(*state, side_ref),
{
    let mut steps: Vec<Step> = Vec::new();
    let side = state.get_side_immutable(&side_ref);
    let pokemon = side.get_active_immutable();
    let count = side.side_conditions.toxic_count;
    if pokemon.hp > 0 {
        match pokemon.status {
            PokemonStatus::Burn => {
                steps.push(Step::Damage { side_ref, amount: divide(pokemon.maxhp, 16) });
            },
            PokemonStatus::Poison => {
                steps.push(Step::Damage { side_ref, amount: divide(pokemon.maxhp, 8) });
            },
            PokemonStatus::Toxic => {
                let turns: i32 = count as i32 + 1;
                assert(-0x8000 * 0x80 <= (pokemon.maxhp as int) * (turns as int) <= 0x8000 * 0x80)
                    by (nonlinear_arith)
                    requires
                        -0x8000 <= pokemon.maxhp as int <= 0x7fff,
                        -0x7f <= turns as int <= 0x80,
                ;
                let product: i32 = (pokemon.maxhp as i32) * turns;
                let amount: i32 = if product >= 0 {
                    product / 16
                } else {
                    -((-product) / 16)
                };
                steps.push(
                    Step::Damage {
                        side_ref,
                        amount: if amount < i16::MIN as i32 {
                            i16::MIN
                        } else if amount > i16::MAX as i32 {
                            i16::MAX
                        } else {
                            amount as i16
                        },
                    },
                );
                steps.push(
                    Step::SetSideCondition {
                        side_ref,
                        condition: PokemonSideCondition::ToxicCount,
                        value: crate::state::saturating_add8(count, 1),
                    },
                );
            },
            _ => {},
        }
    }
    assert(steps@ =~= status_damage_steps(*state, side_ref));
    steps
}

/// A leech seed takes an eighth of the maximum hit points of the creature
/// it is on, as far as it has them, and gives them to the creature it
/// faces, while both are alive.
pub open spec fn leech_seed_steps(s: State, side_ref: SideReference) -> Seq<Step> {
    let pokemon = s.active(side_ref);
    let eighth = quotient(pokemon.maxhp as int, 8);
    let drained = if eighth < 0 {
        0
    } else if eighth > pokemon.hp {
        pokemon.hp as int
    } else {
        eighth
    };
    if pokemon.volatile_statuses.has(PokemonVolatileStatus::LeechSeed) && pokemon.hp > 0
        && s.active(side_ref.other()).hp > 0 {
        seq![
            Step::Damage { side_ref, amount: drained as i16 },
            Step::Heal { side_ref: side_ref.other(), amount: drained as i16, keep_zero: false },
        ]
    } else {
        Seq::empty()
    }
}

fn build_leech_seed_steps(state: &State, side_ref: SideReference) -> (r: Vec<Step>)
    ensures
        r@ == leech_seed_steps(*state, side_ref),
{
    let mut steps: Vec<Step> = Vec::new();
    let pokemon = state.get_side_immutable(&side_ref).get_active_immutable();
    let other = side_ref.get_other_side();
    let eighth = divide(pokemon.maxhp, 8);
    let drained = if eighth < 0 {
        0
    } else if eighth > pokemon.hp {
        pokemon.hp
    } else {
        eighth
    };
    if pokemon.volatile_statuses.contains(&PokemonVolatileStatus::LeechSeed) && pokemon.hp > 0
        && state.get_side_immutable(&other).get_active_immutable().hp > 0 {
        steps.push(Step::Damage { side_ref, amount: drained });
        steps.push(Step::Heal { side_ref: other, amount: drained, keep_zero: false });
    }
    assert(steps@ =~= leech_seed_steps(*state, side_ref));
    steps
}

/// A wish that is under way comes one turn nearer; in its last turn it
/// heals the active creature, if that is alive.
pub open spec fn wish_steps(s: State, side_ref: SideReference) -> Seq<Step> {
    let wish = s.side(side_ref).wish;
    if wish.turns_remaining == 1 && s.active(side_ref).hp > 0 {
        seq![
            Step::CountDownWish { side_ref },
            Step::Heal { side_ref, amount: wish.heal_amount, keep_zero: false },
        ]
    } else {
        seq![Step::CountDownWish { side_ref }]
    }
}

fn build_wish_steps(state: &State, side_ref: SideReference) -> (r: Vec<Step>)
    ensures
        r@ == wish_steps(*state, side_ref),
{
    let mut steps: Vec<Step> = Vec::new();
    let side = state.get_side_immutable(&side_ref);
    steps.push(Step::CountDownWish { side_ref });
    if side.wish.turns_remaining == 1 && side.get_active_immutable().hp > 0 {
        steps.push(Step::Heal { side_ref, amount: side.wish.heal_amount, keep_zero: false });
    }
    assert(steps@ =~= wish_steps(*state, side_ref));
    steps
}

/// The conditions of a side that last a number of turns.
pub open spec fn timed_conditions() -> Seq<PokemonSideCondition> {
    seq![
        PokemonSideCondition::Reflect,
        PokemonSideCondition::LightScreen,
        PokemonSideCondition::AuroraVeil,
        PokemonSideCondition::Tailwind,
        PokemonSideCondition::Safeguard,
    ]
}

/// Each condition of a side that lasts a number of turns comes one turn
/// nearer to its end.
pub open spec fn side_condition_steps(s: State, side_ref: SideReference) -> Seq<Step> {
    let conditions = s.side(side_ref).side_conditions;
    Seq::new(
        timed_conditions().len(),
        |i: int|
            Step::SetSideCondition {
                side_ref,
                condition: timed_conditions()[i],
                value: clip8(conditions.value(timed_conditions()[i]) - 1),
            },
    )
}

fn build_side_condition_steps(state: &State, side_ref: SideReference) -> (r: Vec<Step>)
    ensures
        r@ == side_condition_steps(*state, side_ref),
{
    let mut steps: Vec<Step> = Vec::new();
    let conditions = &state.get_side_immutable(&side_ref).side_conditions;
    steps.push(
        Step::SetSideCondition {
            side_ref,
            condition: PokemonSideCondition::Reflect,
            value: saturating_sub8(conditions.reflect, 1),
        },
    );
    steps.push(
        Step::SetSideCondition {
            side_ref,
            condition: PokemonSideCondition::LightScreen,
            value: saturating_sub8(conditions.light_screen, 1),
        },
    );
    steps.push(
        Step::SetSideCondition {
            side_ref,
            condition: PokemonSideCondition::AuroraVeil,
            value: saturating_sub8(conditions.aurora_veil, 1),
        },
    );
    steps.push(
        Step::SetSideCondition {
            side_ref,
            condition: PokemonSideCondition::Tailwind,
            value: saturating_sub8(conditions.tailwind, 1),
        },
    );
    steps.push(
        Step::SetSideCondition {
            side_ref,
            condition: PokemonSideCondition::Safeguard,
            value: saturating_sub8(conditions.safeguard, 1),
        },
    );
    assert(steps@ =~= side_condition_steps(*state, side_ref));
    steps
}

/// A weather and a terrain with turns left come one turn nearer to their
/// end, and end with their last turn. One without turns left stays.
pub open spec fn field_steps(s: State) -> Seq<Step> {
    let weather = if s.weather.weather_type != Weather::NONE && s.weather.turns_remaining > 1 {
        seq![
            Step::SetWeather {
                weather: s.weather.weather_type,
                turns: (s.weather.turns_remaining - 1) as i8,
            },
        ]
    } else if s.weather.weather_type != Weather::NONE && s.weather.turns_remaining == 1 {
        seq![Step::SetWeather { weather: Weather::NONE, turns: 0 }]
    } else {
        Seq::empty()
    };
    let terrain = if s.terrain.terrain_type != Terrain::NONE && s.terrain.turns_remaining > 1 {
        seq![
            Step::SetTerrain {
                terrain: s.terrain.terrain_type,
                turns: (s.terrain.turns_remaining - 1) as i8,
            },
        ]
    } else if s.terrain.terrain_type != Terrain::NONE && s.terrain.turns_remaining == 1 {
        seq![Step::SetTerrain { terrain: Terrain::NONE, turns: 0 }]
    } else {
        Seq::empty()
    };
    weather + terrain
}

fn build_field_steps(state: &State) -> (r: Vec<Step>)
    ensures
        r@ == field_steps(*state),
{
    let mut steps: Vec<Step> = Vec::new();
    if state.weather.weather_type != Weather::NONE && state.weather.turns_remaining > 1 {
        steps.push(
            Step::SetWeather {
                weather: state.weather.weather_type,
                turns: state.weather.turns_remaining - 1,
            },
        );
    } else if state.weather.weather_type != Weather::NONE && state.weather.turns_remaining == 1 {
        steps.push(Step::SetWeather { weather: Weather::NONE, turns: 0 });
    }
    if state.terrain.terrain_type != Terrain::NONE && state.terrain.turns_remaining > 1 {
        steps.push(
            Step::SetTerrain {
                terrain: state.terrain.terrain_type,
                turns: state.terrain.turns_remaining - 1,
            },
        );
    } else if state.terrain.terrain_type != Terrain::NONE && state.terrain.turns_remaining == 1 {
        steps.push(Step::SetTerrain { terrain: Terrain::NONE, turns: 0 });
    }
    assert(steps@ =~= field_steps(*state));
    steps
}

/// The volatile statuses that last one turn end.
pub open spec fn volatile_steps(side_ref: SideReference) -> Seq<Step> {
    seq![
        Step::RemoveVolatileStatus { side_ref, status: PokemonVolatileStatus::Flinch },
        Step::RemoveVolatileStatus { side_ref, status: PokemonVolatileStatus::Protect },
    ]
}

/// What a phase asks for on one side.
pub open spec fn phase_side_steps(phase: Phase, s: State, side_ref: SideReference) -> Seq<Step> {
    match phase {
        Phase::Weather => weather_steps(s, side_ref),
        Phase::Status => status_damage_steps(s, side_ref),
        Phase::LeechSeed => leech_seed_steps(s, side_ref),
        Phase::Wish => wish_steps(s, side_ref),
        Phase::Items => if s.active(side_ref).hp > 0 {
            item_end_of_turn_steps(s, side_ref)
        } else {
            Seq::empty()
        },
        Phase::Abilities => if s.active(side_ref).hp > 0 {
            ability_end_of_turn_steps(s, side_ref)
        } else {
            Seq::empty()
        },
        Phase::SideConditions => side_condition_steps(s, side_ref),
        Phase::Field => Seq::empty(),
        Phase::Volatiles => volatile_steps(side_ref),
    }
}

/// What a phase asks for: on the first side, then on the second; in the
/// phase of the field, of the weather and the terrain.
pub open spec fn phase_steps(phase: Phase, s: State) -> Seq<Step> {
    if phase == Phase::Field {
        field_steps(s)
    } else {
        phase_side_steps(phase, s, SideReference::SideOne) + phase_side_steps(
            phase,
            s,
            SideReference::SideTwo,
        )
    }
}

fn build_phase_side_steps(phase: Phase, state: &State, side_ref: SideReference) -> (r: Vec<Step>)
    ensures
        r@ == phase_side_steps(phase, *state, side_ref),
{
    let alive = state.get_side_immutable(&side_ref).get_active_immutable().hp > 0;
    match phase {
        Phase::Weather => build_weather_steps(state, side_ref),
        Phase::Status => build_status_damage_steps(state, side_ref),
        Phase::LeechSeed => build_leech_seed_steps(state, side_ref),
        Phase::Wish => build_wish_steps(state, side_ref),
        Phase::Items => if alive {
            build_item_end_of_turn_steps(state, &side_ref)
        } else {
            Vec::new()
        },
        Phase::Abilities => if alive {
            ability_end_of_turn(state, &side_ref)
        } else {
            Vec::new()
        },
        Phase::SideConditions => build_side_condition_steps(state, side_ref),
        Phase::Field => Vec::new(),
        Phase::Volatiles => {
            let mut steps: Vec<Step> = Vec::new();
            steps.push(
                Step::RemoveVolatileStatus { side_ref, status: PokemonVolatileStatus::Flinch },
            );
            steps.push(
                Step::RemoveVolatileStatus { side_ref, status: PokemonVolatileStatus::Protect },
            );
            assert(steps@ =~= volatile_steps(side_ref));
            steps
        },
    }
}

pub fn build_phase_steps(phase: Phase, state: &State) -> (r: Vec<Step>)
    ensures
        r@ == phase_steps(phase, *state),
{
    if phase == Phase::Field {
        build_field_steps(state)
    } else {
        let mut steps = build_phase_side_steps(phase, state, SideReference::SideOne);
        let second = build_phase_side_steps(phase, state, SideReference::SideTwo);
        append_steps(&mut steps, &second);
        steps
    }
}

/// The instructions of the phases `phases`, each carried out on the state
/// that the phases before it have left.
pub open spec fn phases_instructions(s: State, phases: Seq<Phase>) -> Seq<Instruction>
    decreases phases.len(),
{
    if phases.len() == 0 {
        Seq::empty()
    } else {
        let before = phases_instructions(s, phases.drop_last());
        before + run(s.apply_all(before), phase_steps(phases.last(), s.apply_all(before)))
    }
}

/// The instructions of the end of a turn on the state `s`.
pub open spec fn end_of_turn_instructions(s: State) -> Seq<Instruction> {
    phases_instructions(s, Phase::all())
}

/// Carries out the end of a turn on the state, and gives the instructions
/// that this took. The state is left where they lead.
pub fn end_of_turn(state: &mut State) -> (added: Vec<Instruction>)
    requires
        old(state).in_bounds(),
    ensures
        added@ == end_of_turn_instructions(*old(state)),
        tracks(*old(state), added@, *final(state)),
{
    let phases = [
        Phase::Weather,
        Phase::Status,
        Phase::LeechSeed,
        Phase::Wish,
        Phase::Items,
        Phase::Abilities,
        Phase::SideConditions,
        Phase::Field,
        Phase::Volatiles,
    ];
    assert(phases@ =~= Phase::all());
    let mut added: Vec<Instruction> = Vec::new();
    let mut i: usize = 0;
    while i < 9
        invariant
            i <= 9,
            phases@ == Phase::all(),
            tracks(*old(state), added@, *state),
            added@ == phases_instructions(*old(state), phases@.take(i as int)),
        decreases 9 - i,
    {
        proof {
            apply_all_keeps_bounds(*old(state), added@);
            assert(phases@.take(i + 1).drop_last() =~= phases@.take(i as int));
        }
        let ghost before = added@;
        let ghost reached = *state;
        let steps = build_phase_steps(phases[i], state);
        let more = perform_all(state, &steps);
        proof {
            apply_all_concat(*old(state), before, more@);
        }
        append_instructions(&mut added, &more);
        i += 1;
    }
    assert(phases@.take(9) =~= phases@);
    added
}

} // verus!
