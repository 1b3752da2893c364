//! What the parts of a choice ask for once the move has hit: layers of side
//! conditions, the clearing of hazards, volatile statuses, statuses, boosts
//! and heals, each as a list of steps read off the state and the choice.

use vstd::prelude::*;
use crate::abilities::Abilities;
use crate::choices::{Choice, ChoiceView, Choices, MoveTarget, StatBoosts};
use crate::state::{
    clip16, divide, quotient, PokemonBoostableStat, PokemonSideCondition, PokemonStatus, PokemonType,
    PokemonVolatileStatus, SideReference, State, Terrain, Weather,
};
use crate::steps::Step;

verus! {

/// The turns that a weather lasts once a move has set it.
pub const WEATHER_TURNS: i8 = 5;

/// `per_mille` thousandths of `value`, rounded towards zero.
pub open spec fn fraction_of(value: int, per_mille: int) -> int {
    let product = value * per_mille;
    if product >= 0 {
        product / 1000
    } else {
        -((-product) / 1000)
    }
}

/// `per_mille` thousandths of `value`, rounded towards zero and saturating
/// at the ends of `i16`.
pub fn fraction(value: i16, per_mille: i16) -> (r: i16)
    ensures
        r == clip16(fraction_of(value as int, per_mille as int)),
{
    assert(-0x8000 * 0x8000 <= (value as int) * (per_mille as int) <= 0x8000 * 0x8000)
        by (nonlinear_arith)
        requires
            -0x8000 <= value as int <= 0x7fff,
            -0x8000 <= per_mille as int <= 0x7fff,
    ;
    let product: i32 = (value as i32) * (per_mille as i32);
    let quotient: i32 = if product >= 0 {
        product / 1000
    } else {
        -((-product) / 1000)
    };
    if quotient < i16::MIN as i32 {
        i16::MIN
    } else if quotient > i16::MAX as i32 {
        i16::MAX
    } else {
        quotient as i16
    }
}

/// The side that a part of a move aims at.
pub open spec fn target_side(target: MoveTarget, attacking_side: SideReference) -> SideReference {
    match target {
        MoveTarget::Opponent => attacking_side.other(),
        MoveTarget::User => attacking_side,
    }
}

pub fn get_target_side(target: &MoveTarget, attacking_side: &SideReference) -> (r: SideReference)
    ensures
        r == target_side(*target, *attacking_side),
{
    match target {
        MoveTarget::Opponent => attacking_side.get_other_side(),
        MoveTarget::User => *attacking_side,
    }
}

/// The most layers that a move can bring a side condition to: three of
/// spikes, two of toxic spikes, one of anything else; an aurora veil only
/// goes up in hail.
pub open spec fn max_layers(s: State, condition: PokemonSideCondition) -> i8 {
    match condition {
        PokemonSideCondition::Spikes => 3,
        PokemonSideCondition::ToxicSpikes => 2,
        PokemonSideCondition::AuroraVeil => if s.weather.weather_type == Weather::Hail {
            1
        } else {
            0
        },
        _ => 1,
    }
}

pub fn get_max_layers(state: &State, condition: PokemonSideCondition) -> (r: i8)
    ensures
        r == max_layers(*state, condition),
{
    match condition {
        PokemonSideCondition::Spikes => 3,
        PokemonSideCondition::ToxicSpikes => 2,
        PokemonSideCondition::AuroraVeil => if state.weather.weather_type == Weather::Hail {
            1
        } else {
            0
        },
        _ => 1,
    }
}

/// One more layer of the side condition of the choice on the side it aims
/// at, unless the most layers are there.
pub open spec fn side_condition_steps(s: State, choice: ChoiceView, attacking_side: SideReference) -> Seq<
    Step,
> {
    match choice.side_condition {
        Some(side_condition) => {
            let side_ref = target_side(side_condition.target, attacking_side);
            let count = s.side(side_ref).side_conditions.value(side_condition.condition);
            if count < max_layers(s, side_condition.condition) {
                seq![
                    Step::SetSideCondition {
                        side_ref,
                        condition: side_condition.condition,
                        value: (count + 1) as i8,
                    },
                ]
            } else {
                Seq::empty()
            }
        },
        None => Seq::empty(),
    }
}

pub fn build_side_condition_steps(state: &State, choice: &Choice, attacking_side: &SideReference) -> (r:
    Vec<Step>)
    ensures
        r@ == side_condition_steps(*state, choice@, *attacking_side),
{
    let mut steps: Vec<Step> = Vec::new();
    if let Some(side_condition) = &choice.side_condition {
        let side_ref = get_target_side(&side_condition.target, attacking_side);
        let count = state.get_side_immutable(&side_ref).get_side_condition(
            side_condition.condition,
        );
        if count < get_max_layers(state, side_condition.condition) {
            steps.push(
                Step::SetSideCondition {
                    side_ref,
                    condition: side_condition.condition,
                    value: count + 1,
                },
            );
        }
    }
    assert(steps@ =~= side_condition_steps(*state, choice@, *attacking_side));
    steps
}

/// The hazards: what lies on a side and harms what comes in.
pub open spec fn hazards() -> Seq<PokemonSideCondition> {
    seq![
        PokemonSideCondition::Stealthrock,
        PokemonSideCondition::Spikes,
        PokemonSideCondition::ToxicSpikes,
        PokemonSideCondition::StickyWeb,
    ]
}

/// What a defog blows away: the hazards and the screens.
pub open spec fn cleared_by_defog() -> Seq<PokemonSideCondition> {
    seq![
        PokemonSideCondition::Stealthrock,
        PokemonSideCondition::Spikes,
        PokemonSideCondition::ToxicSpikes,
        PokemonSideCondition::StickyWeb,
        PokemonSideCondition::Reflect,
        PokemonSideCondition::LightScreen,
        PokemonSideCondition::AuroraVeil,
        PokemonSideCondition::Safeguard,
        PokemonSideCondition::Mist,
    ]
}

/// Bring each of `conditions` to zero on the side `side_ref`.
pub open spec fn clear_steps(side_ref: SideReference, conditions: Seq<PokemonSideCondition>) -> Seq<
    Step,
> {
    Seq::new(
        conditions.len(),
        |i: int| Step::SetSideCondition { side_ref, condition: conditions[i], value: 0 },
    )
}

/// Swap the counts of `condition` between the sides: first the higher
/// count goes down to the lower, then the lower up to the higher.
pub open spec fn swap_steps(s: State, condition: PokemonSideCondition) -> Seq<Step> {
    let one = s.side_one.side_conditions.value(condition);
    let two = s.side_two.side_conditions.value(condition);
    if one >= two {
        seq![
            Step::SetSideCondition { side_ref: SideReference::SideOne, condition, value: two },
            Step::SetSideCondition { side_ref: SideReference::SideTwo, condition, value: one },
        ]
    } else {
        seq![
            Step::SetSideCondition { side_ref: SideReference::SideTwo, condition, value: one },
            Step::SetSideCondition { side_ref: SideReference::SideOne, condition, value: two },
        ]
    }
}

/// What a move that clears hazards asks for: a rapid spin clears the
/// hazards of the side that uses it, a defog clears the terrain and then
/// hazards and screens of both sides, a court change swaps the hazards of
/// the sides. Other moves ask for nothing.
pub open spec fn hazard_clear_steps(s: State, choice: ChoiceView, attacking_side: SideReference) -> Seq<
    Step,
> {
    match choice.move_id {
        Choices::RAPIDSPIN | Choices::MORTALSPIN => clear_steps(attacking_side, hazards()),
        Choices::DEFOG => seq![Step::SetTerrain { terrain: Terrain::NONE, turns: 0 }] + clear_steps(
            SideReference::SideOne,
            cleared_by_defog(),
        ) + clear_steps(SideReference::SideTwo, cleared_by_defog()),
        Choices::COURTCHANGE => swap_steps(s, PokemonSideCondition::Stealthrock) + swap_steps(
            s,
            PokemonSideCondition::Spikes,
        ) + swap_steps(s, PokemonSideCondition::ToxicSpikes) + swap_steps(
            s,
            PokemonSideCondition::StickyWeb,
        ),
        _ => Seq::empty(),
    }
}

fn push_clear_steps(steps: &mut Vec<Step>, side_ref: SideReference, with_screens: bool)
    ensures
        final(steps)@ == old(steps)@ + clear_steps(
            side_ref,
            if with_screens {
                cleared_by_defog()
            } else {
                hazards()
            },
        ),
{
    steps.push(
        Step::SetSideCondition { side_ref, condition: PokemonSideCondition::Stealthrock, value: 0 },
    );
    steps.push(
        Step::SetSideCondition { side_ref, condition: PokemonSideCondition::Spikes, value: 0 },
    );
    steps.push(
        Step::SetSideCondition { side_ref, condition: PokemonSideCondition::ToxicSpikes, value: 0 },
    );
    steps.push(
        Step::SetSideCondition { side_ref, condition: PokemonSideCondition::StickyWeb, value: 0 },
    );
    if with_screens {
        steps.push(
            Step::SetSideCondition { side_ref, condition: PokemonSideCondition::Reflect, value: 0 },
        );
        steps.push(
            Step::SetSideCondition {
                side_ref,
                condition: PokemonSideCondition::LightScreen,
                value: 0,
            },
        );
        steps.push(
            Step::SetSideCondition {
                side_ref,
                condition: PokemonSideCondition::AuroraVeil,
                value: 0,
            },
        );
        steps.push(
            Step::SetSideCondition {
                side_ref,
                condition: PokemonSideCondition::Safeguard,
                value: 0,
            },
        );
        steps.push(
            Step::SetSideCondition { side_ref, condition: PokemonSideCondition::Mist, value: 0 },
        );
        assert(steps@ =~= old(steps)@ + clear_steps(side_ref, cleared_by_defog()));
    } else {
        assert(steps@ =~= old(steps)@ + clear_steps(side_ref, hazards()));
    }
}

fn push_swap_steps(steps: &mut Vec<Step>, state: &State, condition: PokemonSideCondition)
    ensures
        final(steps)@ == old(steps)@ + swap_steps(*state, condition),
{
    let one = state.side_one.get_side_condition(condition);
    let two = state.side_two.get_side_condition(condition);
    if one >= two {
        steps.push(
            Step::SetSideCondition { side_ref: SideReference::SideOne, condition, value: two },
        );
        steps.push(
            Step::SetSideCondition { side_ref: SideReference::SideTwo, condition, value: one },
        );
    } else {
        steps.push(
            Step::SetSideCondition { side_ref: SideReference::SideTwo, condition, value: one },
        );
        steps.push(
            Step::SetSideCondition { side_ref: SideReference::SideOne, condition, value: two },
        );
    }
    assert(steps@ =~= old(steps)@ + swap_steps(*state, condition));
}

pub fn build_hazard_clear_steps(state: &State, choice: &Choice, attacking_side: &SideReference) -> (r:
    Vec<Step>)
    ensures
        r@ == hazard_clear_steps(*state, choice@, *attacking_side),
{
    let mut steps: Vec<Step> = Vec::new();
    match choice.move_id {
        Choices::RAPIDSPIN | Choices::MORTALSPIN => {
            push_clear_steps(&mut steps, *attacking_side, false);
        },
        Choices::DEFOG => {
            steps.push(Step::SetTerrain { terrain: Terrain::NONE, turns: 0 });
            push_clear_steps(&mut steps, SideReference::SideOne, true);
            push_clear_steps(&mut steps, SideReference::SideTwo, true);
        },
        Choices::COURTCHANGE => {
            push_swap_steps(&mut steps, state, PokemonSideCondition::Stealthrock);
            push_swap_steps(&mut steps, state, PokemonSideCondition::Spikes);
            push_swap_steps(&mut steps, state, PokemonSideCondition::ToxicSpikes);
            push_swap_steps(&mut steps, state, PokemonSideCondition::StickyWeb);
        },
        _ => {},
    }
    assert(steps@ =~= hazard_clear_steps(*state, choice@, *attacking_side));
    steps
}

/// The volatile status of the choice on the creature it aims at, where
/// the creature can receive it; a substitute costs its holder a quarter of
/// its maximum hit points.
pub open spec fn volatile_status_steps(s: State, choice: ChoiceView, attacking_side: SideReference) -> Seq<
    Step,
> {
    match choice.volatile_status {
        Some(volatile_status) => {
            let side_ref = target_side(volatile_status.target, attacking_side);
            let target = s.active(side_ref);
            if target.can_receive(volatile_status.volatile_status) {
                let first = seq![
                    Step::ApplyVolatileStatus { side_ref, status: volatile_status.volatile_status },
                ];
                if volatile_status.volatile_status == PokemonVolatileStatus::Substitute {
                    first.push(
                        Step::Damage { side_ref, amount: quotient(target.maxhp as int, 4) as i16 },
                    )
                } else {
                    first
                }
            } else {
                Seq::empty()
            }
        },
        None => Seq::empty(),
    }
}

pub fn build_volatile_status_steps(state: &State, choice: &Choice, attacking_side: &SideReference) -> (r:
    Vec<Step>)
    ensures
        r@ == volatile_status_steps(*state, choice@, *attacking_side),
{
    let mut steps: Vec<Step> = Vec::new();
    if let Some(volatile_status) = &choice.volatile_status {
        let side_ref = get_target_side(&volatile_status.target, attacking_side);
        let target = state.get_side_immutable(&side_ref).get_active_immutable();
        if target.volatile_status_can_be_applied(&volatile_status.volatile_status) {
            steps.push(
                Step::ApplyVolatileStatus { side_ref, status: volatile_status.volatile_status },
            );
            if volatile_status.volatile_status == PokemonVolatileStatus::Substitute {
                steps.push(Step::Damage { side_ref, amount: divide(target.maxhp, 4) });
            }
        }
    }
    assert(steps@ =~= volatile_status_steps(*state, choice@, *attacking_side));
    steps
}

/// Whether the active creature of `target_side_ref` cannot be given
/// `status` by a move that aims at `status_target`: because it has a
/// status already or has fainted, because of its ability (shields down
/// counts above half of the hit points only), because it stands on misty
/// terrain, because it is behind a substitute that the opponent aims at, or
/// because its type, its ability, the weather or the terrain keeps this one
/// status off.
pub open spec fn status_immune(
    s: State,
    status_target: MoveTarget,
    target_side_ref: SideReference,
    status: PokemonStatus,
) -> bool {
    let target = s.active(target_side_ref);
    if target.status != PokemonStatus::NONE || target.hp <= 0 {
        true
    } else if target.ability == Abilities::SHIELDSDOWN && target.hp > quotient(
        target.maxhp as int,
        2,
    ) {
        true
    } else if target.ability == Abilities::PURIFYINGSALT || target.ability == Abilities::COMATOSE {
        true
    } else if s.terrain.terrain_type == Terrain::MistyTerrain && target.grounded() {
        true
    } else if target.volatile_statuses.has(PokemonVolatileStatus::Substitute) && status_target
        == MoveTarget::Opponent {
        true
    } else {
        match status {
            PokemonStatus::Burn => target.is_of_type(PokemonType::Fire) || target.ability
                == Abilities::WATERVEIL || target.ability == Abilities::WATERBUBBLE,
            PokemonStatus::Freeze => target.is_of_type(PokemonType::Ice) || target.ability
                == Abilities::MAGMAARMOR || s.weather.weather_type == Weather::HarshSun,
            PokemonStatus::Sleep => (s.terrain.terrain_type == Terrain::ElectricTerrain
                && target.grounded()) || target.ability == Abilities::INSOMNIA || target.ability
                == Abilities::SWEETVEIL || target.ability == Abilities::VITALSPIRIT,
            PokemonStatus::Paralyze => target.is_of_type(PokemonType::Electric) || target.ability
                == Abilities::LIMBER,
            PokemonStatus::Poison | PokemonStatus::Toxic => target.is_of_type(PokemonType::Poison)
                || target.is_of_type(PokemonType::Steel) || target.ability == Abilities::IMMUNITY
                || target.ability == Abilities::PASTELVEIL,
            PokemonStatus::NONE => false,
        }
    }
}

pub fn immune_to_status(
    state: &State,
    status_target: &MoveTarget,
    target_side_ref: &SideReference,
    status: &PokemonStatus,
) -> (r: bool)
    ensures
        r == status_immune(*state, *status_target, *target_side_ref, *status),
{
    let target = state.get_side_immutable(target_side_ref).get_active_immutable();
    if target.status != PokemonStatus::NONE || target.hp <= 0 {
        true
    } else if target.ability == Abilities::SHIELDSDOWN && target.hp > divide(target.maxhp, 2) {
        true
    } else if target.ability == Abilities::PURIFYINGSALT || target.ability == Abilities::COMATOSE {
        true
    } else if state.terrain.terrain_type == Terrain::MistyTerrain && target.is_grounded() {
        true
    } else if target.volatile_statuses.contains(&PokemonVolatileStatus::Substitute)
        && *status_target == MoveTarget::Opponent {
        true
    } else {
        match status {
            PokemonStatus::Burn => target.has_type(&PokemonType::Fire) || target.ability
                == Abilities::WATERVEIL || target.ability == Abilities::WATERBUBBLE,
            PokemonStatus::Freeze => target.has_type(&PokemonType::Ice) || target.ability
                == Abilities::MAGMAARMOR || state.weather.weather_type == Weather::HarshSun,
            PokemonStatus::Sleep => (state.terrain.terrain_type == Terrain::ElectricTerrain
                && target.is_grounded()) || target.ability == Abilities::INSOMNIA
                || target.ability == Abilities::SWEETVEIL || target.ability
                == Abilities::VITALSPIRIT,
            PokemonStatus::Paralyze => target.has_type(&PokemonType::Electric) || target.ability
                == Abilities::LIMBER,
            PokemonStatus::Poison | PokemonStatus::Toxic => target.has_type(&PokemonType::Poison)
                || target.has_type(&PokemonType::Steel) || target.ability == Abilities::IMMUNITY
                || target.ability == Abilities::PASTELVEIL,
            PokemonStatus::NONE => false,
        }
    }
}

/// The status of the choice on the creature it aims at, unless the
/// creature is immune or the move cannot hit.
pub open spec fn status_steps(s: State, choice: ChoiceView, attacking_side: SideReference) -> Seq<Step> {
    match choice.status {
        Some(status) => {
            let side_ref = target_side(status.target, attacking_side);
            if !status_immune(s, status.target, side_ref, status.status) && choice.accuracy > 0 {
                seq![Step::SetStatus { side_ref, status: status.status }]
            } else {
                Seq::empty()
            }
        },
        None => Seq::empty(),
    }
}

pub fn build_status_steps(state: &State, choice: &Choice, attacking_side: &SideReference) -> (r:
    Vec<Step>)
    ensures
        r@ == status_steps(*state, choice@, *attacking_side),
{
    let mut steps: Vec<Step> = Vec::new();
    if let Some(status) = &choice.status {
        let side_ref = get_target_side(&status.target, attacking_side);
        if !immune_to_status(state, &status.target, &side_ref, &status.status) && choice.accuracy
            > 0 {
            steps.push(Step::SetStatus { side_ref, status: status.status });
        }
    }
    assert(steps@ =~= status_steps(*state, choice@, *attacking_side));
    steps
}

/// The boost of one stat: nothing for no change, and nothing where the
/// opponent would lower a stat of a creature that keeps its stats.
pub open spec fn boost_step(
    s: State,
    side_ref: SideReference,
    attacking_side: SideReference,
    stat: PokemonBoostableStat,
    amount: i8,
) -> Seq<Step> {
    if amount == 0 || (amount < 0 && side_ref != attacking_side && s.active(
        side_ref,
    ).keeps_stats()) {
        Seq::empty()
    } else {
        seq![Step::Boost { side_ref, stat, amount }]
    }
}

/// The boosts of `boosts` on the side `side_ref`, stat by stat.
pub open spec fn stat_boost_steps(
    s: State,
    side_ref: SideReference,
    attacking_side: SideReference,
    boosts: StatBoosts,
) -> Seq<Step> {
    boost_step(s, side_ref, attacking_side, PokemonBoostableStat::Attack, boosts.attack)
        + boost_step(s, side_ref, attacking_side, PokemonBoostableStat::Defense, boosts.defense)
        + boost_step(
        s,
        side_ref,
        attacking_side,
        PokemonBoostableStat::SpecialAttack,
        boosts.special_attack,
    ) + boost_step(
        s,
        side_ref,
        attacking_side,
        PokemonBoostableStat::SpecialDefense,
        boosts.special_defense,
    ) + boost_step(s, side_ref, attacking_side, PokemonBoostableStat::Speed, boosts.speed)
        + boost_step(s, side_ref, attacking_side, PokemonBoostableStat::Accuracy, boosts.accuracy)
}

/// The boosts of the choice on the creature it aims at, unless the move
/// cannot hit.
pub open spec fn boost_steps(s: State, choice: ChoiceView, attacking_side: SideReference) -> Seq<Step> {
    match choice.boost {
        Some(boost) => {
            if choice.accuracy > 0 {
                stat_boost_steps(
                    s,
                    target_side(boost.target, attacking_side),
                    attacking_side,
                    boost.boosts,
                )
            } else {
                Seq::empty()
            }
        },
        None => Seq::empty(),
    }
}

fn push_boost_step(
    steps: &mut Vec<Step>,
    state: &State,
    side_ref: SideReference,
    attacking_side: SideReference,
    stat: PokemonBoostableStat,
    amount: i8,
)
    ensures
        final(steps)@ == old(steps)@ + boost_step(*state, side_ref, attacking_side, stat, amount),
{
    let blocked = amount < 0 && side_ref != attacking_side && state.get_side_immutable(
        &side_ref,
    ).get_active_immutable().immune_to_stats_lowered_by_opponent();
    if amount != 0 && !blocked {
        steps.push(Step::Boost { side_ref, stat, amount });
    }
    assert(steps@ =~= old(steps)@ + boost_step(*state, side_ref, attacking_side, stat, amount));
}

/// Appends the boosts of `boosts` on the side `side_ref`.
pub fn push_stat_boost_steps(
    steps: &mut Vec<Step>,
    state: &State,
    side_ref: SideReference,
    attacking_side: SideReference,
    boosts: &StatBoosts,
)
    ensures
        final(steps)@ == old(steps)@ + stat_boost_steps(
            *state,
            side_ref,
            attacking_side,
            *boosts,
        ),
{
    push_boost_step(
        steps,
        state,
        side_ref,
        attacking_side,
        PokemonBoostableStat::Attack,
        boosts.attack,
    );
    push_boost_step(
        steps,
        state,
        side_ref,
        attacking_side,
        PokemonBoostableStat::Defense,
        boosts.defense,
    );
    push_boost_step(
        steps,
        state,
        side_ref,
        attacking_side,
        PokemonBoostableStat::SpecialAttack,
        boosts.special_attack,
    );
    push_boost_step(
        steps,
        state,
        side_ref,
        attacking_side,
        PokemonBoostableStat::SpecialDefense,
        boosts.special_defense,
    );
    push_boost_step(
        steps,
        state,
        side_ref,
        attacking_side,
        PokemonBoostableStat::Speed,
        boosts.speed,
    );
    push_boost_step(
        steps,
        state,
        side_ref,
        attacking_side,
        PokemonBoostableStat::Accuracy,
        boosts.accuracy,
    );
    assert(steps@ =~= old(steps)@ + stat_boost_steps(*state, side_ref, attacking_side, *boosts));
}

pub fn build_boost_steps(state: &State, choice: &Choice, attacking_side: &SideReference) -> (r:
    Vec<Step>)
    ensures
        r@ == boost_steps(*state, choice@, *attacking_side),
{
    let mut steps: Vec<Step> = Vec::new();
    if let Some(boost) = &choice.boost {
        if choice.accuracy > 0 {
            let side_ref = get_target_side(&boost.target, attacking_side);
            push_stat_boost_steps(&mut steps, state, side_ref, *attacking_side, &boost.boosts);
        }
    }
    assert(steps@ =~= boost_steps(*state, choice@, *attacking_side));
    steps
}

/// The heal of the choice on the creature it aims at: its fraction of the
/// maximum hit points of the creature. A heal that comes to nothing is
/// left out.
pub open spec fn heal_steps(s: State, choice: ChoiceView, attacking_side: SideReference) -> Seq<Step> {
    match choice.heal {
        Some(heal) => {
            let side_ref = target_side(heal.target, attacking_side);
            seq![
                Step::Heal {
                    side_ref,
                    amount: clip16(
                        fraction_of(s.active(side_ref).maxhp as int, heal.amount as int),
                    ),
                    keep_zero: false,
                },
            ]
        },
        None => Seq::empty(),
    }
}

pub fn build_heal_steps(state: &State, choice: &Choice, attacking_side: &SideReference) -> (r: Vec<
    Step,
>)
    ensures
        r@ == heal_steps(*state, choice@, *attacking_side),
{
    let mut steps: Vec<Step> = Vec::new();
    if let Some(heal) = &choice.heal {
        let side_ref = get_target_side(&heal.target, attacking_side);
        let maxhp = state.get_side_immutable(&side_ref).get_active_immutable().maxhp;
        steps.push(Step::Heal { side_ref, amount: fraction(maxhp, heal.amount), keep_zero: false });
    }
    assert(steps@ =~= heal_steps(*state, choice@, *attacking_side));
    steps
}

/// What a move does beyond the parts of its description: the moves that
/// call a weather set it for `WEATHER_TURNS` turns, and a wish starts a
/// wish of half the maximum hit points of its user. Other moves ask for
/// nothing.
pub open spec fn special_effect_steps(s: State, choice: ChoiceView, attacking_side: SideReference) -> Seq<
    Step,
> {
    match choice.move_id {
        Choices::RAINDANCE => seq![Step::SetWeather { weather: Weather::Rain, turns: WEATHER_TURNS }],
        Choices::SUNNYDAY => seq![Step::SetWeather { weather: Weather::Sun, turns: WEATHER_TURNS }],
        Choices::SANDSTORM => seq![Step::SetWeather { weather: Weather::Sand, turns: WEATHER_TURNS }],
        Choices::HAIL => seq![Step::SetWeather { weather: Weather::Hail, turns: WEATHER_TURNS }],
        Choices::WISH => seq![
            Step::StartWish {
                side_ref: attacking_side,
                heal_amount: quotient(s.active(attacking_side).maxhp as int, 2) as i16,
            },
        ],
        _ => Seq::empty(),
    }
}

pub fn build_special_effect_steps(state: &State, choice: &Choice, attacking_side: &SideReference) -> (r:
    Vec<Step>)
    ensures
        r@ == special_effect_steps(*state, choice@, *attacking_side),
{
    let mut steps: Vec<Step> = Vec::new();
    match choice.move_id {
        Choices::RAINDANCE => {
            steps.push(Step::SetWeather { weather: Weather::Rain, turns: WEATHER_TURNS });
        },
        Choices::SUNNYDAY => {
            steps.push(Step::SetWeather { weather: Weather::Sun, turns: WEATHER_TURNS });
        },
        Choices::SANDSTORM => {
            steps.push(Step::SetWeather { weather: Weather::Sand, turns: WEATHER_TURNS });
        },
        Choices::HAIL => {
            steps.push(Step::SetWeather { weather: Weather::Hail, turns: WEATHER_TURNS });
        },
        Choices::WISH => {
            let maxhp = state.get_side_immutable(attacking_side).get_active_immutable().maxhp;
            steps.push(Step::StartWish { side_ref: *attacking_side, heal_amount: divide(maxhp, 2) });
        },
        _ => {},
    }
    assert(steps@ =~= special_effect_steps(*state, choice@, *attacking_side));
    steps
}

} // verus!
