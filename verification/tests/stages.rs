use poke_engine::abilities::{ability_on_switch_in, Abilities};
use poke_engine::choices::{
    Boost, Choice, Choices, Heal, MoveCategory, MoveTarget, SideCondition, StatBoosts, Status,
    VolatileStatus,
};
use poke_engine::generate_instructions::{
    generate_instructions_from_side_conditions, get_instructions_from_boosts,
    get_instructions_from_hazard_clearing_moves, get_instructions_from_heal,
    get_instructions_from_status_effects, get_instructions_from_volatile_statuses,
};
use poke_engine::half_turn::{get_instructions_from_drag, sleep_clause_activated};
use poke_engine::instruction::{
    BoostInstruction, ChangeSideConditionInstruction, ChangeStatusInstruction, HealInstruction,
    Instruction, StateInstructions, VolatileStatusInstruction, CERTAIN, PERCENT,
};
use poke_engine::state::{
    PokemonBoostableStat, PokemonIndex, PokemonSideCondition, PokemonStatus,
    PokemonVolatileStatus, SideReference, State, Weather,
};
use poke_engine::steps::Step;

const ONE: SideReference = SideReference::SideOne;
const TWO: SideReference = SideReference::SideTwo;

fn choice(id: Choices) -> Choice {
    let mut choice = Choice::default();
    choice.move_id = id;
    choice.category = MoveCategory::Status;
    choice
}

fn nothing_yet() -> StateInstructions {
    StateInstructions { percentage: CERTAIN, instruction_list: Vec::new() }
}

fn layer(side_ref: SideReference, side_condition: PokemonSideCondition, amount: i8) -> Instruction {
    Instruction::ChangeSideCondition(ChangeSideConditionInstruction { side_ref, side_condition, amount })
}

fn after(incoming: &StateInstructions, added: Vec<Instruction>) -> StateInstructions {
    let mut instruction_list = incoming.instruction_list.clone();
    instruction_list.extend(added);
    StateInstructions { percentage: incoming.percentage, instruction_list }
}

#[test]
fn a_layer_is_set_after_the_instructions_that_came_in() {
    let mut state = State::default();
    state.side_two.side_conditions.spikes = 1;
    let before = state;
    let mut spikes = choice(Choices::SPIKES);
    spikes.side_condition =
        Some(SideCondition { target: MoveTarget::Opponent, condition: PokemonSideCondition::Spikes });
    let first = generate_instructions_from_side_conditions(&mut state, &spikes, &ONE, nothing_yet());
    assert_eq!(state, before);
    assert_eq!(first, after(&nothing_yet(), vec![layer(TWO, PokemonSideCondition::Spikes, 1)]));
    let incoming = StateInstructions { percentage: 40 * PERCENT, instruction_list: first.instruction_list };
    let second = generate_instructions_from_side_conditions(&mut state, &spikes, &ONE, incoming.clone());
    assert_eq!(state, before);
    assert_eq!(second, after(&incoming, vec![layer(TWO, PokemonSideCondition::Spikes, 1)]));
    assert_eq!(second.percentage, 40 * PERCENT);
    let third = generate_instructions_from_side_conditions(&mut state, &spikes, &ONE, second.clone());
    assert_eq!(third, second);
    let other = generate_instructions_from_side_conditions(&mut state, &spikes, &TWO, second.clone());
    assert_eq!(other, after(&second, vec![layer(ONE, PokemonSideCondition::Spikes, 1)]));
    let none = generate_instructions_from_side_conditions(&mut state, &choice(Choices::TACKLE), &ONE, nothing_yet());
    assert_eq!(none, nothing_yet());
}

#[test]
fn a_spin_clears_the_hazards_of_its_own_side() {
    let mut state = State::default();
    state.side_one.side_conditions.spikes = 2;
    state.side_one.side_conditions.stealth_rock = 1;
    state.side_two.side_conditions.spikes = 3;
    let before = state;
    let spun = get_instructions_from_hazard_clearing_moves(&mut state, &choice(Choices::RAPIDSPIN), &ONE, nothing_yet());
    assert_eq!(state, before);
    state.apply_instructions(&spun.instruction_list);
    assert_eq!(state.side_one.side_conditions.spikes, 0);
    assert_eq!(state.side_one.side_conditions.stealth_rock, 0);
    assert_eq!(state.side_two.side_conditions.spikes, 3);
    state.reverse_instructions(&spun.instruction_list);
    assert_eq!(state, before);
    assert_eq!(spun.instruction_list.len(), 2);
    let swapped = get_instructions_from_hazard_clearing_moves(&mut state, &choice(Choices::COURTCHANGE), &TWO, nothing_yet());
    state.apply_instructions(&swapped.instruction_list);
    assert_eq!(state.side_one.side_conditions.spikes, 3);
    assert_eq!(state.side_two.side_conditions.spikes, 2);
    assert_eq!(state.side_one.side_conditions.stealth_rock, 0);
    assert_eq!(state.side_two.side_conditions.stealth_rock, 1);
    state.reverse_instructions(&swapped.instruction_list);
    assert_eq!(state, before);
    let kept = get_instructions_from_hazard_clearing_moves(&mut state, &choice(Choices::TACKLE), &ONE, nothing_yet());
    assert_eq!(kept, nothing_yet());
}

#[test]
fn a_volatile_status_is_put_on_a_creature_once() {
    let mut state = State::default();
    let before = state;
    let mut confuse = choice(Choices::NONE);
    confuse.volatile_status = Some(VolatileStatus {
        target: MoveTarget::Opponent,
        volatile_status: PokemonVolatileStatus::Confusion,
    });
    let put = get_instructions_from_volatile_statuses(&mut state, &confuse, &ONE, nothing_yet());
    assert_eq!(state, before);
    assert_eq!(
        put,
        after(
            &nothing_yet(),
            vec![Instruction::VolatileStatus(VolatileStatusInstruction {
                side_ref: TWO,
                volatile_status: PokemonVolatileStatus::Confusion,
            })]
        )
    );
    let again = get_instructions_from_volatile_statuses(&mut state, &confuse, &ONE, put.clone());
    assert_eq!(again, put);
}

#[test]
fn a_status_is_given_to_a_creature_without_one() {
    let mut state = State::default();
    let before = state;
    let mut wave = choice(Choices::THUNDERWAVE);
    wave.status = Some(Status { target: MoveTarget::Opponent, status: PokemonStatus::Paralyze });
    let given = get_instructions_from_status_effects(&mut state, &wave, &ONE, nothing_yet());
    assert_eq!(state, before);
    assert_eq!(
        given,
        after(
            &nothing_yet(),
            vec![Instruction::ChangeStatus(ChangeStatusInstruction {
                side_ref: TWO,
                pokemon_index: PokemonIndex::P0,
                old_status: PokemonStatus::NONE,
                new_status: PokemonStatus::Paralyze,
            })]
        )
    );
    let again = get_instructions_from_status_effects(&mut state, &wave, &ONE, given.clone());
    assert_eq!(again, given);
}

#[test]
fn stages_are_raised_as_far_as_they_go() {
    let mut state = State::default();
    state.side_one.get_active().attack_boost = 5;
    let before = state;
    let mut dance = choice(Choices::SWORDSDANCE);
    dance.boost = Some(Boost {
        target: MoveTarget::User,
        boosts: StatBoosts { attack: 2, defense: 0, special_attack: 0, special_defense: 0, speed: -1, accuracy: 0 },
    });
    let raised = get_instructions_from_boosts(&mut state, &dance, &ONE, nothing_yet());
    assert_eq!(state, before);
    assert_eq!(
        raised,
        after(
            &nothing_yet(),
            vec![
                Instruction::Boost(BoostInstruction { side_ref: ONE, stat: PokemonBoostableStat::Attack, amount: 1 }),
                Instruction::Boost(BoostInstruction { side_ref: ONE, stat: PokemonBoostableStat::Speed, amount: -1 }),
            ]
        )
    );
    let again = get_instructions_from_boosts(&mut state, &dance, &ONE, raised.clone());
    assert_eq!(
        again,
        after(
            &raised,
            vec![Instruction::Boost(BoostInstruction { side_ref: ONE, stat: PokemonBoostableStat::Speed, amount: -1 })]
        )
    );
}

#[test]
fn a_heal_gives_no_more_than_is_missing() {
    let mut state = State::default();
    state.side_one.get_active().hp = 70;
    let before = state;
    let mut recover = choice(Choices::RECOVER);
    recover.heal = Some(Heal { target: MoveTarget::User, amount: 500 });
    let healed = get_instructions_from_heal(&mut state, &recover, &ONE, nothing_yet());
    assert_eq!(state, before);
    assert_eq!(
        healed,
        after(&nothing_yet(), vec![Instruction::Heal(HealInstruction { side_ref: ONE, heal_amount: 30 })])
    );
    let again = get_instructions_from_heal(&mut state, &recover, &ONE, healed.clone());
    assert_eq!(again, healed);
    state.side_one.get_active().hp = 10;
    let half = get_instructions_from_heal(&mut state, &recover, &ONE, nothing_yet());
    assert_eq!(
        half,
        after(&nothing_yet(), vec![Instruction::Heal(HealInstruction { side_ref: ONE, heal_amount: 50 })])
    );
}

#[test]
fn a_drag_and_the_sleep_clause_do_nothing_yet() {
    let mut state = State::default();
    let before = state;
    let mut list = vec![nothing_yet()];
    let mut tail = choice(Choices::DRAGONTAIL);
    tail.flags.drag = true;
    get_instructions_from_drag(&mut state, &tail, &ONE, &nothing_yet(), &mut list);
    assert_eq!(state, before);
    assert_eq!(list, vec![nothing_yet()]);
    assert!(!sleep_clause_activated());
}

#[test]
fn an_intimidating_creature_lowers_the_attack_of_the_other() {
    let mut state = State::default();
    assert!(ability_on_switch_in(&state, &ONE).is_empty());
    state.side_one.get_active().ability = Abilities::INTIMIDATE;
    let steps = ability_on_switch_in(&state, &ONE);
    assert_eq!(steps.len(), 1);
    assert!(matches!(
        steps[0],
        Step::Boost { side_ref: SideReference::SideTwo, stat: PokemonBoostableStat::Attack, amount: -1 }
    ));
    assert!(ability_on_switch_in(&state, &TWO).is_empty());
    state.side_two.get_active().ability = Abilities::CLEARBODY;
    assert!(ability_on_switch_in(&state, &ONE).is_empty());
}

#[test]
fn both_sides_are_handed_out_with_the_named_one_first() {
    let mut state = State::default();
    state.side_one.force_trapped = true;
    state.weather.weather_type = Weather::Rain;
    {
        let (own, other) = state.get_both_sides_immutable(&TWO);
        assert!(!own.force_trapped);
        assert!(other.force_trapped);
    }
    {
        let (own, other) = state.get_both_sides(&ONE);
        assert!(own.force_trapped);
        own.force_trapped = false;
        other.slow_uturn_move = true;
    }
    assert!(!state.side_one.force_trapped);
    assert!(state.side_two.slow_uturn_move);
    assert!(state.weather_is_active(&Weather::Rain));
    assert!(!state.weather_is_active(&Weather::Sun));
}
