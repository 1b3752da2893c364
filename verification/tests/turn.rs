use poke_engine::abilities::Abilities;
use poke_engine::checked::{generate_instructions_from_choices, EngineError};
use poke_engine::choices::{Choice, Choices, MoveCategory};
use poke_engine::deepen::{iterative_deepen_expectiminimax, re_order_moves_for_iterative_deepening};
use poke_engine::end_of_turn::end_of_turn;
use poke_engine::instruction::{
    BoostInstruction, ChangeSideConditionInstruction, ChangeWeather, DamageInstruction,
    DecrementWishInstruction, HealInstruction, Instruction, StateInstructions, SwitchInstruction,
    VolatileStatusInstruction, CERTAIN, PERCENT,
};
use poke_engine::items::Items;
use poke_engine::names::get_move_id_from_movechoice;
use poke_engine::options::io_get_all_options;
use poke_engine::safest::pick_safest;
use poke_engine::search::expectiminimax_search;
use poke_engine::state::{
    Move, MoveChoice, PokemonBoostableStat, PokemonIndex, PokemonMoveIndex,
    PokemonSideCondition, PokemonStatus, PokemonType, PokemonVolatileStatus, SideReference,
    State, Weather,
};
use poke_engine::turn::{generate_instructions_from_move_pair, MoveTable};

fn attack(id: Choices, move_type: PokemonType, power: u32, accuracy: u8) -> Choice {
    let mut choice = Choice::default();
    choice.move_id = id;
    choice.move_type = move_type;
    choice.category = MoveCategory::Physical;
    choice.base_power = power * 1000;
    choice.accuracy = accuracy;
    choice
}

fn table() -> MoveTable {
    let mut table = MoveTable::new();
    table.add(attack(Choices::TACKLE, PokemonType::Normal, 40, 100));
    table.add(attack(Choices::EARTHQUAKE, PokemonType::Ground, 100, 100));
    table.add(attack(Choices::CROSSCHOP, PokemonType::Normal, 40, 80));
    let mut quick = attack(Choices::KNOCKOFF, PokemonType::Normal, 40, 100);
    quick.priority = 1;
    table.add(quick);
    table.add(attack(Choices::TACKLE, PokemonType::Normal, 250, 100));
    table
}

fn slot(id: Choices) -> Move {
    Move { id, disabled: false, pp: 16, category: MoveCategory::Physical }
}

/// Both sides with a tackle and an earthquake on their active creature.
fn battle() -> State {
    let mut state = State::default();
    for side in [&mut state.side_one, &mut state.side_two] {
        side.get_active().moves[0] = slot(Choices::TACKLE);
        side.get_active().moves[1] = slot(Choices::EARTHQUAKE);
    }
    state
}

/// The battle with no creature to switch to.
fn duel() -> State {
    let mut state = battle();
    for side in [&mut state.side_one, &mut state.side_two] {
        for place in 1..6 {
            side.pokemon[place].hp = 0;
        }
    }
    state
}

fn turn(state: &mut State, one: MoveChoice, two: MoveChoice) -> Vec<StateInstructions> {
    let before = *state;
    let branches = generate_instructions_from_move_pair(state, &one, &two, &table());
    assert_eq!(*state, before);
    let sum: u32 = branches.iter().map(|branch| branch.percentage).sum();
    assert_eq!(sum, CERTAIN);
    for branch in branches.iter() {
        state.apply_instructions(&branch.instruction_list);
        for side in [&state.side_one, &state.side_two] {
            for pokemon in side.pokemon.iter() {
                assert!(0 <= pokemon.hp && pokemon.hp <= pokemon.maxhp);
            }
        }
        state.reverse_instructions(&branch.instruction_list);
        assert_eq!(*state, before);
    }
    branches
}

fn certain(instruction_list: Vec<Instruction>) -> Vec<StateInstructions> {
    vec![StateInstructions { percentage: CERTAIN, instruction_list }]
}

fn damage(side_ref: SideReference, damage_amount: i16) -> Instruction {
    Instruction::Damage(DamageInstruction { side_ref, damage_amount })
}

fn heal(side_ref: SideReference, heal_amount: i16) -> Instruction {
    Instruction::Heal(HealInstruction { side_ref, heal_amount })
}

const ONE: SideReference = SideReference::SideOne;
const TWO: SideReference = SideReference::SideTwo;
const TACKLE: MoveChoice = MoveChoice::Move(PokemonMoveIndex::M0);
const EARTHQUAKE: MoveChoice = MoveChoice::Move(PokemonMoveIndex::M1);

#[test]
fn the_first_side_goes_first_where_the_speeds_are_equal() {
    let mut state = battle();
    assert_eq!(turn(&mut state, TACKLE, TACKLE), certain(vec![damage(TWO, 48), damage(ONE, 48)]));
}

#[test]
fn the_faster_side_goes_first_and_the_slower_one_in_a_trick_room() {
    let mut state = battle();
    state.side_two.get_active().speed = 200;
    assert_eq!(turn(&mut state, TACKLE, TACKLE), certain(vec![damage(ONE, 48), damage(TWO, 48)]));
    state.trick_room = true;
    assert_eq!(turn(&mut state, TACKLE, TACKLE), certain(vec![damage(TWO, 48), damage(ONE, 48)]));
    state.trick_room = false;
    state.side_two.get_active().speed_boost = -2;
    assert_eq!(turn(&mut state, TACKLE, TACKLE), certain(vec![damage(TWO, 48), damage(ONE, 48)]));
    state.side_two.get_active().speed_boost = 0;
    state.side_two.get_active().status = PokemonStatus::Paralyze;
    let branches = turn(&mut state, TACKLE, TACKLE);
    assert_eq!(
        branches,
        vec![
            StateInstructions { percentage: 25 * PERCENT, instruction_list: vec![damage(TWO, 48)] },
            StateInstructions {
                percentage: 75 * PERCENT,
                instruction_list: vec![damage(TWO, 48), damage(ONE, 48)],
            },
        ]
    );
}

#[test]
fn the_higher_priority_goes_first() {
    let mut state = battle();
    state.side_two.get_active().moves[2] = slot(Choices::KNOCKOFF);
    state.side_one.get_active().speed = 300;
    assert_eq!(
        turn(&mut state, TACKLE, MoveChoice::Move(PokemonMoveIndex::M2)),
        certain(vec![damage(ONE, 48), damage(TWO, 48)])
    );
}

#[test]
fn a_switch_goes_before_a_move() {
    let mut state = battle();
    state.side_two.get_active().speed = 300;
    assert_eq!(
        turn(&mut state, MoveChoice::Switch(PokemonIndex::P1), TACKLE),
        certain(vec![
            Instruction::Switch(SwitchInstruction {
                side_ref: ONE,
                previous_index: PokemonIndex::P0,
                next_index: PokemonIndex::P1,
            }),
            damage(ONE, 48),
        ])
    );
}

#[test]
fn a_side_without_a_move_does_nothing() {
    let mut state = battle();
    assert_eq!(turn(&mut state, MoveChoice::NONE, MoveChoice::NONE), certain(vec![]));
    assert_eq!(turn(&mut state, MoveChoice::NONE, TACKLE), certain(vec![damage(ONE, 48)]));
    state.side_one.get_active().moves[3] = slot(Choices::ZAPCANNON);
    assert_eq!(
        turn(&mut state, MoveChoice::Move(PokemonMoveIndex::M3), TACKLE),
        certain(vec![damage(ONE, 48)])
    );
}

#[test]
fn a_creature_that_faints_does_not_move() {
    let mut state = battle();
    state.side_two.get_active().hp = 40;
    assert_eq!(turn(&mut state, TACKLE, TACKLE), certain(vec![damage(TWO, 40)]));
}

#[test]
fn a_move_that_can_miss_splits_the_turn() {
    let mut state = battle();
    state.side_one.get_active().moves[2] = slot(Choices::CROSSCHOP);
    let branches = turn(&mut state, MoveChoice::Move(PokemonMoveIndex::M2), TACKLE);
    assert_eq!(
        branches,
        vec![
            StateInstructions { percentage: 20 * PERCENT, instruction_list: vec![damage(ONE, 48)] },
            StateInstructions {
                percentage: 80 * PERCENT,
                instruction_list: vec![damage(TWO, 48), damage(ONE, 48)],
            },
        ]
    );
}

#[test]
fn the_end_of_a_turn_follows_the_moves() {
    let mut state = battle();
    state.side_one.get_active().item = Items::LEFTOVERS;
    state.side_two.get_active().status = PokemonStatus::Poison;
    assert_eq!(
        turn(&mut state, TACKLE, TACKLE),
        certain(vec![damage(TWO, 48), damage(ONE, 48), damage(TWO, 12), heal(ONE, 6)])
    );
}

fn ended(state: &State) -> Vec<Instruction> {
    let mut state = *state;
    let before = state;
    let list = end_of_turn(&mut state);
    let mut check = before;
    check.apply_instructions(&list);
    assert_eq!(check, state);
    state.reverse_instructions(&list);
    assert_eq!(state, before);
    list
}

#[test]
fn the_phases_of_the_end_of_a_turn() {
    let state = State::default();
    assert_eq!(ended(&state), vec![]);

    let mut sand = state;
    sand.weather.weather_type = Weather::Sand;
    sand.side_two.get_active().types = (PokemonType::Rock, PokemonType::Typeless);
    assert_eq!(ended(&sand), vec![damage(ONE, 6)]);

    let mut hail = state;
    hail.weather.weather_type = Weather::Hail;
    hail.weather.turns_remaining = 2;
    hail.side_one.get_active().types = (PokemonType::Ice, PokemonType::Typeless);
    assert_eq!(
        ended(&hail),
        vec![
            damage(TWO, 6),
            Instruction::ChangeWeather(ChangeWeather {
                new_weather: Weather::Hail,
                new_weather_turns_remaining: 1,
                previous_weather: Weather::Hail,
                previous_weather_turns_remaining: 2,
            }),
        ]
    );

    let mut rain = state;
    rain.weather.weather_type = Weather::Rain;
    rain.weather.turns_remaining = 1;
    assert_eq!(
        ended(&rain),
        vec![Instruction::ChangeWeather(ChangeWeather {
            new_weather: Weather::NONE,
            new_weather_turns_remaining: 0,
            previous_weather: Weather::Rain,
            previous_weather_turns_remaining: 1,
        })]
    );

    let mut burned = state;
    burned.side_one.get_active().status = PokemonStatus::Burn;
    assert_eq!(ended(&burned), vec![damage(ONE, 6)]);

    let mut toxic = state;
    toxic.side_two.get_active().status = PokemonStatus::Toxic;
    toxic.side_two.side_conditions.toxic_count = 2;
    assert_eq!(
        ended(&toxic),
        vec![
            damage(TWO, 18),
            Instruction::ChangeSideCondition(ChangeSideConditionInstruction {
                side_ref: TWO,
                side_condition: PokemonSideCondition::ToxicCount,
                amount: 1,
            }),
        ]
    );

    let mut seeded = state;
    seeded.side_two.get_active().volatile_statuses.insert(PokemonVolatileStatus::LeechSeed);
    seeded.side_one.get_active().hp = 95;
    assert_eq!(ended(&seeded), vec![damage(TWO, 12), heal(ONE, 5)]);

    let mut wished = state;
    wished.side_one.wish.turns_remaining = 1;
    wished.side_one.wish.heal_amount = 50;
    wished.side_one.get_active().hp = 30;
    wished.side_two.wish.turns_remaining = 2;
    assert_eq!(
        ended(&wished),
        vec![
            Instruction::DecrementWish(DecrementWishInstruction { side_ref: ONE }),
            heal(ONE, 50),
            Instruction::DecrementWish(DecrementWishInstruction { side_ref: TWO }),
        ]
    );

    let mut fast = state;
    fast.side_two.get_active().ability = Abilities::SPEEDBOOST;
    assert_eq!(
        ended(&fast),
        vec![Instruction::Boost(BoostInstruction {
            side_ref: TWO,
            stat: PokemonBoostableStat::Speed,
            amount: 1,
        })]
    );

    let mut screened = state;
    screened.side_one.side_conditions.reflect = 1;
    screened.side_two.side_conditions.tailwind = 3;
    assert_eq!(
        ended(&screened),
        vec![
            Instruction::ChangeSideCondition(ChangeSideConditionInstruction {
                side_ref: ONE,
                side_condition: PokemonSideCondition::Reflect,
                amount: -1,
            }),
            Instruction::ChangeSideCondition(ChangeSideConditionInstruction {
                side_ref: TWO,
                side_condition: PokemonSideCondition::Tailwind,
                amount: -1,
            }),
        ]
    );

    let mut flinched = state;
    flinched.side_one.get_active().volatile_statuses.insert(PokemonVolatileStatus::Flinch);
    assert_eq!(
        ended(&flinched),
        vec![Instruction::RemoveVolatileStatus(VolatileStatusInstruction {
            side_ref: ONE,
            volatile_status: PokemonVolatileStatus::Flinch,
        })]
    );

    let mut fainted = state;
    fainted.side_one.get_active().hp = 0;
    fainted.side_one.get_active().item = Items::LEFTOVERS;
    fainted.side_one.get_active().status = PokemonStatus::Poison;
    fainted.weather.weather_type = Weather::Sand;
    fainted.side_two.get_active().types = (PokemonType::Steel, PokemonType::Typeless);
    assert_eq!(ended(&fainted), vec![]);
}

#[test]
fn the_table_gives_the_first_description_of_a_move() {
    let table = table();
    assert_eq!(table.get(Choices::TACKLE).unwrap().base_power, 40_000);
    assert_eq!(table.get(Choices::EARTHQUAKE).unwrap().move_type, PokemonType::Ground);
    assert_eq!(table.get(Choices::ZAPCANNON), None);
    assert_eq!(MoveTable::new().get(Choices::TACKLE), None);
}

#[test]
fn options_of_the_sides() {
    let state = State::default();
    let switches: Vec<MoveChoice> = vec![
        MoveChoice::Switch(PokemonIndex::P1),
        MoveChoice::Switch(PokemonIndex::P2),
        MoveChoice::Switch(PokemonIndex::P3),
        MoveChoice::Switch(PokemonIndex::P4),
        MoveChoice::Switch(PokemonIndex::P5),
    ];
    assert_eq!(state.get_all_options(), (switches.clone(), switches.clone()));

    let mut state = battle();
    state.side_one.get_active().moves[1].disabled = true;
    state.side_two.pokemon[2].hp = 0;
    state.side_two.active_index = PokemonIndex::P1;
    let (one, two) = state.get_all_options();
    let mut expected_one = vec![TACKLE];
    expected_one.extend(switches.clone());
    assert_eq!(one, expected_one);
    assert_eq!(
        two,
        vec![
            MoveChoice::Switch(PokemonIndex::P0),
            MoveChoice::Switch(PokemonIndex::P3),
            MoveChoice::Switch(PokemonIndex::P4),
            MoveChoice::Switch(PokemonIndex::P5),
        ]
    );

    let mut state = battle();
    state.side_one.get_active().hp = 0;
    let (one, two) = state.get_all_options();
    assert_eq!(one, switches);
    assert_eq!(two, vec![MoveChoice::NONE]);

    let mut state = duel();
    state.side_one.get_active().hp = 0;
    assert_eq!(state.get_all_options(), (vec![MoveChoice::NONE], vec![MoveChoice::NONE]));
}

#[test]
fn options_as_a_player_sees_them() {
    let mut state = battle();
    state.team_preview = true;
    let (one, two) = io_get_all_options(&state);
    assert_eq!(one.len(), 6);
    assert_eq!(one[0], MoveChoice::Switch(PokemonIndex::P0));
    assert_eq!(one, two);
    state.team_preview = false;
    state.side_one.force_trapped = true;
    state.side_two.slow_uturn_move = true;
    let (one, two) = io_get_all_options(&state);
    assert_eq!(one, vec![TACKLE, EARTHQUAKE]);
    assert_eq!(two, vec![TACKLE, EARTHQUAKE]);
    state.side_one.force_trapped = false;
    state.side_two.slow_uturn_move = false;
    assert_eq!(io_get_all_options(&state), state.get_all_options());
}

#[test]
fn whether_the_battle_is_over() {
    let mut state = State::default();
    assert_eq!(state.battle_is_over(), 0);
    for place in 0..6 {
        state.side_one.pokemon[place].hp = 0;
    }
    assert_eq!(state.battle_is_over(), -1);
    for place in 0..5 {
        state.side_two.pokemon[place].hp = 0;
    }
    assert_eq!(state.battle_is_over(), -1);
    state.side_two.pokemon[5].hp = 0;
    assert_eq!(state.battle_is_over(), 1);
    state.side_one.pokemon[3].hp = 1;
    assert_eq!(state.battle_is_over(), 1);
}

#[test]
fn a_search_of_one_turn() {
    let mut state = duel();
    let before = state;
    assert_eq!(
        expectiminimax_search(&mut state, 1, vec![TACKLE], vec![TACKLE], false, &table()),
        vec![Some(0)]
    );
    assert_eq!(state, before);
    state.side_one.get_active().attack = 150;
    assert_eq!(
        expectiminimax_search(&mut state, 1, vec![TACKLE], vec![TACKLE], false, &table()),
        vec![Some(2400)]
    );
    state.side_one.get_active().attack = 100;
    state.side_one.get_active().moves[2] = slot(Choices::CROSSCHOP);
    assert_eq!(
        expectiminimax_search(
            &mut state,
            1,
            vec![MoveChoice::Move(PokemonMoveIndex::M2)],
            vec![TACKLE],
            true,
            &table()
        ),
        vec![Some(-960)]
    );
}

#[test]
fn a_search_of_every_pair() {
    let mut state = duel();
    let scores = expectiminimax_search(
        &mut state,
        1,
        vec![TACKLE, EARTHQUAKE],
        vec![TACKLE, EARTHQUAKE],
        false,
        &table(),
    );
    assert_eq!(scores, vec![Some(0), Some(-3100), Some(3100), Some(0)]);
    assert_eq!(pick_safest(&scores, 2, 2), (1, 0));
}

#[test]
fn a_search_that_skips_what_cannot_be_the_safest() {
    let mut state = duel();
    let one = vec![EARTHQUAKE, TACKLE];
    let two = vec![TACKLE, EARTHQUAKE];
    let full = expectiminimax_search(&mut state, 1, one.clone(), two.clone(), false, &table());
    let pruned = expectiminimax_search(&mut state, 1, one.clone(), two.clone(), true, &table());
    assert_eq!(full, vec![Some(3100), Some(0), Some(0), Some(-3100)]);
    assert_eq!(pruned, vec![Some(3100), Some(0), Some(0), None]);
    assert_eq!(pick_safest(&full, 2, 2), pick_safest(&pruned, 2, 2));
    for depth in 1..3 {
        let full = expectiminimax_search(&mut state, depth, one.clone(), two.clone(), false, &table());
        let pruned = expectiminimax_search(&mut state, depth, one.clone(), two.clone(), true, &table());
        assert_eq!(pick_safest(&full, 2, 2).1, pick_safest(&pruned, 2, 2).1);
    }
}

#[test]
fn a_search_of_two_turns() {
    let mut state = duel();
    assert_eq!(
        expectiminimax_search(&mut state, 2, vec![TACKLE], vec![TACKLE], false, &table()),
        vec![Some(7500 + 5200)]
    );
    state.side_one.get_active().speed = 50;
    let scores = expectiminimax_search(&mut state, 2, vec![TACKLE], vec![TACKLE], false, &table());
    assert_eq!(scores, vec![Some(-7500 - 5200)]);
    state.side_one.get_active().moves[1] = Move::new();
    state.side_two.get_active().moves[1] = Move::new();
    let scores = expectiminimax_search(&mut state, 2, vec![TACKLE], vec![TACKLE], true, &table());
    assert_eq!(scores, vec![Some(0)]);
}

#[test]
fn a_search_where_the_battle_is_over() {
    let mut state = duel();
    state.side_two.get_active().hp = 0;
    let scores = expectiminimax_search(&mut state, 3, vec![TACKLE], vec![MoveChoice::NONE, TACKLE], true, &table());
    assert_eq!(scores, vec![Some(17_500 + 200_000), Some(17_500 + 200_000)]);
    state.side_two.get_active().hp = 100;
    state.side_one.get_active().hp = 0;
    let scores = expectiminimax_search(&mut state, 1, vec![TACKLE], vec![TACKLE], true, &table());
    assert_eq!(scores, vec![Some(-17_500)]);
}

#[test]
fn options_are_put_in_the_order_of_their_worst_cases() {
    let scores = vec![Some(-10), Some(5), Some(0), Some(3), Some(0), None];
    let (one, two) = re_order_moves_for_iterative_deepening(
        &scores,
        vec![TACKLE, EARTHQUAKE, MoveChoice::NONE],
        vec![TACKLE, EARTHQUAKE],
    );
    assert_eq!(one, vec![EARTHQUAKE, MoveChoice::NONE, TACKLE]);
    assert_eq!(two, vec![TACKLE, EARTHQUAKE]);
}

#[test]
fn a_deepened_search() {
    let mut state = duel();
    let before = state;
    let one = vec![TACKLE, EARTHQUAKE];
    let two = vec![TACKLE, EARTHQUAKE];
    let (first, second, scores) = iterative_deepen_expectiminimax(
        &mut state,
        2,
        one.clone(),
        two.clone(),
        false,
        std::time::Duration::from_secs(3600),
        &table(),
    );
    assert_eq!(state, before);
    assert_eq!(first, vec![EARTHQUAKE, TACKLE]);
    assert_eq!(second, two);
    let again = expectiminimax_search(&mut state, 2, first.clone(), second.clone(), false, &table());
    assert_eq!(scores, again);
    let (first, second, scores) = iterative_deepen_expectiminimax(
        &mut state,
        1,
        one.clone(),
        two.clone(),
        true,
        std::time::Duration::from_secs(3600),
        &table(),
    );
    assert_eq!((first, second), (one.clone(), two.clone()));
    assert_eq!(scores, vec![Some(0), Some(-3100), Some(3100), Some(0)]);
    let (first, second, scores) = iterative_deepen_expectiminimax(
        &mut state,
        3,
        one,
        two,
        true,
        std::time::Duration::from_nanos(0),
        &table(),
    );
    assert_eq!(first.len(), 2);
    assert!(first.contains(&TACKLE) && first.contains(&EARTHQUAKE));
    assert_eq!(second.len(), 2);
    assert_eq!(scores.len(), 4);
}

#[test]
fn what_the_options_are_called() {
    let state = battle();
    let side = &state.side_one;
    assert_eq!(side.option_to_string(&TACKLE), "tackle");
    assert_eq!(side.option_to_string(&MoveChoice::Switch(PokemonIndex::P2)), "rattata");
    assert_eq!(side.option_to_string(&MoveChoice::NONE), "no move");
    assert_eq!(get_move_id_from_movechoice(side, &EARTHQUAKE), "earthquake");
    assert_eq!(get_move_id_from_movechoice(side, &MoveChoice::Switch(PokemonIndex::P2)), "switch rattata");
    assert_eq!(get_move_id_from_movechoice(side, &MoveChoice::NONE), "No Move");
    assert_eq!(Choices::THOUSANDARROWS.name(), "thousandarrows");
}

#[test]
fn which_option_a_text_names() {
    let state = battle();
    let side = &state.side_one;
    assert_eq!(side.string_to_movechoice("tackle"), Some(TACKLE));
    assert_eq!(side.string_to_movechoice("EarthQuake"), Some(EARTHQUAKE));
    assert_eq!(side.string_to_movechoice("NONE"), Some(MoveChoice::NONE));
    assert_eq!(side.string_to_movechoice("Rattata"), Some(MoveChoice::Switch(PokemonIndex::P1)));
    assert_eq!(side.string_to_movechoice("pikachu"), None);
    assert_eq!(side.string_to_movechoice(""), None);
}

#[test]
fn a_turn_is_refused_for_a_state_out_of_bounds_or_a_choice_that_is_not_offered() {
    let mut state = battle();
    assert_eq!(
        generate_instructions_from_choices(&mut state, &TACKLE, &TACKLE, &table()),
        Ok(certain(vec![damage(TWO, 48), damage(ONE, 48)]))
    );
    assert_eq!(
        generate_instructions_from_choices(&mut state, &MoveChoice::Move(PokemonMoveIndex::M3), &TACKLE, &table()),
        Err(EngineError::IllegalChoice(ONE))
    );
    assert_eq!(
        generate_instructions_from_choices(&mut state, &TACKLE, &MoveChoice::Switch(PokemonIndex::P0), &table()),
        Err(EngineError::IllegalChoice(TWO))
    );
    assert_eq!(
        generate_instructions_from_choices(&mut state, &MoveChoice::NONE, &MoveChoice::NONE, &table()),
        Err(EngineError::IllegalChoice(ONE))
    );
    state.side_two.pokemon[4].hp = 101;
    assert!(!state.is_in_bounds());
    assert_eq!(
        generate_instructions_from_choices(&mut state, &TACKLE, &TACKLE, &table()),
        Err(EngineError::InvariantViolation)
    );
    state.side_two.pokemon[4].hp = 100;
    assert!(state.is_in_bounds());
    state.side_one.get_active().speed_boost = 7;
    assert!(!state.is_in_bounds());
    state.side_one.get_active().speed_boost = -6;
    state.side_one.side_conditions.toxic_spikes = 3;
    assert!(!state.is_in_bounds());
    state.side_one.side_conditions.toxic_spikes = 2;
    state.side_one.side_conditions.reflect = -1;
    assert!(!state.is_in_bounds());
}
