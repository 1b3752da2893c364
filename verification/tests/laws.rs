use poke_engine::abilities::Abilities;
use poke_engine::choices::{Choice, Choices, MoveCategory, MoveTarget, SideCondition, Status};
use poke_engine::combine::combine_duplicate_instructions;
use poke_engine::evaluate::evaluate;
use poke_engine::half_turn::{cannot_use_move, check_move_hit_or_miss, update_choice};
use poke_engine::instruction::{
    BoostInstruction, ChangeItemInstruction, ChangeSideConditionInstruction,
    ChangeStatusInstruction, ChangeTerrain, ChangeType, ChangeWeather, DamageInstruction,
    DecrementWishInstruction, DisableMoveInstruction, EnableMoveInstruction, HealInstruction,
    IncrementWishInstruction, Instruction, SetSubstituteHealthInstruction, StateInstructions,
    SwitchInstruction, VolatileStatusInstruction, CERTAIN, PERCENT,
};
use poke_engine::items::Items;
use poke_engine::moves::generate_instructions_from_move;
use poke_engine::safest::pick_safest;
use poke_engine::state::{
    MoveChoice, PokemonBoostableStat, PokemonIndex, PokemonMoveIndex, PokemonSideCondition,
    PokemonStatus, PokemonType, PokemonVolatileStatus, SideReference, State, Terrain, Weather,
};

fn every_kind(state: &State) -> Vec<Instruction> {
    let one = SideReference::SideOne;
    let two = SideReference::SideTwo;
    vec![
        Instruction::Damage(DamageInstruction { side_ref: two, damage_amount: 30 }),
        Instruction::Heal(HealInstruction { side_ref: two, heal_amount: 10 }),
        Instruction::Boost(BoostInstruction { side_ref: one, stat: PokemonBoostableStat::Speed, amount: 2 }),
        Instruction::ChangeStatus(ChangeStatusInstruction {
            side_ref: two,
            pokemon_index: PokemonIndex::P3,
            old_status: PokemonStatus::NONE,
            new_status: PokemonStatus::Toxic,
        }),
        Instruction::VolatileStatus(VolatileStatusInstruction {
            side_ref: one,
            volatile_status: PokemonVolatileStatus::LeechSeed,
        }),
        Instruction::RemoveVolatileStatus(VolatileStatusInstruction {
            side_ref: one,
            volatile_status: PokemonVolatileStatus::LeechSeed,
        }),
        Instruction::ChangeSideCondition(ChangeSideConditionInstruction {
            side_ref: two,
            side_condition: PokemonSideCondition::Spikes,
            amount: 2,
        }),
        Instruction::ChangeWeather(ChangeWeather {
            new_weather: Weather::Rain,
            new_weather_turns_remaining: 5,
            previous_weather: state.weather.weather_type,
            previous_weather_turns_remaining: state.weather.turns_remaining,
        }),
        Instruction::ChangeTerrain(ChangeTerrain {
            new_terrain: Terrain::GrassyTerrain,
            new_terrain_turns_remaining: 5,
            previous_terrain: state.terrain.terrain_type,
            previous_terrain_turns_remaining: state.terrain.turns_remaining,
        }),
        Instruction::ChangeType(ChangeType {
            side_ref: one,
            new_first_type: PokemonType::Water,
            new_second_type: PokemonType::Typeless,
            old_first_type: PokemonType::Normal,
            old_second_type: PokemonType::Typeless,
        }),
        Instruction::ChangeItem(ChangeItemInstruction {
            side_ref: one,
            current_item: Items::NONE,
            new_item: Items::LEFTOVERS,
        }),
        Instruction::DisableMove(DisableMoveInstruction { side_ref: one, move_index: PokemonMoveIndex::M2 }),
        Instruction::EnableMove(EnableMoveInstruction { side_ref: one, move_index: PokemonMoveIndex::M2 }),
        Instruction::IncrementWish(IncrementWishInstruction { side_ref: two, heal_amount: 50 }),
        Instruction::DecrementWish(DecrementWishInstruction { side_ref: two }),
        Instruction::SetSubstituteHealth(SetSubstituteHealthInstruction {
            side_ref: one,
            previous_health: 0,
            new_health: 25,
        }),
        Instruction::Switch(SwitchInstruction {
            side_ref: one,
            previous_index: PokemonIndex::P0,
            next_index: PokemonIndex::P4,
        }),
        Instruction::Damage(DamageInstruction { side_ref: one, damage_amount: 100 }),
    ]
}

#[test]
fn a_list_of_every_kind_of_instruction_is_undone_by_its_reverse() {
    let mut state = State::default();
    let before = state;
    let list = every_kind(&state);
    state.apply_instructions(&list);
    assert_ne!(state, before);
    assert_eq!(state.side_one.active_index, PokemonIndex::P4);
    assert_eq!(state.side_one.pokemon[4].hp, 0);
    assert_eq!(state.side_one.pokemon[0].speed_boost, 2);
    assert_eq!(state.side_one.pokemon[0].item, Items::LEFTOVERS);
    assert_eq!(state.side_one.pokemon[0].types, (PokemonType::Water, PokemonType::Typeless));
    assert_eq!(state.side_one.pokemon[0].substitute_health, 25);
    assert_eq!(state.side_two.pokemon[0].hp, 80);
    assert_eq!(state.side_two.pokemon[3].status, PokemonStatus::Toxic);
    assert_eq!(state.side_two.side_conditions.spikes, 2);
    assert_eq!(state.side_two.wish.turns_remaining, 1);
    assert_eq!(state.side_two.wish.heal_amount, 50);
    assert_eq!(state.weather.weather_type, Weather::Rain);
    assert_eq!(state.terrain.turns_remaining, 5);
    state.reverse_instructions(&list);
    assert_eq!(state, before);
}

#[test]
fn each_instruction_is_undone_by_its_reverse() {
    let mut state = State::default();
    let before = state;
    let disabled = Instruction::DisableMove(DisableMoveInstruction {
        side_ref: SideReference::SideTwo,
        move_index: PokemonMoveIndex::M1,
    });
    state.apply_one_instruction(&disabled);
    assert!(state.side_two.pokemon[0].moves[1].disabled);
    state.reverse_one_instruction(&disabled);
    assert_eq!(state, before);
    let boosted = Instruction::Boost(BoostInstruction {
        side_ref: SideReference::SideTwo,
        stat: PokemonBoostableStat::Evasion,
        amount: -3,
    });
    state.apply_one_instruction(&boosted);
    assert_eq!(state.side_two.pokemon[0].evasion_boost, -3);
    state.reverse_one_instruction(&boosted);
    assert_eq!(state, before);
}

#[test]
fn hit_points_saturate_where_an_instruction_does_not_fit() {
    let mut state = State::default();
    state.side_one.get_active().hp = i16::MIN + 5;
    state.apply_one_instruction(&Instruction::Damage(DamageInstruction {
        side_ref: SideReference::SideOne,
        damage_amount: 100,
    }));
    assert_eq!(state.side_one.get_active_immutable().hp, i16::MIN);
    state.side_one.get_active().attack_boost = 127;
    state.apply_one_instruction(&Instruction::Boost(BoostInstruction {
        side_ref: SideReference::SideOne,
        stat: PokemonBoostableStat::Attack,
        amount: 5,
    }));
    assert_eq!(state.side_one.get_active_immutable().attack_boost, 127);
}

fn thunder_wave() -> Choice {
    let mut choice = Choice::default();
    choice.move_id = Choices::THUNDERWAVE;
    choice.move_type = PokemonType::Electric;
    choice.category = MoveCategory::Status;
    choice.accuracy = 90;
    choice.status = Some(Status { target: MoveTarget::Opponent, status: PokemonStatus::Paralyze });
    choice
}

fn tackle() -> Choice {
    let mut choice = Choice::default();
    choice.move_id = Choices::TACKLE;
    choice.move_type = PokemonType::Normal;
    choice.category = MoveCategory::Physical;
    choice.base_power = 40_000;
    choice.flags.contact = true;
    choice
}

#[test]
fn the_percentages_of_the_branches_add_up_to_the_incoming_percentage() {
    let mut state = State::default();
    state.side_one.get_active().status = PokemonStatus::Sleep;
    let mut incoming = StateInstructions::default();
    incoming.percentage = 12_345_677;
    let branches = generate_instructions_from_move(
        &mut state,
        thunder_wave(),
        &tackle(),
        SideReference::SideOne,
        incoming,
    );
    assert_eq!(branches.len(), 3);
    let sum: u32 = branches.iter().map(|branch| branch.percentage).sum();
    assert_eq!(sum, 12_345_677);
}

#[test]
fn sleeping_attacker_wakes_up_in_a_third_of_the_cases() {
    let mut state = State::default();
    state.side_one.get_active().status = PokemonStatus::Sleep;
    state.side_one.get_active().types = (PokemonType::Water, PokemonType::Typeless);
    state.side_one.get_active().attack = 108;
    let branches = generate_instructions_from_move(
        &mut state,
        tackle(),
        &tackle(),
        SideReference::SideOne,
        StateInstructions::default(),
    );
    let expected = vec![
        StateInstructions { percentage: 67 * PERCENT, instruction_list: vec![] },
        StateInstructions {
            percentage: 33 * PERCENT,
            instruction_list: vec![
                Instruction::ChangeStatus(ChangeStatusInstruction {
                    side_ref: SideReference::SideOne,
                    pokemon_index: PokemonIndex::P0,
                    old_status: PokemonStatus::Sleep,
                    new_status: PokemonStatus::NONE,
                }),
                Instruction::Damage(DamageInstruction {
                    side_ref: SideReference::SideTwo,
                    damage_amount: 35,
                }),
            ],
        },
    ];
    assert_eq!(branches, expected);
}

#[test]
fn paralyzed_attacker_cannot_move_in_a_quarter_of_the_cases() {
    let mut state = State::default();
    state.side_one.get_active().status = PokemonStatus::Paralyze;
    state.side_one.get_active().types = (PokemonType::Water, PokemonType::Typeless);
    state.side_one.get_active().attack = 108;
    let branches = generate_instructions_from_move(
        &mut state,
        tackle(),
        &tackle(),
        SideReference::SideOne,
        StateInstructions::default(),
    );
    let expected = vec![
        StateInstructions { percentage: 25 * PERCENT, instruction_list: vec![] },
        StateInstructions {
            percentage: 75 * PERCENT,
            instruction_list: vec![Instruction::Damage(DamageInstruction {
                side_ref: SideReference::SideTwo,
                damage_amount: 35,
            })],
        },
    ];
    assert_eq!(branches, expected);
}

#[test]
fn a_move_that_cannot_hit_only_misses() {
    let mut state = State::default();
    let mut choice = thunder_wave();
    choice.accuracy = 0;
    let mut frozen = vec![];
    let hit = check_move_hit_or_miss(
        &mut state,
        &choice,
        &SideReference::SideOne,
        StateInstructions::default(),
        &mut frozen,
    );
    assert_eq!(hit, None);
    assert_eq!(frozen, vec![StateInstructions::default()]);
}

#[test]
fn a_move_that_cannot_miss_only_hits() {
    let mut state = State::default();
    let mut choice = thunder_wave();
    choice.accuracy = 100;
    let mut frozen = vec![];
    let hit = check_move_hit_or_miss(
        &mut state,
        &choice,
        &SideReference::SideOne,
        StateInstructions::default(),
        &mut frozen,
    );
    assert_eq!(hit, Some(StateInstructions::default()));
    assert!(frozen.is_empty());
}

#[test]
fn a_taunted_attacker_can_still_use_a_damaging_move() {
    let mut state = State::default();
    state.side_one.get_active().volatile_statuses.insert(PokemonVolatileStatus::Taunt);
    assert!(!cannot_use_move(&state, &tackle(), &SideReference::SideOne));
    assert!(cannot_use_move(&state, &thunder_wave(), &SideReference::SideOne));
}

#[test]
fn toxic_spikes_stop_at_two_layers() {
    let mut state = State::default();
    state.side_two.side_conditions.toxic_spikes = 2;
    let mut choice = Choice::default();
    choice.move_id = Choices::TOXICSPIKES;
    choice.category = MoveCategory::Status;
    choice.side_condition = Some(SideCondition {
        target: MoveTarget::Opponent,
        condition: PokemonSideCondition::ToxicSpikes,
    });
    let branches = generate_instructions_from_move(
        &mut state,
        choice,
        &tackle(),
        SideReference::SideOne,
        StateInstructions::default(),
    );
    assert_eq!(branches, vec![StateInstructions::default()]);
}

#[test]
fn branches_with_the_same_instructions_are_combined() {
    let hit = Instruction::Damage(DamageInstruction { side_ref: SideReference::SideTwo, damage_amount: 3 });
    let list = vec![
        StateInstructions { percentage: 10 * PERCENT, instruction_list: vec![] },
        StateInstructions { percentage: 20 * PERCENT, instruction_list: vec![hit] },
        StateInstructions { percentage: 30 * PERCENT, instruction_list: vec![] },
        StateInstructions { percentage: 40 * PERCENT, instruction_list: vec![hit] },
    ];
    let combined = combine_duplicate_instructions(list);
    let expected = vec![
        StateInstructions { percentage: 40 * PERCENT, instruction_list: vec![] },
        StateInstructions { percentage: 60 * PERCENT, instruction_list: vec![hit] },
    ];
    assert_eq!(combined, expected);
    assert_eq!(combine_duplicate_instructions(vec![]), vec![]);
}

#[test]
fn the_abilities_of_both_sides_update_the_choice() {
    let mut state = State::default();
    state.side_one.get_active().ability = Abilities::HUGEPOWER;
    state.side_one.get_active().item = Items::CHOICEBAND;
    state.side_two.get_active().item = Items::EVIOLITE;
    let mut choice = tackle();
    update_choice(&state, &mut choice, &tackle(), &SideReference::SideOne);
    assert_eq!(choice.base_power, 80_000);
    let mut ground = tackle();
    ground.move_type = PokemonType::Ground;
    state.side_two.get_active().ability = Abilities::LEVITATE;
    update_choice(&state, &mut ground, &tackle(), &SideReference::SideOne);
    assert_eq!(ground.base_power, 0);
}

#[test]
fn evaluation_is_negated_when_the_sides_are_swapped() {
    let mut state = State::default();
    state.side_one.get_active().hp = 37;
    state.side_one.get_active().attack_boost = 3;
    state.side_one.pokemon[2].status = PokemonStatus::Paralyze;
    state.side_one.side_conditions.spikes = 2;
    state.side_two.pokemon[5].hp = 0;
    state.side_two.get_active().volatile_statuses.insert(PokemonVolatileStatus::Substitute);
    state.side_two.side_conditions.reflect = 1;
    let score = evaluate(&state);
    let swapped = State { side_one: state.side_two, side_two: state.side_one, ..state };
    assert_eq!(evaluate(&swapped), -score);
    assert_ne!(score, 0);
}

#[test]
fn evaluation_of_each_part() {
    let state = State::default();
    assert_eq!(evaluate(&state), 0);
    let mut hurt = state;
    hurt.side_one.get_active().hp = 50;
    assert_eq!(evaluate(&hurt), -5_000);
    let mut fainted = state;
    fainted.side_two.pokemon[3].hp = 0;
    assert_eq!(evaluate(&fainted), 17_500);
    let mut boosted = state;
    boosted.side_one.get_active().speed_boost = 6;
    boosted.side_one.get_active().attack_boost = -5;
    assert_eq!(evaluate(&boosted), 330 * 25 - 315 * 15);
    let mut burned = state;
    burned.side_one.get_active().status = PokemonStatus::Burn;
    burned.side_one.get_active().moves[0].category = MoveCategory::Physical;
    burned.side_one.get_active().moves[1].category = MoveCategory::Physical;
    burned.side_one.get_active().moves[2].category = MoveCategory::Physical;
    assert_eq!(evaluate(&burned), -7_500);
    burned.side_one.get_active().special_attack = 101;
    assert_eq!(evaluate(&burned), -3_750);
    burned.side_one.get_active().ability = Abilities::GUTS;
    assert_eq!(evaluate(&burned), -200);
    let mut statuses = state;
    statuses.side_one.pokemon[1].status = PokemonStatus::Freeze;
    statuses.side_one.pokemon[2].status = PokemonStatus::Sleep;
    statuses.side_one.pokemon[3].status = PokemonStatus::Toxic;
    statuses.side_one.pokemon[4].status = PokemonStatus::Poison;
    statuses.side_one.pokemon[5].status = PokemonStatus::Paralyze;
    assert_eq!(evaluate(&statuses), -4_000 - 2_500 - 3_000 - 1_000 - 2_500);
    let mut volatiles = state;
    volatiles.side_two.get_active().volatile_statuses.insert(PokemonVolatileStatus::LeechSeed);
    volatiles.side_two.get_active().volatile_statuses.insert(PokemonVolatileStatus::Confusion);
    volatiles.side_one.get_active().volatile_statuses.insert(PokemonVolatileStatus::Substitute);
    assert_eq!(evaluate(&volatiles), 3_000 + 2_000 + 4_000);
    let mut conditions = state;
    conditions.side_one.side_conditions.reflect = 1;
    conditions.side_one.side_conditions.light_screen = 1;
    conditions.side_one.side_conditions.aurora_veil = 1;
    conditions.side_one.side_conditions.safeguard = 1;
    conditions.side_one.side_conditions.tailwind = 1;
    conditions.side_one.side_conditions.sticky_web = 1;
    assert_eq!(evaluate(&conditions), 2_000 + 2_000 + 4_000 + 500 + 700 - 2_500);
    let mut hazards = state;
    hazards.side_two.side_conditions.stealth_rock = 1;
    hazards.side_two.side_conditions.spikes = 3;
    hazards.side_two.side_conditions.toxic_spikes = 2;
    hazards.side_two.pokemon[1].hp = 0;
    assert_eq!(evaluate(&hazards), 17_500 + 5 * (1_000 + 3 * 700 + 2 * 700));
}

#[test]
fn the_safest_choice_has_the_best_worst_case() {
    let scores = vec![Some(-10), Some(5), Some(0), Some(3)];
    assert_eq!(pick_safest(&scores, 2, 2), (1, 0));
    let scores = vec![Some(4), Some(2), None, Some(7), Some(1), Some(9), Some(2), None, None];
    assert_eq!(pick_safest(&scores, 3, 3), (0, 2));
    let tied = vec![Some(1), Some(1)];
    assert_eq!(pick_safest(&tied, 2, 1), (0, 1));
    assert_eq!(pick_safest(&vec![], 0, 0), (0, i64::MIN));
    assert_eq!(pick_safest(&vec![], 2, 0), (0, i64::MAX));
}

#[test]
fn certain_is_a_hundred_percent() {
    assert_eq!(CERTAIN, 100 * PERCENT);
    assert_eq!(StateInstructions::default().percentage, CERTAIN);
    let _ = MoveChoice::NONE;
}
