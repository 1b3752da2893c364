use poke_engine::abilities::Abilities;
use poke_engine::choices::{
    Boost, Choice, Choices, Heal, MoveCategory, MoveTarget, SideCondition, StatBoosts, Status,
    VolatileStatus,
};
use poke_engine::generate_instructions::generate_instructions_from_switch;
use poke_engine::half_turn::generate_instructions_from_existing_status_conditions;
use poke_engine::instruction::{
    BoostInstruction, ChangeItemInstruction, ChangeSideConditionInstruction,
    ChangeStatusInstruction, ChangeTerrain, DamageInstruction, EnableMoveInstruction,
    HealInstruction, Instruction, StateInstructions, SwitchInstruction,
    VolatileStatusInstruction, PERCENT,
};
use poke_engine::items::Items;
use poke_engine::moves::generate_instructions_from_move;
use poke_engine::state::{
    Move, PokemonBoostableStat, PokemonIndex, PokemonMoveIndex, PokemonSideCondition,
    PokemonStatus, PokemonType, PokemonVolatileStatus, SideReference, State, Terrain, Weather,
};

fn described(
    id: Choices,
    move_type: PokemonType,
    category: MoveCategory,
    power: u32,
    accuracy: u8,
) -> Choice {
    let mut choice = Choice::default();
    choice.move_id = id;
    choice.move_type = move_type;
    choice.category = category;
    choice.base_power = power * 1000;
    choice.accuracy = accuracy;
    choice
}

fn status_move(id: Choices, move_type: PokemonType, accuracy: u8) -> Choice {
    described(id, move_type, MoveCategory::Status, 0, accuracy)
}

fn boosts(attack: i8, defense: i8, special_attack: i8, special_defense: i8, speed: i8, accuracy: i8) -> StatBoosts {
    StatBoosts { attack, defense, special_attack, special_defense, speed, accuracy }
}

fn move_named(name: &str) -> Choice {
    match name {
        "tackle" => {
            let mut c = described(Choices::TACKLE, PokemonType::Normal, MoveCategory::Physical, 40, 100);
            c.flags.contact = true;
            c
        }
        "dragontail" => {
            let mut c = described(Choices::DRAGONTAIL, PokemonType::Dragon, MoveCategory::Physical, 60, 90);
            c.flags.contact = true;
            c.flags.drag = true;
            c.priority = -6;
            c
        }
        "thunderbolt" => described(Choices::THUNDERBOLT, PokemonType::Electric, MoveCategory::Special, 90, 100),
        "spore" => {
            let mut c = status_move(Choices::SPORE, PokemonType::Grass, 100);
            c.flags.powder = true;
            c.status = Some(Status { target: MoveTarget::Opponent, status: PokemonStatus::Sleep });
            c
        }
        "spikes" => {
            let mut c = status_move(Choices::SPIKES, PokemonType::Ground, 100);
            c.side_condition = Some(SideCondition { target: MoveTarget::Opponent, condition: PokemonSideCondition::Spikes });
            c
        }
        "toxicspikes" => {
            let mut c = status_move(Choices::TOXICSPIKES, PokemonType::Poison, 100);
            c.side_condition = Some(SideCondition { target: MoveTarget::Opponent, condition: PokemonSideCondition::ToxicSpikes });
            c
        }
        "auroraveil" => {
            let mut c = status_move(Choices::AURORAVEIL, PokemonType::Ice, 100);
            c.side_condition = Some(SideCondition { target: MoveTarget::User, condition: PokemonSideCondition::AuroraVeil });
            c
        }
        "stealthrock" => {
            let mut c = status_move(Choices::STEALTHROCK, PokemonType::Rock, 100);
            c.side_condition = Some(SideCondition { target: MoveTarget::Opponent, condition: PokemonSideCondition::Stealthrock });
            c
        }
        "stoneaxe" => {
            let mut c = described(Choices::STONEAXE, PokemonType::Rock, MoveCategory::Physical, 65, 90);
            c.flags.contact = true;
            c
        }
        "aquaring" => {
            let mut c = status_move(Choices::AQUARING, PokemonType::Water, 100);
            c.volatile_status = Some(VolatileStatus { target: MoveTarget::User, volatile_status: PokemonVolatileStatus::AquaRing });
            c
        }
        "attract" => {
            let mut c = status_move(Choices::ATTRACT, PokemonType::Normal, 100);
            c.volatile_status = Some(VolatileStatus { target: MoveTarget::Opponent, volatile_status: PokemonVolatileStatus::Attract });
            c
        }
        "substitute" => {
            let mut c = status_move(Choices::SUBSTITUTE, PokemonType::Normal, 100);
            c.volatile_status = Some(VolatileStatus { target: MoveTarget::User, volatile_status: PokemonVolatileStatus::Substitute });
            c
        }
        "glare" => {
            let mut c = status_move(Choices::GLARE, PokemonType::Normal, 100);
            c.status = Some(Status { target: MoveTarget::Opponent, status: PokemonStatus::Paralyze });
            c
        }
        "thunderwave" => {
            let mut c = status_move(Choices::THUNDERWAVE, PokemonType::Electric, 90);
            c.status = Some(Status { target: MoveTarget::Opponent, status: PokemonStatus::Paralyze });
            c
        }
        "rest" => {
            let mut c = status_move(Choices::REST, PokemonType::Psychic, 100);
            c.status = Some(Status { target: MoveTarget::User, status: PokemonStatus::Sleep });
            c.heal = Some(Heal { target: MoveTarget::User, amount: 1000 });
            c
        }
        "recover" => {
            let mut c = status_move(Choices::RECOVER, PokemonType::Normal, 100);
            c.heal = Some(Heal { target: MoveTarget::User, amount: 500 });
            c
        }
        "explosion" => {
            let mut c = described(Choices::EXPLOSION, PokemonType::Normal, MoveCategory::Physical, 250, 100);
            c.heal = Some(Heal { target: MoveTarget::User, amount: -1000 });
            c
        }
        "swordsdance" => {
            let mut c = status_move(Choices::SWORDSDANCE, PokemonType::Normal, 100);
            c.boost = Some(Boost { target: MoveTarget::User, boosts: boosts(2, 0, 0, 0, 0, 0) });
            c
        }
        "kinesis" => {
            let mut c = status_move(Choices::KINESIS, PokemonType::Psychic, 80);
            c.boost = Some(Boost { target: MoveTarget::Opponent, boosts: boosts(0, 0, 0, 0, 0, -1) });
            c
        }
        "charm" => {
            let mut c = status_move(Choices::CHARM, PokemonType::Fairy, 100);
            c.boost = Some(Boost { target: MoveTarget::Opponent, boosts: boosts(-2, 0, 0, 0, 0, 0) });
            c
        }
        "shellsmash" => {
            let mut c = status_move(Choices::SHELLSMASH, PokemonType::Normal, 100);
            c.boost = Some(Boost { target: MoveTarget::User, boosts: boosts(2, -1, 2, -1, 2, 0) });
            c
        }
        "defog" => status_move(Choices::DEFOG, PokemonType::Flying, 100),
        "rapidspin" => {
            let mut c = described(Choices::RAPIDSPIN, PokemonType::Normal, MoveCategory::Physical, 50, 100);
            c.flags.contact = true;
            c
        }
        "courtchange" => status_move(Choices::COURTCHANGE, PokemonType::Normal, 100),
        "earthquake" => described(Choices::EARTHQUAKE, PokemonType::Ground, MoveCategory::Physical, 100, 100),
        "absorb" => {
            let mut c = described(Choices::ABSORB, PokemonType::Grass, MoveCategory::Special, 20, 100);
            c.drain = Some(500);
            c
        }
        "bravebird" => {
            let mut c = described(Choices::BRAVEBIRD, PokemonType::Flying, MoveCategory::Physical, 120, 100);
            c.flags.contact = true;
            c.recoil = Some(330);
            c
        }
        "jumpkick" => {
            let mut c = described(Choices::JUMPKICK, PokemonType::Fighting, MoveCategory::Physical, 100, 95);
            c.flags.contact = true;
            c.crash = Some(500);
            c
        }
        "knockoff" => {
            let mut c = described(Choices::KNOCKOFF, PokemonType::Dark, MoveCategory::Physical, 65, 100);
            c.flags.contact = true;
            c
        }
        "crosschop" => {
            let mut c = described(Choices::CROSSCHOP, PokemonType::Fighting, MoveCategory::Physical, 100, 80);
            c.flags.contact = true;
            c
        }
        other => panic!("no description of {}", other),
    }
}

/// Generates the branches of the move of the first side, and checks on the
/// way that every branch is undone exactly by its reverse.
fn generate(state: &mut State, choice: Choice, incoming: StateInstructions) -> Vec<StateInstructions> {
    let before = *state;
    let incoming_percentage = incoming.percentage;
    let fits = incoming.instruction_list.is_empty();
    let branches = generate_instructions_from_move(
        state,
        choice,
        &move_named("tackle"),
        SideReference::SideOne,
        incoming,
    );
    assert_eq!(*state, before);
    let sum: u32 = branches.iter().map(|branch| branch.percentage).sum();
    assert_eq!(sum, incoming_percentage);
    if fits {
        for branch in branches.iter() {
            state.apply_instructions(&branch.instruction_list);
            for side in [&state.side_one, &state.side_two] {
                for pokemon in side.pokemon.iter() {
                    assert!(0 <= pokemon.hp && pokemon.hp <= pokemon.maxhp);
                    for stat in [
                        PokemonBoostableStat::Attack,
                        PokemonBoostableStat::Defense,
                        PokemonBoostableStat::SpecialAttack,
                        PokemonBoostableStat::SpecialDefense,
                        PokemonBoostableStat::Speed,
                        PokemonBoostableStat::Accuracy,
                        PokemonBoostableStat::Evasion,
                    ] {
                        let stage = pokemon.get_boost_from_boost_enum(&stat);
                        assert!(-6 <= stage && stage <= 6);
                    }
                }
            }
            state.reverse_instructions(&branch.instruction_list);
            assert_eq!(*state, before);
        }
    }
    branches
}

fn branch(percent: u32, instruction_list: Vec<Instruction>) -> StateInstructions {
    StateInstructions { percentage: percent * PERCENT, instruction_list }
}

fn damage(side_ref: SideReference, damage_amount: i16) -> Instruction {
    Instruction::Damage(DamageInstruction { side_ref, damage_amount })
}

fn heal(side_ref: SideReference, heal_amount: i16) -> Instruction {
    Instruction::Heal(HealInstruction { side_ref, heal_amount })
}

fn boost(side_ref: SideReference, stat: PokemonBoostableStat, amount: i8) -> Instruction {
    Instruction::Boost(BoostInstruction { side_ref, stat, amount })
}

fn side_condition(side_ref: SideReference, side_condition: PokemonSideCondition, amount: i8) -> Instruction {
    Instruction::ChangeSideCondition(ChangeSideConditionInstruction { side_ref, side_condition, amount })
}

fn slot(id: Choices, disabled: bool) -> Move {
    Move { id, disabled, pp: 32, category: MoveCategory::Physical }
}

#[test]
fn test_drag_move_as_second_move_exits_early() {
    let mut state: State = State::default();
    let mut choice = move_named("dragontail");
    choice.first_move = false;
    let instructions = generate(&mut state, choice, StateInstructions::default());
    assert_eq!(instructions, vec![StateInstructions::default()])
}

#[test]
fn test_electric_move_does_nothing_versus_ground_type() {
    let mut state: State = State::default();
    let mut choice = move_named("thunderbolt");
    state.side_two.get_active().types = (PokemonType::Ground, PokemonType::Typeless);
    choice.first_move = false;
    let instructions = generate(&mut state, choice, StateInstructions::default());
    assert_eq!(instructions, vec![StateInstructions::default()])
}

#[test]
fn test_grass_type_cannot_have_powder_move_used_against_it() {
    let mut state: State = State::default();
    let mut choice = move_named("spore");
    state.side_two.get_active().types = (PokemonType::Grass, PokemonType::Typeless);
    choice.first_move = false;
    let instructions = generate(&mut state, choice, StateInstructions::default());
    assert_eq!(instructions, vec![StateInstructions::default()])
}

#[test]
fn test_spikes_sets_first_layer() {
    let mut state: State = State::default();
    let instructions = generate(&mut state, move_named("spikes"), StateInstructions::default());
    let expected = branch(100, vec![side_condition(SideReference::SideTwo, PokemonSideCondition::Spikes, 1)]);
    assert_eq!(instructions, vec![expected])
}

#[test]
fn test_spikes_layers_cannot_exceed_3() {
    let mut state: State = State::default();
    state.side_two.side_conditions.spikes = 3;
    let instructions = generate(&mut state, move_named("spikes"), StateInstructions::default());
    assert_eq!(instructions, vec![branch(100, vec![])])
}

#[test]
fn test_auroa_veil_works_in_hail() {
    let mut state: State = State::default();
    state.weather.weather_type = Weather::Hail;
    let instructions = generate(&mut state, move_named("auroraveil"), StateInstructions::default());
    let expected = branch(100, vec![side_condition(SideReference::SideOne, PokemonSideCondition::AuroraVeil, 1)]);
    assert_eq!(instructions, vec![expected])
}

#[test]
fn test_auroa_veil_fails_outside_of_hail() {
    let mut state: State = State::default();
    state.weather.weather_type = Weather::NONE;
    let instructions = generate(&mut state, move_named("auroraveil"), StateInstructions::default());
    assert_eq!(instructions, vec![branch(100, vec![])])
}

#[test]
fn test_stealthrock_cannot_exceed_1_layer() {
    let mut state: State = State::default();
    state.side_two.side_conditions.stealth_rock = 1;
    let instructions = generate(&mut state, move_named("stealthrock"), StateInstructions::default());
    assert_eq!(instructions, vec![branch(100, vec![])])
}

#[test]
fn test_stoneaxe_damage_and_stealthrock_setting() {
    let mut state: State = State::default();
    let instructions = generate(&mut state, move_named("stoneaxe"), StateInstructions::default());
    let expected = vec![
        branch(10, vec![]),
        branch(
            90,
            vec![
                damage(SideReference::SideTwo, 51),
                side_condition(SideReference::SideTwo, PokemonSideCondition::Stealthrock, 1),
            ],
        ),
    ];
    assert_eq!(instructions, expected)
}

#[test]
fn test_basic_volatile_status_applied_to_self() {
    let mut state: State = State::default();
    let instructions = generate(&mut state, move_named("aquaring"), StateInstructions::default());
    let expected = vec![branch(
        100,
        vec![Instruction::VolatileStatus(VolatileStatusInstruction {
            side_ref: SideReference::SideOne,
            volatile_status: PokemonVolatileStatus::AquaRing,
        })],
    )];
    assert_eq!(instructions, expected)
}

#[test]
fn test_basic_volatile_status_applied_to_opponent() {
    let mut state: State = State::default();
    let instructions = generate(&mut state, move_named("attract"), StateInstructions::default());
    let expected = vec![branch(
        100,
        vec![Instruction::VolatileStatus(VolatileStatusInstruction {
            side_ref: SideReference::SideTwo,
            volatile_status: PokemonVolatileStatus::Attract,
        })],
    )];
    assert_eq!(instructions, expected)
}

#[test]
fn test_cannot_apply_volatile_status_twice() {
    let mut state: State = State::default();
    state.side_two.get_active().volatile_statuses.insert(PokemonVolatileStatus::Attract);
    let instructions = generate(&mut state, move_named("attract"), StateInstructions::default());
    assert_eq!(instructions, vec![branch(100, vec![])])
}

#[test]
fn test_substitute_doing_damage_to_user() {
    let mut state: State = State::default();
    state.side_one.get_active().hp = 26;
    let instructions = generate(&mut state, move_named("substitute"), StateInstructions::default());
    let expected = vec![branch(
        100,
        vec![
            Instruction::VolatileStatus(VolatileStatusInstruction {
                side_ref: SideReference::SideOne,
                volatile_status: PokemonVolatileStatus::Substitute,
            }),
            damage(SideReference::SideOne, 25),
        ],
    )];
    assert_eq!(instructions, expected)
}

#[test]
fn test_substitute_failing_if_user_has_less_than_25_percent_hp() {
    let mut state: State = State::default();
    state.side_one.get_active().hp = 25;
    let instructions = generate(&mut state, move_named("substitute"), StateInstructions::default());
    assert_eq!(instructions, vec![branch(100, vec![])])
}

#[test]
fn test_basic_status_move() {
    let mut state: State = State::default();
    let instructions = generate(&mut state, move_named("glare"), StateInstructions::default());
    let expected = vec![branch(
        100,
        vec![Instruction::ChangeStatus(ChangeStatusInstruction {
            side_ref: SideReference::SideTwo,
            pokemon_index: PokemonIndex::P0,
            old_status: PokemonStatus::NONE,
            new_status: PokemonStatus::Paralyze,
        })],
    )];
    assert_eq!(instructions, expected)
}

#[test]
fn test_status_move_that_can_miss() {
    let mut state: State = State::default();
    let instructions = generate(&mut state, move_named("thunderwave"), StateInstructions::default());
    let expected = vec![
        branch(10, vec![]),
        branch(
            90,
            vec![Instruction::ChangeStatus(ChangeStatusInstruction {
                side_ref: SideReference::SideTwo,
                pokemon_index: PokemonIndex::P0,
                old_status: PokemonStatus::NONE,
                new_status: PokemonStatus::Paralyze,
            })],
        ),
    ];
    assert_eq!(instructions, expected)
}

#[test]
fn test_status_move_that_can_miss_but_is_blocked_by_ability() {
    let mut state: State = State::default();
    state.side_two.get_active().ability = Abilities::LIMBER;
    let instructions = generate(&mut state, move_named("thunderwave"), StateInstructions::default());
    assert_eq!(instructions, vec![branch(100, vec![])])
}

#[test]
fn test_substitute_does_not_block_rest() {
    let mut state: State = State::default();
    state.side_one.get_active().volatile_statuses.insert(PokemonVolatileStatus::Substitute);
    state.side_one.get_active().hp = state.side_one.get_active().maxhp - 1;
    let instructions = generate(&mut state, move_named("rest"), StateInstructions::default());
    let expected = vec![branch(
        100,
        vec![
            Instruction::ChangeStatus(ChangeStatusInstruction {
                side_ref: SideReference::SideOne,
                pokemon_index: PokemonIndex::P0,
                old_status: PokemonStatus::NONE,
                new_status: PokemonStatus::Sleep,
            }),
            heal(SideReference::SideOne, 1),
        ],
    )];
    assert_eq!(instructions, expected)
}

#[test]
fn test_basic_heal_move() {
    let mut state: State = State::default();
    state.side_one.get_active().hp = 1;
    let instructions = generate(&mut state, move_named("recover"), StateInstructions::default());
    assert_eq!(instructions, vec![branch(100, vec![heal(SideReference::SideOne, 50)])])
}

#[test]
fn test_heal_move_generates_no_instruction_at_maxhp() {
    let mut state: State = State::default();
    let instructions = generate(&mut state, move_named("recover"), StateInstructions::default());
    assert_eq!(instructions, vec![branch(100, vec![])])
}

#[test]
fn test_basic_negative_heal_move() {
    let mut state: State = State::default();
    let instructions = generate(&mut state, move_named("explosion"), StateInstructions::default());
    let expected = vec![branch(
        100,
        vec![damage(SideReference::SideTwo, 100), heal(SideReference::SideOne, -100)],
    )];
    assert_eq!(instructions, expected)
}

#[test]
fn test_negative_heal_move_does_not_overkill() {
    let mut state: State = State::default();
    state.side_one.get_active().hp = 1;
    let instructions = generate(&mut state, move_named("explosion"), StateInstructions::default());
    let expected = vec![branch(
        100,
        vec![damage(SideReference::SideTwo, 100), heal(SideReference::SideOne, -1)],
    )];
    assert_eq!(instructions, expected)
}

#[test]
fn test_heal_move_does_not_overheal() {
    let mut state: State = State::default();
    state.side_one.get_active().hp = 55;
    let instructions = generate(&mut state, move_named("recover"), StateInstructions::default());
    assert_eq!(instructions, vec![branch(100, vec![heal(SideReference::SideOne, 45)])])
}

#[test]
fn test_basic_boosting_move() {
    let mut state: State = State::default();
    let instructions = generate(&mut state, move_named("swordsdance"), StateInstructions::default());
    let expected = vec![branch(100, vec![boost(SideReference::SideOne, PokemonBoostableStat::Attack, 2)])];
    assert_eq!(instructions, expected)
}

#[test]
fn test_does_not_overboost() {
    let mut state: State = State::default();
    state.side_one.get_active().attack_boost = 5;
    let instructions = generate(&mut state, move_named("swordsdance"), StateInstructions::default());
    let expected = vec![branch(100, vec![boost(SideReference::SideOne, PokemonBoostableStat::Attack, 1)])];
    assert_eq!(instructions, expected)
}

#[test]
fn test_no_instruction_when_boosting_at_max() {
    let mut state: State = State::default();
    state.side_one.get_active().attack_boost = 6;
    let instructions = generate(&mut state, move_named("swordsdance"), StateInstructions::default());
    assert_eq!(instructions, vec![branch(100, vec![])])
}

#[test]
fn test_boost_lowering_that_can_miss() {
    let mut state: State = State::default();
    let instructions = generate(&mut state, move_named("kinesis"), StateInstructions::default());
    let expected = vec![
        branch(20, vec![]),
        branch(80, vec![boost(SideReference::SideTwo, PokemonBoostableStat::Accuracy, -1)]),
    ];
    assert_eq!(instructions, expected)
}

#[test]
fn test_basic_boost_lowering() {
    let mut state: State = State::default();
    let instructions = generate(&mut state, move_named("charm"), StateInstructions::default());
    let expected = vec![branch(100, vec![boost(SideReference::SideTwo, PokemonBoostableStat::Attack, -2)])];
    assert_eq!(instructions, expected)
}

#[test]
fn test_cannot_boost_lower_than_negative_6() {
    let mut state: State = State::default();
    state.side_two.get_active().attack_boost = -5;
    let instructions = generate(&mut state, move_named("charm"), StateInstructions::default());
    let expected = vec![branch(100, vec![boost(SideReference::SideTwo, PokemonBoostableStat::Attack, -1)])];
    assert_eq!(instructions, expected)
}

#[test]
fn test_no_boost_when_already_at_minimum() {
    let mut state: State = State::default();
    state.side_two.get_active().attack_boost = -6;
    let instructions = generate(&mut state, move_named("charm"), StateInstructions::default());
    assert_eq!(instructions, vec![branch(100, vec![])])
}

#[test]
fn test_clearbody_blocks_stat_lowering() {
    let mut state: State = State::default();
    state.side_two.get_active().ability = Abilities::CLEARBODY;
    let instructions = generate(&mut state, move_named("charm"), StateInstructions::default());
    assert_eq!(instructions, vec![branch(100, vec![])])
}

#[test]
fn test_clearbody_does_not_block_self_stat_lowering() {
    let mut state: State = State::default();
    state.side_one.get_active().ability = Abilities::CLEARBODY;
    let instructions = generate(&mut state, move_named("shellsmash"), StateInstructions::default());
    let expected = vec![branch(
        100,
        vec![
            boost(SideReference::SideOne, PokemonBoostableStat::Attack, 2),
            boost(SideReference::SideOne, PokemonBoostableStat::Defense, -1),
            boost(SideReference::SideOne, PokemonBoostableStat::SpecialAttack, 2),
            boost(SideReference::SideOne, PokemonBoostableStat::SpecialDefense, -1),
            boost(SideReference::SideOne, PokemonBoostableStat::Speed, 2),
        ],
    )];
    assert_eq!(instructions, expected)
}

#[test]
fn test_defog_does_not_change_terrain_if_terrain_is_none() {
    let mut state: State = State::default();
    let instructions = generate(&mut state, move_named("defog"), StateInstructions::default());
    assert_eq!(instructions, vec![branch(100, vec![])])
}

fn terrain_cleared() -> Instruction {
    Instruction::ChangeTerrain(ChangeTerrain {
        new_terrain: Terrain::NONE,
        new_terrain_turns_remaining: 0,
        previous_terrain: Terrain::ElectricTerrain,
        previous_terrain_turns_remaining: 1,
    })
}

#[test]
fn test_defog_clears_terrain() {
    let mut state: State = State::default();
    state.terrain.terrain_type = Terrain::ElectricTerrain;
    state.terrain.turns_remaining = 1;
    let instructions = generate(&mut state, move_named("defog"), StateInstructions::default());
    assert_eq!(instructions, vec![branch(100, vec![terrain_cleared()])])
}

#[test]
fn test_defog_clears_terrain_and_side_conditions() {
    let mut state: State = State::default();
    state.terrain.terrain_type = Terrain::ElectricTerrain;
    state.terrain.turns_remaining = 1;
    state.side_one.side_conditions.reflect = 1;
    state.side_two.side_conditions.reflect = 1;
    let instructions = generate(&mut state, move_named("defog"), StateInstructions::default());
    let expected = vec![branch(
        100,
        vec![
            terrain_cleared(),
            side_condition(SideReference::SideOne, PokemonSideCondition::Reflect, -1),
            side_condition(SideReference::SideTwo, PokemonSideCondition::Reflect, -1),
        ],
    )];
    assert_eq!(instructions, expected)
}

#[test]
fn test_rapidspin_clears_hazards() {
    let mut state: State = State::default();
    state.side_one.side_conditions.stealth_rock = 1;
    let instructions = generate(&mut state, move_named("rapidspin"), StateInstructions::default());
    let expected = vec![branch(
        100,
        vec![
            damage(SideReference::SideTwo, 61),
            side_condition(SideReference::SideOne, PokemonSideCondition::Stealthrock, -1),
        ],
    )];
    assert_eq!(instructions, expected)
}

#[test]
fn test_rapidspin_clears_multiple_hazards() {
    let mut state: State = State::default();
    state.side_one.side_conditions.stealth_rock = 1;
    state.side_one.side_conditions.toxic_spikes = 2;
    state.side_one.side_conditions.spikes = 3;
    state.side_one.side_conditions.sticky_web = 1;
    let instructions = generate(&mut state, move_named("rapidspin"), StateInstructions::default());
    let expected = vec![branch(
        100,
        vec![
            damage(SideReference::SideTwo, 61),
            side_condition(SideReference::SideOne, PokemonSideCondition::Stealthrock, -1),
            side_condition(SideReference::SideOne, PokemonSideCondition::Spikes, -3),
            side_condition(SideReference::SideOne, PokemonSideCondition::ToxicSpikes, -2),
            side_condition(SideReference::SideOne, PokemonSideCondition::StickyWeb, -1),
        ],
    )];
    assert_eq!(instructions, expected)
}

#[test]
fn test_rapidspin_does_not_clear_opponent_hazards() {
    let mut state: State = State::default();
    state.side_two.side_conditions.stealth_rock = 1;
    state.side_two.side_conditions.toxic_spikes = 2;
    state.side_two.side_conditions.spikes = 3;
    state.side_two.side_conditions.sticky_web = 1;
    let instructions = generate(&mut state, move_named("rapidspin"), StateInstructions::default());
    assert_eq!(instructions, vec![branch(100, vec![damage(SideReference::SideTwo, 61)])])
}

#[test]
fn test_courtchange_basic_swap() {
    let mut state: State = State::default();
    state.side_one.side_conditions.stealth_rock = 1;
    let instructions = generate(&mut state, move_named("courtchange"), StateInstructions::default());
    let expected = vec![branch(
        100,
        vec![
            side_condition(SideReference::SideOne, PokemonSideCondition::Stealthrock, -1),
            side_condition(SideReference::SideTwo, PokemonSideCondition::Stealthrock, 1),
        ],
    )];
    assert_eq!(instructions, expected)
}

#[test]
fn test_courtchange_complicated_swap() {
    let mut state: State = State::default();
    state.side_one.side_conditions.stealth_rock = 1;
    state.side_two.side_conditions.toxic_spikes = 2;
    state.side_two.side_conditions.spikes = 3;
    state.side_two.side_conditions.sticky_web = 1;
    let instructions = generate(&mut state, move_named("courtchange"), StateInstructions::default());
    let expected = vec![branch(
        100,
        vec![
            side_condition(SideReference::SideOne, PokemonSideCondition::Stealthrock, -1),
            side_condition(SideReference::SideTwo, PokemonSideCondition::Stealthrock, 1),
            side_condition(SideReference::SideTwo, PokemonSideCondition::Spikes, -3),
            side_condition(SideReference::SideOne, PokemonSideCondition::Spikes, 3),
            side_condition(SideReference::SideTwo, PokemonSideCondition::ToxicSpikes, -2),
            side_condition(SideReference::SideOne, PokemonSideCondition::ToxicSpikes, 2),
            side_condition(SideReference::SideTwo, PokemonSideCondition::StickyWeb, -1),
            side_condition(SideReference::SideOne, PokemonSideCondition::StickyWeb, 1),
        ],
    )];
    assert_eq!(instructions, expected)
}

#[test]
fn test_stoneaxe_does_not_set_stealthrock_if_already_set() {
    let mut state: State = State::default();
    state.side_two.side_conditions.stealth_rock = 1;
    let instructions = generate(&mut state, move_named("stoneaxe"), StateInstructions::default());
    let expected = vec![branch(10, vec![]), branch(90, vec![damage(SideReference::SideTwo, 51)])];
    assert_eq!(instructions, expected)
}

#[test]
fn test_flinched_pokemon_cannot_move() {
    let mut state: State = State::default();
    state.side_one.get_active().volatile_statuses.insert(PokemonVolatileStatus::Flinch);
    let instructions = generate(&mut state, move_named("tackle"), StateInstructions::default());
    assert_eq!(instructions, vec![StateInstructions::default()])
}

#[test]
fn test_taunted_pokemon_cannot_use_status_move() {
    let mut state: State = State::default();
    state.side_one.get_active().volatile_statuses.insert(PokemonVolatileStatus::Taunt);
    let instructions = generate(&mut state, move_named("glare"), StateInstructions::default());
    assert_eq!(instructions, vec![StateInstructions::default()])
}

#[test]
fn test_pokemon_taunted_on_first_turn_cannot_use_status_move() {
    let mut state: State = State::default();
    let mut choice = move_named("glare");
    choice.first_move = false;
    let mut incoming_instructions = StateInstructions::default();
    incoming_instructions.instruction_list.push(Instruction::VolatileStatus(
        VolatileStatusInstruction {
            side_ref: SideReference::SideOne,
            volatile_status: PokemonVolatileStatus::Taunt,
        },
    ));
    let original_incoming_instructions = incoming_instructions.clone();
    let instructions = generate(&mut state, choice, incoming_instructions);
    assert_eq!(instructions, vec![original_incoming_instructions])
}

#[test]
fn test_dead_pokemon_moving_second_does_nothing() {
    let mut state: State = State::default();
    let mut choice = move_named("tackle");
    choice.first_move = false;
    state.side_one.get_active().hp = 0;
    let instructions = generate(&mut state, choice, StateInstructions::default());
    assert_eq!(instructions, vec![StateInstructions::default()])
}

#[test]
fn test_cannot_ohko_versus_study() {
    let mut state: State = State::default();
    state.side_two.get_active().ability = Abilities::STURDY;
    state.side_two.get_active().hp = 50;
    state.side_two.get_active().maxhp = 50;
    let instructions = generate(&mut state, move_named("earthquake"), StateInstructions::default());
    assert_eq!(instructions, vec![branch(100, vec![damage(SideReference::SideTwo, 49)])])
}

#[test]
fn test_sturdy_does_not_affect_non_ohko_move() {
    let mut state: State = State::default();
    state.side_two.get_active().ability = Abilities::STURDY;
    state.side_two.get_active().hp = 45;
    state.side_two.get_active().maxhp = 50;
    let instructions = generate(&mut state, move_named("earthquake"), StateInstructions::default());
    assert_eq!(instructions, vec![branch(100, vec![damage(SideReference::SideTwo, 45)])])
}

#[test]
fn test_beastboost_boosts_on_kill() {
    let mut state: State = State::default();
    state.side_one.get_active().ability = Abilities::BEASTBOOST;
    state.side_one.get_active().attack = 500;
    state.side_two.get_active().hp = 1;
    let instructions = generate(&mut state, move_named("tackle"), StateInstructions::default());
    let expected = branch(
        100,
        vec![
            damage(SideReference::SideTwo, 1),
            boost(SideReference::SideOne, PokemonBoostableStat::Attack, 1),
        ],
    );
    assert_eq!(instructions, vec![expected])
}

#[test]
fn test_beastboost_does_not_boost_without_kill() {
    let mut state: State = State::default();
    state.side_one.get_active().ability = Abilities::BEASTBOOST;
    state.side_one.get_active().attack = 150;
    state.side_two.get_active().hp = 100;
    let instructions = generate(&mut state, move_named("tackle"), StateInstructions::default());
    assert_eq!(instructions, vec![branch(100, vec![damage(SideReference::SideTwo, 72)])])
}

#[test]
fn test_drain_move_heals() {
    let mut state: State = State::default();
    state.side_one.get_active().hp = 100;
    state.side_one.get_active().maxhp = 200;
    let instructions = generate(&mut state, move_named("absorb"), StateInstructions::default());
    let expected = branch(100, vec![damage(SideReference::SideTwo, 16), heal(SideReference::SideOne, 8)]);
    assert_eq!(instructions, vec![expected])
}

#[test]
fn test_drain_move_does_not_overheal() {
    let mut state: State = State::default();
    state.side_one.get_active().hp = 100;
    state.side_one.get_active().maxhp = 105;
    let instructions = generate(&mut state, move_named("absorb"), StateInstructions::default());
    let expected = branch(100, vec![damage(SideReference::SideTwo, 16), heal(SideReference::SideOne, 5)]);
    assert_eq!(instructions, vec![expected])
}

#[test]
fn test_recoil_damage() {
    let mut state: State = State::default();
    state.side_one.get_active().hp = 105;
    state.side_one.get_active().maxhp = 105;
    let instructions = generate(&mut state, move_named("bravebird"), StateInstructions::default());
    let expected = branch(100, vec![damage(SideReference::SideTwo, 94), damage(SideReference::SideOne, 31)]);
    assert_eq!(instructions, vec![expected])
}

#[test]
fn test_recoil_cannot_overkill() {
    let mut state: State = State::default();
    state.side_one.get_active().hp = 5;
    state.side_one.get_active().maxhp = 105;
    let instructions = generate(&mut state, move_named("bravebird"), StateInstructions::default());
    let expected = branch(100, vec![damage(SideReference::SideTwo, 94), damage(SideReference::SideOne, 5)]);
    assert_eq!(instructions, vec![expected])
}

#[test]
fn test_drain_and_recoil_together() {
    let mut state: State = State::default();
    let mut choice = move_named("absorb");
    choice.recoil = Some(330);
    state.side_one.get_active().hp = 1;
    state.side_one.get_active().maxhp = 105;
    let instructions = generate(&mut state, choice, StateInstructions::default());
    let expected = branch(
        100,
        vec![
            damage(SideReference::SideTwo, 16),
            heal(SideReference::SideOne, 8),
            damage(SideReference::SideOne, 5),
        ],
    );
    assert_eq!(instructions, vec![expected])
}

#[test]
fn test_crash_move_missing() {
    let mut state: State = State::default();
    let instructions = generate(&mut state, move_named("jumpkick"), StateInstructions::default());
    let expected = vec![
        branch(5, vec![damage(SideReference::SideOne, 50)]),
        branch(95, vec![damage(SideReference::SideTwo, 100)]),
    ];
    assert_eq!(instructions, expected)
}

#[test]
fn test_crash_move_missing_cannot_overkill() {
    let mut state: State = State::default();
    state.get_side(&SideReference::SideOne).get_active().hp = 5;
    let instructions = generate(&mut state, move_named("jumpkick"), StateInstructions::default());
    let expected = vec![
        branch(5, vec![damage(SideReference::SideOne, 5)]),
        branch(95, vec![damage(SideReference::SideTwo, 100)]),
    ];
    assert_eq!(instructions, expected)
}

#[test]
fn test_knockoff_removing_item() {
    let mut state: State = State::default();
    state.get_side(&SideReference::SideTwo).get_active().item = Items::UNKNOWNITEM;
    let instructions = generate(&mut state, move_named("knockoff"), StateInstructions::default());
    let expected = branch(
        100,
        vec![
            damage(SideReference::SideTwo, 51),
            Instruction::ChangeItem(ChangeItemInstruction {
                side_ref: SideReference::SideTwo,
                current_item: Items::UNKNOWNITEM,
                new_item: Items::NONE,
            }),
        ],
    );
    assert_eq!(instructions, vec![expected])
}

#[test]
fn test_blunderpolicy_boost() {
    let mut state: State = State::default();
    state.get_side(&SideReference::SideOne).get_active().item = Items::BLUNDERPOLICY;
    let instructions = generate(&mut state, move_named("crosschop"), StateInstructions::default());
    let expected = vec![
        branch(
            20,
            vec![
                Instruction::ChangeItem(ChangeItemInstruction {
                    side_ref: SideReference::SideOne,
                    current_item: Items::BLUNDERPOLICY,
                    new_item: Items::NONE,
                }),
                boost(SideReference::SideOne, PokemonBoostableStat::Speed, 2),
            ],
        ),
        branch(80, vec![damage(SideReference::SideTwo, 100)]),
    ];
    assert_eq!(instructions, expected);
}

#[test]
fn test_basic_switch_functionality_with_no_prior_instructions() {
    let mut state: State = State::default();
    let mut choice = Choice { ..Default::default() };
    choice.switch_id = PokemonIndex::P1;
    let expected_instructions: StateInstructions = StateInstructions {
        percentage: 100 * PERCENT,
        instruction_list: vec![Instruction::Switch(SwitchInstruction {
            side_ref: SideReference::SideOne,
            previous_index: PokemonIndex::P0,
            next_index: PokemonIndex::P1,
        })],
        ..Default::default()
    };
    let incoming_instructions = generate_instructions_from_switch(
        &mut state,
        choice.switch_id,
        SideReference::SideOne,
        StateInstructions::default(),
    );
    assert_eq!(vec![expected_instructions], incoming_instructions);
}

#[test]
fn test_basic_switch_with_disabled_move() {
    let mut state: State = State::default();
    state.side_one.get_active().moves = [
        slot(Choices::TACKLE, true),
        slot(Choices::EARTHQUAKE, false),
        Move::new(),
        Move::new(),
    ];
    let mut choice = Choice { ..Default::default() };
    choice.switch_id = PokemonIndex::P1;
    let expected_instructions: StateInstructions = StateInstructions {
        percentage: 100 * PERCENT,
        instruction_list: vec![
            Instruction::EnableMove(EnableMoveInstruction {
                side_ref: SideReference::SideOne,
                move_index: PokemonMoveIndex::M0,
            }),
            Instruction::Switch(SwitchInstruction {
                side_ref: SideReference::SideOne,
                previous_index: PokemonIndex::P0,
                next_index: PokemonIndex::P1,
            }),
        ],
        ..Default::default()
    };
    let incoming_instructions = generate_instructions_from_switch(
        &mut state,
        choice.switch_id,
        SideReference::SideOne,
        StateInstructions::default(),
    );
    assert_eq!(vec![expected_instructions], incoming_instructions);
}

#[test]
fn test_basic_switch_with_multiple_disabled_moves() {
    let mut state: State = State::default();
    state.side_one.get_active().moves = [
        slot(Choices::TACKLE, true),
        slot(Choices::ABSORB, true),
        slot(Choices::EARTHQUAKE, false),
        slot(Choices::KNOCKOFF, true),
    ];
    let mut choice = Choice { ..Default::default() };
    choice.switch_id = PokemonIndex::P1;
    let expected_instructions: StateInstructions = StateInstructions {
        percentage: 100 * PERCENT,
        instruction_list: vec![
            Instruction::EnableMove(EnableMoveInstruction {
                side_ref: SideReference::SideOne,
                move_index: PokemonMoveIndex::M0,
            }),
            Instruction::EnableMove(EnableMoveInstruction {
                side_ref: SideReference::SideOne,
                move_index: PokemonMoveIndex::M1,
            }),
            Instruction::EnableMove(EnableMoveInstruction {
                side_ref: SideReference::SideOne,
                move_index: PokemonMoveIndex::M3,
            }),
            Instruction::Switch(SwitchInstruction {
                side_ref: SideReference::SideOne,
                previous_index: PokemonIndex::P0,
                next_index: PokemonIndex::P1,
            }),
        ],
        ..Default::default()
    };
    let incoming_instructions = generate_instructions_from_switch(
        &mut state,
        choice.switch_id,
        SideReference::SideOne,
        StateInstructions::default(),
    );
    assert_eq!(vec![expected_instructions], incoming_instructions);
}

#[test]
fn test_basic_switch_functionality_with_a_prior_instruction() {
    let mut state: State = State::default();
    let mut incoming_instructions = StateInstructions::default();
    let mut choice = Choice { ..Default::default() };
    choice.switch_id = PokemonIndex::P1;
    incoming_instructions.instruction_list.push(damage(SideReference::SideOne, 1));
    let expected_instructions: StateInstructions = StateInstructions {
        percentage: 100 * PERCENT,
        instruction_list: vec![
            damage(SideReference::SideOne, 1),
            Instruction::Switch(SwitchInstruction {
                side_ref: SideReference::SideOne,
                previous_index: PokemonIndex::P0,
                next_index: PokemonIndex::P1,
            }),
        ],
        ..Default::default()
    };
    let incoming_instructions = generate_instructions_from_switch(
        &mut state,
        choice.switch_id,
        SideReference::SideOne,
        incoming_instructions,
    );
    assert_eq!(vec![expected_instructions], incoming_instructions);
}

#[test]
fn test_healthy_pokemon_with_no_prior_instructions() {
    let mut state = State::default();
    let incoming_instructions = StateInstructions::default();
    let expected_instructions = vec![StateInstructions::default()];
    let actual_instructions = generate_instructions_from_existing_status_conditions(
        &mut state,
        &SideReference::SideOne,
        incoming_instructions,
        &mut vec![],
    );
    assert_eq!(expected_instructions, actual_instructions);
}

#[test]
fn test_paralyzed_pokemon_with_no_prior_instructions() {
    let mut state = State::default();
    state.side_one.get_active().status = PokemonStatus::Paralyze;
    let incoming_instructions = StateInstructions::default();
    let expected_instructions = vec![StateInstructions {
        percentage: 75 * PERCENT,
        instruction_list: vec![],
    }];
    let expected_frozen_instructions = &mut vec![StateInstructions {
        percentage: 25 * PERCENT,
        instruction_list: vec![],
    }];
    let frozen_instructions = &mut vec![];
    let actual_instructions = generate_instructions_from_existing_status_conditions(
        &mut state,
        &SideReference::SideOne,
        incoming_instructions,
        frozen_instructions,
    );
    assert_eq!(expected_instructions, actual_instructions);
    assert_eq!(expected_frozen_instructions, frozen_instructions);
}

#[test]
fn test_frozen_pokemon_with_no_prior_instructions() {
    let mut state = State::default();
    state.side_one.get_active().status = PokemonStatus::Freeze;
    let incoming_instructions = StateInstructions::default();
    let expected_instructions = vec![StateInstructions {
        percentage: 20 * PERCENT,
        instruction_list: vec![Instruction::ChangeStatus(ChangeStatusInstruction {
            side_ref: SideReference::SideOne,
            pokemon_index: state.side_one.active_index,
            old_status: PokemonStatus::Freeze,
            new_status: PokemonStatus::NONE,
        })],
    }];
    let expected_frozen_instructions = &mut vec![StateInstructions {
        percentage: 80 * PERCENT,
        instruction_list: vec![],
    }];
    let frozen_instructions = &mut vec![];
    let actual_instructions = generate_instructions_from_existing_status_conditions(
        &mut state,
        &SideReference::SideOne,
        incoming_instructions,
        frozen_instructions,
    );
    assert_eq!(expected_instructions, actual_instructions);
    assert_eq!(expected_frozen_instructions, frozen_instructions);
}

#[test]
fn test_asleep_pokemon_with_no_prior_instructions() {
    let mut state = State::default();
    state.side_one.get_active().status = PokemonStatus::Sleep;
    let incoming_instructions = StateInstructions::default();
    let expected_instructions = vec![StateInstructions {
        percentage: 33 * PERCENT,
        instruction_list: vec![Instruction::ChangeStatus(ChangeStatusInstruction {
            side_ref: SideReference::SideOne,
            pokemon_index: state.side_one.active_index,
            old_status: PokemonStatus::Sleep,
            new_status: PokemonStatus::NONE,
        })],
    }];
    let expected_frozen_instructions = &mut vec![StateInstructions {
        percentage: 67 * PERCENT,
        instruction_list: vec![],
    }];
    let frozen_instructions = &mut vec![];
    let actual_instructions = generate_instructions_from_existing_status_conditions(
        &mut state,
        &SideReference::SideOne,
        incoming_instructions,
        frozen_instructions,
    );
    assert_eq!(expected_instructions, actual_instructions);
    assert_eq!(expected_frozen_instructions, frozen_instructions);
}

#[test]
fn test_paralyzed_pokemon_preserves_prior_instructions() {
    let mut state = State::default();
    state.side_one.get_active().status = PokemonStatus::Paralyze;
    let mut incoming_instructions = StateInstructions::default();
    incoming_instructions.instruction_list = vec![damage(SideReference::SideOne, 1)];
    let expected_instructions = vec![StateInstructions {
        percentage: 75 * PERCENT,
        instruction_list: vec![damage(SideReference::SideOne, 1)],
    }];
    let expected_frozen_instructions = &mut vec![StateInstructions {
        percentage: 25 * PERCENT,
        instruction_list: vec![damage(SideReference::SideOne, 1)],
    }];
    let frozen_instructions = &mut vec![];
    let actual_instructions = generate_instructions_from_existing_status_conditions(
        &mut state,
        &SideReference::SideOne,
        incoming_instructions,
        frozen_instructions,
    );
    assert_eq!(expected_instructions, actual_instructions);
    assert_eq!(expected_frozen_instructions, frozen_instructions);
}

#[test]
fn test_previous_instruction_removing_paralysis_stops_the_branch() {
    let mut state = State::default();
    state.side_one.get_active().status = PokemonStatus::Paralyze;
    let mut incoming_instructions = StateInstructions::default();
    incoming_instructions.instruction_list = vec![Instruction::ChangeStatus(ChangeStatusInstruction {
        side_ref: SideReference::SideOne,
        pokemon_index: state.side_one.active_index,
        old_status: state.side_one.get_active_immutable().status,
        new_status: PokemonStatus::NONE,
    })];
    let expected_instructions = vec![StateInstructions {
        percentage: 100 * PERCENT,
        instruction_list: vec![Instruction::ChangeStatus(ChangeStatusInstruction {
            side_ref: SideReference::SideOne,
            pokemon_index: state.side_one.active_index,
            old_status: state.side_one.get_active_immutable().status,
            new_status: PokemonStatus::NONE,
        })],
        ..Default::default()
    }];
    let actual_instructions = generate_instructions_from_existing_status_conditions(
        &mut state,
        &SideReference::SideOne,
        incoming_instructions,
        &mut vec![],
    );
    assert_eq!(expected_instructions, actual_instructions);
}
