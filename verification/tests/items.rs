use poke_engine::choices::{
    Choice, Choices, Effect, MoveCategory, MoveTarget, Secondary, StatBoosts,
};
use poke_engine::instruction::{
    BoostInstruction, ChangeItemInstruction, ChangeStatusInstruction, DamageInstruction,
    DisableMoveInstruction, HealInstruction, Instruction, StateInstructions, CERTAIN,
};
use poke_engine::items::{
    get_choice_move_disable_instructions, item_before_move, item_end_of_turn,
    item_modify_attack_against, item_modify_attack_being_used, item_on_switch_in, Items,
};
use poke_engine::state::{
    Move, PokemonBoostableStat, PokemonIndex, PokemonMoveIndex, PokemonName, PokemonStatus,
    PokemonType, SideReference, State, Terrain,
};

fn attack(id: Choices, move_type: PokemonType, category: MoveCategory, power: u32) -> Choice {
    let mut choice = Choice::default();
    choice.move_id = id;
    choice.move_type = move_type;
    choice.category = category;
    choice.base_power = power * 1000;
    choice
}

fn tackle() -> Choice {
    attack(Choices::TACKLE, PokemonType::Normal, MoveCategory::Physical, 40)
}

fn slot(id: Choices, disabled: bool) -> Move {
    Move { id, disabled, pp: 16, category: MoveCategory::Physical }
}

fn disable(side_ref: SideReference, move_index: PokemonMoveIndex) -> Instruction {
    Instruction::DisableMove(DisableMoveInstruction { side_ref, move_index })
}

fn secondaries(choice: &Choice) -> Vec<Secondary> {
    choice.secondaries.clone()
}

fn certain(target: MoveTarget, effect: Effect) -> Secondary {
    Secondary { chance: 100, target, effect }
}

fn boosts(attack: i8, special_attack: i8) -> StatBoosts {
    StatBoosts { attack, defense: 0, special_attack, special_defense: 0, speed: 0, accuracy: 0 }
}

#[test]
fn a_choice_item_locks_into_the_move() {
    let mut state = State::default();
    state.side_one.get_active().moves = [
        slot(Choices::TACKLE, false),
        slot(Choices::ABSORB, true),
        slot(Choices::EARTHQUAKE, false),
        Move::new(),
    ];
    let list = get_choice_move_disable_instructions(
        state.side_one.get_active_immutable(),
        &SideReference::SideOne,
        &Choices::TACKLE,
    );
    assert_eq!(
        list,
        vec![
            disable(SideReference::SideOne, PokemonMoveIndex::M2),
            disable(SideReference::SideOne, PokemonMoveIndex::M3),
        ]
    );
}

#[test]
fn a_berry_weakens_a_strong_move_and_is_eaten() {
    let mut state = State::default();
    state.side_two.get_active().item = Items::CHOPLEBERRY;
    let before = state;
    let mut choice = attack(Choices::CROSSCHOP, PokemonType::Fighting, MoveCategory::Physical, 100);
    let mut instructions = StateInstructions::default();
    item_before_move(&mut state, &mut choice, &SideReference::SideOne, &mut instructions);
    assert_eq!(choice.base_power, 50_000);
    assert_eq!(state.side_two.get_active_immutable().item, Items::NONE);
    assert_eq!(
        instructions,
        StateInstructions {
            percentage: CERTAIN,
            instruction_list: vec![Instruction::ChangeItem(ChangeItemInstruction {
                side_ref: SideReference::SideTwo,
                current_item: Items::CHOPLEBERRY,
                new_item: Items::NONE,
            })],
        }
    );
    state.reverse_instructions(&instructions.instruction_list);
    assert_eq!(state, before);
}

#[test]
fn a_berry_does_not_weaken_a_move_that_is_not_strong() {
    let mut state = State::default();
    state.side_two.get_active().item = Items::OCCABERRY;
    state.side_two.get_active().types = (PokemonType::Water, PokemonType::Typeless);
    let mut choice = attack(Choices::NONE, PokemonType::Fire, MoveCategory::Special, 90);
    let mut instructions = StateInstructions::default();
    item_before_move(&mut state, &mut choice, &SideReference::SideOne, &mut instructions);
    assert_eq!(choice.base_power, 90_000);
    assert_eq!(instructions, StateInstructions::default());
    state.side_two.get_active().item = Items::CHILANBERRY;
    let mut normal = tackle();
    item_before_move(&mut state, &mut normal, &SideReference::SideOne, &mut instructions);
    assert_eq!(normal.base_power, 20_000);
    assert_eq!(instructions.instruction_list.len(), 1);
}

#[test]
fn a_choice_item_disables_the_other_moves_before_the_move() {
    let mut state = State::default();
    state.side_one.get_active().item = Items::CHOICESCARF;
    state.side_one.get_active().moves = [
        slot(Choices::EARTHQUAKE, false),
        slot(Choices::TACKLE, false),
        slot(Choices::ABSORB, true),
        slot(Choices::KNOCKOFF, false),
    ];
    let mut choice = tackle();
    let mut instructions = StateInstructions::default();
    item_before_move(&mut state, &mut choice, &SideReference::SideOne, &mut instructions);
    assert_eq!(
        instructions.instruction_list,
        vec![
            disable(SideReference::SideOne, PokemonMoveIndex::M0),
            disable(SideReference::SideOne, PokemonMoveIndex::M3),
        ]
    );
    assert!(state.side_one.get_active_immutable().moves[0].disabled);
    assert!(!state.side_one.get_active_immutable().moves[1].disabled);
    assert!(state.side_one.get_active_immutable().moves[3].disabled);
}

#[test]
fn a_seed_answers_to_its_terrain() {
    let mut state = State::default();
    state.side_two.get_active().item = Items::MISTYSEED;
    state.terrain.terrain_type = Terrain::MistyTerrain;
    state.terrain.turns_remaining = 3;
    let mut instructions = StateInstructions::default();
    item_on_switch_in(&mut state, &SideReference::SideTwo, &mut instructions);
    assert_eq!(
        instructions.instruction_list,
        vec![
            Instruction::Boost(BoostInstruction {
                side_ref: SideReference::SideTwo,
                stat: PokemonBoostableStat::SpecialDefense,
                amount: 1,
            }),
            Instruction::ChangeItem(ChangeItemInstruction {
                side_ref: SideReference::SideTwo,
                current_item: Items::MISTYSEED,
                new_item: Items::NONE,
            }),
        ]
    );
    assert_eq!(state.side_two.get_active_immutable().special_defense_boost, 1);
    assert_eq!(state.side_two.get_active_immutable().item, Items::NONE);
}

#[test]
fn a_seed_does_nothing_off_its_terrain_or_at_the_highest_stage() {
    let mut state = State::default();
    state.side_one.get_active().item = Items::ELECTRICSEED;
    state.terrain.terrain_type = Terrain::GrassyTerrain;
    state.terrain.turns_remaining = 3;
    let mut instructions = StateInstructions::default();
    item_on_switch_in(&mut state, &SideReference::SideOne, &mut instructions);
    assert_eq!(instructions, StateInstructions::default());
    state.terrain.terrain_type = Terrain::ElectricTerrain;
    state.terrain.turns_remaining = 0;
    item_on_switch_in(&mut state, &SideReference::SideOne, &mut instructions);
    assert_eq!(instructions, StateInstructions::default());
    state.terrain.turns_remaining = 1;
    state.side_one.get_active().defense_boost = 6;
    item_on_switch_in(&mut state, &SideReference::SideOne, &mut instructions);
    assert_eq!(instructions, StateInstructions::default());
}

fn end_of_turn_with(item: Items, hp: i16, types: (PokemonType, PokemonType)) -> Vec<Instruction> {
    let mut state = State::default();
    state.side_one.get_active().item = item;
    state.side_one.get_active().hp = hp;
    state.side_one.get_active().types = types;
    let before = state;
    let mut instructions = StateInstructions::default();
    item_end_of_turn(&mut state, &SideReference::SideOne, &mut instructions);
    let mut check = before;
    check.apply_instructions(&instructions.instruction_list);
    assert_eq!(check, state);
    state.reverse_instructions(&instructions.instruction_list);
    assert_eq!(state, before);
    instructions.instruction_list
}

#[test]
fn items_at_the_end_of_a_turn() {
    let normal = (PokemonType::Normal, PokemonType::Typeless);
    let poison = (PokemonType::Poison, PokemonType::Typeless);
    let heal = |amount| Instruction::Heal(HealInstruction { side_ref: SideReference::SideOne, heal_amount: amount });
    let damage = |amount| {
        Instruction::Damage(DamageInstruction { side_ref: SideReference::SideOne, damage_amount: amount })
    };
    let status = |new_status| {
        Instruction::ChangeStatus(ChangeStatusInstruction {
            side_ref: SideReference::SideOne,
            pokemon_index: PokemonIndex::P0,
            old_status: PokemonStatus::NONE,
            new_status,
        })
    };
    assert_eq!(end_of_turn_with(Items::LEFTOVERS, 50, normal), vec![heal(6)]);
    assert_eq!(end_of_turn_with(Items::LEFTOVERS, 97, normal), vec![heal(3)]);
    assert_eq!(end_of_turn_with(Items::LEFTOVERS, 100, normal), vec![]);
    assert_eq!(end_of_turn_with(Items::BLACKSLUDGE, 50, poison), vec![heal(6)]);
    assert_eq!(end_of_turn_with(Items::BLACKSLUDGE, 50, normal), vec![damage(6)]);
    assert_eq!(end_of_turn_with(Items::BLACKSLUDGE, 3, normal), vec![damage(3)]);
    assert_eq!(end_of_turn_with(Items::FLAMEORB, 50, normal), vec![status(PokemonStatus::Burn)]);
    assert_eq!(end_of_turn_with(Items::FLAMEORB, 50, (PokemonType::Fire, PokemonType::Typeless)), vec![]);
    assert_eq!(end_of_turn_with(Items::TOXICORB, 50, normal), vec![status(PokemonStatus::Toxic)]);
    assert_eq!(end_of_turn_with(Items::TOXICORB, 50, poison), vec![]);
    assert_eq!(end_of_turn_with(Items::NONE, 50, normal), vec![]);
}

fn against(item: Items, choice: &Choice) -> Choice {
    let mut state = State::default();
    state.side_two.get_active().item = item;
    let mut choice = choice.clone();
    item_modify_attack_against(&state, &mut choice, &SideReference::SideOne);
    choice
}

#[test]
fn the_item_of_the_defender_changes_the_choice() {
    let special = attack(Choices::THUNDERBOLT, PokemonType::Electric, MoveCategory::Special, 90);
    assert_eq!(against(Items::ASSAULTVEST, &special).base_power, 60_000);
    assert_eq!(against(Items::ASSAULTVEST, &tackle()).base_power, 40_000);
    assert_eq!(against(Items::EVIOLITE, &tackle()).base_power, 26_666);
    let ground = attack(Choices::EARTHQUAKE, PokemonType::Ground, MoveCategory::Physical, 100);
    assert_eq!(against(Items::AIRBALLOON, &ground).base_power, 0);
    let arrows = attack(Choices::THOUSANDARROWS, PokemonType::Ground, MoveCategory::Physical, 90);
    let burst = against(Items::AIRBALLOON, &arrows);
    assert_eq!(burst.base_power, 90_000);
    assert_eq!(secondaries(&burst), vec![certain(MoveTarget::Opponent, Effect::RemoveItem)]);
    assert_eq!(
        secondaries(&against(Items::CELLBATTERY, &special)),
        vec![
            certain(MoveTarget::Opponent, Effect::Boost(boosts(1, 0))),
            certain(MoveTarget::Opponent, Effect::RemoveItem),
        ]
    );
    let water = attack(Choices::NONE, PokemonType::Water, MoveCategory::Special, 90);
    assert_eq!(
        secondaries(&against(Items::ABSORBBULB, &water)),
        vec![
            certain(MoveTarget::Opponent, Effect::Boost(boosts(0, 1))),
            certain(MoveTarget::Opponent, Effect::RemoveItem),
        ]
    );
    assert_eq!(secondaries(&against(Items::ABSORBBULB, &tackle())), vec![]);
    let mut contact = tackle();
    contact.flags.contact = true;
    assert_eq!(
        secondaries(&against(Items::ROCKYHELMET, &contact)),
        vec![certain(MoveTarget::User, Effect::Heal(-166))]
    );
    assert_eq!(secondaries(&against(Items::ROCKYHELMET, &tackle())), vec![]);
    let fighting = attack(Choices::CROSSCHOP, PokemonType::Fighting, MoveCategory::Physical, 100);
    assert_eq!(
        secondaries(&against(Items::WEAKNESSPOLICY, &fighting)),
        vec![
            certain(MoveTarget::Opponent, Effect::Boost(boosts(2, 2))),
            certain(MoveTarget::Opponent, Effect::RemoveItem),
        ]
    );
    assert_eq!(secondaries(&against(Items::WEAKNESSPOLICY, &tackle())), vec![]);
    assert_eq!(against(Items::SOULDEW, &special), special);
    assert_eq!(against(Items::NONE, &special), special);
}

fn used_by(item: Items, id: PokemonName, choice: &Choice) -> Choice {
    let mut state = State::default();
    state.side_one.get_active().item = item;
    state.side_one.get_active().id = id;
    let mut choice = choice.clone();
    item_modify_attack_being_used(&state, &mut choice, &SideReference::SideOne);
    choice
}

#[test]
fn the_item_of_the_attacker_changes_the_choice() {
    let rattata = PokemonName::RATTATA;
    let special = attack(Choices::THUNDERBOLT, PokemonType::Electric, MoveCategory::Special, 90);
    let dragon = attack(Choices::DRAGONTAIL, PokemonType::Dragon, MoveCategory::Physical, 60);
    assert_eq!(used_by(Items::SILKSCARF, rattata, &tackle()).base_power, 48_000);
    assert_eq!(used_by(Items::SILKSCARF, rattata, &special).base_power, 90_000);
    assert_eq!(used_by(Items::DRAGONFANG, rattata, &dragon).base_power, 72_000);
    assert_eq!(used_by(Items::CHOICEBAND, rattata, &tackle()).base_power, 60_000);
    assert_eq!(used_by(Items::CHOICEBAND, rattata, &special).base_power, 90_000);
    assert_eq!(used_by(Items::CHOICESPECS, rattata, &special).base_power, 135_000);
    assert_eq!(used_by(Items::MUSCLEBAND, rattata, &tackle()).base_power, 44_000);
    assert_eq!(used_by(Items::WISEGLASSES, rattata, &special).base_power, 99_000);
    let fighting = attack(Choices::CROSSCHOP, PokemonType::Fighting, MoveCategory::Physical, 100);
    assert_eq!(used_by(Items::EXPERTBELT, rattata, &fighting).base_power, 120_000);
    assert_eq!(used_by(Items::EXPERTBELT, rattata, &tackle()).base_power, 40_000);
    let orb = used_by(Items::LIFEORB, rattata, &tackle());
    assert_eq!(orb.base_power, 52_000);
    assert_eq!(secondaries(&orb), vec![certain(MoveTarget::User, Effect::Heal(-100))]);
    let mut status = tackle();
    status.category = MoveCategory::Status;
    assert_eq!(used_by(Items::LIFEORB, rattata, &status), status);
    let mut punch = tackle();
    punch.flags.punch = true;
    punch.flags.contact = true;
    let gloved = used_by(Items::PUNCHINGGLOVE, rattata, &punch);
    assert_eq!(gloved.base_power, 44_000);
    assert!(!gloved.flags.contact);
    assert_eq!(used_by(Items::SHELLBELL, rattata, &tackle()).drain, Some(125));
    let mut sound = special;
    sound.flags.sound = true;
    assert_eq!(
        secondaries(&used_by(Items::THROATSPRAY, rattata, &sound)),
        vec![
            certain(MoveTarget::User, Effect::Boost(boosts(0, 1))),
            certain(MoveTarget::User, Effect::RemoveItem),
        ]
    );
    assert_eq!(used_by(Items::THICKCLUB, PokemonName::CUBONE, &tackle()).base_power, 80_000);
    assert_eq!(used_by(Items::THICKCLUB, PokemonName::MAROWAKALOLA, &tackle()).base_power, 80_000);
    assert_eq!(used_by(Items::THICKCLUB, rattata, &tackle()).base_power, 40_000);
    assert_eq!(used_by(Items::SOULDEW, PokemonName::LATIOS, &dragon).base_power, 72_000);
    assert_eq!(used_by(Items::SOULDEW, PokemonName::LATIAS, &tackle()).base_power, 40_000);
    assert_eq!(used_by(Items::SOULDEW, rattata, &dragon).base_power, 60_000);
    assert_eq!(used_by(Items::GRISEOUSORB, PokemonName::GIRATINA, &dragon).base_power, 72_000);
    assert_eq!(used_by(Items::LUSTROUSORB, PokemonName::PALKIA, &dragon).base_power, 72_000);
    assert_eq!(used_by(Items::LUSTROUSORB, PokemonName::DIALGA, &dragon).base_power, 60_000);
    let steel = attack(Choices::NONE, PokemonType::Steel, MoveCategory::Physical, 80);
    assert_eq!(used_by(Items::ADAMANTORB, PokemonName::DIALGA, &steel).base_power, 96_000);
    assert_eq!(used_by(Items::NONE, rattata, &tackle()), tackle());
}

#[test]
fn a_choice_carries_every_secondary_that_is_added() {
    let mut choice = tackle();
    for chance in 0..10u8 {
        choice.add_or_create_secondaries(Secondary {
            chance,
            target: MoveTarget::User,
            effect: Effect::RemoveItem,
        });
    }
    assert_eq!(choice.secondaries.len(), 10);
    assert_eq!(choice.secondaries[7].chance, 7);
    assert_eq!(choice.secondaries[9].chance, 9);
    let balloon = against(Items::AIRBALLOON, &choice);
    assert_eq!(balloon.secondaries.len(), 11);
    assert_eq!(balloon.secondaries[10], certain(MoveTarget::Opponent, Effect::RemoveItem));
    assert_eq!(balloon.secondaries[..10], choice.secondaries[..]);
    let orb = used_by(Items::LIFEORB, PokemonName::RATTATA, &choice);
    assert_eq!(orb.secondaries.len(), 11);
    assert_eq!(orb.secondaries[10], certain(MoveTarget::User, Effect::Heal(-100)));
    assert_eq!(orb.base_power, 52_000);
    assert_eq!(choice.duplicate(), choice);
    let mut power = tackle();
    power.base_power = u32::MAX;
    power.scale_base_power(3, 2);
    assert_eq!(power.base_power, u32::MAX);
}
