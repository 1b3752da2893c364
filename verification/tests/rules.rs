use poke_engine::abilities::Abilities;
use poke_engine::choices::{Choice, Choices, MoveCategory, MoveTarget};
use poke_engine::deepen::goes_on;
use poke_engine::effects::immune_to_status;
use poke_engine::half_turn::generate_instructions_from_damage;
use poke_engine::instruction::{
    DamageInstruction, HealInstruction, Instruction, StateInstructions, CERTAIN,
};
use poke_engine::items::{item_end_of_turn, Items};
use poke_engine::state::{
    Move, MoveChoice, Pokemon, PokemonIndex, PokemonMoveIndex, PokemonStatus, PokemonType, Side,
    SideReference, State, Terrain,
};

const ONE: SideReference = SideReference::SideOne;

fn immune(state: &State, status: PokemonStatus) -> bool {
    immune_to_status(state, &MoveTarget::User, &ONE, &status)
}

fn at_the_end(state: &State) -> Vec<Instruction> {
    let mut state = *state;
    let before = state;
    let mut branch = StateInstructions { percentage: CERTAIN, instruction_list: Vec::new() };
    item_end_of_turn(&mut state, &ONE, &mut branch);
    let mut again = before;
    again.apply_instructions(&branch.instruction_list);
    assert_eq!(again, state);
    branch.instruction_list
}

fn heal(heal_amount: i16) -> Instruction {
    Instruction::Heal(HealInstruction { side_ref: ONE, heal_amount })
}

#[test]
fn a_creature_with_a_status_or_without_hit_points_is_immune_whatever_its_ability() {
    let mut state = State::default();
    assert!(!immune(&state, PokemonStatus::Burn));
    state.side_one.get_active().status = PokemonStatus::Sleep;
    assert!(immune(&state, PokemonStatus::Burn));
    assert!(immune(&state, PokemonStatus::Sleep));
    state.side_one.get_active().ability = Abilities::SHIELDSDOWN;
    state.side_one.get_active().hp = 10;
    assert!(immune(&state, PokemonStatus::Burn));
    state.side_one.get_active().status = PokemonStatus::NONE;
    assert!(!immune(&state, PokemonStatus::Burn));
    state.side_one.get_active().hp = 0;
    assert!(immune(&state, PokemonStatus::Burn));
    state.side_one.get_active().hp = 50;
    assert!(!immune(&state, PokemonStatus::Burn));
    state.side_one.get_active().hp = 51;
    assert!(immune(&state, PokemonStatus::Burn));
    state.side_one.get_active().hp = 50;
    state.side_one.get_active().types = (PokemonType::Fire, PokemonType::Typeless);
    assert!(immune(&state, PokemonStatus::Burn));
    assert!(!immune(&state, PokemonStatus::Paralyze));
    state.terrain.terrain_type = Terrain::MistyTerrain;
    assert!(immune(&state, PokemonStatus::Paralyze));
    let mut fainted = State::default();
    fainted.side_one.get_active().hp = 0;
    assert!(immune(&fainted, PokemonStatus::Toxic));
}

#[test]
fn an_orb_leaves_a_creature_with_a_status_as_it_is() {
    let mut state = State::default();
    state.side_one.get_active().item = Items::FLAMEORB;
    state.side_one.get_active().ability = Abilities::SHIELDSDOWN;
    state.side_one.get_active().status = PokemonStatus::Sleep;
    state.side_one.get_active().hp = 10;
    assert_eq!(at_the_end(&state), vec![]);
    state.side_one.get_active().item = Items::TOXICORB;
    assert_eq!(at_the_end(&state), vec![]);
    state.side_one.get_active().status = PokemonStatus::NONE;
    assert_eq!(at_the_end(&state).len(), 1);
    state.side_one.get_active().hp = 0;
    assert_eq!(at_the_end(&state), vec![]);
}

#[test]
fn leftovers_record_their_heal_wherever_the_holder_is_below_its_maximum() {
    let mut state = State::default();
    state.side_one.get_active().item = Items::LEFTOVERS;
    state.side_one.get_active().maxhp = 10;
    state.side_one.get_active().hp = 5;
    assert_eq!(at_the_end(&state), vec![heal(0)]);
    state.side_one.get_active().hp = 10;
    assert_eq!(at_the_end(&state), vec![]);
    state.side_one.get_active().maxhp = 100;
    state.side_one.get_active().hp = 50;
    assert_eq!(at_the_end(&state), vec![heal(6)]);
    state.side_one.get_active().hp = 97;
    assert_eq!(at_the_end(&state), vec![heal(3)]);
    state.side_one.get_active().hp = 100;
    assert_eq!(at_the_end(&state), vec![]);
    state.side_one.get_active().item = Items::BLACKSLUDGE;
    state.side_one.get_active().types = (PokemonType::Poison, PokemonType::Typeless);
    assert_eq!(at_the_end(&state), vec![]);
    state.side_one.get_active().hp = 99;
    assert_eq!(at_the_end(&state), vec![heal(1)]);
    state.side_one.get_active().maxhp = 15;
    state.side_one.get_active().hp = 1;
    assert_eq!(at_the_end(&state), vec![heal(0)]);
    state.side_one.get_active().types = (PokemonType::Normal, PokemonType::Typeless);
    state.side_one.get_active().maxhp = 100;
    state.side_one.get_active().hp = 100;
    assert_eq!(
        at_the_end(&state),
        vec![Instruction::Damage(DamageInstruction { side_ref: ONE, damage_amount: 6 })]
    );
}

#[test]
fn a_move_that_cannot_hit_deals_no_damage() {
    let mut choice = Choice::default();
    choice.move_id = Choices::TACKLE;
    choice.category = MoveCategory::Physical;
    choice.base_power = 40_000;
    let incoming = StateInstructions { percentage: CERTAIN, instruction_list: Vec::new() };
    let mut state = State::default();
    let hit = generate_instructions_from_damage(&mut state, &choice, 35, &ONE, incoming.clone());
    assert_eq!(
        hit,
        vec![StateInstructions {
            percentage: CERTAIN,
            instruction_list: vec![Instruction::Damage(DamageInstruction {
                side_ref: SideReference::SideTwo,
                damage_amount: 35,
            })],
        }]
    );
    choice.accuracy = 1;
    assert_eq!(generate_instructions_from_damage(&mut state, &choice, 35, &ONE, incoming.clone()).len(), 1);
    choice.accuracy = 0;
    assert_eq!(generate_instructions_from_damage(&mut state, &choice, 35, &ONE, incoming), vec![]);
    assert_eq!(state, State::default());
}

#[test]
fn a_battle_starts_from_creatures_without_anything() {
    let state = State::default();
    assert_eq!(state.side_one, Side::default());
    assert_eq!(state.side_two, Side::default());
    for pokemon in state.side_two.pokemon.iter() {
        assert_eq!(*pokemon, Pokemon::default());
        assert_eq!(pokemon.status, PokemonStatus::NONE);
        for slot in pokemon.moves.iter() {
            assert_eq!(*slot, Move::new());
        }
    }
    assert_eq!(state.side_two.side_conditions.spikes, 0);
    assert_eq!(state.side_two.active_index, PokemonIndex::P0);
}

#[test]
fn an_option_is_found_by_its_name_in_lower_case() {
    let mut side = Side::default();
    side.get_active().moves[2] =
        Move { id: Choices::TACKLE, disabled: false, pp: 1, category: MoveCategory::Physical };
    side.pokemon[4].id = poke_engine::state::PokemonName::PIKACHU;
    assert_eq!(side.option_of_name("tackle"), Some(MoveChoice::Move(PokemonMoveIndex::M2)));
    assert_eq!(side.option_of_name("TACKLE"), None);
    assert_eq!(side.string_to_movechoice("TACKLE"), Some(MoveChoice::Move(PokemonMoveIndex::M2)));
    assert_eq!(side.option_of_name("pikachu"), Some(MoveChoice::Switch(PokemonIndex::P4)));
    assert_eq!(side.option_of_name("Pikachu"), None);
    assert_eq!(side.option_of_name("none"), Some(MoveChoice::NONE));
    assert_eq!(side.option_of_name("rattata"), Some(MoveChoice::Switch(PokemonIndex::P1)));
    assert_eq!(side.option_of_name(""), None);
}

#[test]
fn the_deepening_goes_on_within_the_depth_and_the_budget() {
    assert!(goes_on(2, 2, false));
    assert!(goes_on(2, 5, false));
    assert!(!goes_on(3, 2, false));
    assert!(!goes_on(2, 2, true));
    assert!(!goes_on(2, 1, false));
    assert!(!goes_on(9, 2, true));
}
