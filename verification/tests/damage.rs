use poke_engine::abilities::Abilities;
use poke_engine::choices::{Choice, Choices, MoveCategory};
use poke_engine::damage_calc::{
    calculate_boosted_stat, calculate_damage, get_effectiveness, scale,
    type_effectiveness_modifier, DamageRolls, DAMAGE_CAP, NEUTRAL,
};
use poke_engine::effects::fraction;
use poke_engine::state::{divide, PokemonStatus, PokemonType, SideReference, State, Terrain, Weather};

fn attack(move_type: PokemonType, category: MoveCategory, power: u32) -> Choice {
    let mut choice = Choice::default();
    choice.move_id = Choices::TACKLE;
    choice.move_type = move_type;
    choice.category = category;
    choice.base_power = power * 1000;
    choice
}

fn tackle() -> Choice {
    attack(PokemonType::Normal, MoveCategory::Physical, 40)
}

fn average(state: &State, choice: &Choice) -> Option<Vec<i16>> {
    calculate_damage(state, SideReference::SideOne, choice, DamageRolls::Average)
}

#[test]
fn damage_of_a_plain_hit() {
    let state = State::default();
    assert_eq!(average(&state, &tackle()), Some(vec![48]));
    assert_eq!(average(&state, &attack(PokemonType::Rock, MoveCategory::Physical, 65)), Some(vec![51]));
    assert_eq!(average(&state, &attack(PokemonType::Grass, MoveCategory::Special, 20)), Some(vec![16]));
    assert_eq!(average(&state, &attack(PokemonType::Fighting, MoveCategory::Physical, 100)), Some(vec![159]));
}

#[test]
fn damage_rolls() {
    let state = State::default();
    assert_eq!(
        calculate_damage(&state, SideReference::SideOne, &tackle(), DamageRolls::MinMaxAverage),
        Some(vec![44, 48, 52])
    );
    assert_eq!(
        calculate_damage(&state, SideReference::SideOne, &tackle(), DamageRolls::AllRolls),
        Some(vec![44, 44, 45, 45, 46, 46, 47, 47, 48, 48, 49, 49, 50, 50, 51, 52])
    );
}

#[test]
fn no_damage_without_power_or_from_a_status_move() {
    let state = State::default();
    assert_eq!(average(&state, &attack(PokemonType::Normal, MoveCategory::Status, 40)), None);
    assert_eq!(average(&state, &attack(PokemonType::Normal, MoveCategory::Switch, 40)), None);
    assert_eq!(average(&state, &attack(PokemonType::Normal, MoveCategory::Physical, 0)), None);
}

#[test]
fn damage_against_an_immune_type_is_zero() {
    let mut state = State::default();
    state.side_two.get_active().types = (PokemonType::GhostType, PokemonType::Typeless);
    assert_eq!(average(&state, &tackle()), Some(vec![0]));
}

#[test]
fn damage_with_a_burn_and_with_guts() {
    let mut state = State::default();
    state.side_one.get_active().status = PokemonStatus::Burn;
    assert_eq!(average(&state, &tackle()), Some(vec![24]));
    assert_eq!(average(&state, &attack(PokemonType::Normal, MoveCategory::Special, 40)), Some(vec![48]));
    state.side_one.get_active().ability = Abilities::GUTS;
    assert_eq!(average(&state, &tackle()), Some(vec![48]));
}

#[test]
fn damage_with_stages() {
    let mut state = State::default();
    state.side_one.get_active().attack_boost = 2;
    assert_eq!(average(&state, &tackle()), Some(vec![95]));
    state.side_one.get_active().attack_boost = 0;
    state.side_two.get_active().defense_boost = -1;
    assert_eq!(average(&state, &tackle()), Some(vec![72]));
}

#[test]
fn damage_in_weather_and_on_terrain_and_behind_screens() {
    let mut state = State::default();
    state.weather.weather_type = Weather::Rain;
    assert_eq!(average(&state, &attack(PokemonType::Water, MoveCategory::Special, 90)), Some(vec![106]));
    assert_eq!(average(&state, &attack(PokemonType::Fire, MoveCategory::Special, 90)), Some(vec![35]));
    state.weather.weather_type = Weather::NONE;
    state.terrain.terrain_type = Terrain::ElectricTerrain;
    assert_eq!(average(&state, &attack(PokemonType::Electric, MoveCategory::Special, 90)), Some(vec![92]));
    state.terrain.terrain_type = Terrain::NONE;
    state.side_two.side_conditions.reflect = 1;
    assert_eq!(average(&state, &tackle()), Some(vec![24]));
    assert_eq!(average(&state, &attack(PokemonType::Normal, MoveCategory::Special, 40)), Some(vec![48]));
}

#[test]
fn damage_of_an_adaptable_attacker() {
    let mut state = State::default();
    state.side_one.get_active().ability = Abilities::ADAPTABILITY;
    assert_eq!(average(&state, &tackle()), Some(vec![64]));
}

#[test]
fn damage_is_never_negative_and_never_above_what_hit_points_can_be() {
    let mut state = State::default();
    state.side_one.get_active().attack = -50;
    assert_eq!(average(&state, &tackle()), Some(vec![2]));
    state.side_one.get_active().attack = i16::MAX;
    state.side_one.get_active().attack_boost = 6;
    state.side_two.get_active().defense = 0;
    let mut strongest = tackle();
    strongest.base_power = u32::MAX;
    assert_eq!(average(&state, &strongest), Some(vec![i16::MAX]));
}

#[test]
fn effectiveness_of_types() {
    assert_eq!(NEUTRAL, 4);
    assert_eq!(get_effectiveness(&PokemonType::Fire, &PokemonType::Grass), 4);
    assert_eq!(get_effectiveness(&PokemonType::Fire, &PokemonType::Water), 1);
    assert_eq!(get_effectiveness(&PokemonType::Normal, &PokemonType::GhostType), 0);
    assert_eq!(get_effectiveness(&PokemonType::Normal, &PokemonType::Normal), 2);
    assert_eq!(get_effectiveness(&PokemonType::Typeless, &PokemonType::Steel), 2);
    assert_eq!(type_effectiveness_modifier(&PokemonType::Fighting, &(PokemonType::Normal, PokemonType::Typeless)), 8);
    assert_eq!(type_effectiveness_modifier(&PokemonType::Electric, &(PokemonType::Ground, PokemonType::Flying)), 0);
    assert_eq!(type_effectiveness_modifier(&PokemonType::Ice, &(PokemonType::Dragon, PokemonType::Flying)), 16);
    assert_eq!(type_effectiveness_modifier(&PokemonType::Fire, &(PokemonType::Water, PokemonType::Rock)), 1);
}

#[test]
fn stats_at_stages_and_scaling() {
    assert_eq!(calculate_boosted_stat(100, 0), 100);
    assert_eq!(calculate_boosted_stat(100, 1), 150);
    assert_eq!(calculate_boosted_stat(100, 6), 400);
    assert_eq!(calculate_boosted_stat(100, 7), 400);
    assert_eq!(calculate_boosted_stat(100, -1), 66);
    assert_eq!(calculate_boosted_stat(100, -6), 25);
    assert_eq!(calculate_boosted_stat(-3, 2), 0);
    assert_eq!(scale(35, 3, 2), 52);
    assert_eq!(scale(DAMAGE_CAP, 1000, 1), DAMAGE_CAP);
}

#[test]
fn fractions_round_towards_zero() {
    assert_eq!(fraction(94, 330), 31);
    assert_eq!(fraction(100, -1000), -100);
    assert_eq!(fraction(7, -500), -3);
    assert_eq!(fraction(-7, 500), -3);
    assert_eq!(fraction(i16::MAX, i16::MAX), i16::MAX);
    assert_eq!(fraction(i16::MIN, i16::MAX), i16::MIN);
    assert_eq!(divide(100, 16), 6);
    assert_eq!(divide(-100, 16), -6);
    assert_eq!(divide(i16::MIN, 1), i16::MIN);
}
