use poke_engine::abilities::Abilities;
use poke_engine::checked::EngineError;
use poke_engine::choices::{Choice, Choices, MoveCategory};
use poke_engine::items::Items;
use poke_engine::labels::{read_name, Named};
use poke_engine::parse::{read_last_move, read_move, read_pokemon, Reading};
use poke_engine::state::{
    LastUsedMove, Move, Pokemon, PokemonIndex, PokemonMoveIndex, PokemonName, PokemonStatus,
    PokemonType, State, Terrain, Weather,
};
use poke_engine::text::{is_name, is_text, read_flag, read_number, split, split_parts};
use poke_engine::turn::MoveTable;
use poke_engine::writing::{push_number, write_move, write_pokemon};

fn letters(text: &str) -> Vec<char> {
    text.chars().collect()
}

fn words(list: Vec<Vec<char>>) -> Vec<String> {
    list.into_iter().map(|word| word.into_iter().collect()).collect()
}

fn moves() -> MoveTable {
    let mut table = MoveTable::new();
    let mut tackle = Choice::default();
    tackle.move_id = Choices::TACKLE;
    tackle.category = MoveCategory::Physical;
    table.add(tackle);
    let mut thunderbolt = Choice::default();
    thunderbolt.move_id = Choices::THUNDERBOLT;
    thunderbolt.category = MoveCategory::Special;
    table.add(thunderbolt);
    table
}

fn written(n: i64) -> String {
    let mut out = String::from("x");
    push_number(&mut out, n);
    out
}

const CREATURE: &str = "rattata,100,normal,typeless,100,100,none,none,100,100,100,100,100,0,0,0,0,0,0,0,none,0,serious,0,none;false;0,none;false;0,none;false;0,none;false;0";

fn side_text(creature: &str, rest: &str) -> String {
    let creatures: Vec<&str> = vec![creature; 6];
    format!("{}-{}", creatures.join("-"), rest)
}

const REST: &str = "0-0;0;0;0;0;0;0;0;0;0;0;0;0;0;0;0;0;0;0-0-0-false-none";

fn state_text(creature: &str, rest: &str) -> String {
    format!("{}/{}/none;0/none;0/false", side_text(creature, rest), side_text(CREATURE, REST))
}

#[test]
fn a_text_is_split_at_every_separator() {
    assert_eq!(words(split(&letters("a,,bc"), ',')), vec!["a", "", "bc"]);
    assert_eq!(words(split(&letters(""), ',')), vec![""]);
    assert_eq!(words(split(&letters(","), ',')), vec!["", ""]);
    assert_eq!(words(split(&letters("abc"), ';')), vec!["abc"]);
}

#[test]
fn a_minus_sign_separates_no_parts() {
    assert_eq!(words(split_parts(&letters("a,-2,b-c;-1--4-d")), ), vec!["a,-2,b", "c;-1", "-4", "d"]);
    assert_eq!(words(split_parts(&letters("-1-2"))), vec!["-1", "2"]);
    assert_eq!(words(split_parts(&letters("a-"))), vec!["a", ""]);
}

#[test]
fn numbers_are_read_within_their_range() {
    assert_eq!(read_number(&letters("0"), -6, 6), Some(0));
    assert_eq!(read_number(&letters("-6"), -6, 6), Some(-6));
    assert_eq!(read_number(&letters("7"), -6, 6), None);
    assert_eq!(read_number(&letters("-7"), -6, 6), None);
    assert_eq!(read_number(&letters("007"), 0, 100), Some(7));
    assert_eq!(read_number(&letters("32767"), -32768, 32767), Some(32767));
    assert_eq!(read_number(&letters("-32768"), -32768, 32767), Some(-32768));
    assert_eq!(read_number(&letters("32768"), -32768, 32767), None);
    assert_eq!(read_number(&letters("99999"), -99999, 99999), Some(99999));
    assert_eq!(read_number(&letters("100000"), -99999, 99999), None);
    assert_eq!(
        read_number(&letters("999999999999999"), 0, 999_999_999_999_999),
        Some(999_999_999_999_999)
    );
    assert_eq!(read_number(&letters("1000000000000000"), 0, 999_999_999_999_999), None);
    assert_eq!(read_number(&letters("99999999999999999999999"), -99999, 99999), None);
    assert_eq!(read_number(&letters(""), -6, 6), None);
    assert_eq!(read_number(&letters("-"), -6, 6), None);
    assert_eq!(read_number(&letters("+1"), -6, 6), None);
    assert_eq!(read_number(&letters("1a"), -6, 6), None);
    assert_eq!(read_number(&letters("1-"), -6, 6), None);
    assert_eq!(read_number(&letters("--1"), -6, 6), None);
    assert_eq!(read_number(&letters(" 1"), -6, 6), None);
}

#[test]
fn numbers_are_written_in_base_ten() {
    assert_eq!(written(0), "x0");
    assert_eq!(written(7), "x7");
    assert_eq!(written(10), "x10");
    assert_eq!(written(-1), "x-1");
    assert_eq!(written(32767), "x32767");
    assert_eq!(written(-32768), "x-32768");
    assert_eq!(written(1005), "x1005");
    assert_eq!(written(i64::MAX), "x9223372036854775807");
    assert_eq!(written(i64::MIN), "x-9223372036854775808");
}

#[test]
fn every_number_that_is_written_is_read_again() {
    for n in i16::MIN..=i16::MAX {
        let mut out = String::new();
        push_number(&mut out, n as i64);
        assert_eq!(read_number(&letters(&out), -32768, 32767), Some(n as i64));
    }
}

#[test]
fn flags_and_names_are_told_from_other_texts() {
    assert_eq!(read_flag(&letters("true")), Some(true));
    assert_eq!(read_flag(&letters("false")), Some(false));
    assert_eq!(read_flag(&letters("True")), None);
    assert_eq!(read_flag(&letters("")), None);
    assert!(is_text(&letters("move"), "move"));
    assert!(!is_text(&letters("Move"), "move"));
    assert!(!is_text(&letters("mov"), "move"));
    assert!(is_name(&letters("MoVe"), "move"));
    assert!(!is_name(&letters("moves"), "move"));
    assert!(!is_name(&letters("m[ve"), "m{ve"));
    assert!(!is_name(&letters("@b"), "`b"));
}

#[test]
fn a_value_is_found_by_its_name_whatever_the_case() {
    assert_eq!(read_name::<Choices>(&letters("TACKLE")), Some(Choices::TACKLE));
    assert_eq!(read_name::<Choices>(&letters("tackle")), Some(Choices::TACKLE));
    assert_eq!(read_name::<Choices>(&letters("Zapcannon")), Some(Choices::ZAPCANNON));
    assert_eq!(read_name::<Choices>(&letters("tackles")), None);
    assert_eq!(read_name::<PokemonType>(&letters("Ghost")), Some(PokemonType::GhostType));
    assert_eq!(read_name::<PokemonType>(&letters("typeless")), Some(PokemonType::Typeless));
    assert_eq!(read_name::<PokemonStatus>(&letters("Toxic")), Some(PokemonStatus::Toxic));
    assert_eq!(read_name::<Weather>(&letters("HeavyRain")), Some(Weather::HeavyRain));
    assert_eq!(read_name::<Terrain>(&letters("grassyterrain")), Some(Terrain::GrassyTerrain));
    assert_eq!(read_name::<Items>(&letters("Leftovers")), Some(Items::LEFTOVERS));
    assert_eq!(read_name::<Abilities>(&letters("")), None);
    assert_eq!(read_name::<PokemonName>(&letters("rattata")), Some(PokemonName::RATTATA));
}

fn every_value_is_found_by_its_own_name<T: Named + PartialEq + std::fmt::Debug>() {
    for place in 0..T::size() {
        let value = T::nth(place);
        assert_eq!(read_name::<T>(&letters(value.word())), Some(value));
        assert_eq!(read_name::<T>(&letters(&value.word().to_uppercase())), Some(value));
    }
}

#[test]
fn every_value_has_a_name_of_its_own() {
    every_value_is_found_by_its_own_name::<Choices>();
    every_value_is_found_by_its_own_name::<Items>();
    every_value_is_found_by_its_own_name::<Abilities>();
    every_value_is_found_by_its_own_name::<PokemonName>();
    every_value_is_found_by_its_own_name::<PokemonType>();
    every_value_is_found_by_its_own_name::<PokemonStatus>();
    every_value_is_found_by_its_own_name::<Weather>();
    every_value_is_found_by_its_own_name::<Terrain>();
    assert_eq!(Items::size(), 74);
    assert_eq!(Choices::size(), 52);
    assert_eq!(Choices::nth(0), Choices::NONE);
}

#[test]
fn a_move_is_read_with_the_category_of_the_table() {
    let table = moves();
    let read = read_move(&letters("Tackle;false;35"), &table);
    assert!(matches!(
        read,
        Reading::Fine(Move { id: Choices::TACKLE, disabled: false, pp: 35, category: MoveCategory::Physical })
    ));
    let read = read_move(&letters("thunderbolt;true;-1"), &table);
    assert!(matches!(
        read,
        Reading::Fine(Move { id: Choices::THUNDERBOLT, disabled: true, pp: -1, category: MoveCategory::Special })
    ));
    let read = read_move(&letters("earthquake;true;1"), &table);
    assert!(matches!(
        read,
        Reading::Fine(Move { id: Choices::EARTHQUAKE, disabled: true, pp: 1, category: MoveCategory::Status })
    ));
    assert!(matches!(read_move(&letters("flail;false;35"), &table), Reading::Unknown));
    assert!(matches!(read_move(&letters("flail;no;35"), &table), Reading::Malformed));
    assert!(matches!(read_move(&letters("tackle;false;128"), &table), Reading::Malformed));
    assert!(matches!(read_move(&letters("tackle;false"), &table), Reading::Malformed));
    assert!(matches!(read_move(&letters("tackle;false;1;2"), &table), Reading::Malformed));
}

#[test]
fn a_move_is_written_with_its_name_flag_and_power_points() {
    let slot = Move { id: Choices::TACKLE, disabled: false, pp: 35, category: MoveCategory::Physical };
    assert_eq!(write_move(&slot), "tackle;false;35");
    let slot = Move { id: Choices::NONE, disabled: true, pp: -3, category: MoveCategory::Status };
    assert_eq!(write_move(&slot), "none;true;-3");
}

#[test]
fn a_creature_is_written_field_by_field() {
    assert_eq!(write_pokemon(&Pokemon::default()), CREATURE);
    let mut pokemon = Pokemon::default();
    pokemon.id = PokemonName::PIKACHU;
    pokemon.level = 50;
    pokemon.types = (PokemonType::Electric, PokemonType::GhostType);
    pokemon.hp = 35;
    pokemon.maxhp = 120;
    pokemon.ability = Abilities::STURDY;
    pokemon.item = Items::LEFTOVERS;
    pokemon.attack = 1;
    pokemon.defense = 2;
    pokemon.special_attack = 3;
    pokemon.special_defense = 4;
    pokemon.speed = 5;
    pokemon.attack_boost = -6;
    pokemon.defense_boost = 6;
    pokemon.special_attack_boost = -1;
    pokemon.special_defense_boost = 1;
    pokemon.speed_boost = -2;
    pokemon.accuracy_boost = 2;
    pokemon.evasion_boost = -3;
    pokemon.status = PokemonStatus::Burn;
    pokemon.substitute_health = 25;
    pokemon.moves[1] = Move { id: Choices::TACKLE, disabled: true, pp: 3, category: MoveCategory::Physical };
    let text = "pikachu,50,electric,ghost,35,120,sturdy,leftovers,1,2,3,4,5,-6,6,-1,1,-2,2,-3,burn,0,serious,25,none;false;0,tackle;true;3,none;false;0,none;false;0";
    assert_eq!(write_pokemon(&pokemon), text);
    match read_pokemon(&letters(text), &moves()) {
        Reading::Fine(read) => assert_eq!(read, pokemon),
        _ => panic!("the creature is not read"),
    }
}

#[test]
fn a_creature_may_have_fewer_than_four_moves_and_no_more() {
    let short = "rattata,100,normal,typeless,100,100,none,none,100,100,100,100,100,0,0,0,0,0,0,0,none,25,Serious,0";
    match read_pokemon(&letters(short), &moves()) {
        Reading::Fine(read) => assert_eq!(read, Pokemon::default()),
        _ => panic!("the creature is not read"),
    }
    let one = format!("{},tackle;false;5", short);
    match read_pokemon(&letters(&one), &moves()) {
        Reading::Fine(read) => {
            assert_eq!(read.moves[0].id, Choices::TACKLE);
            assert_eq!(read.moves[1].id, Choices::NONE);
        }
        _ => panic!("the creature is not read"),
    }
    let five = format!("{},tackle;false;5", CREATURE);
    assert!(matches!(read_pokemon(&letters(&five), &moves()), Reading::Malformed));
    let cut = "rattata,100,normal,typeless,100,100,none,none,100,100,100,100,100,0,0,0,0,0,0,0,none,25,Serious";
    assert!(matches!(read_pokemon(&letters(cut), &moves()), Reading::Malformed));
}

#[test]
fn the_last_move_is_read_with_its_place() {
    assert_eq!(read_last_move(&letters("none")), Some(LastUsedMove::NONE));
    assert_eq!(read_last_move(&letters("NONE")), Some(LastUsedMove::NONE));
    assert_eq!(read_last_move(&letters("move:3")), Some(LastUsedMove::Move(PokemonMoveIndex::M3)));
    assert_eq!(read_last_move(&letters("Move:0")), Some(LastUsedMove::Move(PokemonMoveIndex::M0)));
    assert_eq!(read_last_move(&letters("move:4")), None);
    assert_eq!(read_last_move(&letters("switch:5")), Some(LastUsedMove::Switch(PokemonIndex::P5)));
    assert_eq!(read_last_move(&letters("switch:6")), None);
    assert_eq!(read_last_move(&letters("switch")), None);
    assert_eq!(read_last_move(&letters("none:1")), None);
    assert_eq!(read_last_move(&letters("")), None);
}

#[test]
fn the_default_state_is_written_and_read_again() {
    let state = State::default();
    let text = state.serialize();
    assert_eq!(text, state_text(CREATURE, REST));
    assert_eq!(State::deserialize(&text, &moves()), Ok(state));
    assert_eq!(State::deserialize(&text.to_uppercase().replace("TRUE", "true").replace("FALSE", "false"), &moves()), Ok(state));
}

#[test]
fn a_state_in_the_middle_of_a_battle_is_written_and_read_again() {
    let mut state = State::default();
    state.side_one.active_index = PokemonIndex::P3;
    state.side_one.pokemon[3].attack_boost = -2;
    state.side_one.pokemon[3].evasion_boost = 6;
    state.side_one.pokemon[3].hp = 1;
    state.side_one.pokemon[3].status = PokemonStatus::Paralyze;
    state.side_one.pokemon[3].item = Items::CHOICEBAND;
    state.side_one.pokemon[3].ability = Abilities::INTIMIDATE;
    state.side_one.pokemon[3].substitute_health = 12;
    state.side_one.pokemon[3].moves[0] =
        Move { id: Choices::TACKLE, disabled: false, pp: 20, category: MoveCategory::Physical };
    state.side_one.pokemon[3].moves[3] =
        Move { id: Choices::THUNDERBOLT, disabled: true, pp: 0, category: MoveCategory::Special };
    state.side_one.pokemon[5].hp = 0;
    state.side_one.pokemon[5].speed_boost = -6;
    state.side_one.side_conditions.spikes = 3;
    state.side_one.side_conditions.toxic_spikes = 2;
    state.side_one.side_conditions.reflect = 5;
    state.side_one.wish.turns_remaining = -1;
    state.side_one.wish.heal_amount = 150;
    state.side_one.force_trapped = true;
    state.side_one.last_used_move = LastUsedMove::Switch(PokemonIndex::P3);
    state.side_two.pokemon[0].speed_boost = -1;
    state.side_two.last_used_move = LastUsedMove::Move(PokemonMoveIndex::M2);
    state.side_two.wish.heal_amount = -5;
    state.weather.weather_type = Weather::Sand;
    state.weather.turns_remaining = -1;
    state.terrain.terrain_type = Terrain::PsychicTerrain;
    state.terrain.turns_remaining = 4;
    state.trick_room = true;
    assert!(state.is_in_bounds());
    let text = state.serialize();
    assert_eq!(State::deserialize(&text, &moves()), Ok(state));
    assert!(text.ends_with("/sand;-1/psychicterrain;4/true"));
    assert!(text.contains("-3-0;0;0;0;0;0;0;0;0;0;5;0;3;0;0;0;0;2;0--1-150-true-switch:3/"));
}

#[test]
fn a_state_that_is_read_is_within_its_bounds() {
    let table = moves();
    let fine = State::deserialize(&state_text(CREATURE, REST), &table);
    assert!(fine.unwrap().is_in_bounds());
    let above = CREATURE.replace("typeless,100,100", "typeless,101,100");
    assert_eq!(State::deserialize(&state_text(&above, REST), &table), Err(EngineError::StateParseError));
    let below = CREATURE.replace("typeless,100,100", "typeless,-1,100");
    assert_eq!(State::deserialize(&state_text(&below, REST), &table), Err(EngineError::StateParseError));
    let fainted = CREATURE.replace("typeless,100,100", "typeless,0,100");
    assert!(State::deserialize(&state_text(&fainted, REST), &table).is_ok());
    let high = CREATURE.replace("100,0,0,0,0,0,0,0,none", "100,0,0,0,0,0,0,7,none");
    assert_eq!(State::deserialize(&state_text(&high, REST), &table), Err(EngineError::StateParseError));
    let low = CREATURE.replace("100,0,0,0,0,0,0,0,none", "100,-7,0,0,0,0,0,0,none");
    assert_eq!(State::deserialize(&state_text(&low, REST), &table), Err(EngineError::StateParseError));
    let layers = "0-0;0;0;0;0;0;4;0;0;0;0;0;3;1;1;0;0;2;0-0-0-false-none";
    assert!(State::deserialize(&state_text(CREATURE, layers), &table).is_ok());
    let spikes = "0-0;0;0;0;0;0;0;0;0;0;0;0;4;0;0;0;0;0;0-0-0-false-none";
    assert_eq!(State::deserialize(&state_text(CREATURE, spikes), &table), Err(EngineError::StateParseError));
    let rocks = "0-0;0;0;0;0;0;0;0;0;0;0;0;3;2;0;0;0;0;0-0-0-false-none";
    assert_eq!(State::deserialize(&state_text(CREATURE, rocks), &table), Err(EngineError::StateParseError));
    let negative = "0--1;0;0;0;0;0;0;0;0;0;0;0;3;1;0;0;0;0;0-0-0-false-none";
    assert_eq!(State::deserialize(&state_text(CREATURE, negative), &table), Err(EngineError::StateParseError));
}

#[test]
fn a_malformed_text_is_refused() {
    let table = moves();
    let refused = Err(EngineError::StateParseError);
    assert_eq!(State::deserialize("", &table), refused);
    assert_eq!(State::deserialize("////", &table), refused);
    let text = state_text(CREATURE, REST);
    assert_eq!(State::deserialize(&format!("{}/", text), &table), refused);
    assert_eq!(State::deserialize(&text.replace("/none;0/none;0/", "/none;0/"), &table), refused);
    assert_eq!(State::deserialize(&text.replace("/none;0/none;0/", "/none/none;0/"), &table), refused);
    assert_eq!(State::deserialize(&text.replace("/none;0/none;0/", "/fog;0/none;0/"), &table), refused);
    assert_eq!(State::deserialize(&text.replace("/none;0/none;0/", "/none;0/sun;0/"), &table), refused);
    assert_eq!(State::deserialize(&text.replace("/none;0/none;0/", "/sun;0/none;x/"), &table), refused);
    assert_eq!(State::deserialize(&text.replace("/false", "/no"), &table), refused);
    assert_eq!(State::deserialize(&state_text(CREATURE, "6-0;0;0;0;0;0;0;0;0;0;0;0;0;0;0;0;0;0;0-0-0-false-none"), &table), refused);
    assert_eq!(State::deserialize(&state_text(CREATURE, "0-0;0;0;0;0;0;0;0;0;0;0;0;0;0;0;0;0;0-0-0-false-none"), &table), refused);
    assert_eq!(State::deserialize(&state_text(CREATURE, "0-0;0;0;0;0;0;0;0;0;0;0;0;0;0;0;0;0;0;0-0-false-none"), &table), refused);
    assert_eq!(State::deserialize(&state_text(CREATURE, "0-0;0;0;0;0;0;0;0;0;0;0;0;0;0;0;0;0;0;0-0-0-false-move:9"), &table), refused);
    assert_eq!(State::deserialize(&state_text(&CREATURE.replace("rattata", "missingno"), REST), &table), refused);
    assert_eq!(State::deserialize(&state_text(&CREATURE.replace("normal", "sound"), REST), &table), refused);
    assert_eq!(State::deserialize(&state_text(&CREATURE.replace(",none,0,serious", ",tired,0,serious"), REST), &table), refused);
    assert_eq!(State::deserialize(&state_text(&CREATURE.replace("rattata,100,", "rattata,200,"), REST), &table), refused);
    assert_eq!(State::deserialize(&state_text(&CREATURE.replace("rattata,100,", "rattata,,"), REST), &table), refused);
}

#[test]
fn an_unknown_ability_item_or_move_is_refused_as_such() {
    let table = moves();
    let unknown = Err(EngineError::UnknownIdentifier);
    let ability = CREATURE.replace("100,none,none,", "100,luck,none,");
    assert_eq!(State::deserialize(&state_text(&ability, REST), &table), unknown);
    let item = CREATURE.replace("100,none,none,", "100,none,stick,");
    assert_eq!(State::deserialize(&state_text(&item, REST), &table), unknown);
    let flail = CREATURE.replace("0,none;false;0", "0,flail;false;0");
    assert_eq!(State::deserialize(&state_text(&flail, REST), &table), unknown);
    let text = state_text(CREATURE, REST);
    let last = text.rfind("none;false;0").unwrap();
    let second = format!("{}flail{}", &text[..last], &text[last + 4..]);
    assert_eq!(State::deserialize(&second, &table), unknown);
    assert_eq!(
        State::deserialize(&second.replace("/false", "/maybe"), &table),
        Err(EngineError::StateParseError)
    );
    assert_eq!(
        State::deserialize(&state_text(&ability.replace("rattata,100,", "rattata,x,"), REST), &table),
        Err(EngineError::StateParseError)
    );
}

#[test]
fn a_state_is_read_whatever_the_case_of_its_names_and_without_a_substitute() {
    let names = ["charmander", "bulbasaur", "squirtle", "pidgey", "pikachu", "weedle"];
    let creatures: Vec<String> = names
        .iter()
        .map(|name| {
            format!(
                "{},100,Normal,Typeless,100,100,INTIMIDATE,NONE,100,100,100,100,100,0,0,0,0,0,0,0,None,25,Serious,,TACKLE;false;32,UTURN;false;32,ZAPCANNON;false;32,LEECHSEED;false;32",
                name
            )
        })
        .collect();
    let side = format!("{}-1-0;0;0;0;0;0;0;0;0;0;0;0;0;0;0;0;0;0;0-0-0-false-NONE", creatures.join("-"));
    let text = format!("{}/{}/None;0/None;0/false", side, side);
    let state = State::deserialize(&text, &moves()).unwrap();
    assert!(state.is_in_bounds());
    assert_eq!(state.side_one.active_index, PokemonIndex::P1);
    assert_eq!(state.side_two.active_index, PokemonIndex::P1);
    assert_eq!(state.side_one.pokemon[0].id, PokemonName::CHARMANDER);
    assert_eq!(state.side_one.pokemon[5].id, PokemonName::WEEDLE);
    assert_eq!(state.side_two.pokemon[4].id, PokemonName::PIKACHU);
    for pokemon in state.side_one.pokemon.iter().chain(state.side_two.pokemon.iter()) {
        assert_eq!(pokemon.ability, Abilities::INTIMIDATE);
        assert_eq!(pokemon.item, Items::NONE);
        assert_eq!(pokemon.types, (PokemonType::Normal, PokemonType::Typeless));
        assert_eq!(pokemon.substitute_health, 0);
        assert_eq!(pokemon.status, PokemonStatus::NONE);
        assert_eq!(
            pokemon.moves.map(|slot| slot.id),
            [Choices::TACKLE, Choices::UTURN, Choices::ZAPCANNON, Choices::LEECHSEED]
        );
        assert_eq!(pokemon.moves[0].category, MoveCategory::Physical);
        assert_eq!(pokemon.moves[1].category, MoveCategory::Status);
        assert!(pokemon.moves.iter().all(|slot| slot.pp == 32 && !slot.disabled));
    }
    assert_eq!(state.side_one.last_used_move, LastUsedMove::NONE);
    assert_eq!(state.weather.weather_type, Weather::NONE);
    assert_eq!(state.terrain.terrain_type, Terrain::NONE);
    assert_eq!(State::deserialize(&state.serialize(), &moves()), Ok(state));
}
