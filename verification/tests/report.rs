use poke_engine::choices::{Choice, Choices, MoveCategory};
use poke_engine::explore::{explore, Exploration};
use poke_engine::report::{
    align_left, align_right, calculate_damage_io, damage_string, entry_string, join, matchup,
    pprint_expectiminimax_result, print_subcommand_result, score_string,
};
use poke_engine::state::{
    Move, MoveChoice, Pokemon, PokemonIndex, PokemonMoveIndex, PokemonName, PokemonStatus,
    PokemonType, PokemonVolatileStatus, State,
};
use poke_engine::turn::MoveTable;

fn tackle() -> Choice {
    let mut tackle = Choice::default();
    tackle.move_id = Choices::TACKLE;
    tackle.move_type = PokemonType::Normal;
    tackle.category = MoveCategory::Physical;
    tackle.base_power = 40_000;
    tackle.accuracy = 100;
    tackle
}

fn battle() -> State {
    let mut state = State::default();
    for side in [&mut state.side_one, &mut state.side_two] {
        side.get_active().moves[0] =
            Move { id: Choices::TACKLE, disabled: false, pp: 16, category: MoveCategory::Physical };
        for place in 1..6 {
            side.pokemon[place].hp = 0;
        }
    }
    state.side_one.pokemon[3].hp = 80;
    state.side_one.pokemon[3].id = PokemonName::PIKACHU;
    state
}

fn found() -> Exploration {
    Exploration {
        side_one_options: vec![MoveChoice::Move(PokemonMoveIndex::M0), MoveChoice::Switch(PokemonIndex::P3)],
        side_two_options: vec![MoveChoice::Move(PokemonMoveIndex::M0)],
        scores: vec![Some(1250), None],
        safest: (0, 1250),
    }
}

#[test]
fn a_score_is_written_with_two_digits_after_the_point() {
    assert_eq!(score_string(0), "0.00");
    assert_eq!(score_string(5), "0.05");
    assert_eq!(score_string(-5), "-0.05");
    assert_eq!(score_string(50), "0.50");
    assert_eq!(score_string(1234), "12.34");
    assert_eq!(score_string(-100_000), "-1000.00");
    assert_eq!(score_string(i64::MAX), "92233720368547758.07");
    assert_eq!(score_string(i64::MIN), "-92233720368547758.08");
    assert_eq!(entry_string(&Some(-17_500)), "-175.00");
    assert_eq!(entry_string(&None), "NaN");
}

#[test]
fn a_text_is_put_at_one_end_of_its_field() {
    assert_eq!(align_right("tackle", 12), "      tackle");
    assert_eq!(align_left("tackle", 12), "tackle      ");
    assert_eq!(align_right("earthquake", 10), "earthquake");
    assert_eq!(align_left("thousandarrows", 12), "thousandarrows");
    assert_eq!(align_right("", 3), "   ");
    assert_eq!(align_left("", 0), "");
}

#[test]
fn texts_are_joined_with_what_separates_them() {
    let list = vec!["a".to_string(), "".to_string(), "bc".to_string()];
    assert_eq!(join(&list, ", "), "a, , bc");
    assert_eq!(join(&list, ""), "abc");
    assert_eq!(join(&list[..1].to_vec(), ","), "a");
    assert_eq!(join(&Vec::new(), ","), "");
}

#[test]
fn the_result_of_a_subcommand_is_written_line_by_line() {
    let state = battle();
    assert_eq!(
        print_subcommand_result(&found(), &state),
        "side one options: tackle,switch pikachu\nside two options: tackle\nmatrix: 12.50,NaN\nchoice: tackle\nevaluation: 12.50\n"
    );
    let mut switching = found();
    switching.safest = (1, -300);
    assert_eq!(
        print_subcommand_result(&switching, &state),
        "side one options: tackle,switch pikachu\nside two options: tackle\nmatrix: 12.50,NaN\nchoice: switch switch pikachu\nevaluation: -3.00\n"
    );
    let nothing = Exploration {
        side_one_options: vec![MoveChoice::NONE],
        side_two_options: Vec::new(),
        scores: Vec::new(),
        safest: (0, 0),
    };
    assert_eq!(
        print_subcommand_result(&nothing, &state),
        "side one options: No Move\nside two options: \nmatrix: \nno move\nevaluation: 0.00\n"
    );
    let mut beyond = found();
    beyond.safest = (2, 7);
    assert!(print_subcommand_result(&beyond, &state).ends_with("\nno move\nevaluation: 0.07\n"));
}

#[test]
fn the_result_of_a_search_is_written_as_a_table() {
    let state = battle();
    assert_eq!(
        pprint_expectiminimax_result(&found(), &state),
        "                  tackle\ntackle            12.50 \npikachu             NaN \n\nSafest Choice: tackle, 12.50\n"
    );
    let mut switching = found();
    switching.safest = (1, -300);
    switching.scores = vec![Some(-17_500)];
    assert_eq!(
        pprint_expectiminimax_result(&switching, &state),
        "                  tackle\ntackle          -175.00 \npikachu             NaN \n\nSafest Choice: Switch pikachu, -3.00\n"
    );
    let waiting = Exploration {
        side_one_options: vec![MoveChoice::NONE],
        side_two_options: vec![MoveChoice::NONE, MoveChoice::Move(PokemonMoveIndex::M0)],
        scores: vec![Some(1), Some(2)],
        safest: (0, 1),
    };
    assert_eq!(
        pprint_expectiminimax_result(&waiting, &state),
        "                  tackle\n       0.01        0.02 \nNo Move\n"
    );
}

#[test]
fn the_table_of_a_search_of_the_state() {
    let mut table = MoveTable::new();
    table.add(tackle());
    let mut state = battle();
    state.side_one.pokemon[3].hp = 0;
    let found = explore(&mut state, 1, false, &table).ok().unwrap();
    assert_eq!(
        pprint_expectiminimax_result(&found, &state),
        "                  tackle\ntackle             0.00 \n\nSafest Choice: tackle, 0.00\n"
    );
}

#[test]
fn the_damage_of_both_moves_is_written() {
    assert_eq!(damage_string(&Some(vec![44, 48, 52])), "Damage Rolls: 44,48,52\n");
    assert_eq!(damage_string(&Some(vec![])), "Damage Rolls: \n");
    assert_eq!(damage_string(&None), "Damage Rolls: 0\n");
    let mut recover = Choice::default();
    recover.move_id = Choices::RECOVER;
    recover.category = MoveCategory::Status;
    assert_eq!(
        calculate_damage_io(&State::default(), tackle(), recover),
        "Damage Rolls: 44,44,45,45,46,46,47,47,48,48,49,49,50,50,51,52\nDamage Rolls: 0\n"
    );
}

#[test]
fn a_creature_is_shown_line_by_line() {
    assert_eq!(
        Pokemon::default().io_print(),
        "Active: rattata\nHP: 100/100\nStatus: none\nAbility: none\nItem: none\nBoosts: [0, 0, 0, 0, 0, 0, 0]\nVolatiles: []\nMoves: [none, none, none, none]"
    );
    let mut pokemon = Pokemon::default();
    pokemon.id = PokemonName::PIKACHU;
    pokemon.hp = 7;
    pokemon.status = PokemonStatus::Burn;
    pokemon.attack_boost = -2;
    pokemon.evasion_boost = 6;
    pokemon.accuracy_boost = 1;
    pokemon.volatile_statuses.insert(PokemonVolatileStatus::Taunt);
    pokemon.volatile_statuses.insert(PokemonVolatileStatus::Confusion);
    pokemon.moves[2] = Move { id: Choices::TACKLE, disabled: true, pp: 1, category: MoveCategory::Physical };
    assert_eq!(
        pokemon.io_print(),
        "Active: pikachu\nHP: 7/100\nStatus: burn\nAbility: none\nItem: none\nBoosts: [-2, 0, 0, 0, 0, 1, 6]\nVolatiles: [confusion, taunt]\nMoves: [none, none, tackle, none]"
    );
}

#[test]
fn both_sides_are_shown_with_what_they_can_choose() {
    let state = battle();
    let one = format!(
        "{}\nPokemon: [rattata: 100/100, rattata: 0/100, rattata: 0/100, pikachu: 80/100, rattata: 0/100, rattata: 0/100]\nAvailable Choices: [tackle, pikachu]\n",
        state.side_one.pokemon[0].io_print()
    );
    let two = format!(
        "{}\nPokemon: [rattata: 100/100, rattata: 0/100, rattata: 0/100, rattata: 0/100, rattata: 0/100, rattata: 0/100]\nAvailable Choices: [tackle]\n",
        state.side_two.pokemon[0].io_print()
    );
    assert_eq!(matchup(&state), format!("{}\nvs\n\n{}", one, two));
}
