use poke_engine::checked::EngineError;
use poke_engine::choices::{Choice, Choices, MoveCategory};
use poke_engine::dialogue::{read_command, split_words, text_of, Command, IOData, Reply, Topic};
use poke_engine::evaluate::evaluate;
use poke_engine::explore::{damage_rolls, explore, explore_in_time};
use poke_engine::instruction::{DamageInstruction, Instruction, CERTAIN};
use poke_engine::safest::pick_safest;
use poke_engine::search::expectiminimax_search;
use poke_engine::state::{
    Move, MoveChoice, PokemonIndex, PokemonMoveIndex, PokemonType, SideReference, State,
};
use poke_engine::turn::{generate_instructions_from_move_pair, MoveTable};

fn line(text: &str) -> Vec<Vec<char>> {
    let letters: Vec<char> = text.chars().collect();
    split_words(&letters)
}

fn command(text: &str) -> Command {
    read_command(&line(text))
}

fn known_moves() -> MoveTable {
    let mut table = MoveTable::new();
    let mut tackle = Choice::default();
    tackle.move_id = Choices::TACKLE;
    tackle.move_type = PokemonType::Normal;
    tackle.category = MoveCategory::Physical;
    tackle.base_power = 40_000;
    tackle.accuracy = 100;
    table.add(tackle);
    let mut recover = Choice::default();
    recover.move_id = Choices::RECOVER;
    recover.category = MoveCategory::Status;
    table.add(recover);
    table
}

fn started() -> IOData {
    let mut io_data = IOData::default();
    for side in [&mut io_data.state.side_one, &mut io_data.state.side_two] {
        side.get_active().moves[0] =
            Move { id: Choices::TACKLE, disabled: false, pp: 16, category: MoveCategory::Physical };
        for place in 1..6 {
            side.pokemon[place].hp = 0;
        }
    }
    io_data
}

#[test]
fn a_line_is_split_into_its_words() {
    let words: Vec<String> = line("  generate-instructions\ttackle   TACKLE \r\n")
        .iter()
        .map(text_of)
        .collect();
    assert_eq!(words, vec!["generate-instructions", "tackle", "TACKLE"]);
    assert!(line("").is_empty());
    assert!(line(" \t \n").is_empty());
    assert_eq!(line("q").len(), 1);
}

#[test]
fn every_command_has_a_long_and_a_short_name() {
    assert_eq!(command(""), Command::Empty);
    assert_eq!(command("   "), Command::Empty);
    assert_eq!(command("state abc"), Command::State);
    assert_eq!(command("s abc"), Command::State);
    assert_eq!(command("serialize"), Command::Serialize);
    assert_eq!(command("ser"), Command::Serialize);
    assert_eq!(command("matchup"), Command::Matchup);
    assert_eq!(command("m"), Command::Matchup);
    assert_eq!(command("generate-instructions a b"), Command::GenerateInstructions);
    assert_eq!(command("g a b"), Command::GenerateInstructions);
    assert_eq!(command("calculate-damage a b"), Command::CalculateDamage);
    assert_eq!(command("d a b"), Command::CalculateDamage);
    assert_eq!(command("instructions"), Command::Instructions);
    assert_eq!(command("i"), Command::Instructions);
    assert_eq!(command("evaluate"), Command::Evaluate);
    assert_eq!(command("ev"), Command::Evaluate);
    assert_eq!(command("iterative-deepening 250"), Command::IterativeDeepening(250));
    assert_eq!(command("id 0"), Command::IterativeDeepening(0));
    assert_eq!(command("monte-carlo-tree-search 5000"), Command::MonteCarloTreeSearch(5000));
    assert_eq!(command("mcts 1"), Command::MonteCarloTreeSearch(1));
    assert_eq!(command("apply 3"), Command::Apply(3));
    assert_eq!(command("a 0"), Command::Apply(0));
    assert_eq!(command("pop"), Command::Pop);
    assert_eq!(command("p"), Command::Pop);
    assert_eq!(command("pop-all"), Command::PopAll);
    assert_eq!(command("pa"), Command::PopAll);
    assert_eq!(command("expectiminimax 2"), Command::Expectiminimax(2, false));
    assert_eq!(command("e 3 true"), Command::Expectiminimax(3, true));
    assert_eq!(command("e 3 false"), Command::Expectiminimax(3, false));
    assert_eq!(command("e -1"), Command::Expectiminimax(-1, false));
    assert_eq!(command("exit"), Command::Exit);
    assert_eq!(command("quit"), Command::Exit);
    assert_eq!(command("q"), Command::Exit);
    assert_eq!(command("help"), Command::Unknown);
    assert_eq!(command("State abc"), Command::Unknown);
    assert_eq!(command("exit now"), Command::Exit);
}

#[test]
fn a_command_without_its_argument_asks_how_it_is_used() {
    assert_eq!(command("state"), Command::Usage(Topic::State));
    assert_eq!(command("g tackle"), Command::Usage(Topic::GenerateInstructions));
    assert_eq!(command("d"), Command::Usage(Topic::CalculateDamage));
    assert_eq!(command("id"), Command::Usage(Topic::IterativeDeepening));
    assert_eq!(command("id soon"), Command::Usage(Topic::IterativeDeepening));
    assert_eq!(command("id -5"), Command::Usage(Topic::IterativeDeepening));
    assert_eq!(command("mcts"), Command::Usage(Topic::MonteCarloTreeSearch));
    assert_eq!(command("apply"), Command::Usage(Topic::Apply));
    assert_eq!(command("apply -1"), Command::Usage(Topic::Apply));
    assert_eq!(command("apply x"), Command::Usage(Topic::Apply));
    assert_eq!(command("e"), Command::Usage(Topic::Expectiminimax));
    assert_eq!(command("e 128"), Command::Usage(Topic::Expectiminimax));
    assert_eq!(command("e 2 yes"), Command::Usage(Topic::Expectiminimax));
}

#[test]
fn a_state_is_set_from_its_text_or_left_as_it_was() {
    let table = known_moves();
    let mut io_data = IOData::default();
    let mut other = State::default();
    other.side_one.pokemon[0].hp = 42;
    other.trick_room = true;
    let request = format!("state {}", other.serialize());
    assert!(matches!(io_data.perform(&line(&request), &table, 3), Reply::StateSet));
    assert_eq!(io_data.state, other);
    assert!(matches!(
        io_data.perform(&line("s nonsense"), &table, 3),
        Reply::Refused(EngineError::StateParseError)
    ));
    assert_eq!(io_data.state, other);
    assert!(matches!(io_data.perform(&line("s"), &table, 3), Reply::Usage(Topic::State)));
    match io_data.perform(&line("serialize"), &table, 3) {
        Reply::Serialized(text) => assert_eq!(text, other.serialize()),
        _ => panic!("the state is not written"),
    }
}

#[test]
fn a_turn_is_generated_carried_out_and_undone() {
    let table = known_moves();
    let mut io_data = started();
    let before = io_data.state;
    assert!(matches!(
        io_data.perform(&line("g growl tackle"), &table, 3),
        Reply::InvalidChoice(SideReference::SideOne)
    ));
    assert!(matches!(
        io_data.perform(&line("g tackle growl"), &table, 3),
        Reply::InvalidChoice(SideReference::SideTwo)
    ));
    assert!(matches!(
        io_data.perform(&line("g none tackle"), &table, 3),
        Reply::Refused(EngineError::IllegalChoice(SideReference::SideOne))
    ));
    assert!(io_data.last_instructions_generated.is_empty());
    assert!(matches!(io_data.perform(&line("g Tackle TACKLE"), &table, 3), Reply::Generated));
    assert_eq!(io_data.state, before);
    let mut state = before;
    let expected = generate_instructions_from_move_pair(
        &mut state,
        &MoveChoice::Move(PokemonMoveIndex::M0),
        &MoveChoice::Move(PokemonMoveIndex::M0),
        &table,
    );
    assert_eq!(io_data.last_instructions_generated, expected);
    assert_eq!(expected.len(), 1);
    assert_eq!(expected[0].percentage, CERTAIN);
    assert!(matches!(io_data.perform(&line("instructions"), &table, 3), Reply::Instructions));
    assert!(matches!(io_data.perform(&line("apply 1"), &table, 3), Reply::Usage(Topic::Apply)));
    assert_eq!(io_data.state, before);
    assert!(matches!(io_data.perform(&line("apply 0"), &table, 3), Reply::Applied));
    assert_eq!(io_data.state.side_one.pokemon[0].hp, 52);
    assert_eq!(io_data.state.side_two.pokemon[0].hp, 52);
    assert_eq!(io_data.instruction_list, vec![expected[0].instruction_list.clone()]);
    assert!(io_data.last_instructions_generated.is_empty());
    assert!(matches!(io_data.perform(&line("apply 0"), &table, 3), Reply::Usage(Topic::Apply)));
    let after_one = io_data.state;
    assert!(matches!(io_data.perform(&line("g tackle tackle"), &table, 3), Reply::Generated));
    assert!(matches!(io_data.perform(&line("a 0"), &table, 3), Reply::Applied));
    assert_eq!(io_data.state.side_one.pokemon[0].hp, 4);
    assert_eq!(io_data.instruction_list.len(), 2);
    assert!(matches!(io_data.perform(&line("pop"), &table, 3), Reply::Popped));
    assert_eq!(io_data.state, after_one);
    assert_eq!(io_data.instruction_list.len(), 1);
    assert!(matches!(io_data.perform(&line("g tackle tackle"), &table, 3), Reply::Generated));
    assert!(matches!(io_data.perform(&line("a 0"), &table, 3), Reply::Applied));
    assert!(matches!(io_data.perform(&line("pop-all"), &table, 3), Reply::PoppedAll));
    assert_eq!(io_data.state, before);
    assert!(io_data.instruction_list.is_empty());
    assert!(matches!(io_data.perform(&line("pop"), &table, 3), Reply::NothingToPop));
    assert!(matches!(io_data.perform(&line("pa"), &table, 3), Reply::PoppedAll));
    assert_eq!(io_data.state, before);
}

#[test]
fn instructions_that_are_carried_out_by_hand_are_undone_last_first() {
    let table = known_moves();
    let mut io_data = started();
    let before = io_data.state;
    let hit = |side_ref, damage_amount| Instruction::Damage(DamageInstruction { side_ref, damage_amount });
    for list in [vec![hit(SideReference::SideOne, 10)], vec![hit(SideReference::SideTwo, 20), hit(SideReference::SideOne, 5)]] {
        io_data.state.apply_instructions(&list);
        io_data.instruction_list.push(list);
    }
    assert_eq!(io_data.state.side_one.pokemon[0].hp, 85);
    assert!(matches!(io_data.perform(&line("p"), &table, 3), Reply::Popped));
    assert_eq!(io_data.state.side_one.pokemon[0].hp, 90);
    assert_eq!(io_data.state.side_two.pokemon[0].hp, 100);
    assert!(matches!(io_data.perform(&line("p"), &table, 3), Reply::Popped));
    assert_eq!(io_data.state, before);
}

#[test]
fn the_state_is_evaluated_and_searched() {
    let table = known_moves();
    let mut io_data = started();
    let before = io_data.state;
    match io_data.perform(&line("evaluate"), &table, 3) {
        Reply::Evaluation(worth) => assert_eq!(worth, evaluate(&before)),
        _ => panic!("the state is not evaluated"),
    }
    assert!(matches!(
        io_data.perform(&line("e 0"), &table, 3),
        Reply::Refused(EngineError::IllegalArgument)
    ));
    match io_data.perform(&line("e 2 true"), &table, 3) {
        Reply::Explored(found) => {
            let mut state = before;
            let options = vec![MoveChoice::Move(PokemonMoveIndex::M0)];
            assert_eq!(found.side_one_options, options);
            assert_eq!(found.side_two_options, options);
            let scores = expectiminimax_search(&mut state, 2, options.clone(), options, true, &table);
            assert_eq!(found.scores, scores);
            assert_eq!(found.safest, pick_safest(&scores, 1, 1));
        }
        _ => panic!("the state is not searched"),
    }
    assert_eq!(io_data.state, before);
    match io_data.perform(&line("id 0"), &table, 2) {
        Reply::ExploredInTime(found) => {
            assert_eq!(found.scores.len(), 1);
            assert_eq!(found.safest.0, 0);
            assert_eq!(Some(found.safest.1), found.scores[0]);
        }
        _ => panic!("the state is not searched"),
    }
    assert!(matches!(io_data.perform(&line("mcts 0"), &table, 2), Reply::NoSamplingSearch));
    assert!(matches!(
        io_data.perform(&line("monte-carlo-tree-search 5000"), &table, 2),
        Reply::NoSamplingSearch
    ));
    assert_eq!(io_data.state, before);
    io_data.state.side_one.pokemon[2].hp = 101;
    assert!(matches!(
        io_data.perform(&line("e 1"), &table, 3),
        Reply::Refused(EngineError::InvariantViolation)
    ));
    assert!(matches!(
        io_data.perform(&line("id 10"), &table, 3),
        Reply::Refused(EngineError::InvariantViolation)
    ));
    assert!(matches!(
        io_data.perform(&line("e 0"), &table, 3),
        Reply::Refused(EngineError::IllegalArgument)
    ));
}

#[test]
fn a_search_shows_the_options_of_the_state_with_the_safest_of_them() {
    let table = known_moves();
    let mut state = started().state;
    state.side_one.pokemon[3].hp = 100;
    state.side_one.get_active().moves[1] =
        Move { id: Choices::RECOVER, disabled: false, pp: 8, category: MoveCategory::Status };
    let before = state;
    let found = explore(&mut state, 1, false, &table).ok().unwrap();
    assert_eq!(state, before);
    assert_eq!(
        found.side_one_options,
        vec![
            MoveChoice::Move(PokemonMoveIndex::M0),
            MoveChoice::Move(PokemonMoveIndex::M1),
            MoveChoice::Switch(PokemonIndex::P3)
        ]
    );
    assert_eq!(found.side_two_options, vec![MoveChoice::Move(PokemonMoveIndex::M0)]);
    assert_eq!(found.scores.len(), 3);
    assert!(found.scores.iter().all(|score| score.is_some()));
    assert_eq!(found.safest, pick_safest(&found.scores, 3, 1));
    assert_eq!(found.safest.0, 0);
    assert!(explore(&mut state, 0, false, &table).is_err());
    assert!(explore(&mut state, -3, true, &table).is_err());
    let in_time = explore_in_time(&mut state, 2, std::time::Duration::from_millis(0), &table)
        .ok()
        .unwrap();
    assert_eq!(state, before);
    let mut shown = in_time.side_one_options.clone();
    shown.sort_by_key(|option| format!("{:?}", option));
    let mut offered = found.side_one_options.clone();
    offered.sort_by_key(|option| format!("{:?}", option));
    assert_eq!(shown, offered);
    assert_eq!(in_time.scores.len(), 3);
    assert_eq!(in_time.safest, pick_safest(&in_time.scores, 3, 1));
}

#[test]
fn the_damage_of_two_moves_is_calculated_by_their_names() {
    let table = known_moves();
    let mut io_data = started();
    match io_data.perform(&line("d tackle recover"), &table, 3) {
        Reply::DamageRolls(Some(first), None) => {
            assert_eq!(first, vec![44, 44, 45, 45, 46, 46, 47, 47, 48, 48, 49, 49, 50, 50, 51, 52]);
            let tackle = table.named(&"TACKLE".chars().collect()).ok().unwrap();
            let recover = table.named(&"recover".chars().collect()).ok().unwrap();
            assert_eq!(
                damage_rolls(&io_data.state, SideReference::SideOne, &tackle, &recover),
                Some(first)
            );
            assert_eq!(damage_rolls(&io_data.state, SideReference::SideTwo, &recover, &tackle), None);
        }
        _ => panic!("the damage is not calculated"),
    }
    assert!(matches!(
        io_data.perform(&line("d growl tackle"), &table, 3),
        Reply::Refused(EngineError::UnknownIdentifier)
    ));
    assert!(matches!(
        io_data.perform(&line("d tackle earthquake"), &table, 3),
        Reply::Refused(EngineError::UnknownIdentifier)
    ));
    assert!(matches!(
        io_data.perform(&line("d tackle"), &table, 3),
        Reply::Usage(Topic::CalculateDamage)
    ));
    assert!(table.named(&"earthquake".chars().collect()).is_err());
}

#[test]
fn the_other_lines_change_nothing() {
    let table = known_moves();
    let mut io_data = started();
    let before = io_data.state;
    assert!(matches!(io_data.perform(&line(""), &table, 3), Reply::Nothing));
    assert!(matches!(io_data.perform(&line("matchup"), &table, 3), Reply::Matchup));
    assert!(matches!(io_data.perform(&line("help me"), &table, 3), Reply::Unknown));
    assert!(matches!(io_data.perform(&line("quit"), &table, 3), Reply::Exit));
    assert!(matches!(io_data.perform(&line("id"), &table, 3), Reply::Usage(Topic::IterativeDeepening)));
    assert_eq!(io_data.state, before);
    assert!(io_data.instruction_list.is_empty());
    assert!(io_data.last_instructions_generated.is_empty());
}
