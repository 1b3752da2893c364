//! The dialogue with a player, line by line: what a line asks for, what it
//! does to the state that the dialogue is about, and what is to be shown
//! in reply.

use vstd::prelude::*;
use crate::branches::branches;
use crate::checked::{generate_instructions_from_choices, refusal, EngineError};
use crate::evaluate::{evaluate, evaluation};
use crate::explore::{
    amounts, damage_rolls, damage_rolls_of, described_by, explore, explore_in_time, explored,
    explored_in_time, unexplorable, Exploration,
};
use crate::instruction::{Instruction, StateInstructions};
use crate::names::{lowercase, option_named};
use crate::parse::state_of;
use crate::state::{SideReference, State};
use crate::text::{
    flag, is_flag, is_text, number, number_within, read_flag, read_number, texts, LIMIT,
};
use crate::turn::{turn_branches, MoveTable};
use crate::writing::{push_char, state_text};

verus! {

/// Whether the character is a blank, a tabulator or the end of a line.
pub open spec fn is_space(c: char) -> bool {
    c == ' ' || c == '\t' || c == '\n' || c == '\r'
}

/// `done` with `word` after it, where `word` is not empty.
pub open spec fn with_word(done: Seq<Seq<char>>, word: Seq<char>) -> Seq<Seq<char>> {
    if word.len() > 0 {
        done.push(word)
    } else {
        done
    }
}

/// The words of a text that have ended, and the characters of the word
/// that is under way at its end. A space ends a word; any other character
/// joins the word that is under way.
pub open spec fn scanned(text: Seq<char>) -> (Seq<Seq<char>>, Seq<char>)
    decreases text.len(),
{
    if text.len() == 0 {
        (Seq::<Seq<char>>::empty(), Seq::<char>::empty())
    } else {
        let before = scanned(text.drop_last());
        if is_space(text.last()) {
            (with_word(before.0, before.1), Seq::<char>::empty())
        } else {
            (before.0, before.1.push(text.last()))
        }
    }
}

/// The words of a text: what stands between its spaces.
pub open spec fn words(text: Seq<char>) -> Seq<Seq<char>> {
    with_word(scanned(text).0, scanned(text).1)
}

/// The words of `text`.
pub fn split_words(text: &Vec<char>) -> (r: Vec<Vec<char>>)
    ensures
        texts(r@) == words(text@),
{
    let mut done: Vec<Vec<char>> = Vec::new();
    let mut last: Vec<char> = Vec::new();
    let mut i: usize = 0;
    assert(text@.take(0) =~= Seq::<char>::empty());
    assert(texts(done@) =~= Seq::<Seq<char>>::empty());
    while i < text.len()
        invariant
            i <= text.len(),
            scanned(text@.take(i as int)) == (texts(done@), last@),
        decreases text.len() - i,
    {
        let ghost before = texts(done@);
        let ghost so_far = text@.take(i + 1);
        assert(so_far.drop_last() =~= text@.take(i as int));
        assert(so_far.last() == text@[i as int]);
        let c = text[i];
        if c == ' ' || c == '\t' || c == '\n' || c == '\r' {
            if last.len() > 0 {
                done.push(last);
                assert(texts(done@) =~= before.push(last@));
            }
            last = Vec::new();
        } else {
            last.push(c);
        }
        i += 1;
    }
    assert(text@.take(text.len() as int) =~= text@);
    if last.len() > 0 {
        let ghost before = texts(done@);
        done.push(last);
        assert(texts(done@) =~= before.push(last@));
    }
    done
}

/// A command that needs an argument.
#[derive(Clone, Copy, Debug, PartialEq, Eq, Structural)]
pub enum Topic {
    State,
    GenerateInstructions,
    CalculateDamage,
    IterativeDeepening,
    MonteCarloTreeSearch,
    Apply,
    Expectiminimax,
}

/// What a line of the dialogue asks for. The texts that a command is about
/// are the words after its name.
#[derive(Clone, Copy, Debug, PartialEq, Eq, Structural)]
pub enum Command {
    /// The line has no word.
    Empty,
    /// The state is to be the one that the second word describes.
    State,
    Serialize,
    Matchup,
    /// The turn is to be generated for the choices that the second and the
    /// third word name.
    GenerateInstructions,
    /// The damage is to be calculated of the moves that the second and the
    /// third word name.
    CalculateDamage,
    Instructions,
    Evaluate,
    /// A search by time, of so many milliseconds.
    IterativeDeepening(u64),
    /// A search by sampling, of so many milliseconds.
    MonteCarloTreeSearch(u64),
    /// The branch at this place of the branches that were generated last
    /// is to be carried out.
    Apply(usize),
    Pop,
    PopAll,
    /// A search of so many turns, with or without skipping.
    Expectiminimax(i8, bool),
    Exit,
    /// The command lacks an argument, or has one that cannot be read.
    Usage(Topic),
    /// The first word is no command.
    Unknown,
}

/// Whether the word is one of the two names of a command.
pub open spec fn calls(word: Seq<char>, name: Seq<char>, short: Seq<char>) -> bool {
    word == name || word == short
}

/// A time in milliseconds that the word `k` writes, if there is such a
/// word and it writes one.
pub open spec fn time_at(w: Seq<Seq<char>>, k: int) -> Option<int> {
    if k < w.len() {
        number_within(w[k], 0, LIMIT - 1)
    } else {
        None
    }
}

/// The search that the words after `expectiminimax` ask for: a number of
/// turns, and after it `true` or `false` for skipping, or nothing for none.
pub open spec fn search_asked(w: Seq<Seq<char>>) -> Command {
    if w.len() < 2 || number_within(w[1], i8::MIN as int, i8::MAX as int).is_none() {
        Command::Usage(Topic::Expectiminimax)
    } else if w.len() == 2 {
        Command::Expectiminimax(number(w[1]) as i8, false)
    } else if is_flag(w[2]) {
        Command::Expectiminimax(number(w[1]) as i8, flag(w[2]))
    } else {
        Command::Usage(Topic::Expectiminimax)
    }
}

/// What the words of a line ask for.
pub open spec fn command_of(w: Seq<Seq<char>>) -> Command {
    if w.len() == 0 {
        Command::Empty
    } else if calls(w[0], "state"@, "s"@) {
        if w.len() >= 2 {
            Command::State
        } else {
            Command::Usage(Topic::State)
        }
    } else if calls(w[0], "serialize"@, "ser"@) {
        Command::Serialize
    } else if calls(w[0], "matchup"@, "m"@) {
        Command::Matchup
    } else if calls(w[0], "generate-instructions"@, "g"@) {
        if w.len() >= 3 {
            Command::GenerateInstructions
        } else {
            Command::Usage(Topic::GenerateInstructions)
        }
    } else if calls(w[0], "calculate-damage"@, "d"@) {
        if w.len() >= 3 {
            Command::CalculateDamage
        } else {
            Command::Usage(Topic::CalculateDamage)
        }
    } else if calls(w[0], "instructions"@, "i"@) {
        Command::Instructions
    } else if calls(w[0], "evaluate"@, "ev"@) {
        Command::Evaluate
    } else if calls(w[0], "iterative-deepening"@, "id"@) {
        match time_at(w, 1) {
            Some(time) => Command::IterativeDeepening(time as u64),
            None => Command::Usage(Topic::IterativeDeepening),
        }
    } else if calls(w[0], "monte-carlo-tree-search"@, "mcts"@) {
        match time_at(w, 1) {
            Some(time) => Command::MonteCarloTreeSearch(time as u64),
            None => Command::Usage(Topic::MonteCarloTreeSearch),
        }
    } else if calls(w[0], "apply"@, "a"@) {
        match time_at(w, 1) {
            Some(place) => Command::Apply(place as usize),
            None => Command::Usage(Topic::Apply),
        }
    } else if calls(w[0], "pop"@, "p"@) {
        Command::Pop
    } else if calls(w[0], "pop-all"@, "pa"@) {
        Command::PopAll
    } else if calls(w[0], "expectiminimax"@, "e"@) {
        search_asked(w)
    } else if calls(w[0], "exit"@, "quit"@) || w[0] == "q"@ {
        Command::Exit
    } else {
        Command::Unknown
    }
}

fn is_called(word: &Vec<char>, name: &str, short: &str) -> (r: bool)
    ensures
        r == calls(word@, name@, short@),
{
    is_text(word, name) || is_text(word, short)
}

fn read_time(list: &Vec<Vec<char>>, k: usize) -> (r: Option<u64>)
    ensures
        r.is_some() == time_at(texts(list@), k as int).is_some(),
        r matches Some(time) ==> time == time_at(texts(list@), k as int).unwrap(),
{
    if k < list.len() {
        assert(texts(list@)[k as int] == list@[k as int]@);
        match read_number(&list[k], 0, LIMIT - 1) {
            Some(time) => Some(time as u64),
            None => None,
        }
    } else {
        None
    }
}

fn read_search(list: &Vec<Vec<char>>) -> (r: Command)
    ensures
        r == search_asked(texts(list@)),
{
    assert(forall|k: int| 0 <= k < list.len() ==> texts(list@)[k] == list@[k]@);
    if list.len() < 2 {
        return Command::Usage(Topic::Expectiminimax);
    }
    let depth = match read_number(&list[1], -128, 127) {
        Some(depth) => depth as i8,
        None => return Command::Usage(Topic::Expectiminimax),
    };
    if list.len() == 2 {
        return Command::Expectiminimax(depth, false);
    }
    match read_flag(&list[2]) {
        Some(ab_prune) => Command::Expectiminimax(depth, ab_prune),
        None => Command::Usage(Topic::Expectiminimax),
    }
}

/// What the words of a line ask for.
pub fn read_command(list: &Vec<Vec<char>>) -> (r: Command)
    ensures
        r == command_of(texts(list@)),
{
    assert(forall|k: int| 0 <= k < list.len() ==> texts(list@)[k] == list@[k]@);
    if list.len() == 0 {
        return Command::Empty;
    }
    let word = &list[0];
    if is_called(word, "state", "s") {
        if list.len() >= 2 {
            Command::State
        } else {
            Command::Usage(Topic::State)
        }
    } else if is_called(word, "serialize", "ser") {
        Command::Serialize
    } else if is_called(word, "matchup", "m") {
        Command::Matchup
    } else if is_called(word, "generate-instructions", "g") {
        if list.len() >= 3 {
            Command::GenerateInstructions
        } else {
            Command::Usage(Topic::GenerateInstructions)
        }
    } else if is_called(word, "calculate-damage", "d") {
        if list.len() >= 3 {
            Command::CalculateDamage
        } else {
            Command::Usage(Topic::CalculateDamage)
        }
    } else if is_called(word, "instructions", "i") {
        Command::Instructions
    } else if is_called(word, "evaluate", "ev") {
        Command::Evaluate
    } else if is_called(word, "iterative-deepening", "id") {
        match read_time(list, 1) {
            Some(time) => Command::IterativeDeepening(time),
            None => Command::Usage(Topic::IterativeDeepening),
        }
    } else if is_called(word, "monte-carlo-tree-search", "mcts") {
        match read_time(list, 1) {
            Some(time) => Command::MonteCarloTreeSearch(time),
            None => Command::Usage(Topic::MonteCarloTreeSearch),
        }
    } else if is_called(word, "apply", "a") {
        match read_time(list, 1) {
            Some(place) => Command::Apply(place as usize),
            None => Command::Usage(Topic::Apply),
        }
    } else if is_called(word, "pop", "p") {
        Command::Pop
    } else if is_called(word, "pop-all", "pa") {
        Command::PopAll
    } else if is_called(word, "expectiminimax", "e") {
        read_search(list)
    } else if is_called(word, "exit", "quit") || is_text(word, "q") {
        Command::Exit
    } else {
        Command::Unknown
    }
}

/// What a dialogue is about: a state, the lists of instructions that were
/// carried out on it, oldest first, and the branches that were generated
/// last.
pub struct IOData {
    pub state: State,
    pub instruction_list: Vec<Vec<Instruction>>,
    pub last_instructions_generated: Vec<StateInstructions>,
}

/// What is to be shown in reply to a line.
pub enum Reply {
    /// Nothing.
    Nothing,
    /// The state was read: it is to be shown.
    StateSet,
    /// What was asked for was refused.
    Refused(EngineError),
    /// The text of the state.
    Serialized(String),
    /// The two sides are to be shown.
    Matchup,
    /// The branches of the turn were generated: they are to be shown.
    Generated,
    /// The word for the choice of this side names none.
    InvalidChoice(SideReference),
    /// The damage that the move of the first side and that of the second
    /// side can deal.
    DamageRolls(Option<Vec<i16>>, Option<Vec<i16>>),
    /// The branches that were generated last are to be shown.
    Instructions,
    /// What the state is worth.
    Evaluation(i64),
    /// What a search has found.
    Explored(Exploration),
    /// What a search by time has found.
    ExploredInTime(Exploration),
    /// A search by sampling was asked for: there is none.
    NoSamplingSearch,
    Applied,
    Popped,
    NothingToPop,
    PoppedAll,
    /// How the command is used.
    Usage(Topic),
    /// The first word of the line is no command.
    Unknown,
    /// The dialogue is over.
    Exit,
}

/// The instructions of each list.
pub open spec fn lists(applied: Seq<Vec<Instruction>>) -> Seq<Seq<Instruction>> {
    Seq::new(applied.len(), |i: int| applied[i]@)
}

/// The state once every list of `applied` is undone, the last of them
/// first.
pub open spec fn unwound(s: State, applied: Seq<Seq<Instruction>>) -> State
    decreases applied.len(),
{
    if applied.len() == 0 {
        s
    } else {
        unwound(s.reverse_all(applied.last()), applied.drop_last())
    }
}

/// The text of a list of characters.
pub fn text_of(letters: &Vec<char>) -> (r: String)
    ensures
        r@ == letters@,
{
    let mut text = String::new();
    let mut i: usize = 0;
    while i < letters.len()
        invariant
            i <= letters.len(),
            text@ == letters@.take(i as int),
        decreases letters.len() - i,
    {
        push_char(&mut text, letters[i]);
        assert(letters@.take(i + 1) =~= letters@.take(i as int).push(letters@[i as int]));
        i += 1;
    }
    assert(letters@.take(letters.len() as int) =~= letters@);
    text
}

/// `std::time::Duration::from_millis`: the time of so many milliseconds.
/// Nothing is claimed of it.
#[verifier::external_body]
fn milliseconds(time: u64) -> (r: std::time::Duration) {
    std::time::Duration::from_millis(time)
}

impl IOData {
    /// The lists of instructions that were carried out.
    pub open spec fn applied(self) -> Seq<Seq<Instruction>> {
        lists(self.instruction_list@)
    }

    /// Whether `other` is about the same state, with the same lists
    /// carried out and the same branches generated last.
    pub open spec fn same_as(self, other: IOData) -> bool {
        &&& self.state == other.state
        &&& self.applied() == other.applied()
        &&& self.last_instructions_generated@ == other.last_instructions_generated@
    }

    /// Whether `other` is about the state `s`, and else as this.
    pub open spec fn same_but_state(self, other: IOData, s: State) -> bool {
        &&& other.state == s
        &&& self.applied() == other.applied()
        &&& self.last_instructions_generated@ == other.last_instructions_generated@
    }

    /// Reads the state from its text. A text that is refused leaves the
    /// state as it was.
    pub fn set_state(&mut self, text: &Vec<char>, table: &MoveTable) -> (r: Reply)
        ensures
            state_set(*old(self), text@, *table, *final(self), r),
    {
        match State::read(text, table) {
            Ok(state) => {
                self.state = state;
                Reply::StateSet
            },
            Err(error) => Reply::Refused(error),
        }
    }

    /// Generates the branches of the turn for the choices that the two
    /// words name, and keeps them as the branches that were generated last.
    pub fn generate(&mut self, first: &Vec<char>, second: &Vec<char>, table: &MoveTable) -> (r:
        Reply)
        ensures
            generated(*old(self), first@, second@, *table, *final(self), r),
    {
        let first_text = text_of(first);
        let side_one_move = match self.state.side_one.string_to_movechoice(first_text.as_str()) {
            Some(choice) => choice,
            None => return Reply::InvalidChoice(SideReference::SideOne),
        };
        let second_text = text_of(second);
        let side_two_move = match self.state.side_two.string_to_movechoice(second_text.as_str()) {
            Some(choice) => choice,
            None => return Reply::InvalidChoice(SideReference::SideTwo),
        };
        match generate_instructions_from_choices(
            &mut self.state,
            &side_one_move,
            &side_two_move,
            table,
        ) {
            Ok(list) => {
                self.last_instructions_generated = list;
                Reply::Generated
            },
            Err(error) => Reply::Refused(error),
        }
    }

    /// Calculates the damage of the moves that the two words name.
    pub fn calculate(&self, first: &Vec<char>, second: &Vec<char>, table: &MoveTable) -> (r: Reply)
        ensures
            calculated(self.state, first@, second@, *table, r),
    {
        let side_one_choice = match table.named(first) {
            Ok(choice) => choice,
            Err(error) => return Reply::Refused(error),
        };
        let side_two_choice = match table.named(second) {
            Ok(choice) => choice,
            Err(error) => return Reply::Refused(error),
        };
        Reply::DamageRolls(
            damage_rolls(&self.state, SideReference::SideOne, &side_one_choice, &side_two_choice),
            damage_rolls(&self.state, SideReference::SideTwo, &side_two_choice, &side_one_choice),
        )
    }

    /// Carries out the branch at the place `index` of the branches that
    /// were generated last, which are then forgotten.
    pub fn apply(&mut self, index: usize) -> (r: Reply)
        ensures
            applied_branch(*old(self), index as int, *final(self), r),
    {
        if index >= self.last_instructions_generated.len() {
            return Reply::Usage(Topic::Apply);
        }
        let branch = self.last_instructions_generated.remove(index);
        self.state.apply_instructions(&branch.instruction_list);
        let ghost before = self.applied();
        self.instruction_list.push(branch.instruction_list);
        assert(self.applied() =~= before.push(branch.instruction_list@));
        self.last_instructions_generated = Vec::new();
        Reply::Applied
    }

    /// Undoes the list of instructions that was carried out last.
    pub fn pop(&mut self) -> (r: Reply)
        ensures
            popped(*old(self), *final(self), r),
    {
        let ghost before = self.applied();
        match self.instruction_list.pop() {
            Some(list) => {
                assert(self.applied() =~= before.drop_last());
                assert(before.last() == list@);
                self.state.reverse_instructions(&list);
                Reply::Popped
            },
            None => {
                assert(self.applied() =~= before);
                Reply::NothingToPop
            },
        }
    }

    /// Undoes every list of instructions that was carried out, the last of
    /// them first.
    pub fn pop_all(&mut self) -> (r: Reply)
        ensures
            r is PoppedAll,
            final(self).state == unwound(old(self).state, old(self).applied()),
            final(self).applied().len() == 0,
            final(self).last_instructions_generated@ == old(self).last_instructions_generated@,
    {
        while self.instruction_list.len() > 0
            invariant
                unwound(self.state, self.applied()) == unwound(old(self).state, old(self).applied()),
                self.last_instructions_generated@ == old(self).last_instructions_generated@,
            decreases self.instruction_list.len(),
        {
            let ghost before = self.applied();
            let list = self.instruction_list.pop().unwrap();
            assert(self.applied() =~= before.drop_last());
            assert(before.last() == list@);
            self.state.reverse_instructions(&list);
        }
        assert(self.applied() =~= Seq::<Seq<Instruction>>::empty());
        Reply::PoppedAll
    }

    /// Does what the words of a line ask for, and says what is to be shown
    /// in reply. A search by time is deepened to no more than `deepest`
    /// turns; a search by sampling is answered by saying that there is
    /// none.
    pub fn perform(&mut self, list: &Vec<Vec<char>>, table: &MoveTable, deepest: i8) -> (r: Reply)
        ensures
            answered(*old(self), texts(list@), *table, deepest as int, *final(self), r),
    {
        assert(forall|k: int| 0 <= k < list.len() ==> texts(list@)[k] == list@[k]@);
        match read_command(list) {
            Command::Empty => Reply::Nothing,
            Command::State => self.set_state(&list[1], table),
            Command::Serialize => Reply::Serialized(self.state.serialize()),
            Command::Matchup => Reply::Matchup,
            Command::GenerateInstructions => self.generate(&list[1], &list[2], table),
            Command::CalculateDamage => self.calculate(&list[1], &list[2], table),
            Command::Instructions => Reply::Instructions,
            Command::Evaluate => Reply::Evaluation(evaluate(&self.state)),
            Command::IterativeDeepening(time) => {
                match explore_in_time(&mut self.state, deepest, milliseconds(time), table) {
                    Ok(found) => Reply::ExploredInTime(found),
                    Err(error) => Reply::Refused(error),
                }
            },
            Command::MonteCarloTreeSearch(_) => Reply::NoSamplingSearch,
            Command::Apply(index) => self.apply(index),
            Command::Pop => self.pop(),
            Command::PopAll => self.pop_all(),
            Command::Expectiminimax(depth, ab_prune) => {
                match explore(&mut self.state, depth, ab_prune, table) {
                    Ok(found) => Reply::Explored(found),
                    Err(error) => Reply::Refused(error),
                }
            },
            Command::Exit => Reply::Exit,
            Command::Usage(topic) => Reply::Usage(topic),
            Command::Unknown => Reply::Unknown,
        }
    }
}

impl Default for IOData {
    /// A dialogue about the default state, with nothing carried out and
    /// nothing generated.
    fn default() -> (r: IOData)
        ensures
            r.applied().len() == 0,
            r.last_instructions_generated.len() == 0,
            r.state.in_bounds(),
    {
        let r = IOData {
            state: State::default(),
            instruction_list: Vec::new(),
            last_instructions_generated: Vec::new(),
        };
        assert(r.applied() =~= Seq::<Seq<Instruction>>::empty());
        r
    }
}

/// What reading a state from `text` does to a dialogue: a state that is
/// read takes the place of the one before, and nothing else changes; a
/// text that is refused changes nothing.
pub open spec fn state_set(
    before: IOData,
    text: Seq<char>,
    table: MoveTable,
    after: IOData,
    reply: Reply,
) -> bool {
    match state_of(text, table) {
        Ok(state) => reply is StateSet && before.same_but_state(after, state),
        Err(error) => reply == Reply::Refused(error) && before.same_as(after),
    }
}

/// What generating a turn does to a dialogue: a word that names no option
/// of its side is told, the first side before the second; choices that are
/// refused are told; else the branches of the turn take the place of the
/// ones that were generated last. The state is left as it was.
pub open spec fn generated(
    before: IOData,
    first: Seq<char>,
    second: Seq<char>,
    table: MoveTable,
    after: IOData,
    reply: Reply,
) -> bool {
    let s = before.state;
    match option_named(s.side_one, lowercase(first)) {
        None => reply == Reply::InvalidChoice(SideReference::SideOne) && before.same_as(after),
        Some(side_one_move) => match option_named(s.side_two, lowercase(second)) {
            None => reply == Reply::InvalidChoice(SideReference::SideTwo) && before.same_as(after),
            Some(side_two_move) => match refusal(s, side_one_move, side_two_move) {
                Some(error) => reply == Reply::Refused(error) && before.same_as(after),
                None => {
                    &&& reply is Generated
                    &&& after.state == s
                    &&& after.applied() == before.applied()
                    &&& branches(after.last_instructions_generated@) == turn_branches(
                        s,
                        table,
                        side_one_move,
                        side_two_move,
                    )
                },
            },
        },
    }
}

/// What calculating the damage of two moves replies: a name that is not
/// known is told, the first before the second; else the damage that each
/// move can deal.
pub open spec fn calculated(
    s: State,
    first: Seq<char>,
    second: Seq<char>,
    table: MoveTable,
    reply: Reply,
) -> bool {
    match described_by(table, first) {
        Err(error) => reply == Reply::Refused(error),
        Ok(side_one_choice) => match described_by(table, second) {
            Err(error) => reply == Reply::Refused(error),
            Ok(side_two_choice) => {
                &&& reply matches Reply::DamageRolls(one, two)
                &&& amounts(one) == damage_rolls_of(s, SideReference::SideOne, side_one_choice)
                &&& amounts(two) == damage_rolls_of(s, SideReference::SideTwo, side_two_choice)
            },
        },
    }
}

/// What carrying out the branch at the place `index` does to a dialogue:
/// where there is such a branch, its instructions are carried out on the
/// state and become the last list that was carried out, and no branch is
/// left; where there is none, nothing changes.
pub open spec fn applied_branch(before: IOData, index: int, after: IOData, reply: Reply) -> bool {
    if 0 <= index < before.last_instructions_generated.len() {
        let list = before.last_instructions_generated[index].instruction_list@;
        &&& reply is Applied
        &&& after.state == before.state.apply_all(list)
        &&& after.applied() == before.applied().push(list)
        &&& after.last_instructions_generated.len() == 0
    } else {
        reply == Reply::Usage(Topic::Apply) && before.same_as(after)
    }
}

/// What undoing the last list does to a dialogue: where a list was
/// carried out, the last of them is undone on the state and forgotten;
/// where none was, nothing changes.
pub open spec fn popped(before: IOData, after: IOData, reply: Reply) -> bool {
    if before.applied().len() > 0 {
        &&& reply is Popped
        &&& after.state == before.state.reverse_all(before.applied().last())
        &&& after.applied() == before.applied().drop_last()
        &&& after.last_instructions_generated@ == before.last_instructions_generated@
    } else {
        reply is NothingToPop && before.same_as(after)
    }
}

/// What a line with the words `w` does to a dialogue, and what is shown in
/// reply.
pub open spec fn answered(
    before: IOData,
    w: Seq<Seq<char>>,
    table: MoveTable,
    deepest: int,
    after: IOData,
    reply: Reply,
) -> bool {
    match command_of(w) {
        Command::Empty => reply is Nothing && before.same_as(after),
        Command::State => state_set(before, w[1], table, after, reply),
        Command::Serialize => {
            &&& reply matches Reply::Serialized(text)
            &&& text@ == state_text(before.state)
            &&& before.same_as(after)
        },
        Command::Matchup => reply is Matchup && before.same_as(after),
        Command::GenerateInstructions => generated(before, w[1], w[2], table, after, reply),
        Command::CalculateDamage => calculated(before.state, w[1], w[2], table, reply)
            && before.same_as(after),
        Command::Instructions => reply is Instructions && before.same_as(after),
        Command::Evaluate => reply == Reply::Evaluation(evaluation(before.state) as i64)
            && before.same_as(after),
        Command::MonteCarloTreeSearch(_) => reply is NoSamplingSearch && before.same_as(after),
        Command::IterativeDeepening(_) => {
            &&& before.same_as(after)
            &&& if before.state.in_bounds() {
                reply matches Reply::ExploredInTime(found) && explored_in_time(
                    found,
                    before.state,
                    table,
                    deepest,
                )
            } else {
                reply == Reply::Refused(EngineError::InvariantViolation)
            }
        },
        Command::Apply(index) => applied_branch(before, index as int, after, reply),
        Command::Pop => popped(before, after, reply),
        Command::PopAll => {
            &&& reply is PoppedAll
            &&& after.state == unwound(before.state, before.applied())
            &&& after.applied().len() == 0
            &&& after.last_instructions_generated@ == before.last_instructions_generated@
        },
        Command::Expectiminimax(depth, ab_prune) => {
            &&& before.same_as(after)
            &&& match unexplorable(before.state, depth as int) {
                Some(error) => reply == Reply::Refused(error),
                None => reply matches Reply::Explored(found) && explored(
                    found,
                    before.state,
                    table,
                    depth as int,
                    ab_prune,
                ),
            }
        },
        Command::Exit => reply is Exit && before.same_as(after),
        Command::Usage(topic) => reply == Reply::Usage(topic) && before.same_as(after),
        Command::Unknown => reply is Unknown && before.same_as(after),
    }
}

} // verus!

