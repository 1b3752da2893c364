//! What is shown of a state and of the results of a search: the texts that
//! the command line prints.

use vstd::prelude::*;
use vstd::string::StrSliceExecFns;
use crate::choices::Choice;
use crate::explore::{amounts, damage_rolls, damage_rolls_of, Exploration};
use crate::labels::Named;
use crate::names::{get_move_id_from_movechoice, move_id_text, option_text, push_str};
use crate::options::{io_get_all_options, shown_options};
use crate::state::{MoveChoice, Pokemon, PokemonVolatileStatus, Side, SideReference, State};
use crate::writing::{digit_char, digits, number_text, push_char, push_digits, push_number};

verus! {

/// So many blanks; none for a number below one.
pub open spec fn blanks(n: int) -> Seq<char> {
    Seq::new(
        if n > 0 {
            n as nat
        } else {
            0
        },
        |i: int| ' ',
    )
}

/// The text after as many blanks as it lacks to the width `width`.
pub open spec fn right_aligned(text: Seq<char>, width: int) -> Seq<char> {
    blanks(width - text.len()) + text
}

/// The text before as many blanks as it lacks to the width `width`.
pub open spec fn left_aligned(text: Seq<char>, width: int) -> Seq<char> {
    text + blanks(width - text.len())
}

fn push_blanks(out: &mut String, n: usize)
    ensures
        final(out)@ == old(out)@ + blanks(n as int),
{
    let mut i: usize = 0;
    assert(out@ =~= old(out)@ + blanks(0));
    while i < n
        invariant
            i <= n,
            out@ == old(out)@ + blanks(i as int),
        decreases n - i,
    {
        push_char(out, ' ');
        assert(out@ =~= old(out)@ + blanks(i + 1));
        i += 1;
    }
}

/// The text `text` at the right of a field of the width `width`.
pub fn align_right(text: &str, width: usize) -> (r: String)
    ensures
        r@ == right_aligned(text@, width as int),
{
    let mut out = String::new();
    let length = text.unicode_len();
    if length < width {
        push_blanks(&mut out, width - length);
    }
    push_str(&mut out, text);
    assert(out@ =~= right_aligned(text@, width as int));
    out
}

/// The text `text` at the left of a field of the width `width`.
pub fn align_left(text: &str, width: usize) -> (r: String)
    ensures
        r@ == left_aligned(text@, width as int),
{
    let mut out = text.to_owned();
    let length = text.unicode_len();
    if length < width {
        push_blanks(&mut out, width - length);
    }
    assert(out@ =~= left_aligned(text@, width as int));
    out
}

/// The text of a score that is counted in hundredths: its whole part, a
/// point, and two digits; after a minus sign where it is negative.
pub open spec fn score_text(hundredths: int) -> Seq<char> {
    let size = if hundredths < 0 {
        -hundredths
    } else {
        hundredths
    };
    let sign = if hundredths < 0 {
        seq!['-']
    } else {
        Seq::<char>::empty()
    };
    sign + digits(size / 100) + seq!['.', digit_char(size % 100 / 10), digit_char(size % 10)]
}

/// The text of a score.
pub fn score_string(hundredths: i64) -> (r: String)
    ensures
        r@ == score_text(hundredths as int),
{
    let mut out = String::new();
    let size: u64 = if hundredths < 0 {
        (-(hundredths as i128)) as u64
    } else {
        hundredths as u64
    };
    if hundredths < 0 {
        push_char(&mut out, '-');
    }
    push_digits(&mut out, size / 100);
    push_char(&mut out, '.');
    push_char(&mut out, ((48 + size % 100 / 10) as u8) as char);
    push_char(&mut out, ((48 + size % 10) as u8) as char);
    assert(out@ =~= score_text(hundredths as int));
    out
}

/// The text of an entry of the scores: its score, or `NaN` where it is
/// skipped.
pub open spec fn entry_text(entry: Option<i64>) -> Seq<char> {
    match entry {
        Some(hundredths) => score_text(hundredths as int),
        None => "NaN"@,
    }
}

/// The text of an entry of the scores.
pub fn entry_string(entry: &Option<i64>) -> (r: String)
    ensures
        r@ == entry_text(*entry),
{
    match entry {
        Some(hundredths) => score_string(*hundredths),
        None => "NaN".to_owned(),
    }
}

/// The texts of a list, one after the other, with `sep` between them.
pub open spec fn joined(list: Seq<Seq<char>>, sep: Seq<char>) -> Seq<char>
    decreases list.len(),
{
    if list.len() == 0 {
        Seq::<char>::empty()
    } else if list.len() == 1 {
        list[0]
    } else {
        joined(list.drop_last(), sep) + sep + list.last()
    }
}

/// The texts that a list holds.
pub open spec fn views(list: Seq<String>) -> Seq<Seq<char>> {
    Seq::new(list.len(), |i: int| list[i]@)
}

/// The texts of `list`, one after the other, with `sep` between them.
pub fn join(list: &Vec<String>, sep: &str) -> (r: String)
    ensures
        r@ == joined(views(list@), sep@),
{
    let mut out = String::new();
    let mut i: usize = 0;
    assert(views(list@).take(0) =~= Seq::<Seq<char>>::empty());
    while i < list.len()
        invariant
            i <= list.len(),
            out@ == joined(views(list@).take(i as int), sep@),
        decreases list.len() - i,
    {
        let ghost before = views(list@).take(i as int);
        let ghost after = views(list@).take(i + 1);
        assert(after.drop_last() =~= before);
        assert(after.last() == list@[i as int]@);
        if i > 0 {
            push_str(&mut out, sep);
        }
        push_str(&mut out, list[i].as_str());
        assert(out@ =~= joined(after, sep@));
        i += 1;
    }
    assert(views(list@).take(list.len() as int) =~= views(list@));
    out
}

/// What the options `options` of a side are called in a list of results.
pub open spec fn option_ids(side: Side, options: Seq<MoveChoice>) -> Seq<Seq<char>> {
    Seq::new(options.len(), |k: int| move_id_text(side, options[k]))
}

fn option_id_strings(side: &Side, options: &Vec<MoveChoice>) -> (r: Vec<String>)
    ensures
        views(r@) == option_ids(*side, options@),
{
    let mut list: Vec<String> = Vec::new();
    let mut i: usize = 0;
    while i < options.len()
        invariant
            i <= options.len(),
            list.len() == i,
            forall|k: int| 0 <= k < i ==> (#[trigger] list@[k])@ == move_id_text(*side, options@[k]),
        decreases options.len() - i,
    {
        list.push(get_move_id_from_movechoice(side, &options[i]));
        i += 1;
    }
    assert(views(list@) =~= option_ids(*side, options@));
    list
}

/// What the options `options` of a side are called.
pub open spec fn option_names(side: Side, options: Seq<MoveChoice>) -> Seq<Seq<char>> {
    Seq::new(options.len(), |k: int| option_text(side, options[k]))
}

fn option_name_strings(side: &Side, options: &Vec<MoveChoice>) -> (r: Vec<String>)
    ensures
        views(r@) == option_names(*side, options@),
{
    let mut list: Vec<String> = Vec::new();
    let mut i: usize = 0;
    while i < options.len()
        invariant
            i <= options.len(),
            list.len() == i,
            forall|k: int| 0 <= k < i ==> (#[trigger] list@[k])@ == option_text(*side, options@[k]),
        decreases options.len() - i,
    {
        list.push(side.option_to_string(&options[i]));
        i += 1;
    }
    assert(views(list@) =~= option_names(*side, options@));
    list
}

/// The entry at the place `k` of the scores; a place that the scores do
/// not have counts as skipped.
pub open spec fn entry_at(scores: Seq<Option<i64>>, k: int) -> Option<i64> {
    if 0 <= k < scores.len() {
        scores[k]
    } else {
        None
    }
}

/// The texts of the entries of the scores.
pub open spec fn entry_texts(scores: Seq<Option<i64>>) -> Seq<Seq<char>> {
    Seq::new(scores.len(), |k: int| entry_text(scores[k]))
}

fn entry_strings(scores: &Vec<Option<i64>>) -> (r: Vec<String>)
    ensures
        views(r@) == entry_texts(scores@),
{
    let mut list: Vec<String> = Vec::new();
    let mut i: usize = 0;
    while i < scores.len()
        invariant
            i <= scores.len(),
            list.len() == i,
            forall|k: int| 0 <= k < i ==> (#[trigger] list@[k])@ == entry_text(scores@[k]),
        decreases scores.len() - i,
    {
        list.push(entry_string(&scores[i]));
        i += 1;
    }
    assert(views(list@) =~= entry_texts(scores@));
    list
}

/// The line of the choice that a search recommends to the first side: a
/// move by its name, a switch by `switch` and what it is called in a list
/// of results; `no move` where there is none.
pub open spec fn choice_line(side: Side, options: Seq<MoveChoice>, place: int) -> Seq<char> {
    if 0 <= place < options.len() {
        match options[place] {
            MoveChoice::Move(_) => "choice: "@ + move_id_text(side, options[place]),
            MoveChoice::Switch(_) => "choice: switch "@ + move_id_text(side, options[place]),
            MoveChoice::NONE => "no move"@,
        }
    } else {
        "no move"@
    }
}

/// What a search has found, as the lines that a subcommand prints: the
/// options of both sides, the scores, the choice that is recommended, and
/// what it is worth.
pub open spec fn subcommand_result_text(found: Exploration, s: State) -> Seq<char> {
    "side one options: "@ + joined(option_ids(s.side_one, found.side_one_options@), ","@)
        + "\nside two options: "@ + joined(option_ids(s.side_two, found.side_two_options@), ","@)
        + "\nmatrix: "@ + joined(entry_texts(found.scores@), ","@) + "\n"@ + choice_line(
        s.side_one,
        found.side_one_options@,
        found.safest.0 as int,
    ) + "\nevaluation: "@ + score_text(found.safest.1 as int) + "\n"@
}

/// The lines that a subcommand prints of what a search has found.
pub fn print_subcommand_result(found: &Exploration, state: &State) -> (r: String)
    ensures
        r@ == subcommand_result_text(*found, *state),
{
    let mut out = "side one options: ".to_owned();
    let first = join(&option_id_strings(&state.side_one, &found.side_one_options), ",");
    push_str(&mut out, first.as_str());
    push_str(&mut out, "\nside two options: ");
    let second = join(&option_id_strings(&state.side_two, &found.side_two_options), ",");
    push_str(&mut out, second.as_str());
    push_str(&mut out, "\nmatrix: ");
    let matrix = join(&entry_strings(&found.scores), ",");
    push_str(&mut out, matrix.as_str());
    push_str(&mut out, "\n");
    let line = choice_string(&state.side_one, &found.side_one_options, found.safest.0);
    push_str(&mut out, line.as_str());
    push_str(&mut out, "\nevaluation: ");
    push_str(&mut out, score_string(found.safest.1).as_str());
    push_str(&mut out, "\n");
    out
}

fn choice_string(side: &Side, options: &Vec<MoveChoice>, place: usize) -> (r: String)
    ensures
        r@ == choice_line(*side, options@, place as int),
{
    if place >= options.len() {
        return "no move".to_owned();
    }
    match options[place] {
        MoveChoice::Move(_) => {
            let mut out = "choice: ".to_owned();
            push_str(&mut out, get_move_id_from_movechoice(side, &options[place]).as_str());
            out
        },
        MoveChoice::Switch(_) => {
            let mut out = "choice: switch ".to_owned();
            push_str(&mut out, get_move_id_from_movechoice(side, &options[place]).as_str());
            out
        },
        MoveChoice::NONE => "no move".to_owned(),
    }
}

/// The head of a column: what the option of the second side is called, at
/// the right of twelve characters; nothing for the choice of nothing.
pub open spec fn column_head(side: Side, option: MoveChoice) -> Seq<char> {
    match option {
        MoveChoice::NONE => Seq::<char>::empty(),
        _ => right_aligned(option_text(side, option), 12),
    }
}

/// The head of a row: what the option of the first side is called, at the
/// left of twelve characters; nothing for the choice of nothing.
pub open spec fn row_head(side: Side, option: MoveChoice) -> Seq<char> {
    match option {
        MoveChoice::NONE => Seq::<char>::empty(),
        _ => left_aligned(option_text(side, option), 12),
    }
}

/// The heads of the columns.
pub open spec fn column_heads(side: Side, options: Seq<MoveChoice>) -> Seq<Seq<char>> {
    Seq::new(options.len(), |k: int| column_head(side, options[k]))
}

/// The entries of the row `row`, each at the right of eleven characters
/// and before a blank.
pub open spec fn row_entries(scores: Seq<Option<i64>>, width: int, row: int) -> Seq<Seq<char>> {
    Seq::new(
        width as nat,
        |column: int| right_aligned(entry_text(entry_at(scores, row * width + column)), 11) + " "@,
    )
}

/// The line of the row `row`: its head, its entries, and the end of the
/// line.
pub open spec fn row_line(found: Exploration, s: State, row: int) -> Seq<char> {
    row_head(s.side_one, found.side_one_options[row]) + joined(
        row_entries(found.scores@, found.side_two_options.len() as int, row),
        Seq::<char>::empty(),
    ) + "\n"@
}

/// The lines of all rows.
pub open spec fn row_lines(found: Exploration, s: State) -> Seq<Seq<char>> {
    Seq::new(found.side_one_options@.len(), |row: int| row_line(found, s, row))
}

/// The line of the safest choice: a move by its name, a switch by `Switch`
/// and the name of the creature, each with what it is worth; `No Move`
/// where there is none.
pub open spec fn safest_line(side: Side, options: Seq<MoveChoice>, safest: (usize, i64)) -> Seq<char> {
    if safest.0 < options.len() {
        match options[safest.0 as int] {
            MoveChoice::Move(_) => "\nSafest Choice: "@ + option_text(
                side,
                options[safest.0 as int],
            ) + ", "@ + score_text(safest.1 as int) + "\n"@,
            MoveChoice::Switch(_) => "\nSafest Choice: Switch "@ + option_text(
                side,
                options[safest.0 as int],
            ) + ", "@ + score_text(safest.1 as int) + "\n"@,
            MoveChoice::NONE => "No Move\n"@,
        }
    } else {
        "No Move\n"@
    }
}

/// What a search has found, as a table: a line of the options of the
/// second side, a line for every option of the first side with its
/// scores, and the line of the safest choice.
pub open spec fn result_table(found: Exploration, s: State) -> Seq<char> {
    blanks(12) + joined(column_heads(s.side_two, found.side_two_options@), Seq::<char>::empty())
        + "\n"@ + joined(row_lines(found, s), Seq::<char>::empty()) + safest_line(
        s.side_one,
        found.side_one_options@,
        found.safest,
    )
}

fn column_head_string(side: &Side, option: &MoveChoice) -> (r: String)
    ensures
        r@ == column_head(*side, *option),
{
    match option {
        MoveChoice::NONE => String::new(),
        _ => align_right(side.option_to_string(option).as_str(), 12),
    }
}

fn row_head_string(side: &Side, option: &MoveChoice) -> (r: String)
    ensures
        r@ == row_head(*side, *option),
{
    match option {
        MoveChoice::NONE => String::new(),
        _ => align_left(side.option_to_string(option).as_str(), 12),
    }
}

fn column_head_strings(side: &Side, options: &Vec<MoveChoice>) -> (r: Vec<String>)
    ensures
        views(r@) == column_heads(*side, options@),
{
    let mut list: Vec<String> = Vec::new();
    let mut i: usize = 0;
    while i < options.len()
        invariant
            i <= options.len(),
            list.len() == i,
            forall|k: int| 0 <= k < i ==> (#[trigger] list@[k])@ == column_head(*side, options@[k]),
        decreases options.len() - i,
    {
        list.push(column_head_string(side, &options[i]));
        i += 1;
    }
    assert(views(list@) =~= column_heads(*side, options@));
    list
}

fn entry_at_place(scores: &Vec<Option<i64>>, width: usize, row: usize, column: usize) -> (r: Option<
    i64,
>)
    requires
        column < width,
    ensures
        r == entry_at(scores@, row as int * width as int + column as int),
{
    let ghost place = row as int * width as int + column as int;
    let length = scores.len();
    match row.checked_mul(width) {
        Some(start) => match start.checked_add(column) {
            Some(at) => {
                assert(at == place);
                if at < length {
                    scores[at]
                } else {
                    None
                }
            },
            None => {
                assert(place > usize::MAX);
                None
            },
        },
        None => {
            assert(row as int * width as int > usize::MAX);
            assert(place > usize::MAX);
            None
        },
    }
}

fn row_entry_strings(scores: &Vec<Option<i64>>, width: usize, row: usize) -> (r: Vec<String>)
    ensures
        views(r@) == row_entries(scores@, width as int, row as int),
{
    let mut list: Vec<String> = Vec::new();
    let mut column: usize = 0;
    while column < width
        invariant
            column <= width,
            list.len() == column,
            forall|k: int|
                0 <= k < column ==> (#[trigger] list@[k])@ == right_aligned(
                    entry_text(entry_at(scores@, row as int * width as int + k)),
                    11,
                ) + " "@,
        decreases width - column,
    {
        let entry = entry_at_place(scores, width, row, column);
        let mut text = align_right(entry_string(&entry).as_str(), 11);
        push_str(&mut text, " ");
        list.push(text);
        column += 1;
    }
    assert(views(list@) =~= row_entries(scores@, width as int, row as int));
    list
}

fn row_line_string(found: &Exploration, state: &State, row: usize) -> (r: String)
    requires
        row < found.side_one_options.len(),
    ensures
        r@ == row_line(*found, *state, row as int),
{
    let mut out = row_head_string(&state.side_one, &found.side_one_options[row]);
    let entries = row_entry_strings(&found.scores, found.side_two_options.len(), row);
    push_str(&mut out, join(&entries, "").as_str());
    push_str(&mut out, "\n");
    proof {
        reveal_strlit("");
        assert(""@ =~= Seq::<char>::empty());
    }
    out
}

fn safest_with(start: &str, name: &String, worth: i64) -> (r: String)
    ensures
        r@ == start@ + name@ + ", "@ + score_text(worth as int) + "\n"@,
{
    let mut out = start.to_owned();
    push_str(&mut out, name.as_str());
    push_str(&mut out, ", ");
    push_str(&mut out, score_string(worth).as_str());
    push_str(&mut out, "\n");
    out
}

fn safest_string(side: &Side, options: &Vec<MoveChoice>, safest: (usize, i64)) -> (r: String)
    ensures
        r@ == safest_line(*side, options@, safest),
{
    if safest.0 >= options.len() {
        return "No Move\n".to_owned();
    }
    let option = options[safest.0];
    assert(option == options@[safest.0 as int]);
    let name = side.option_to_string(&option);
    match option {
        MoveChoice::Move(_) => safest_with("\nSafest Choice: ", &name, safest.1),
        MoveChoice::Switch(_) => safest_with("\nSafest Choice: Switch ", &name, safest.1),
        MoveChoice::NONE => "No Move\n".to_owned(),
    }
}

/// The table that shows what a search has found.
pub fn pprint_expectiminimax_result(found: &Exploration, state: &State) -> (r: String)
    ensures
        r@ == result_table(*found, *state),
{
    let mut out = String::new();
    push_blanks(&mut out, 12);
    assert(out@ =~= blanks(12));
    let heads = column_head_strings(&state.side_two, &found.side_two_options);
    push_str(&mut out, join(&heads, "").as_str());
    push_str(&mut out, "\n");
    let mut lines: Vec<String> = Vec::new();
    let mut row: usize = 0;
    while row < found.side_one_options.len()
        invariant
            row <= found.side_one_options.len(),
            lines.len() == row,
            forall|k: int| 0 <= k < row ==> (#[trigger] lines@[k])@ == row_line(*found, *state, k),
        decreases found.side_one_options.len() - row,
    {
        lines.push(row_line_string(found, state, row));
        row += 1;
    }
    assert(views(lines@) =~= row_lines(*found, *state));
    push_str(&mut out, join(&lines, "").as_str());
    push_str(
        &mut out,
        safest_string(&state.side_one, &found.side_one_options, found.safest).as_str(),
    );
    proof {
        reveal_strlit("");
        assert(""@ =~= Seq::<char>::empty());
    }
    out
}

/// The texts of the amounts of a list.
pub open spec fn amount_texts(list: Seq<i16>) -> Seq<Seq<char>> {
    Seq::new(list.len(), |k: int| number_text(list[k] as int))
}

/// The line of the damage that a move can deal: the amounts with a `,`
/// between them, or `0` for a move that deals none.
pub open spec fn damage_line(rolls: Option<Seq<i16>>) -> Seq<char> {
    match rolls {
        Some(list) => "Damage Rolls: "@ + joined(amount_texts(list), ","@) + "\n"@,
        None => "Damage Rolls: 0\n"@,
    }
}

/// The line of the damage that a move can deal.
pub fn damage_string(rolls: &Option<Vec<i16>>) -> (r: String)
    ensures
        r@ == damage_line(amounts(*rolls)),
{
    match rolls {
        Some(list) => {
            let mut texts: Vec<String> = Vec::new();
            let mut i: usize = 0;
            while i < list.len()
                invariant
                    i <= list.len(),
                    texts.len() == i,
                    forall|k: int|
                        0 <= k < i ==> (#[trigger] texts@[k])@ == number_text(list@[k] as int),
                decreases list.len() - i,
            {
                let mut text = String::new();
                push_number(&mut text, list[i] as i64);
                assert(text@ =~= number_text(list@[i as int] as int));
                texts.push(text);
                i += 1;
            }
            assert(views(texts@) =~= amount_texts(list@));
            let mut out = "Damage Rolls: ".to_owned();
            push_str(&mut out, join(&texts, ",").as_str());
            push_str(&mut out, "\n");
            out
        },
        None => "Damage Rolls: 0\n".to_owned(),
    }
}

/// The lines of the damage that the move of the first side and that of the
/// second side can deal, each updated to what is carried out.
pub fn calculate_damage_io(state: &State, s1_choice: Choice, s2_choice: Choice) -> (r: String)
    ensures
        r@ == damage_line(damage_rolls_of(*state, SideReference::SideOne, s1_choice@))
            + damage_line(damage_rolls_of(*state, SideReference::SideTwo, s2_choice@)),
{
    let first = damage_rolls(state, SideReference::SideOne, &s1_choice, &s2_choice);
    let second = damage_rolls(state, SideReference::SideTwo, &s2_choice, &s1_choice);
    let mut out = damage_string(&first);
    push_str(&mut out, damage_string(&second).as_str());
    out
}

/// The texts of the seven stages of a creature: of its attack, defense,
/// special attack, special defense, speed, accuracy and evasion.
pub open spec fn stage_texts(pokemon: Pokemon) -> Seq<Seq<char>> {
    seq![
        number_text(pokemon.attack_boost as int),
        number_text(pokemon.defense_boost as int),
        number_text(pokemon.special_attack_boost as int),
        number_text(pokemon.special_defense_boost as int),
        number_text(pokemon.speed_boost as int),
        number_text(pokemon.accuracy_boost as int),
        number_text(pokemon.evasion_boost as int),
    ]
}

/// The names of the volatile statuses that a creature has among the first
/// `n` of them, in their order.
pub open spec fn volatile_names(pokemon: Pokemon, n: int) -> Seq<Seq<char>>
    decreases n,
{
    if n <= 0 {
        Seq::<Seq<char>>::empty()
    } else {
        let before = volatile_names(pokemon, n - 1);
        let status = PokemonVolatileStatus::at(n - 1);
        if pokemon.volatile_statuses.has(status) {
            before.push(status.label())
        } else {
            before
        }
    }
}

/// The names of the four moves of a creature.
pub open spec fn move_names(pokemon: Pokemon) -> Seq<Seq<char>> {
    Seq::new(4, |k: int| pokemon.moves[k].id.label())
}

/// What is shown of a creature: its name, its hit points, its status, its
/// ability, its item, its stages, its volatile statuses and its moves, a
/// line for each.
pub open spec fn pokemon_shown(pokemon: Pokemon) -> Seq<char> {
    "Active: "@ + pokemon.id.label() + "\nHP: "@ + number_text(pokemon.hp as int) + "/"@
        + number_text(pokemon.maxhp as int) + "\nStatus: "@ + pokemon.status.label()
        + "\nAbility: "@ + pokemon.ability.label() + "\nItem: "@ + pokemon.item.label()
        + "\nBoosts: ["@ + joined(stage_texts(pokemon), ", "@) + "]\nVolatiles: ["@ + joined(
        volatile_names(pokemon, 10),
        ", "@,
    ) + "]\nMoves: ["@ + joined(move_names(pokemon), ", "@) + "]"@
}

fn number_string(n: i64) -> (r: String)
    ensures
        r@ == number_text(n as int),
{
    let mut text = String::new();
    push_number(&mut text, n);
    assert(text@ =~= number_text(n as int));
    text
}

fn stage_strings(pokemon: &Pokemon) -> (r: Vec<String>)
    ensures
        views(r@) == stage_texts(*pokemon),
{
    let mut list: Vec<String> = Vec::new();
    list.push(number_string(pokemon.attack_boost as i64));
    list.push(number_string(pokemon.defense_boost as i64));
    list.push(number_string(pokemon.special_attack_boost as i64));
    list.push(number_string(pokemon.special_defense_boost as i64));
    list.push(number_string(pokemon.speed_boost as i64));
    list.push(number_string(pokemon.accuracy_boost as i64));
    list.push(number_string(pokemon.evasion_boost as i64));
    assert(views(list@) =~= stage_texts(*pokemon));
    list
}

fn volatile_name_strings(pokemon: &Pokemon) -> (r: Vec<String>)
    ensures
        views(r@) == volatile_names(*pokemon, 10),
{
    let mut list: Vec<String> = Vec::new();
    let mut i: usize = 0;
    assert(views(list@) =~= volatile_names(*pokemon, 0));
    while i < 10
        invariant
            i <= 10,
            views(list@) == volatile_names(*pokemon, i as int),
        decreases 10 - i,
    {
        let status = PokemonVolatileStatus::nth(i);
        let ghost before = views(list@);
        if pokemon.volatile_statuses.contains(&status) {
            list.push(status.word().to_owned());
            assert(views(list@) =~= before.push(status.label()));
        }
        i += 1;
    }
    list
}

fn move_name_strings(pokemon: &Pokemon) -> (r: Vec<String>)
    ensures
        views(r@) == move_names(*pokemon),
{
    let mut list: Vec<String> = Vec::new();
    list.push(pokemon.moves[0].id.word().to_owned());
    list.push(pokemon.moves[1].id.word().to_owned());
    list.push(pokemon.moves[2].id.word().to_owned());
    list.push(pokemon.moves[3].id.word().to_owned());
    assert(views(list@) =~= move_names(*pokemon));
    list
}

impl Pokemon {
    /// What is shown of the creature.
    pub fn io_print(&self) -> (r: String)
        ensures
            r@ == pokemon_shown(*self),
    {
        let mut out = "Active: ".to_owned();
        push_str(&mut out, self.id.word());
        push_str(&mut out, "\nHP: ");
        push_number(&mut out, self.hp as i64);
        push_str(&mut out, "/");
        push_number(&mut out, self.maxhp as i64);
        push_str(&mut out, "\nStatus: ");
        push_str(&mut out, self.status.word());
        push_str(&mut out, "\nAbility: ");
        push_str(&mut out, self.ability.word());
        push_str(&mut out, "\nItem: ");
        push_str(&mut out, self.item.word());
        push_str(&mut out, "\nBoosts: [");
        push_str(&mut out, join(&stage_strings(self), ", ").as_str());
        push_str(&mut out, "]\nVolatiles: [");
        push_str(&mut out, join(&volatile_name_strings(self), ", ").as_str());
        push_str(&mut out, "]\nMoves: [");
        push_str(&mut out, join(&move_name_strings(self), ", ").as_str());
        push_str(&mut out, "]");
        out
    }
}

/// What is shown of a creature in the list of its side: its name and its
/// hit points.
pub open spec fn creature_line(pokemon: Pokemon) -> Seq<char> {
    pokemon.id.label() + ": "@ + number_text(pokemon.hp as int) + "/"@ + number_text(
        pokemon.maxhp as int,
    )
}

/// What is shown of the six creatures of a side.
pub open spec fn creature_lines(side: Side) -> Seq<Seq<char>> {
    Seq::new(6, |k: int| creature_line(side.pokemon[k]))
}

/// What is shown of a side: its active creature, its six creatures, and
/// what it can choose.
pub open spec fn side_shown(s: State, side_ref: SideReference) -> Seq<char> {
    let side = s.side(side_ref);
    pokemon_shown(side.active()) + "\nPokemon: ["@ + joined(creature_lines(side), ", "@)
        + "]\nAvailable Choices: ["@ + joined(
        option_names(side, shown_options(s, side_ref)),
        ", "@,
    ) + "]\n"@
}

/// What is shown of the two sides, the first against the second.
pub open spec fn matchup_text(s: State) -> Seq<char> {
    side_shown(s, SideReference::SideOne) + "\nvs\n\n"@ + side_shown(s, SideReference::SideTwo)
}

fn creature_string(pokemon: &Pokemon) -> (r: String)
    ensures
        r@ == creature_line(*pokemon),
{
    let mut out = pokemon.id.word().to_owned();
    push_str(&mut out, ": ");
    push_number(&mut out, pokemon.hp as i64);
    push_str(&mut out, "/");
    push_number(&mut out, pokemon.maxhp as i64);
    out
}

fn side_string(state: &State, side_ref: SideReference, options: &Vec<MoveChoice>) -> (r: String)
    requires
        options@ == shown_options(*state, side_ref),
    ensures
        r@ == side_shown(*state, side_ref),
{
    let side = state.get_side_immutable(&side_ref);
    let mut creatures: Vec<String> = Vec::new();
    let mut i: usize = 0;
    while i < 6
        invariant
            i <= 6,
            creatures.len() == i,
            forall|k: int| 0 <= k < i ==> (#[trigger] creatures@[k])@ == creature_line(side.pokemon[k]),
        decreases 6 - i,
    {
        creatures.push(creature_string(&side.pokemon[i]));
        i += 1;
    }
    assert(views(creatures@) =~= creature_lines(*side));
    let mut out = side.get_active_immutable().io_print();
    push_str(&mut out, "\nPokemon: [");
    push_str(&mut out, join(&creatures, ", ").as_str());
    push_str(&mut out, "]\nAvailable Choices: [");
    push_str(&mut out, join(&option_name_strings(side, options), ", ").as_str());
    push_str(&mut out, "]\n");
    out
}

/// What is shown of the two sides.
pub fn matchup(state: &State) -> (r: String)
    ensures
        r@ == matchup_text(*state),
{
    let (side_one_options, side_two_options) = io_get_all_options(state);
    let mut out = side_string(state, SideReference::SideOne, &side_one_options);
    push_str(&mut out, "\nvs\n\n");
    push_str(&mut out, side_string(state, SideReference::SideTwo, &side_two_options).as_str());
    out
}

} // verus!
