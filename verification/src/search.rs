//! The search: the score of every pair of options, one of each side, some
//! turns ahead. The score of a pair is the mean of what its branches are
//! worth, weighed by their percentages; a branch is worth the score of the
//! state that it leads to, or, where the search goes on, the score of the
//! safest choice in that state.

use vstd::prelude::*;
use crate::branches::{all_fit, branches, total, Branch};
use crate::combine::total_take;
use crate::evaluate::{evaluate, evaluation};
use crate::fitting::{advance, rewind, tracked_state_in_bounds};
use crate::instruction::{StateInstructions, CERTAIN};
use crate::options::{battle_result, side_options};
use crate::safest::{
    best_value, best_value_agrees, best_value_flat, cell, pick_safest, row_minimum,
    row_minimum_agrees, row_minimum_bounds, row_minimum_upto,
};
use crate::state::{MoveChoice, SideReference, State};
use crate::turn::{generate_instructions_from_move_pair, turn_branches, MoveTable};
use crate::unfolding::{one_more_column, one_more_row};

verus! {

/// What a win is worth for every turn that the search could still have
/// gone on, in hundredths of a point.
pub const WIN_BONUS: i64 = 100_000;

/// `value` brought into the range of `i64`.
pub open spec fn clip64(value: int) -> i64 {
    if value < i64::MIN {
        i64::MIN
    } else if value > i64::MAX {
        i64::MAX
    } else {
        value as i64
    }
}

/// The score of a state in which the battle is over, with `depth` turns
/// that the search could still have gone on.
pub open spec fn terminal_score(s: State, depth: int) -> int {
    evaluation(s) + battle_result(s) * WIN_BONUS * depth
}

/// The mean of a sum of scores that are weighed by percentages: the sum
/// over what is certain, rounded towards zero.
pub open spec fn mean(weighted: int) -> i64 {
    clip64(
        if weighted >= 0 {
            weighted / (CERTAIN as int)
        } else {
            -((-weighted) / (CERTAIN as int))
        },
    )
}

fn get_mean(weighted: i128) -> (r: i64)
    ensures
        r == mean(weighted as int),
{
    let quotient: i128 = if weighted >= 0 {
        weighted / (CERTAIN as i128)
    } else if weighted == i128::MIN {
        -(i128::MAX / (CERTAIN as i128))
    } else {
        -((-weighted) / (CERTAIN as i128))
    };
    if quotient < i64::MIN as i128 {
        i64::MIN
    } else if quotient > i64::MAX as i128 {
        i64::MAX
    } else {
        quotient as i64
    }
}

/// What a state is worth in which the search goes on for `depth` turns:
/// where the battle is over, the score of the state and the bonus of the
/// winner for every turn that is left after this one; else what the
/// safest choice of the first side is worth, among the options that the
/// sides have.
#[verifier::opaque]
pub open spec fn position_value(s: State, table: MoveTable, depth: nat) -> int
    decreases depth, 0nat, 0nat,
{
    if depth == 0 {
        0
    } else if battle_result(s) != 0 {
        terminal_score(s, depth - 1)
    } else {
        best_of_rows(
            s,
            table,
            (depth - 1) as nat,
            side_options(s, SideReference::SideOne),
            side_options(s, SideReference::SideTwo),
            side_options(s, SideReference::SideOne).len() as int,
        )
    }
}

/// What the state `after` that a branch leads to is worth with `depth`
/// more turns to search: its score, where the search ends; else what the
/// position is worth.
pub open spec fn branch_worth(after: State, table: MoveTable, depth: nat) -> int
    decreases depth, 1nat, 0nat,
{
    if depth == 0 {
        evaluation(after)
    } else {
        position_value(after, table, depth)
    }
}

/// The sum of what the branches of `list` are worth, each weighed by its
/// percentage.
pub open spec fn weighted_worth(s: State, table: MoveTable, depth: nat, list: Seq<Branch>) -> int
    decreases depth, 2nat, list.len(),
{
    if list.len() == 0 {
        0
    } else {
        weighted_worth(s, table, depth, list.drop_last()) + list.last().percentage * branch_worth(
            s.apply_all(list.last().instructions),
            table,
            depth,
        )
    }
}

/// What the pair of the options `one` and `two` is worth with `depth` more
/// turns to search after this one: the mean of what the branches of the
/// turn are worth.
#[verifier::opaque]
pub open spec fn pair_value(
    s: State,
    table: MoveTable,
    depth: nat,
    one: MoveChoice,
    two: MoveChoice,
) -> int
    decreases depth, 3nat, 0nat,
{
    mean(weighted_worth(s, table, depth, turn_branches(s, table, one, two))) as int
}

/// The least of what the option `one` of the first side is worth against
/// the first `columns` options of the second side.
pub open spec fn worst_of_row(
    s: State,
    table: MoveTable,
    depth: nat,
    one: MoveChoice,
    side_two_options: Seq<MoveChoice>,
    columns: int,
) -> int
    decreases depth, 4nat, columns,
{
    if columns <= 0 {
        i64::MAX as int
    } else {
        let before = worst_of_row(s, table, depth, one, side_two_options, columns - 1);
        let this = pair_value(s, table, depth, one, side_two_options[columns - 1]);
        if this < before {
            this
        } else {
            before
        }
    }
}

/// The greatest of the least worths of the first `rows` options of the
/// first side: what the safest of them is worth.
pub open spec fn best_of_rows(
    s: State,
    table: MoveTable,
    depth: nat,
    side_one_options: Seq<MoveChoice>,
    side_two_options: Seq<MoveChoice>,
    rows: int,
) -> int
    decreases depth, 5nat, rows,
{
    if rows <= 0 {
        i64::MIN as int
    } else {
        let before = best_of_rows(s, table, depth, side_one_options, side_two_options, rows - 1);
        let this = worst_of_row(
            s,
            table,
            depth,
            side_one_options[rows - 1],
            side_two_options,
            side_two_options.len() as int,
        );
        if this > before {
            this
        } else {
            before
        }
    }
}

/// Whether one of the first `columns` entries of the row of the option
/// `one` shows that the option cannot be the safest: it is worth no more
/// than `alpha`, the best that the rows before have shown.
pub open spec fn cut_before(
    s: State,
    table: MoveTable,
    depth: nat,
    one: MoveChoice,
    side_two_options: Seq<MoveChoice>,
    alpha: int,
    columns: int,
) -> bool
    decreases columns,
{
    if columns <= 0 {
        false
    } else {
        cut_before(s, table, depth, one, side_two_options, alpha, columns - 1) || pair_value(
            s,
            table,
            depth,
            one,
            side_two_options[columns - 1],
        ) <= alpha
    }
}

/// The entry at the column `column` of the row of the option `one` in a
/// search that skips: skipped once an entry before it has shown that the
/// option cannot be the safest, else what the pair is worth.
pub open spec fn pruned_entry(
    s: State,
    table: MoveTable,
    depth: nat,
    one: MoveChoice,
    side_two_options: Seq<MoveChoice>,
    alpha: int,
    column: int,
) -> Option<i64> {
    if cut_before(s, table, depth, one, side_two_options, alpha, column) {
        None
    } else {
        Some(pair_value(s, table, depth, one, side_two_options[column]) as i64)
    }
}

/// Whether the first `columns` entries of the row `row` are those of a
/// search that skips, with `alpha` the best that the rows before have
/// shown.
pub open spec fn row_pruned(
    scores: Seq<Option<i64>>,
    width: int,
    row: int,
    columns: int,
    s: State,
    table: MoveTable,
    depth: nat,
    one: MoveChoice,
    side_two_options: Seq<MoveChoice>,
    alpha: int,
) -> bool {
    forall|column: int|
        0 <= column < columns ==> #[trigger] cell(scores, width, row, column) == pruned_entry(
            s,
            table,
            depth,
            one,
            side_two_options,
            alpha,
            column,
        )
}

/// Whether the first `rows` rows are those of a search that skips: in
/// every row, the best that the rows before have shown is the greatest of
/// their least worths.
pub open spec fn rows_pruned(
    scores: Seq<Option<i64>>,
    rows: int,
    s: State,
    table: MoveTable,
    depth: nat,
    side_one_options: Seq<MoveChoice>,
    side_two_options: Seq<MoveChoice>,
) -> bool {
    forall|row: int|
        0 <= row < rows ==> #[trigger] row_pruned(
            scores,
            side_two_options.len() as int,
            row,
            side_two_options.len() as int,
            s,
            table,
            depth,
            side_one_options[row],
            side_two_options,
            best_of_rows(s, table, depth, side_one_options, side_two_options, row),
        )
}

/// The least worth of a row is a score.
pub proof fn worst_of_row_bounds(
    s: State,
    table: MoveTable,
    depth: nat,
    one: MoveChoice,
    side_two_options: Seq<MoveChoice>,
    columns: int,
)
    ensures
        i64::MIN <= worst_of_row(s, table, depth, one, side_two_options, columns) <= i64::MAX,
    decreases columns,
{
    reveal_with_fuel(worst_of_row, 2);
    if columns > 0 {
        worst_of_row_bounds(s, table, depth, one, side_two_options, columns - 1);
        pair_value_bounds(s, table, depth, one, side_two_options[columns - 1]);
    }
}

/// What a pair is worth is a score.
pub proof fn pair_value_bounds(s: State, table: MoveTable, depth: nat, one: MoveChoice, two: MoveChoice)
    ensures
        i64::MIN <= pair_value(s, table, depth, one, two) <= i64::MAX,
{
    reveal(pair_value);
    let worth = mean(weighted_worth(s, table, depth, turn_branches(s, table, one, two)));
    assert(pair_value(s, table, depth, one, two) == worth as int);
}

/// What the branch `branch` is worth with `depth` more turns to search.
fn branch_score(
    state: &mut State,
    depth: i8,
    branch: &StateInstructions,
    ab_prune: bool,
    moves: &MoveTable,
) -> (r: i64)
    requires
        depth >= 0,
        old(state).in_bounds(),
        old(state).all_applicable(branch.instruction_list@),
    ensures
        *final(state) == *old(state),
        r == branch_worth(
            old(state).apply_all(branch.instruction_list@),
            *moves,
            depth as nat,
        ),
    decreases 4 * depth + 1,
{
    let ghost origin = *state;
    advance(state, &branch.instruction_list);
    proof {
        tracked_state_in_bounds(origin, branch.instruction_list@, *state);
    }
    let value: i64 = if depth == 0 {
        evaluate(state)
    } else {
        let (side_one_options, side_two_options) = state.get_all_options();
        let rows = side_one_options.len();
        let columns = side_two_options.len();
        assert(rows * columns <= 100) by (nonlinear_arith)
            requires
                0 < rows <= 10,
                0 < columns <= 10,
        ;
        let matrix = expectiminimax_search(
            state,
            depth,
            side_one_options,
            side_two_options,
            ab_prune,
            moves,
        );
        pick_safest(&matrix, rows, columns).1
    };
    rewind(state, &branch.instruction_list, Ghost(origin));
    proof {
        reveal(position_value);
    }
    value
}

/// The sum of a weighed sum and one more weighed score stays within what
/// the sum of the percentages allows.
proof fn weighted_step(sum: int, weight_before: int, percentage: int, value: int)
    requires
        0 <= weight_before,
        0 <= percentage,
        weight_before + percentage <= 100_000_000,
        -weight_before * 0x8000_0000_0000_0000 <= sum <= weight_before * 0x8000_0000_0000_0000,
        -0x8000_0000_0000_0000 <= value <= 0x8000_0000_0000_0000,
    ensures
        -(weight_before + percentage) * 0x8000_0000_0000_0000 <= sum + percentage * value <= (
        weight_before + percentage) * 0x8000_0000_0000_0000,
        -0x8000_0000_0000_0000 * 0x1_0000_0000 <= percentage * value <= 0x8000_0000_0000_0000
            * 0x1_0000_0000,
        (weight_before + percentage) * 0x8000_0000_0000_0000 <= 100_000_000
            * 0x8000_0000_0000_0000,
{
    assert(-percentage * 0x8000_0000_0000_0000 <= percentage * value <= percentage
        * 0x8000_0000_0000_0000) by (nonlinear_arith)
        requires
            0 <= percentage,
            -0x8000_0000_0000_0000 <= value <= 0x8000_0000_0000_0000,
    ;
    assert((weight_before + percentage) * 0x8000_0000_0000_0000 == weight_before
        * 0x8000_0000_0000_0000 + percentage * 0x8000_0000_0000_0000) by (nonlinear_arith);
}

/// The score of the pair of options `side_one_move` and `side_two_move`
/// with `depth` more turns to search after this one.
fn pair_score(
    state: &mut State,
    depth: i8,
    side_one_move: &MoveChoice,
    side_two_move: &MoveChoice,
    ab_prune: bool,
    moves: &MoveTable,
) -> (r: i64)
    requires
        depth >= 0,
        old(state).in_bounds(),
    ensures
        *final(state) == *old(state),
        r == pair_value(*old(state), *moves, depth as nat, *side_one_move, *side_two_move),
    decreases 4 * depth + 2,
{
    let ghost origin = *state;
    let instructions = generate_instructions_from_move_pair(
        state,
        side_one_move,
        side_two_move,
        moves,
    );
    let ghost list = branches(instructions@);
    let mut weighted: i128 = 0;
    let mut i: usize = 0;
    assert forall|j: int| 0 <= j < list.len() implies (#[trigger] list[j]).percentage >= 0 by {}
    assert(list.take(0) =~= Seq::<Branch>::empty());
    while i < instructions.len()
        invariant
            i <= instructions.len(),
            list == branches(instructions@),
            *state == origin,
            state.in_bounds(),
            all_fit(origin, list),
            forall|j: int| 0 <= j < list.len() ==> (#[trigger] list[j]).percentage >= 0,
            total(list) == CERTAIN,
            -total(list.take(i as int)) * 0x8000_0000_0000_0000 <= weighted <= total(
                list.take(i as int),
            ) * 0x8000_0000_0000_0000,
            weighted == weighted_worth(origin, *moves, depth as nat, list.take(i as int)),
            depth >= 0,
        decreases instructions.len() - i,
    {
        let instruction = &instructions[i];
        assert(list[i as int] == instruction@);
        assert(origin.all_applicable(list[i as int].instructions));
        let value = branch_score(state, depth, instruction, ab_prune, moves);
        proof {
            total_take(list, i as int);
            total_take(list, i as int + 1);
            assert(list.take(i + 1).drop_last() =~= list.take(i as int));
            assert(list.take(i + 1).last() == list[i as int]);
            weighted_step(
                weighted as int,
                total(list.take(i as int)),
                instruction.percentage as int,
                value as int,
            );
        }
        weighted = weighted + (instruction.percentage as i128) * (value as i128);
        i += 1;
    }
    assert(list.take(instructions.len() as int) =~= list);
    proof {
        reveal(pair_value);
    }
    get_mean(weighted)
}

/// The place of the entry at the row `row` and the column `column` lies
/// before the end of the rows up to `row`.
proof fn place_in_rows(row: int, column: int, rows: int, width: int)
    requires
        0 <= row < rows,
        0 <= column < width,
    ensures
        0 <= row * width + column < rows * width,
        row * width + width <= rows * width,
{
    assert(0 <= row * width) by (nonlinear_arith)
        requires
            0 <= row,
            0 <= width,
    ;
    assert(row * width + width <= rows * width) by (nonlinear_arith)
        requires
            row < rows,
            0 <= width,
    ;
}

/// Whether every entry of the row `row` in the first `columns` columns
/// that is not skipped is what its pair is worth.
pub open spec fn row_exact(
    scores: Seq<Option<i64>>,
    width: int,
    row: int,
    columns: int,
    s: State,
    table: MoveTable,
    depth: nat,
    one: MoveChoice,
    side_two_options: Seq<MoveChoice>,
) -> bool {
    forall|column: int|
        0 <= column < columns ==> (#[trigger] cell(scores, width, row, column) matches Some(
            score,
        ) ==> score == pair_value(s, table, depth, one, side_two_options[column]))
}

/// Whether no entry of the row `row` in the first `columns` columns is
/// skipped.
pub open spec fn row_full(scores: Seq<Option<i64>>, width: int, row: int, columns: int) -> bool {
    forall|column: int| 0 <= column < columns ==> (#[trigger] cell(scores, width, row, column)).is_some()
}

/// Whether every entry of the first `rows` rows that is not skipped is what
/// its pair is worth.
pub open spec fn rows_exact(
    scores: Seq<Option<i64>>,
    rows: int,
    s: State,
    table: MoveTable,
    depth: nat,
    side_one_options: Seq<MoveChoice>,
    side_two_options: Seq<MoveChoice>,
) -> bool {
    forall|row: int|
        0 <= row < rows ==> #[trigger] row_exact(
            scores,
            side_two_options.len() as int,
            row,
            side_two_options.len() as int,
            s,
            table,
            depth,
            side_one_options[row],
            side_two_options,
        )
}

/// What one more entry at the end of a row that is being filled does to
/// the row: the entries before it stay, and the least of the row is the
/// lesser of what it was and the new entry, if that is not skipped.
proof fn entry_pushed(before: Seq<Option<i64>>, entry: Option<i64>, width: int, row: int, column: int)
    requires
        0 <= column,
        0 <= row,
        0 <= width,
        before.len() == row * width + column,
    ensures
        cell(before.push(entry), width, row, column) == entry,
        forall|c: int|
            0 <= c < column ==> #[trigger] cell(before.push(entry), width, row, c) == cell(
                before,
                width,
                row,
                c,
            ),
        row_minimum_upto(before.push(entry), width, row, column) == row_minimum_upto(
            before,
            width,
            row,
            column,
        ),
        row_minimum_upto(before.push(entry), width, row, column + 1) == (match entry {
            Some(score) => if score < row_minimum_upto(before, width, row, column) {
                score as int
            } else {
                row_minimum_upto(before, width, row, column)
            },
            None => row_minimum_upto(before, width, row, column),
        }),
{
    let after = before.push(entry);
    assert(0 <= row * width) by (nonlinear_arith)
        requires
            0 <= row,
            0 <= width,
    ;
    assert forall|c: int| 0 <= c < column implies #[trigger] cell(after, width, row, c) == cell(
        before,
        width,
        row,
        c,
    ) by {
        assert(after[row * width + c] == before[row * width + c]);
    }
    row_minimum_agrees(after, before, width, row, column);
    assert(after[row * width + (column + 1) - 1] == entry);
}

/// A row that is exact stays exact with one more exact entry, and a row
/// without a skipped entry stays so with an entry that is not skipped.
proof fn row_exact_pushed(
    before: Seq<Option<i64>>,
    entry: Option<i64>,
    width: int,
    row: int,
    column: int,
    s: State,
    table: MoveTable,
    depth: nat,
    one: MoveChoice,
    side_two_options: Seq<MoveChoice>,
)
    requires
        0 <= column,
        0 <= row,
        0 <= width,
        before.len() == row * width + column,
        row_exact(before, width, row, column, s, table, depth, one, side_two_options),
        entry matches Some(score) ==> score == pair_value(
            s,
            table,
            depth,
            one,
            side_two_options[column],
        ),
    ensures
        row_exact(
            before.push(entry),
            width,
            row,
            column + 1,
            s,
            table,
            depth,
            one,
            side_two_options,
        ),
        row_full(before, width, row, column) && entry.is_some() ==> row_full(
            before.push(entry),
            width,
            row,
            column + 1,
        ),
{
    entry_pushed(before, entry, width, row, column);
    let after = before.push(entry);
    assert forall|c: int| 0 <= c < column + 1 implies (#[trigger] cell(after, width, row, c) matches Some(
        score,
    ) ==> score == pair_value(s, table, depth, one, side_two_options[c])) by {
        if c < column {
            assert(cell(after, width, row, c) == cell(before, width, row, c));
        }
    }
    if row_full(before, width, row, column) && entry.is_some() {
        assert forall|c: int| 0 <= c < column + 1 implies (#[trigger] cell(
            after,
            width,
            row,
            c,
        )).is_some() by {
            if c < column {
                assert(cell(after, width, row, c) == cell(before, width, row, c));
            }
        }
    }
}

/// A row of a search that skips stays one with the next of its entries.
proof fn row_pruned_pushed(
    before: Seq<Option<i64>>,
    entry: Option<i64>,
    width: int,
    row: int,
    column: int,
    s: State,
    table: MoveTable,
    depth: nat,
    one: MoveChoice,
    side_two_options: Seq<MoveChoice>,
    alpha: int,
)
    requires
        0 <= column,
        0 <= row,
        0 <= width,
        before.len() == row * width + column,
        row_pruned(before, width, row, column, s, table, depth, one, side_two_options, alpha),
        entry == pruned_entry(s, table, depth, one, side_two_options, alpha, column),
    ensures
        row_pruned(
            before.push(entry),
            width,
            row,
            column + 1,
            s,
            table,
            depth,
            one,
            side_two_options,
            alpha,
        ),
{
    entry_pushed(before, entry, width, row, column);
    let after = before.push(entry);
    assert forall|c: int| 0 <= c < column + 1 implies #[trigger] cell(after, width, row, c)
        == pruned_entry(s, table, depth, one, side_two_options, alpha, c) by {
        if c < column {
            assert(cell(after, width, row, c) == cell(before, width, row, c));
        }
    }
}

/// Whether `scores` is what a search of `depth` turns gives for the
/// options `side_one_options` and `side_two_options`: an entry for every
/// pair; where the battle is over, every entry the score of the state and
/// the bonus of the winner; else every entry that is not skipped what its
/// pair is worth, and the safest choice worth what it is worth without
/// skipping. A search that does not skip has no skipped entry; one that
/// skips has skipped, in every row, the entries after the first that is
/// worth no more than what the safest of the rows before is worth.
pub open spec fn searched(
    scores: Seq<Option<i64>>,
    s: State,
    table: MoveTable,
    depth: int,
    side_one_options: Seq<MoveChoice>,
    side_two_options: Seq<MoveChoice>,
    ab_prune: bool,
) -> bool {
    &&& scores.len() == side_one_options.len() * side_two_options.len()
    &&& !ab_prune ==> forall|k: int| 0 <= k < scores.len() ==> (#[trigger] scores[k]).is_some()
    &&& ab_prune && battle_result(s) == 0 ==> rows_pruned(
        scores,
        side_one_options.len() as int,
        s,
        table,
        (depth - 1) as nat,
        side_one_options,
        side_two_options,
    )
    &&& battle_result(s) != 0 ==> forall|k: int|
        0 <= k < scores.len() ==> (#[trigger] scores[k]) == Some(
            terminal_score(s, depth - 1) as i64,
        )
    &&& battle_result(s) == 0 ==> rows_exact(
        scores,
        side_one_options.len() as int,
        s,
        table,
        (depth - 1) as nat,
        side_one_options,
        side_two_options,
    )
    &&& battle_result(s) == 0 ==> best_value(
        scores,
        side_two_options.len() as int,
        side_one_options.len() as int,
    ) == best_of_rows(
        s,
        table,
        (depth - 1) as nat,
        side_one_options,
        side_two_options,
        side_one_options.len() as int,
    )
}

/// Fills a row of the matrix of scores.
fn search_row(
    state: &mut State,
    remaining: i8,
    side_one_move: &MoveChoice,
    side_two_options: &Vec<MoveChoice>,
    ab_prune: bool,
    moves: &MoveTable,
    alpha: i64,
    score_lookup: &mut Vec<Option<i64>>,
    Ghost(row): Ghost<int>,
) -> (beta: i64)
    requires
        remaining >= 0,
        old(state).in_bounds(),
        0 <= row,
        old(score_lookup).len() == row * side_two_options.len(),
        old(score_lookup).len() + side_two_options.len() <= usize::MAX,
    ensures
        *final(state) == *old(state),
        final(score_lookup).len() == old(score_lookup).len() + side_two_options.len(),
        forall|k: int| 0 <= k < old(score_lookup).len() ==> final(score_lookup)@[k] == old(
            score_lookup,
        )@[k],
        row_exact(
            final(score_lookup)@,
            side_two_options.len() as int,
            row,
            side_two_options.len() as int,
            *old(state),
            *moves,
            remaining as nat,
            *side_one_move,
            side_two_options@,
        ),
        !ab_prune ==> row_full(
            final(score_lookup)@,
            side_two_options.len() as int,
            row,
            side_two_options.len() as int,
        ),
        ab_prune ==> beta == row_minimum(final(score_lookup)@, side_two_options.len() as int, row),
        ab_prune ==> row_pruned(
            final(score_lookup)@,
            side_two_options.len() as int,
            row,
            side_two_options.len() as int,
            *old(state),
            *moves,
            remaining as nat,
            *side_one_move,
            side_two_options@,
            alpha as int,
        ),
        worst_of_row(
            *old(state),
            *moves,
            remaining as nat,
            *side_one_move,
            side_two_options@,
            side_two_options.len() as int,
        ) <= row_minimum(final(score_lookup)@, side_two_options.len() as int, row),
        row_minimum(final(score_lookup)@, side_two_options.len() as int, row) == worst_of_row(
            *old(state),
            *moves,
            remaining as nat,
            *side_one_move,
            side_two_options@,
            side_two_options.len() as int,
        ) || (ab_prune && row_minimum(final(score_lookup)@, side_two_options.len() as int, row)
            <= alpha),
    decreases 4 * remaining + 3,
{
    let num_s2_moves = side_two_options.len();
    let ghost width = num_s2_moves as int;
    let ghost origin = *state;
    let mut beta: i64 = i64::MAX;
    let mut skip = false;
    let mut column: usize = 0;
    while column < num_s2_moves
        invariant
            column <= num_s2_moves,
            num_s2_moves == side_two_options.len(),
            width == num_s2_moves as int,
            remaining >= 0,
            0 <= row,
            *state == origin,
            state.in_bounds(),
            old(score_lookup).len() == row * width,
            old(score_lookup).len() + num_s2_moves <= usize::MAX,
            score_lookup.len() == old(score_lookup).len() + column,
            forall|k: int| 0 <= k < old(score_lookup).len() ==> score_lookup@[k] == old(
                score_lookup,
            )@[k],
            row_exact(
                score_lookup@,
                width,
                row,
                column as int,
                origin,
                *moves,
                remaining as nat,
                *side_one_move,
                side_two_options@,
            ),
            !ab_prune ==> row_full(score_lookup@, width, row, column as int),
            !ab_prune ==> !skip,
            ab_prune ==> beta == row_minimum_upto(score_lookup@, width, row, column as int),
            ab_prune ==> row_pruned(
                score_lookup@,
                width,
                row,
                column as int,
                origin,
                *moves,
                remaining as nat,
                *side_one_move,
                side_two_options@,
                alpha as int,
            ),
            ab_prune ==> skip == cut_before(
                origin,
                *moves,
                remaining as nat,
                *side_one_move,
                side_two_options@,
                alpha as int,
                column as int,
            ),
            worst_of_row(
                origin,
                *moves,
                remaining as nat,
                *side_one_move,
                side_two_options@,
                column as int,
            ) <= row_minimum_upto(score_lookup@, width, row, column as int),
            !skip ==> row_minimum_upto(score_lookup@, width, row, column as int) == worst_of_row(
                origin,
                *moves,
                remaining as nat,
                *side_one_move,
                side_two_options@,
                column as int,
            ),
            skip ==> row_minimum_upto(score_lookup@, width, row, column as int) <= alpha,
        decreases num_s2_moves - column,
    {
        let ghost before = score_lookup@;
        let ghost cut = skip;
        let entry: Option<i64> = if skip {
            None
        } else {
            let score = pair_score(
                state,
                remaining,
                side_one_move,
                &side_two_options[column],
                ab_prune,
                moves,
            );
            if ab_prune {
                if score < beta {
                    beta = score;
                }
                if score <= alpha {
                    skip = true;
                }
            }
            Some(score)
        };
        score_lookup.push(entry);
        proof {
            one_more_column(
                origin,
                *moves,
                remaining as nat,
                *side_one_move,
                side_two_options@,
                column as int + 1,
            );
            pair_value_bounds(
                origin,
                *moves,
                remaining as nat,
                *side_one_move,
                side_two_options@[column as int],
            );
            entry_pushed(before, entry, width, row, column as int);
            row_exact_pushed(
                before,
                entry,
                width,
                row,
                column as int,
                origin,
                *moves,
                remaining as nat,
                *side_one_move,
                side_two_options@,
            );
            worst_of_row_bounds(
                origin,
                *moves,
                remaining as nat,
                *side_one_move,
                side_two_options@,
                column as int,
            );
            row_minimum_bounds(before, width, row, column as int);
            if ab_prune {
                assert(entry == pruned_entry(
                    origin,
                    *moves,
                    remaining as nat,
                    *side_one_move,
                    side_two_options@,
                    alpha as int,
                    column as int,
                ));
                row_pruned_pushed(
                    before,
                    entry,
                    width,
                    row,
                    column as int,
                    origin,
                    *moves,
                    remaining as nat,
                    *side_one_move,
                    side_two_options@,
                    alpha as int,
                );
                assert(skip == (cut || pair_value(
                    origin,
                    *moves,
                    remaining as nat,
                    *side_one_move,
                    side_two_options@[column as int],
                ) <= alpha));
            }
        }
        column += 1;
    }
    beta
}

/// The rows that are exact stay exact when one more exact row follows
/// them, and the best value of all of them is the better of the best value
/// of the rows before and the least of the new row.
proof fn row_added(
    before: Seq<Option<i64>>,
    after: Seq<Option<i64>>,
    rows: int,
    s: State,
    table: MoveTable,
    depth: nat,
    side_one_options: Seq<MoveChoice>,
    side_two_options: Seq<MoveChoice>,
)
    requires
        0 <= rows,
        before.len() == rows * side_two_options.len(),
        forall|k: int| 0 <= k < before.len() ==> after[k] == before[k],
        rows_exact(before, rows, s, table, depth, side_one_options, side_two_options),
        row_exact(
            after,
            side_two_options.len() as int,
            rows,
            side_two_options.len() as int,
            s,
            table,
            depth,
            side_one_options[rows],
            side_two_options,
        ),
    ensures
        rows_exact(after, rows + 1, s, table, depth, side_one_options, side_two_options),
        best_value(after, side_two_options.len() as int, rows) == best_value(
            before,
            side_two_options.len() as int,
            rows,
        ),
{
    let width = side_two_options.len() as int;
    best_value_agrees(after, before, width, rows);
    assert forall|row: int| 0 <= row < rows + 1 implies #[trigger] row_exact(
        after,
        width,
        row,
        width,
        s,
        table,
        depth,
        side_one_options[row],
        side_two_options,
    ) by {
        if row < rows {
            assert(row_exact(
                before,
                width,
                row,
                width,
                s,
                table,
                depth,
                side_one_options[row],
                side_two_options,
            ));
            assert forall|column: int| 0 <= column < width implies (#[trigger] cell(
                after,
                width,
                row,
                column,
            ) matches Some(score) ==> score == pair_value(
                s,
                table,
                depth,
                side_one_options[row],
                side_two_options[column],
            )) by {
                place_in_rows(row, column, rows, width);
                assert(cell(after, width, row, column) == cell(before, width, row, column));
            }
        }
    }
}

/// The rows of a search that skips stay such rows when one more such row
/// follows them.
proof fn pruned_row_added(
    before: Seq<Option<i64>>,
    after: Seq<Option<i64>>,
    rows: int,
    s: State,
    table: MoveTable,
    depth: nat,
    side_one_options: Seq<MoveChoice>,
    side_two_options: Seq<MoveChoice>,
)
    requires
        0 <= rows,
        before.len() == rows * side_two_options.len(),
        forall|k: int| 0 <= k < before.len() ==> after[k] == before[k],
        rows_pruned(before, rows, s, table, depth, side_one_options, side_two_options),
        row_pruned(
            after,
            side_two_options.len() as int,
            rows,
            side_two_options.len() as int,
            s,
            table,
            depth,
            side_one_options[rows],
            side_two_options,
            best_of_rows(s, table, depth, side_one_options, side_two_options, rows),
        ),
    ensures
        rows_pruned(after, rows + 1, s, table, depth, side_one_options, side_two_options),
{
    let width = side_two_options.len() as int;
    assert forall|row: int| 0 <= row < rows + 1 implies #[trigger] row_pruned(
        after,
        width,
        row,
        width,
        s,
        table,
        depth,
        side_one_options[row],
        side_two_options,
        best_of_rows(s, table, depth, side_one_options, side_two_options, row),
    ) by {
        if row < rows {
            let alpha = best_of_rows(s, table, depth, side_one_options, side_two_options, row);
            assert(row_pruned(
                before,
                width,
                row,
                width,
                s,
                table,
                depth,
                side_one_options[row],
                side_two_options,
                alpha,
            ));
            assert forall|column: int| 0 <= column < width implies #[trigger] cell(
                after,
                width,
                row,
                column,
            ) == pruned_entry(
                s,
                table,
                depth,
                side_one_options[row],
                side_two_options,
                alpha,
                column,
            ) by {
                place_in_rows(row, column, rows, width);
                assert(cell(after, width, row, column) == cell(before, width, row, column));
            }
        }
    }
}

/// Where no entry of the rows before and no entry of the new row is
/// skipped, no entry is skipped.
proof fn full_row_added(before: Seq<Option<i64>>, after: Seq<Option<i64>>, rows: int, width: int)
    requires
        0 <= rows,
        0 <= width,
        before.len() == rows * width,
        after.len() == before.len() + width,
        forall|k: int| 0 <= k < before.len() ==> after[k] == before[k],
        forall|k: int| 0 <= k < before.len() ==> (#[trigger] before[k]).is_some(),
        row_full(after, width, rows, width),
    ensures
        forall|k: int| 0 <= k < after.len() ==> (#[trigger] after[k]).is_some(),
{
    assert forall|k: int| 0 <= k < after.len() implies (#[trigger] after[k]).is_some() by {
        if k >= before.len() {
            let column = k - before.len();
            assert(cell(after, width, rows, column).is_some());
        } else {
            assert(before[k].is_some());
        }
    }
}

/// The scores of every pair of one option of the first side and one of the
/// second, `depth` turns ahead, row by row: a row for every option of the
/// first side. Where the battle is over, every score is the score of the
/// state and a bonus for the side that has won, for every turn that is left
/// after this one; else the score of a pair is the mean of what the
/// branches of its turn are worth. With `ab_prune`, the rest of a row is
/// skipped once an entry shows that the row cannot be the safest; a skipped
/// entry is `None`, and the safest choice is worth what it is worth without
/// skipping.
pub fn expectiminimax_search(
    state: &mut State,
    depth: i8,
    side_one_options: Vec<MoveChoice>,
    side_two_options: Vec<MoveChoice>,
    ab_prune: bool,
    moves: &MoveTable,
) -> (r: Vec<Option<i64>>)
    requires
        depth >= 1,
        old(state).in_bounds(),
        side_one_options.len() * side_two_options.len() <= usize::MAX,
    ensures
        *final(state) == *old(state),
        r.len() == side_one_options.len() * side_two_options.len(),
        searched(
            r@,
            *old(state),
            *moves,
            depth as int,
            side_one_options@,
            side_two_options@,
            ab_prune,
        ),
        !ab_prune ==> forall|k: int| 0 <= k < r.len() ==> (#[trigger] r[k]).is_some(),
        battle_result(*old(state)) != 0 && side_one_options.len() > 0 && side_two_options.len()
            > 0 ==> best_value(
            r@,
            side_two_options.len() as int,
            side_one_options.len() as int,
        ) == terminal_score(*old(state), depth - 1),
    decreases 4 * depth,
{
    let remaining: i8 = depth - 1;
    let num_s1_moves = side_one_options.len();
    let num_s2_moves = side_two_options.len();
    let ghost width = num_s2_moves as int;
    let ghost origin = *state;
    let mut score_lookup: Vec<Option<i64>> = Vec::new();
    let battle_is_over = state.battle_is_over();
    if battle_is_over != 0 {
        let bonus: i64 = WIN_BONUS * (remaining as i64);
        let score: i64 = if battle_is_over > 0 {
            evaluate(state) + bonus
        } else {
            evaluate(state) - bonus
        };
        assert(score == terminal_score(origin, remaining as int)) by (nonlinear_arith)
            requires
                score == evaluation(origin) + (if battle_result(origin) > 0 {
                    WIN_BONUS * remaining
                } else {
                    -(WIN_BONUS * remaining)
                }),
                battle_result(origin) == 1 || battle_result(origin) == -1,
                terminal_score(origin, remaining as int) == evaluation(origin) + battle_result(
                    origin,
                ) * WIN_BONUS * remaining,
        ;
        let count = num_s1_moves * num_s2_moves;
        let mut k: usize = 0;
        while k < count
            invariant
                k <= count,
                score_lookup.len() == k,
                forall|e: int| 0 <= e < k ==> (#[trigger] score_lookup[e]) == Some(score),
            decreases count - k,
        {
            score_lookup.push(Some(score));
            k += 1;
        }
        proof {
            if num_s1_moves > 0 && num_s2_moves > 0 {
                best_value_flat(score_lookup@, width, num_s1_moves as int, score);
            }
        }
        return score_lookup;
    }
    let mut alpha: i64 = i64::MIN;
    let mut row: usize = 0;
    while row < num_s1_moves
        invariant
            row <= num_s1_moves,
            num_s1_moves == side_one_options.len(),
            num_s2_moves == side_two_options.len(),
            width == num_s2_moves as int,
            num_s1_moves * num_s2_moves <= usize::MAX,
            *state == origin,
            state.in_bounds(),
            battle_result(origin) == 0,
            remaining == depth - 1,
            depth >= 1,
            score_lookup.len() == row * num_s2_moves,
            rows_exact(
                score_lookup@,
                row as int,
                origin,
                *moves,
                remaining as nat,
                side_one_options@,
                side_two_options@,
            ),
            !ab_prune ==> forall|k: int|
                0 <= k < score_lookup.len() ==> (#[trigger] score_lookup[k]).is_some(),
            ab_prune ==> alpha == best_value(score_lookup@, width, row as int),
            ab_prune ==> rows_pruned(
                score_lookup@,
                row as int,
                origin,
                *moves,
                remaining as nat,
                side_one_options@,
                side_two_options@,
            ),
            best_value(score_lookup@, width, row as int) == best_of_rows(
                origin,
                *moves,
                remaining as nat,
                side_one_options@,
                side_two_options@,
                row as int,
            ),
        decreases num_s1_moves - row,
    {
        proof {
            assert(row * num_s2_moves + num_s2_moves <= num_s1_moves * num_s2_moves)
                by (nonlinear_arith)
                requires
                    row < num_s1_moves,
            ;
            assert((row + 1) * num_s2_moves == row * num_s2_moves + num_s2_moves)
                by (nonlinear_arith);
        }
        let ghost before = score_lookup@;
        let beta = search_row(
            state,
            remaining,
            &side_one_options[row],
            &side_two_options,
            ab_prune,
            moves,
            alpha,
            &mut score_lookup,
            Ghost(row as int),
        );
        proof {
            one_more_row(
                origin,
                *moves,
                remaining as nat,
                side_one_options@,
                side_two_options@,
                row as int + 1,
            );
            row_added(
                before,
                score_lookup@,
                row as int,
                origin,
                *moves,
                remaining as nat,
                side_one_options@,
                side_two_options@,
            );
            row_minimum_bounds(score_lookup@, width, row as int, width);
            if !ab_prune {
                full_row_added(before, score_lookup@, row as int, width);
            } else {
                pruned_row_added(
                    before,
                    score_lookup@,
                    row as int,
                    origin,
                    *moves,
                    remaining as nat,
                    side_one_options@,
                    side_two_options@,
                );
            }
        }
        if beta > alpha {
            alpha = beta;
        }
        row += 1;
    }
    score_lookup
}

} // verus!
