//! The safest choice: the row of a matrix of scores whose worst entry is
//! best.
//!
//! A matrix of scores has a row for every option of the first side and a
//! column for every option of the second; it is held row by row. An entry
//! that the search has skipped is `None`, and counts for nothing.

use vstd::prelude::*;

verus! {

/// The entry at the row `row` and the column `column`.
pub open spec fn cell(scores: Seq<Option<i64>>, width: int, row: int, column: int) -> Option<i64> {
    scores[row * width + column]
}

/// The least of the entries of the row `row` in the first `columns`
/// columns; the highest score there is where the row has no entry there.
pub open spec fn row_minimum_upto(scores: Seq<Option<i64>>, width: int, row: int, columns: int) -> int
    decreases columns,
{
    if columns <= 0 {
        i64::MAX as int
    } else {
        let before = row_minimum_upto(scores, width, row, columns - 1);
        match scores[row * width + columns - 1] {
            Some(score) => if score < before {
                score as int
            } else {
                before
            },
            None => before,
        }
    }
}

/// The least of the entries of the row `row`.
pub open spec fn row_minimum(scores: Seq<Option<i64>>, width: int, row: int) -> int {
    row_minimum_upto(scores, width, row, width)
}

/// The greatest of the row minimums of the first `rows` rows; the lowest
/// score there is where there is no row.
pub open spec fn best_value(scores: Seq<Option<i64>>, width: int, rows: int) -> int
    decreases rows,
{
    if rows <= 0 {
        i64::MIN as int
    } else {
        let before = best_value(scores, width, rows - 1);
        let this = row_minimum(scores, width, rows - 1);
        if this > before {
            this
        } else {
            before
        }
    }
}

/// The first of the first `rows` rows whose row minimum is the greatest;
/// the row 0 where there is no row.
pub open spec fn best_row(scores: Seq<Option<i64>>, width: int, rows: int) -> int
    decreases rows,
{
    if rows <= 0 {
        0
    } else if row_minimum(scores, width, rows - 1) > best_value(scores, width, rows - 1) {
        rows - 1
    } else {
        best_row(scores, width, rows - 1)
    }
}

/// A row minimum is a score.
pub proof fn row_minimum_bounds(scores: Seq<Option<i64>>, width: int, row: int, columns: int)
    ensures
        i64::MIN <= row_minimum_upto(scores, width, row, columns) <= i64::MAX,
    decreases columns,
{
    if columns > 0 {
        row_minimum_bounds(scores, width, row, columns - 1);
    }
}

/// The best row is a row, its row minimum is the best value, and no row
/// has a greater row minimum.
pub proof fn best_row_is_safest(scores: Seq<Option<i64>>, width: int, rows: int)
    requires
        rows > 0,
    ensures
        0 <= best_row(scores, width, rows) < rows,
        row_minimum(scores, width, best_row(scores, width, rows)) == best_value(
            scores,
            width,
            rows,
        ),
        forall|row: int|
            0 <= row < rows ==> row_minimum(scores, width, row) <= best_value(scores, width, rows),
    decreases rows,
{
    row_minimum_bounds(scores, width, rows - 1, width);
    if rows > 1 {
        best_row_is_safest(scores, width, rows - 1);
    } else {
        assert(best_value(scores, width, 0) == i64::MIN);
        assert(best_row(scores, width, 0) == 0);
    }
}

/// The safest choice of the first side: the first row of the matrix whose
/// least entry is the greatest, and that entry. No other row has a greater
/// least entry.
pub fn pick_safest(score_lookup: &Vec<Option<i64>>, num_s1_moves: usize, num_s2_moves: usize) -> (r:
    (usize, i64))
    requires
        score_lookup.len() == num_s1_moves * num_s2_moves,
    ensures
        r.0 == best_row(score_lookup@, num_s2_moves as int, num_s1_moves as int),
        r.1 == best_value(score_lookup@, num_s2_moves as int, num_s1_moves as int),
        num_s1_moves > 0 ==> r.0 < num_s1_moves && r.1 == row_minimum(
            score_lookup@,
            num_s2_moves as int,
            r.0 as int,
        ),
        forall|row: int|
            0 <= row < num_s1_moves ==> row_minimum(score_lookup@, num_s2_moves as int, row) <= r.1,
{
    let mut best_worst_case: i64 = i64::MIN;
    let mut best_worst_case_s1_index: usize = 0;
    let mut vec_index: usize = 0;
    let mut s1_index: usize = 0;
    while s1_index < num_s1_moves
        invariant
            s1_index <= num_s1_moves,
            score_lookup.len() == num_s1_moves * num_s2_moves,
            vec_index == s1_index * num_s2_moves,
            best_worst_case == best_value(score_lookup@, num_s2_moves as int, s1_index as int),
            best_worst_case_s1_index == best_row(
                score_lookup@,
                num_s2_moves as int,
                s1_index as int,
            ),
        decreases num_s1_moves - s1_index,
    {
        let mut worst_case_this_row: i64 = i64::MAX;
        let mut column: usize = 0;
        assert(s1_index * num_s2_moves + num_s2_moves <= num_s1_moves * num_s2_moves)
            by (nonlinear_arith)
            requires
                s1_index < num_s1_moves,
        ;
        while column < num_s2_moves
            invariant
                column <= num_s2_moves,
                s1_index < num_s1_moves,
                score_lookup.len() == num_s1_moves * num_s2_moves,
                s1_index * num_s2_moves + num_s2_moves <= num_s1_moves * num_s2_moves,
                vec_index == s1_index * num_s2_moves + column,
                worst_case_this_row == row_minimum_upto(
                    score_lookup@,
                    num_s2_moves as int,
                    s1_index as int,
                    column as int,
                ),
            decreases num_s2_moves - column,
        {
            if let Some(score) = score_lookup[vec_index] {
                if score < worst_case_this_row {
                    worst_case_this_row = score;
                }
            }
            vec_index += 1;
            column += 1;
        }
        if worst_case_this_row > best_worst_case {
            best_worst_case_s1_index = s1_index;
            best_worst_case = worst_case_this_row;
        }
        assert((s1_index + 1) * num_s2_moves == s1_index * num_s2_moves + num_s2_moves)
            by (nonlinear_arith);
        s1_index += 1;
    }
    proof {
        if num_s1_moves > 0 {
            best_row_is_safest(score_lookup@, num_s2_moves as int, num_s1_moves as int);
        }
    }
    (best_worst_case_s1_index, best_worst_case)
}

/// The least entry of a row depends on the entries of the row alone.
pub proof fn row_minimum_agrees(
    first: Seq<Option<i64>>,
    second: Seq<Option<i64>>,
    width: int,
    row: int,
    columns: int,
)
    requires
        forall|column: int|
            0 <= column < columns ==> #[trigger] cell(first, width, row, column) == cell(
                second,
                width,
                row,
                column,
            ),
    ensures
        row_minimum_upto(first, width, row, columns) == row_minimum_upto(
            second,
            width,
            row,
            columns,
        ),
    decreases columns,
{
    if columns > 0 {
        row_minimum_agrees(first, second, width, row, columns - 1);
        assert(cell(first, width, row, columns - 1) == cell(second, width, row, columns - 1));
    }
}

/// The best value of the first rows depends on the entries of those rows
/// alone.
pub proof fn best_value_agrees(
    first: Seq<Option<i64>>,
    second: Seq<Option<i64>>,
    width: int,
    rows: int,
)
    requires
        0 <= width,
        forall|k: int| 0 <= k < rows * width ==> first[k] == second[k],
    ensures
        best_value(first, width, rows) == best_value(second, width, rows),
        best_row(first, width, rows) == best_row(second, width, rows),
    decreases rows,
{
    if rows > 0 {
        assert((rows - 1) * width + width == rows * width) by (nonlinear_arith);
        assert(0 <= (rows - 1) * width) by (nonlinear_arith)
            requires
                rows > 0,
                width >= 0,
        ;
        assert forall|k: int| 0 <= k < (rows - 1) * width implies first[k] == second[k] by {}
        best_value_agrees(first, second, width, rows - 1);
        assert forall|column: int| 0 <= column < width implies #[trigger] cell(
            first,
            width,
            rows - 1,
            column,
        ) == cell(second, width, rows - 1, column) by {
            assert(0 <= (rows - 1) * width + column < rows * width);
        }
        row_minimum_agrees(first, second, width, rows - 1, width);
    }
}

/// Where every entry of the first rows is the same score, that score is
/// the best value.
pub proof fn best_value_flat(scores: Seq<Option<i64>>, width: int, rows: int, score: i64)
    requires
        0 < width,
        0 < rows,
        forall|k: int| 0 <= k < rows * width ==> scores[k] == Some(score),
    ensures
        best_value(scores, width, rows) == score,
    decreases rows,
{
    assert((rows - 1) * width + width == rows * width) by (nonlinear_arith);
    assert(0 <= (rows - 1) * width) by (nonlinear_arith)
        requires
            rows > 0,
            width >= 0,
    ;
    assert forall|column: int| 0 <= column < width implies #[trigger] cell(
        scores,
        width,
        rows - 1,
        column,
    ) == Some(score) by {
        assert(0 <= (rows - 1) * width + column < rows * width);
    }
    flat_row(scores, width, rows - 1, width, score);
    if rows > 1 {
        assert forall|k: int| 0 <= k < (rows - 1) * width implies scores[k] == Some(score) by {}
        best_value_flat(scores, width, rows - 1, score);
    } else {
        assert(best_value(scores, width, 0) == i64::MIN);
    }
}

/// Where every entry of a row is the same score, that score is the least
/// of the row.
pub proof fn flat_row(scores: Seq<Option<i64>>, width: int, row: int, columns: int, score: i64)
    requires
        0 < columns,
        forall|column: int|
            0 <= column < columns ==> #[trigger] cell(scores, width, row, column) == Some(score),
    ensures
        row_minimum_upto(scores, width, row, columns) == score,
    decreases columns,
{
    assert(cell(scores, width, row, columns - 1) == Some(score));
    if columns > 1 {
        flat_row(scores, width, row, columns - 1, score);
    } else {
        assert(row_minimum_upto(scores, width, row, 0) == i64::MAX);
    }
}

} // verus!
