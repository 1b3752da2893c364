//! How the worth of a row and the best of the rows grow with one more
//! column and one more row.

use vstd::prelude::*;
use crate::search::{best_of_rows, pair_value, worst_of_row};
use crate::state::{MoveChoice, State};
use crate::turn::MoveTable;

verus! {

/// The least worth of a row with one more column is the lesser of what it
/// was and what the pair of the new column is worth.
pub proof fn one_more_column(
    s: State,
    table: MoveTable,
    depth: nat,
    one: MoveChoice,
    side_two_options: Seq<MoveChoice>,
    columns: int,
)
    requires
        0 < columns,
    ensures
        worst_of_row(s, table, depth, one, side_two_options, columns) == (if pair_value(
            s,
            table,
            depth,
            one,
            side_two_options[columns - 1],
        ) < worst_of_row(s, table, depth, one, side_two_options, columns - 1) {
            pair_value(s, table, depth, one, side_two_options[columns - 1])
        } else {
            worst_of_row(s, table, depth, one, side_two_options, columns - 1)
        }),
{
    reveal_with_fuel(worst_of_row, 2);
}

/// The best of the rows with one more row is the greater of what it was
/// and the least worth of the new row.
pub proof fn one_more_row(
    s: State,
    table: MoveTable,
    depth: nat,
    side_one_options: Seq<MoveChoice>,
    side_two_options: Seq<MoveChoice>,
    rows: int,
)
    requires
        0 < rows,
    ensures
        best_of_rows(s, table, depth, side_one_options, side_two_options, rows) == (
        if worst_of_row(
            s,
            table,
            depth,
            side_one_options[rows - 1],
            side_two_options,
            side_two_options.len() as int,
        ) > best_of_rows(s, table, depth, side_one_options, side_two_options, rows - 1) {
            worst_of_row(
                s,
                table,
                depth,
                side_one_options[rows - 1],
                side_two_options,
                side_two_options.len() as int,
            )
        } else {
            best_of_rows(s, table, depth, side_one_options, side_two_options, rows - 1)
        }),
{
    reveal_with_fuel(best_of_rows, 2);
}

} // verus!
