//! Iterative deepening: the search is run one turn ahead, then two, and so
//! on, each time with the options of the first side in the order of what
//! the search before has found of them, best first, until the time is up
//! or the depth is reached.

use vstd::prelude::*;
use crate::safest::{row_minimum, row_minimum_upto};
use crate::search::{expectiminimax_search, searched};
use crate::state::{MoveChoice, State};
use crate::turn::MoveTable;

verus! {

#[verifier::external_type_specification]
#[verifier::external_body]
pub struct ExInstant(std::time::Instant);

/// `std::time::Instant::now`: the moment of the call. Nothing is claimed of
/// it.
#[verifier::external_body]
fn now() -> (r: std::time::Instant) {
    std::time::Instant::now()
}

/// `std::time::Instant::elapsed`: the time that has passed since `start`.
/// Nothing is claimed of it.
#[verifier::external_body]
fn elapsed(start: &std::time::Instant) -> (r: std::time::Duration) {
    start.elapsed()
}

/// The comparison of two `std::time::Duration` values with `>`. Nothing is
/// claimed of it.
#[verifier::external_body]
fn longer(time: &std::time::Duration, limit: &std::time::Duration) -> (r: bool) {
    time > limit
}

/// An option with the least score of its row.
pub type Ranked = (MoveChoice, i64);

/// The place at which an option with the score `score` goes into a ranking
/// that is in descending order: before the first option from `from` on
/// with a lower score, after every option with the same score.
pub open spec fn rank_of(ranking: Seq<Ranked>, score: i64, from: int) -> int
    decreases ranking.len() - from,
{
    if from < 0 || from >= ranking.len() {
        ranking.len() as int
    } else if ranking[from].1 < score {
        from
    } else {
        rank_of(ranking, score, from + 1)
    }
}

/// The options of `list`, ranked by their scores in descending order; of
/// two options with the same score, the one that comes first in `list`
/// comes first.
pub open spec fn ranked(list: Seq<Ranked>) -> Seq<Ranked>
    decreases list.len(),
{
    if list.len() == 0 {
        Seq::empty()
    } else {
        let before = ranked(list.drop_last());
        before.insert(rank_of(before, list.last().1, 0), list.last())
    }
}

/// Whether the scores of a ranking are in descending order.
pub open spec fn descending(ranking: Seq<Ranked>) -> bool {
    forall|i: int, j: int|
        0 <= i <= j < ranking.len() ==> (#[trigger] ranking[i]).1 >= (#[trigger] ranking[j]).1
}

/// The place that `rank_of` finds lies in the ranking or at its end; every
/// option before it, from `from` on, has a score that is not lower, and
/// the option at it has a lower score.
pub proof fn rank_of_bounds(ranking: Seq<Ranked>, score: i64, from: int)
    requires
        0 <= from <= ranking.len(),
    ensures
        from <= rank_of(ranking, score, from) <= ranking.len(),
        forall|i: int| from <= i < rank_of(ranking, score, from) ==> (#[trigger] ranking[i]).1 >= score,
        rank_of(ranking, score, from) < ranking.len() ==> ranking[rank_of(
            ranking,
            score,
            from,
        )].1 < score,
    decreases ranking.len() - from,
{
    if from < ranking.len() && ranking[from].1 >= score {
        rank_of_bounds(ranking, score, from + 1);
    }
}

/// A ranking holds the options that went into it, each as often as it went
/// in, and its scores are in descending order.
pub proof fn ranked_is_sorted(list: Seq<Ranked>)
    ensures
        ranked(list).len() == list.len(),
        ranked(list).to_multiset() == list.to_multiset(),
        descending(ranked(list)),
    decreases list.len(),
{
    broadcast use {vstd::seq_lib::to_multiset_insert, vstd::seq_lib::to_multiset_build};

    if list.len() == 0 {
        assert(ranked(list) =~= list);
    } else {
        let before = ranked(list.drop_last());
        let last = list.last();
        let at = rank_of(before, last.1, 0);
        ranked_is_sorted(list.drop_last());
        rank_of_bounds(before, last.1, 0);
        assert(list =~= list.drop_last().push(last));
        let after = before.insert(at, last);
        assert forall|i: int, j: int| 0 <= i <= j < after.len() implies (#[trigger] after[i]).1 >= (
        #[trigger] after[j]).1 by {
            if i < at && j < at {
                assert(after[i] == before[i] && after[j] == before[j]);
            } else if i < at && j == at {
                assert(after[i] == before[i]);
            } else if i < at && j > at {
                assert(after[i] == before[i] && after[j] == before[j - 1]);
            } else if i == at && j > at {
                assert(after[j] == before[j - 1]);
                assert(before[at].1 >= before[j - 1].1);
            } else if i > at {
                assert(after[i] == before[i - 1] && after[j] == before[j - 1]);
            }
        }
    }
}

/// The options of a ranking, without their scores.
pub open spec fn options_of(ranking: Seq<Ranked>) -> Seq<MoveChoice> {
    Seq::new(ranking.len(), |i: int| ranking[i].0)
}

/// Every option of the first side with the least score of its row.
pub open spec fn scored(scores: Seq<Option<i64>>, options: Seq<MoveChoice>, width: int) -> Seq<
    Ranked,
> {
    Seq::new(options.len(), |i: int| (options[i], row_minimum(scores, width, i) as i64))
}

fn row_worst(scores: &Vec<Option<i64>>, width: usize, row: usize) -> (r: i64)
    requires
        row * width + width <= scores.len(),
    ensures
        r == row_minimum(scores@, width as int, row as int),
{
    let mut worst: i64 = i64::MAX;
    let mut column: usize = 0;
    while column < width
        invariant
            column <= width,
            row * width + width <= scores.len(),
            worst == row_minimum_upto(scores@, width as int, row as int, column as int),
        decreases width - column,
    {
        if let Some(score) = scores[row * width + column] {
            if score < worst {
                worst = score;
            }
        }
        column += 1;
    }
    worst
}

fn insert_ranked(ranking: &mut Vec<Ranked>, entry: Ranked)
    ensures
        final(ranking)@ == old(ranking)@.insert(rank_of(old(ranking)@, entry.1, 0), entry),
{
    let mut at: usize = 0;
    while at < ranking.len() && ranking[at].1 >= entry.1
        invariant
            at <= ranking.len(),
            rank_of(ranking@, entry.1, 0) == rank_of(ranking@, entry.1, at as int),
        decreases ranking.len() - at,
    {
        at += 1;
    }
    ranking.insert(at, entry);
}

/// The options of the first side in the order of what the search has found
/// of them: the option whose row has the greatest least score first, and
/// of two options with the same least score the one that came first. The
/// options of the second side stay as they are.
pub fn re_order_moves_for_iterative_deepening(
    last_search_result: &Vec<Option<i64>>,
    side_one_options: Vec<MoveChoice>,
    side_two_options: Vec<MoveChoice>,
) -> (r: (Vec<MoveChoice>, Vec<MoveChoice>))
    requires
        last_search_result.len() == side_one_options.len() * side_two_options.len(),
    ensures
        r.0@ == options_of(
            ranked(
                scored(last_search_result@, side_one_options@, side_two_options.len() as int),
            ),
        ),
        r.0.len() == side_one_options.len(),
        r.1 == side_two_options,
{
    let num_s1_moves = side_one_options.len();
    let num_s2_moves = side_two_options.len();
    let ghost all = scored(last_search_result@, side_one_options@, num_s2_moves as int);
    let mut ranking: Vec<Ranked> = Vec::new();
    let mut s1_index: usize = 0;
    while s1_index < num_s1_moves
        invariant
            s1_index <= num_s1_moves,
            num_s1_moves == side_one_options.len(),
            last_search_result.len() == num_s1_moves * num_s2_moves,
            all == scored(last_search_result@, side_one_options@, num_s2_moves as int),
            ranking@ == ranked(all.take(s1_index as int)),
        decreases num_s1_moves - s1_index,
    {
        assert(s1_index * num_s2_moves + num_s2_moves <= num_s1_moves * num_s2_moves)
            by (nonlinear_arith)
            requires
                s1_index < num_s1_moves,
        ;
        let worst = row_worst(last_search_result, num_s2_moves, s1_index);
        proof {
            crate::safest::row_minimum_bounds(
                last_search_result@,
                num_s2_moves as int,
                s1_index as int,
                num_s2_moves as int,
            );
            assert(all.take(s1_index + 1).drop_last() =~= all.take(s1_index as int));
            assert(all.take(s1_index + 1).last() == (side_one_options@[s1_index as int], worst));
        }
        insert_ranked(&mut ranking, (side_one_options[s1_index], worst));
        s1_index += 1;
    }
    proof {
        assert(all.take(num_s1_moves as int) =~= all);
        ranked_is_sorted(all);
    }
    let mut new_s1_vec: Vec<MoveChoice> = Vec::new();
    let mut i: usize = 0;
    while i < ranking.len()
        invariant
            i <= ranking.len(),
            new_s1_vec.len() == i,
            forall|j: int| 0 <= j < i ==> new_s1_vec@[j] == (#[trigger] ranking@[j]).0,
        decreases ranking.len() - i,
    {
        new_s1_vec.push(ranking[i].0);
        i += 1;
    }
    assert(new_s1_vec@ =~= options_of(ranking@));
    (new_s1_vec, side_two_options)
}

/// One more round of the deepening: the options of the first side are put
/// in the order of what the search before has found of them, and the
/// search is run `depth` turns ahead on them.
pub fn deepen(
    state: &mut State,
    depth: i8,
    side_one_options: Vec<MoveChoice>,
    side_two_options: Vec<MoveChoice>,
    last_search_result: &Vec<Option<i64>>,
    ab_prune: bool,
    moves: &MoveTable,
) -> (r: (Vec<MoveChoice>, Vec<MoveChoice>, Vec<Option<i64>>))
    requires
        depth >= 1,
        old(state).in_bounds(),
        last_search_result.len() == side_one_options.len() * side_two_options.len(),
        side_one_options.len() * side_two_options.len() <= usize::MAX,
    ensures
        *final(state) == *old(state),
        r.0@ == options_of(
            ranked(
                scored(last_search_result@, side_one_options@, side_two_options.len() as int),
            ),
        ),
        r.0.len() == side_one_options.len(),
        r.1@ == side_two_options@,
        r.2.len() == r.0.len() * r.1.len(),
        searched(r.2@, *old(state), *moves, depth as int, r.0@, r.1@, ab_prune),
        !ab_prune ==> forall|k: int| 0 <= k < r.2.len() ==> (#[trigger] r.2[k]).is_some(),
{
    let (first, second) = re_order_moves_for_iterative_deepening(
        last_search_result,
        side_one_options,
        side_two_options,
    );
    let first_again = first.clone();
    let second_again = second.clone();
    assert(first_again@ =~= first@);
    assert(second_again@ =~= second@);
    let result = expectiminimax_search(state, depth, first_again, second_again, ab_prune, moves);
    (first, second, result)
}

/// Whether the deepening goes on with the round `round`: it does while the
/// round is no deeper than `depth` and the time that has passed is not
/// over the budget.
pub fn goes_on(round: i8, depth: i8, over_budget: bool) -> (r: bool)
    ensures
        r == (round <= depth && !over_budget),
{
    round <= depth && !over_budget
}

/// Whether `scores` is what a search of some number of turns gives for the
/// options `side_one_options` and `side_two_options`: of one turn, or of
/// no more than `depth` turns.
pub open spec fn deepened(
    scores: Seq<Option<i64>>,
    s: State,
    table: MoveTable,
    depth: int,
    side_one_options: Seq<MoveChoice>,
    side_two_options: Seq<MoveChoice>,
    ab_prune: bool,
) -> bool {
    exists|rounds: int|
        1 <= rounds && (rounds == 1 || rounds <= depth) && #[trigger] searched(
            scores,
            s,
            table,
            rounds,
            side_one_options,
            side_two_options,
            ab_prune,
        )
}

/// The search, deepened turn by turn. The first round looks one turn
/// ahead; every further round looks one turn further, with the options of
/// the first side in the order of what the round before has found, until
/// `depth` turns are reached or a round has ended after more than
/// `max_time`. The options in their last order and the scores of the last
/// round are returned: the options of the first side are the ones that came
/// in, each as often as it came in; those of the second side are as they
/// came in; and there is a score, or a skipped entry, for every pair.
pub fn iterative_deepen_expectiminimax(
    state: &mut State,
    depth: i8,
    side_one_options: Vec<MoveChoice>,
    side_two_options: Vec<MoveChoice>,
    ab_prune: bool,
    max_time: std::time::Duration,
    moves: &MoveTable,
) -> (r: (Vec<MoveChoice>, Vec<MoveChoice>, Vec<Option<i64>>))
    requires
        old(state).in_bounds(),
        side_one_options.len() * side_two_options.len() <= usize::MAX,
    ensures
        *final(state) == *old(state),
        r.0@.to_multiset() == side_one_options@.to_multiset(),
        r.0.len() == side_one_options.len(),
        r.1@ == side_two_options@,
        r.2.len() == r.0.len() * r.1.len(),
        deepened(r.2@, *old(state), *moves, depth as int, r.0@, r.1@, ab_prune),
        !ab_prune ==> forall|k: int| 0 <= k < r.2.len() ==> (#[trigger] r.2[k]).is_some(),
{
    let mut re_ordered_s1_options = side_one_options.clone();
    let mut re_ordered_s2_options = side_two_options.clone();
    assert(re_ordered_s1_options@ =~= side_one_options@);
    assert(re_ordered_s2_options@ =~= side_two_options@);
    let start_time = now();
    let mut result = expectiminimax_search(
        state,
        1,
        side_one_options,
        side_two_options,
        ab_prune,
        moves,
    );
    let mut i: i8 = 2;
    while i < i8::MAX
        invariant
            2 <= i,
            *state == *old(state),
            state.in_bounds(),
            re_ordered_s1_options@.to_multiset() == side_one_options@.to_multiset(),
            re_ordered_s1_options.len() == side_one_options.len(),
            re_ordered_s2_options@ == side_two_options@,
            result.len() == re_ordered_s1_options.len() * re_ordered_s2_options.len(),
            searched(
                result@,
                *state,
                *moves,
                i - 1,
                re_ordered_s1_options@,
                re_ordered_s2_options@,
                ab_prune,
            ),
            i - 1 == 1 || i - 1 <= depth,
            side_one_options.len() * side_two_options.len() <= usize::MAX,
            !ab_prune ==> forall|k: int| 0 <= k < result.len() ==> (#[trigger] result[k]).is_some(),
        decreases i8::MAX - i,
    {
        let time = elapsed(&start_time);
        if !goes_on(i, depth, longer(&time, &max_time)) {
            break;
        }
        let ghost before = re_ordered_s1_options@;
        let ghost width = re_ordered_s2_options.len() as int;
        let ghost scores = result@;
        let round = deepen(
            state,
            i,
            re_ordered_s1_options,
            re_ordered_s2_options,
            &result,
            ab_prune,
            moves,
        );
        proof {
            ranked_is_sorted(scored(scores, before, width));
            options_keep_multiset(scored(scores, before, width));
            assert(options_of(scored(scores, before, width)) =~= before);
        }
        re_ordered_s1_options = round.0;
        re_ordered_s2_options = round.1;
        result = round.2;
        i += 1;
    }
    let ghost rounds = i as int - 1;
    assert(1 <= rounds && (rounds == 1 || rounds <= depth) && searched(
        result@,
        *old(state),
        *moves,
        rounds,
        re_ordered_s1_options@,
        re_ordered_s2_options@,
        ab_prune,
    ));
    assert(deepened(
        result@,
        *old(state),
        *moves,
        depth as int,
        re_ordered_s1_options@,
        re_ordered_s2_options@,
        ab_prune,
    ));
    (re_ordered_s1_options, re_ordered_s2_options, result)
}

/// Two rankings of the same options, each as often, hold the same options
/// without their scores, each as often.
pub proof fn options_keep_multiset(list: Seq<Ranked>)
    ensures
        options_of(ranked(list)).to_multiset() == options_of(list).to_multiset(),
    decreases list.len(),
{
    broadcast use {vstd::seq_lib::to_multiset_insert, vstd::seq_lib::to_multiset_build};

    if list.len() == 0 {
        assert(ranked(list) =~= list);
    } else {
        let before = ranked(list.drop_last());
        let last = list.last();
        let at = rank_of(before, last.1, 0);
        options_keep_multiset(list.drop_last());
        rank_of_bounds(before, last.1, 0);
        assert(options_of(before.insert(at, last)) =~= options_of(before).insert(at, last.0));
        assert(options_of(list) =~= options_of(list.drop_last()).push(last.0));
    }
}

} // verus!
