//! The searches as a caller without knowledge of the state asks for them:
//! the options are those that the state shows, the safest choice comes
//! with the scores, and what cannot be searched is refused.

use vstd::prelude::*;
use crate::checked::EngineError;
use crate::choices::{Choice, ChoiceView, Choices};
use crate::damage_calc::{calculate_damage, damage_amounts, DamageRolls};
use crate::deepen::{deepened, iterative_deepen_expectiminimax};
use crate::half_turn::{update_choice, updated_choice};
use crate::labels::{named, read_name};
use crate::options::{io_get_all_options, shown_options};
use crate::safest::{best_row, best_value, pick_safest};
use crate::search::{expectiminimax_search, searched};
use crate::state::{MoveChoice, SideReference, State};
use crate::turn::MoveTable;

verus! {

/// What a search has found: the options of both sides, a score or a
/// skipped entry for every pair of them, row by row, and the safest choice
/// of the first side with what it is worth.
pub struct Exploration {
    pub side_one_options: Vec<MoveChoice>,
    pub side_two_options: Vec<MoveChoice>,
    pub scores: Vec<Option<i64>>,
    pub safest: (usize, i64),
}

impl Exploration {
    /// Whether there is an entry for every pair of options, and the safest
    /// choice is the one that the entries give.
    pub open spec fn consistent(self) -> bool {
        let rows = self.side_one_options.len() as int;
        let width = self.side_two_options.len() as int;
        &&& self.scores.len() == rows * width
        &&& self.safest.0 == best_row(self.scores@, width, rows)
        &&& self.safest.1 == best_value(self.scores@, width, rows)
    }
}

/// Whether `found` is what a search of `depth` turns, with or without
/// skipping, finds in the state `s`, for the options that the state shows.
pub open spec fn explored(
    found: Exploration,
    s: State,
    table: MoveTable,
    depth: int,
    ab_prune: bool,
) -> bool {
    &&& found.side_one_options@ == shown_options(s, SideReference::SideOne)
    &&& found.side_two_options@ == shown_options(s, SideReference::SideTwo)
    &&& found.consistent()
    &&& searched(
        found.scores@,
        s,
        table,
        depth,
        found.side_one_options@,
        found.side_two_options@,
        ab_prune,
    )
}

/// Whether `found` is what a search that skips, deepened to no more than
/// `depth` turns, finds in the state `s`: the options of the first side
/// are those that the state shows, in some order.
pub open spec fn explored_in_time(found: Exploration, s: State, table: MoveTable, depth: int) -> bool {
    &&& found.side_one_options@.to_multiset() == shown_options(
        s,
        SideReference::SideOne,
    ).to_multiset()
    &&& found.side_two_options@ == shown_options(s, SideReference::SideTwo)
    &&& found.consistent()
    &&& deepened(
        found.scores@,
        s,
        table,
        depth,
        found.side_one_options@,
        found.side_two_options@,
        true,
    )
}

/// Why a search of `depth` turns in the state `s` is refused, if it is: a
/// depth below one as an illegal argument, else a state out of its bounds
/// as such.
pub open spec fn unexplorable(s: State, depth: int) -> Option<EngineError> {
    if depth < 1 {
        Some(EngineError::IllegalArgument)
    } else if !s.in_bounds() {
        Some(EngineError::InvariantViolation)
    } else {
        None
    }
}

/// The search of `depth` turns for the options that the state shows, with
/// the safest choice; or why it is refused. The state is left as it was.
pub fn explore(state: &mut State, depth: i8, ab_prune: bool, table: &MoveTable) -> (r: Result<
    Exploration,
    EngineError,
>)
    ensures
        *final(state) == *old(state),
        match r {
            Ok(found) => unexplorable(*old(state), depth as int).is_none() && explored(
                found,
                *old(state),
                *table,
                depth as int,
                ab_prune,
            ),
            Err(error) => unexplorable(*old(state), depth as int) == Some(error),
        },
{
    if depth < 1 {
        return Err(EngineError::IllegalArgument);
    }
    if !state.is_in_bounds() {
        return Err(EngineError::InvariantViolation);
    }
    let (side_one_options, side_two_options) = io_get_all_options(state);
    assert(side_one_options.len() * side_two_options.len() <= 100) by (nonlinear_arith)
        requires
            side_one_options.len() <= 10,
            side_two_options.len() <= 10,
    ;
    let scores = expectiminimax_search(
        state,
        depth,
        side_one_options.clone(),
        side_two_options.clone(),
        ab_prune,
        table,
    );
    let safest = pick_safest(&scores, side_one_options.len(), side_two_options.len());
    Ok(Exploration { side_one_options, side_two_options, scores, safest })
}

/// The search that is deepened turn by turn, to no more than `depth`
/// turns and until a round has ended after more than `max_time`, with the
/// safest choice; or the refusal of a state out of its bounds. The state is
/// left as it was.
pub fn explore_in_time(
    state: &mut State,
    depth: i8,
    max_time: std::time::Duration,
    table: &MoveTable,
) -> (r: Result<Exploration, EngineError>)
    ensures
        *final(state) == *old(state),
        match r {
            Ok(found) => old(state).in_bounds() && explored_in_time(
                found,
                *old(state),
                *table,
                depth as int,
            ),
            Err(error) => !old(state).in_bounds() && error == EngineError::InvariantViolation,
        },
{
    if !state.is_in_bounds() {
        return Err(EngineError::InvariantViolation);
    }
    let (side_one_options, side_two_options) = io_get_all_options(state);
    assert(side_one_options.len() * side_two_options.len() <= 100) by (nonlinear_arith)
        requires
            side_one_options.len() <= 10,
            side_two_options.len() <= 10,
    ;
    let (side_one_options, side_two_options, scores) = iterative_deepen_expectiminimax(
        state,
        depth,
        side_one_options,
        side_two_options,
        true,
        max_time,
        table,
    );
    let safest = pick_safest(&scores, side_one_options.len(), side_two_options.len());
    Ok(Exploration { side_one_options, side_two_options, scores, safest })
}

/// The amounts that the move of `choice` can take from the other side once
/// it is updated to what is carried out, one for each roll; nothing for a
/// move that deals no damage.
pub open spec fn damage_rolls_of(s: State, side_ref: SideReference, choice: ChoiceView) -> Option<
    Seq<i16>,
> {
    damage_amounts(s, side_ref, updated_choice(s, choice, side_ref), DamageRolls::AllRolls)
}

/// The amounts of an optional list.
pub open spec fn amounts(rolls: Option<Vec<i16>>) -> Option<Seq<i16>> {
    match rolls {
        Some(list) => Some(list@),
        None => None,
    }
}

/// The amounts that the move of `choice` can take from the other side, one
/// for each roll; `other` is what the other side has chosen.
pub fn damage_rolls(state: &State, side_ref: SideReference, choice: &Choice, other: &Choice) -> (r:
    Option<Vec<i16>>)
    ensures
        amounts(r) == damage_rolls_of(*state, side_ref, choice@),
{
    let mut choice = choice.duplicate();
    update_choice(state, &mut choice, other, &side_ref);
    calculate_damage(state, side_ref, &choice, DamageRolls::AllRolls)
}

/// The description of the move that a text names, whatever the case of its
/// letters, as the table has it; a name that is none of a move, or of a
/// move that the table does not hold, is unknown.
pub open spec fn described_by(table: MoveTable, name: Seq<char>) -> Result<ChoiceView, EngineError> {
    match named::<Choices>(name) {
        Some(id) => match table.lookup(id) {
            Some(choice) => Ok(choice),
            None => Err(EngineError::UnknownIdentifier),
        },
        None => Err(EngineError::UnknownIdentifier),
    }
}

impl MoveTable {
    /// The description of the move that `name` names.
    pub fn named(&self, name: &Vec<char>) -> (r: Result<Choice, EngineError>)
        ensures
            match r {
                Ok(choice) => described_by(*self, name@) == Ok::<ChoiceView, EngineError>(choice@),
                Err(error) => described_by(*self, name@) == Err::<ChoiceView, EngineError>(error),
            },
    {
        match read_name::<Choices>(name) {
            Some(id) => match self.get(id) {
                Some(choice) => Ok(choice),
                None => Err(EngineError::UnknownIdentifier),
            },
            None => Err(EngineError::UnknownIdentifier),
        }
    }
}

} // verus!
