//! A whole turn: the choices of both sides are looked up, the faster one is
//! carried out on the state as it is and the slower one on every branch
//! that this leaves, and the end of the turn is carried out on every branch
//! that the two leave.

use vstd::prelude::*;
use crate::branches::{
    all_fit, all_in_bounds, all_undone, branches, branches_push,
    fitting_branches_are_undone_and_in_bounds, total, total_concat, total_push, Branch,
};
use crate::choices::{described, Choice, ChoiceView, Choices, MoveCategory};
use crate::damage_calc::{boosted_stat, calculate_boosted_stat};
use crate::end_of_turn::{end_of_turn, end_of_turn_instructions};
use crate::instruction::{StateInstructions, CERTAIN};
use crate::moves::{generate_instructions_from_move, move_branches};
use crate::stages::{enter, leave};
use crate::state::{MoveChoice, Pokemon, PokemonStatus, SideReference, State};

verus! {

/// The table of the moves: the description of each move that the battle
/// can see. A move that the table does not hold has no effect.
#[derive(Clone, Debug)]
pub struct MoveTable {
    pub entries: Vec<Choice>,
}

/// The first description of the move `id` among `entries` from the place
/// `from` on, if there is one.
pub open spec fn find_from(entries: Seq<Choice>, id: Choices, from: int) -> Option<ChoiceView>
    decreases entries.len() - from,
{
    if from < 0 || from >= entries.len() {
        None
    } else if entries[from].move_id == id {
        Some(entries[from]@)
    } else {
        find_from(entries, id, from + 1)
    }
}

impl MoveTable {
    /// The description of the move `id`: the first that the table holds of
    /// it, if it holds one.
    pub open spec fn lookup(self, id: Choices) -> Option<ChoiceView> {
        find_from(self.entries@, id, 0)
    }

    /// A table without a move.
    pub fn new() -> (r: MoveTable)
        ensures
            r.entries@ == Seq::<Choice>::empty(),
    {
        MoveTable { entries: Vec::new() }
    }

    /// Puts the description `choice` at the end of the table.
    pub fn add(&mut self, choice: Choice)
        ensures
            final(self).entries@ == old(self).entries@.push(choice),
    {
        self.entries.push(choice);
    }

    /// The description of the move `id`, if the table holds one.
    pub fn get(&self, id: Choices) -> (r: Option<Choice>)
        ensures
            described(r) == self.lookup(id),
    {
        let mut i: usize = 0;
        while i < self.entries.len()
            invariant
                i <= self.entries.len(),
                self.lookup(id) == find_from(self.entries@, id, i as int),
            decreases self.entries.len() - i,
        {
            if self.entries[i].move_id == id {
                return Some(self.entries[i].duplicate());
            }
            i += 1;
        }
        None
    }
}

/// What a side has chosen, as a description: the move at the chosen place
/// of its active creature as the table describes it, or the switch to the
/// chosen creature. A side that has chosen nothing, or a move that the
/// table does not hold, has no description.
pub open spec fn chosen(s: State, table: MoveTable, side_ref: SideReference, choice: MoveChoice) -> Option<
    ChoiceView,
> {
    match choice {
        MoveChoice::Move(index) => table.lookup(s.active(side_ref).move_at(index).id),
        MoveChoice::Switch(index) => Some(ChoiceView::switching_to(index)),
        MoveChoice::NONE => None,
    }
}

pub fn get_choice(state: &State, table: &MoveTable, side_ref: &SideReference, choice: &MoveChoice) -> (r:
    Option<Choice>)
    ensures
        described(r) == chosen(*state, *table, *side_ref, *choice),
{
    match choice {
        MoveChoice::Move(index) => table.get(
            state.get_side_immutable(side_ref).get_active_immutable().get_move(*index).id,
        ),
        MoveChoice::Switch(index) => Some(Choice::switch_to(*index)),
        MoveChoice::NONE => None,
    }
}

/// The speed of a creature as it counts for the order of a turn: its
/// speed at its stage, halved by a paralysis.
pub open spec fn effective_speed(pokemon: Pokemon) -> int {
    let speed = boosted_stat(pokemon.speed as int, pokemon.speed_boost as int);
    if pokemon.status == PokemonStatus::Paralyze {
        speed / 2
    } else {
        speed
    }
}

pub fn get_effective_speed(pokemon: &Pokemon) -> (r: u64)
    ensures
        r == effective_speed(*pokemon),
{
    let speed = calculate_boosted_stat(pokemon.speed, pokemon.speed_boost);
    if pokemon.status == PokemonStatus::Paralyze {
        speed / 2
    } else {
        speed
    }
}

/// Whether the first side goes first: a switch goes before a move, then
/// the higher priority goes first, then the faster creature, or the slower
/// one in a trick room. Where all of that is equal, or a side does
/// nothing, the first side goes first.
pub open spec fn side_one_first(s: State, one: Option<ChoiceView>, two: Option<ChoiceView>) -> bool {
    match (one, two) {
        (Some(first), Some(second)) => {
            let first_switches = first.category == MoveCategory::Switch;
            let second_switches = second.category == MoveCategory::Switch;
            let first_speed = effective_speed(s.active(SideReference::SideOne));
            let second_speed = effective_speed(s.active(SideReference::SideTwo));
            if first_switches != second_switches {
                first_switches
            } else if first.priority != second.priority {
                first.priority > second.priority
            } else if first_speed == second_speed {
                true
            } else if s.trick_room {
                first_speed < second_speed
            } else {
                first_speed > second_speed
            }
        },
        _ => true,
    }
}

pub fn get_side_one_first(state: &State, one: &Option<Choice>, two: &Option<Choice>) -> (r: bool)
    ensures
        r == side_one_first(*state, described(*one), described(*two)),
{
    match (one, two) {
        (Some(first), Some(second)) => {
            let first_switches = first.category == MoveCategory::Switch;
            let second_switches = second.category == MoveCategory::Switch;
            let first_speed = get_effective_speed(state.side_one.get_active_immutable());
            let second_speed = get_effective_speed(state.side_two.get_active_immutable());
            if first_switches != second_switches {
                first_switches
            } else if first.priority != second.priority {
                first.priority > second.priority
            } else if first_speed == second_speed {
                true
            } else if state.trick_room {
                first_speed < second_speed
            } else {
                first_speed > second_speed
            }
        },
        _ => true,
    }
}

/// The branches that the half-turn of one side splits the incoming branch
/// into. A side without a description leaves the branch as it is.
pub open spec fn half_turn_branches(
    s: State,
    choice: Option<ChoiceView>,
    side_ref: SideReference,
    first: bool,
    incoming: Branch,
) -> Seq<Branch> {
    match choice {
        Some(description) => move_branches(
            s,
            ChoiceView { first_move: first, ..description },
            side_ref,
            incoming,
        ),
        None => seq![incoming],
    }
}

/// The branches that the half-turn of the second side splits every branch
/// of `list` into, in the order of the list.
pub open spec fn second_half_turn_branches(
    s: State,
    choice: Option<ChoiceView>,
    side_ref: SideReference,
    list: Seq<Branch>,
) -> Seq<Branch>
    decreases list.len(),
{
    if list.len() == 0 {
        Seq::empty()
    } else {
        second_half_turn_branches(s, choice, side_ref, list.drop_last()) + half_turn_branches(
            s,
            choice,
            side_ref,
            false,
            list.last(),
        )
    }
}

/// Every branch of `list` with the end of the turn after it.
pub open spec fn with_end_of_turn(s: State, list: Seq<Branch>) -> Seq<Branch> {
    Seq::new(
        list.len(),
        |i: int|
            list[i].followed_by(end_of_turn_instructions(s.apply_all(list[i].instructions))),
    )
}

/// The branch that a turn starts from: certain, and without instructions.
pub open spec fn start() -> Branch {
    Branch { percentage: CERTAIN as int, instructions: Seq::empty() }
}

/// The branches of a turn in which the first side chooses `side_one_move`
/// and the second `side_two_move`.
#[verifier::opaque]
pub open spec fn turn_branches(
    s: State,
    table: MoveTable,
    side_one_move: MoveChoice,
    side_two_move: MoveChoice,
) -> Seq<Branch> {
    let one = chosen(s, table, SideReference::SideOne, side_one_move);
    let two = chosen(s, table, SideReference::SideTwo, side_two_move);
    let moved = if side_one_first(s, one, two) {
        second_half_turn_branches(
            s,
            two,
            SideReference::SideTwo,
            half_turn_branches(s, one, SideReference::SideOne, true, start()),
        )
    } else {
        second_half_turn_branches(
            s,
            one,
            SideReference::SideOne,
            half_turn_branches(s, two, SideReference::SideTwo, true, start()),
        )
    };
    with_end_of_turn(s, moved)
}

fn half_turn(
    state: &mut State,
    choice: &Option<Choice>,
    other: &Option<Choice>,
    side_ref: SideReference,
    first: bool,
    incoming: StateInstructions,
) -> (r: Vec<StateInstructions>)
    requires
        old(state).in_bounds(),
        old(state).all_applicable(incoming.instruction_list@),
    ensures
        *final(state) == *old(state),
        branches(r@) == half_turn_branches(*old(state), described(*choice), side_ref, first, incoming@),
        all_fit(*old(state), branches(r@)),
        total(branches(r@)) == incoming.percentage,
{
    match choice {
        Some(description) => {
            let mut mine = description.duplicate();
            mine.first_move = first;
            let theirs = match other {
                Some(it) => it.duplicate(),
                None => Choice::default(),
            };
            generate_instructions_from_move(state, mine, &theirs, side_ref, incoming)
        },
        None => {
            let mut r: Vec<StateInstructions> = Vec::new();
            proof {
                total_push(Seq::<Branch>::empty(), incoming@);
                assert(Seq::<Branch>::empty().push(incoming@) =~= seq![incoming@]);
            }
            r.push(incoming);
            assert(branches(r@) =~= seq![incoming@]);
            r
        },
    }
}

fn move_branches_to(list: &mut Vec<StateInstructions>, added: Vec<StateInstructions>)
    ensures
        branches(final(list)@) == branches(old(list)@) + branches(added@),
{
    let mut added = added;
    let ghost incoming = branches(added@);
    let n = added.len();
    let mut i: usize = 0;
    while i < n
        invariant
            i <= n,
            n == added.len(),
            n == incoming.len(),
            forall|j: int| i <= j < n ==> (#[trigger] added@[j])@ == incoming[j],
            branches(list@) == branches(old(list)@) + incoming.take(i as int),
        decreases n - i,
    {
        let mut taken = StateInstructions::default();
        core::mem::swap(&mut taken, &mut added[i]);
        proof {
            branches_push(list@, taken);
            assert((branches(old(list)@) + incoming.take(i as int)).push(incoming[i as int])
                =~= branches(old(list)@) + incoming.take(i + 1));
        }
        list.push(taken);
        i += 1;
    }
    assert(incoming.take(n as int) =~= incoming);
}

fn second_half_turn(
    state: &mut State,
    choice: &Option<Choice>,
    other: &Option<Choice>,
    side_ref: SideReference,
    list: Vec<StateInstructions>,
) -> (r: Vec<StateInstructions>)
    requires
        old(state).in_bounds(),
        all_fit(*old(state), branches(list@)),
    ensures
        *final(state) == *old(state),
        branches(r@) == second_half_turn_branches(*old(state), described(*choice), side_ref, branches(list@)),
        all_fit(*old(state), branches(r@)),
        total(branches(r@)) == total(branches(list@)),
{
    let mut list = list;
    let ghost incoming = branches(list@);
    let mut r: Vec<StateInstructions> = Vec::new();
    let n = list.len();
    let mut i: usize = 0;
    while i < n
        invariant
            i <= n,
            n == list.len(),
            n == incoming.len(),
            *state == *old(state),
            state.in_bounds(),
            all_fit(*state, incoming),
            forall|j: int| i <= j < n ==> (#[trigger] list@[j])@ == incoming[j],
            branches(r@) == second_half_turn_branches(
                *state,
                described(*choice),
                side_ref,
                incoming.take(i as int),
            ),
            all_fit(*state, branches(r@)),
            total(branches(r@)) == total(incoming.take(i as int)),
        decreases n - i,
    {
        let mut taken = StateInstructions::default();
        core::mem::swap(&mut taken, &mut list[i]);
        assert(state.all_applicable(incoming[i as int].instructions));
        let split = half_turn(state, choice, other, side_ref, false, taken);
        proof {
            assert(incoming.take(i + 1).drop_last() =~= incoming.take(i as int));
            total_concat(branches(r@), branches(split@));
        }
        move_branches_to(&mut r, split);
        i += 1;
    }
    assert(incoming.take(n as int) =~= incoming);
    r
}

fn finish_turn(state: &mut State, list: Vec<StateInstructions>) -> (r: Vec<StateInstructions>)
    requires
        old(state).in_bounds(),
        all_fit(*old(state), branches(list@)),
    ensures
        *final(state) == *old(state),
        branches(r@) == with_end_of_turn(*old(state), branches(list@)),
        all_fit(*old(state), branches(r@)),
        total(branches(r@)) == total(branches(list@)),
{
    let mut list = list;
    let ghost incoming = branches(list@);
    let mut r: Vec<StateInstructions> = Vec::new();
    let n = list.len();
    let mut i: usize = 0;
    while i < n
        invariant
            i <= n,
            n == list.len(),
            n == incoming.len(),
            *state == *old(state),
            state.in_bounds(),
            all_fit(*state, incoming),
            forall|j: int| i <= j < n ==> (#[trigger] list@[j])@ == incoming[j],
            r.len() == i,
            forall|j: int|
                0 <= j < i ==> (#[trigger] r@[j])@ == with_end_of_turn(*state, incoming)[j],
            forall|j: int| 0 <= j < i ==> state.all_applicable((#[trigger] r@[j]).instruction_list@),
            total(branches(r@)) == total(incoming.take(i as int)),
        decreases n - i,
    {
        let mut taken = StateInstructions::default();
        core::mem::swap(&mut taken, &mut list[i]);
        assert(state.all_applicable(incoming[i as int].instructions));
        let ghost origin = *state;
        enter(state, &taken);
        let added = end_of_turn(state);
        let ended = leave(state, taken, &added, Ghost(origin));
        proof {
            branches_push(r@, ended);
            total_push(branches(r@), ended@);
            assert(incoming.take(i + 1).drop_last() =~= incoming.take(i as int));
        }
        r.push(ended);
        i += 1;
    }
    assert(incoming.take(n as int) =~= incoming);
    assert(branches(r@) =~= with_end_of_turn(*state, incoming));
    r
}

/// The branches of a turn in which the first side chooses `side_one_move`
/// and the second `side_two_move`: the side that goes first makes its
/// half-turn, the other side makes its half-turn on every branch of that,
/// and the end of the turn follows on every branch. The state is left as it
/// was. The instructions of every branch fit it: every branch is undone
/// exactly by its reverse, and leads to a state in bounds. The percentages
/// of the branches add up to what is certain.
pub fn generate_instructions_from_move_pair(
    state: &mut State,
    side_one_move: &MoveChoice,
    side_two_move: &MoveChoice,
    moves: &MoveTable,
) -> (r: Vec<StateInstructions>)
    requires
        old(state).in_bounds(),
    ensures
        *final(state) == *old(state),
        branches(r@) == turn_branches(*old(state), *moves, *side_one_move, *side_two_move),
        all_fit(*old(state), branches(r@)),
        all_undone(*old(state), branches(r@)),
        all_in_bounds(*old(state), branches(r@)),
        total(branches(r@)) == CERTAIN,
{
    proof {
        reveal(turn_branches);
    }
    let one = get_choice(state, moves, &SideReference::SideOne, side_one_move);
    let two = get_choice(state, moves, &SideReference::SideTwo, side_two_move);
    let beginning = StateInstructions::default();
    assert(beginning@ == start());
    let moved = if get_side_one_first(state, &one, &two) {
        let first = half_turn(state, &one, &two, SideReference::SideOne, true, beginning);
        second_half_turn(state, &two, &one, SideReference::SideTwo, first)
    } else {
        let first = half_turn(state, &two, &one, SideReference::SideTwo, true, beginning);
        second_half_turn(state, &one, &two, SideReference::SideOne, first)
    };
    let r = finish_turn(state, moved);
    proof {
        fitting_branches_are_undone_and_in_bounds(*old(state), branches(r@));
    }
    r
}

} // verus!
