//! Combining branches that lead to the same state: branches with the same
//! instructions become one branch with the sum of their percentages.

use vstd::prelude::*;
use crate::branches::{
    all_fit, branches, branches_push, total, total_nonnegative, total_push, Branch,
};
use crate::instruction::{Instruction, StateInstructions};
use crate::state::State;

verus! {

/// The place of the first branch of `list` with the instructions
/// `instructions`, or -1 if there is none.
pub open spec fn position_of(list: Seq<Branch>, instructions: Seq<Instruction>) -> int
    decreases list.len(),
{
    if list.len() == 0 {
        -1
    } else {
        let before = position_of(list.drop_last(), instructions);
        if before >= 0 {
            before
        } else if list.last().instructions == instructions {
            list.len() - 1
        } else {
            -1
        }
    }
}

/// `result` with `branch` taken in: its percentage goes to the first branch
/// with the same instructions, or the branch goes to the end.
pub open spec fn absorbed(result: Seq<Branch>, branch: Branch) -> Seq<Branch> {
    let at = position_of(result, branch.instructions);
    if at >= 0 {
        result.update(at, result[at].weighing(result[at].percentage + branch.percentage))
    } else {
        result.push(branch)
    }
}

/// The branches of `list` with those of the same instructions combined:
/// each list of instructions occurs once, at the place of its first
/// occurrence among the others, with the sum of its percentages.
pub open spec fn combined(list: Seq<Branch>) -> Seq<Branch>
    decreases list.len(),
{
    if list.len() == 0 {
        Seq::empty()
    } else {
        absorbed(combined(list.drop_last()), list.last())
    }
}

/// Whether no two branches of `list` have the same instructions.
pub open spec fn distinct(list: Seq<Branch>) -> bool {
    forall|i: int, j: int|
        0 <= i < j < list.len() ==> (#[trigger] list[i]).instructions != (
        #[trigger] list[j]).instructions
}

/// What `position_of` finds: a place of the list that holds the
/// instructions, before which none holds them; or no place holds them.
pub proof fn position_of_found(list: Seq<Branch>, instructions: Seq<Instruction>)
    ensures
        -1 <= position_of(list, instructions) < list.len(),
        position_of(list, instructions) >= 0 ==> list[position_of(
            list,
            instructions,
        )].instructions == instructions,
        forall|i: int|
            0 <= i < list.len() && (position_of(list, instructions) < 0 || i < position_of(
                list,
                instructions,
            )) ==> (#[trigger] list[i]).instructions != instructions,
    decreases list.len(),
{
    if list.len() > 0 {
        position_of_found(list.drop_last(), instructions);
        assert forall|i: int|
            0 <= i < list.len() && (position_of(list, instructions) < 0 || i < position_of(
                list,
                instructions,
            )) implies (#[trigger] list[i]).instructions != instructions by {
            if i < list.len() - 1 {
                assert(list.drop_last()[i] == list[i]);
            }
        }
    }
}

/// The sum over a list in which one branch has another percentage.
pub proof fn total_update(list: Seq<Branch>, at: int, branch: Branch)
    requires
        0 <= at < list.len(),
    ensures
        total(list.update(at, branch)) == total(list) - list[at].percentage + branch.percentage,
    decreases list.len(),
{
    if at == list.len() - 1 {
        assert(list.update(at, branch).drop_last() =~= list.drop_last());
    } else {
        total_update(list.drop_last(), at, branch);
        assert(list.update(at, branch).drop_last() =~= list.drop_last().update(at, branch));
    }
}

/// Taking a branch in adds its percentage to the sum, keeps the branches
/// distinct and without negative percentages, and keeps every list of
/// instructions one of those that went in.
pub proof fn absorbed_properties(result: Seq<Branch>, branch: Branch)
    requires
        distinct(result),
        forall|j: int| 0 <= j < result.len() ==> (#[trigger] result[j]).percentage >= 0,
        branch.percentage >= 0,
    ensures
        total(absorbed(result, branch)) == total(result) + branch.percentage,
        distinct(absorbed(result, branch)),
        forall|j: int|
            0 <= j < absorbed(result, branch).len() ==> (#[trigger] absorbed(
                result,
                branch,
            )[j]).percentage >= 0,
{
    position_of_found(result, branch.instructions);
    let at = position_of(result, branch.instructions);
    if at >= 0 {
        total_update(
            result,
            at,
            result[at].weighing(result[at].percentage + branch.percentage),
        );
    } else {
        total_push(result, branch);
    }
}

/// Combining keeps every list of instructions one of those that went in:
/// where the instructions of every branch fit a state before, they do so
/// after.
pub proof fn combined_keeps_fit(s: State, list: Seq<Branch>)
    requires
        all_fit(s, list),
    ensures
        all_fit(s, combined(list)),
    decreases list.len(),
{
    if list.len() > 0 {
        assert forall|i: int| 0 <= i < list.drop_last().len() implies s.all_applicable(
            #[trigger] list.drop_last()[i].instructions,
        ) by {
            assert(list.drop_last()[i] == list[i]);
        }
        combined_keeps_fit(s, list.drop_last());
        let result = combined(list.drop_last());
        position_of_found(result, list.last().instructions);
        assert(s.all_applicable(list[list.len() - 1].instructions));
    }
}

/// Combining keeps the sum of the percentages and leaves no two branches
/// with the same instructions.
pub proof fn combined_properties(list: Seq<Branch>)
    requires
        forall|j: int| 0 <= j < list.len() ==> (#[trigger] list[j]).percentage >= 0,
    ensures
        total(combined(list)) == total(list),
        distinct(combined(list)),
        forall|j: int|
            0 <= j < combined(list).len() ==> (#[trigger] combined(list)[j]).percentage >= 0,
    decreases list.len(),
{
    if list.len() > 0 {
        combined_properties(list.drop_last());
        absorbed_properties(combined(list.drop_last()), list.last());
    }
}

/// Combining leaves a list with a branch a list with a branch.
pub proof fn combined_is_some(list: Seq<Branch>)
    requires
        list.len() > 0,
    ensures
        combined(list).len() > 0,
{
    position_of_found(combined(list.drop_last()), list.last().instructions);
}

/// Whether two lists hold the same instructions in the same order.
pub fn same_instructions(first: &Vec<Instruction>, second: &Vec<Instruction>) -> (r: bool)
    ensures
        r == (first@ == second@),
{
    if first.len() != second.len() {
        return false;
    }
    let mut i: usize = 0;
    while i < first.len()
        invariant
            i <= first.len(),
            first.len() == second.len(),
            forall|j: int| 0 <= j < i ==> first@[j] == second@[j],
        decreases first.len() - i,
    {
        if first[i] != second[i] {
            return false;
        }
        i += 1;
    }
    assert(first@ =~= second@);
    true
}

/// The place of the first branch of `list` with the instructions
/// `instructions`, if there is one.
fn find_same(list: &Vec<StateInstructions>, instructions: &Vec<Instruction>) -> (r: Option<usize>)
    ensures
        match r {
            Some(at) => at == position_of(branches(list@), instructions@),
            None => position_of(branches(list@), instructions@) < 0,
        },
{
    let mut i: usize = 0;
    while i < list.len()
        invariant
            i <= list.len(),
            position_of(branches(list@).take(i as int), instructions@) < 0,
        decreases list.len() - i,
    {
        assert(branches(list@).take(i + 1).drop_last() =~= branches(list@).take(i as int));
        if same_instructions(&list[i].instruction_list, instructions) {
            proof {
                position_of_stays(branches(list@), instructions@, i as int + 1);
            }
            return Some(i);
        }
        i += 1;
    }
    assert(branches(list@).take(list.len() as int) =~= branches(list@));
    None
}

/// A place that is found in the first `n` branches of a list is found in
/// the whole list.
proof fn position_of_stays(list: Seq<Branch>, instructions: Seq<Instruction>, n: int)
    requires
        0 <= n <= list.len(),
        position_of(list.take(n), instructions) >= 0,
    ensures
        position_of(list, instructions) == position_of(list.take(n), instructions),
    decreases list.len() - n,
{
    if n < list.len() {
        assert(list.take(n + 1).drop_last() =~= list.take(n));
        position_of_stays(list, instructions, n + 1);
    } else {
        assert(list.take(n) =~= list);
    }
}

/// The sum over the first branches of a list is no more than the sum over
/// the list, where no percentage is negative.
pub proof fn total_take(list: Seq<Branch>, n: int)
    requires
        forall|j: int| 0 <= j < list.len() ==> (#[trigger] list[j]).percentage >= 0,
        0 <= n <= list.len(),
    ensures
        0 <= total(list.take(n)) <= total(list),
    decreases list.len() - n,
{
    if n < list.len() {
        assert(list.take(n + 1).drop_last() =~= list.take(n));
        total_take(list, n + 1);
        assert(list.take(n + 1).last() == list[n]);
    } else {
        assert(list.take(n) =~= list);
    }
    total_nonnegative(list.take(n));
}

/// Combines the branches that have the same instructions: each list of
/// instructions occurs once in the result, at the place of its first
/// occurrence among the others and with the sum of its percentages.
pub fn combine_duplicate_instructions(list_of_instructions: Vec<StateInstructions>) -> (r: Vec<
    StateInstructions,
>)
    requires
        total(branches(list_of_instructions@)) <= u32::MAX,
    ensures
        branches(r@) == combined(branches(list_of_instructions@)),
        total(branches(r@)) == total(branches(list_of_instructions@)),
        distinct(branches(r@)),
{
    let mut list_of_instructions = list_of_instructions;
    let ghost incoming = branches(list_of_instructions@);
    let mut result: Vec<StateInstructions> = Vec::new();
    let n = list_of_instructions.len();
    let mut i: usize = 0;
    proof {
        assert(incoming.take(0) =~= Seq::<Branch>::empty());
        combined_properties(incoming);
    }
    while i < n
        invariant
            i <= n,
            n == list_of_instructions.len(),
            n == incoming.len(),
            total(incoming) <= u32::MAX,
            forall|j: int| 0 <= j < n ==> (#[trigger] incoming[j]).percentage >= 0,
            forall|j: int| i <= j < n ==> (#[trigger] list_of_instructions@[j])@ == incoming[j],
            branches(result@) == combined(incoming.take(i as int)),
        decreases n - i,
    {
        let mut taken = StateInstructions::default();
        core::mem::swap(&mut taken, &mut list_of_instructions[i]);
        proof {
            assert(incoming.take(i + 1).drop_last() =~= incoming.take(i as int));
            assert(incoming.take(i + 1).last() == incoming[i as int]);
            combined_properties(incoming.take(i as int));
            absorbed_properties(branches(result@), taken@);
            total_take(incoming, i as int + 1);
            position_of_found(branches(result@), taken@.instructions);
        }
        match find_same(&result, &taken.instruction_list) {
            Some(at) => {
                let ghost before = branches(result@);
                proof {
                    crate::branches::total_bounds(before, at as int);
                }
                let sum = result[at].percentage + taken.percentage;
                result[at].percentage = sum;
                assert(branches(result@) =~= absorbed(before, taken@));
            },
            None => {
                proof {
                    branches_push(result@, taken);
                }
                result.push(taken);
            },
        }
        i += 1;
    }
    proof {
        assert(incoming.take(n as int) =~= incoming);
    }
    result
}

} // verus!
