//! Branches as the contracts see them, and the arithmetic of their
//! percentages.

use vstd::prelude::*;
use crate::instruction::{Instruction, StateInstructions};
use crate::state::State;

verus! {

/// A branch as a plain value: its percentage, in millionths of a percent,
/// and its instructions.
pub struct Branch {
    pub percentage: int,
    pub instructions: Seq<Instruction>,
}

impl View for StateInstructions {
    type V = Branch;

    open spec fn view(&self) -> Branch {
        Branch { percentage: self.percentage as int, instructions: self.instruction_list@ }
    }
}

impl Branch {
    /// This branch with `added` after its instructions.
    pub open spec fn followed_by(self, added: Seq<Instruction>) -> Branch {
        Branch { percentage: self.percentage, instructions: self.instructions + added }
    }

    /// This branch with the percentage `percentage`.
    pub open spec fn weighing(self, percentage: int) -> Branch {
        Branch { percentage, instructions: self.instructions }
    }
}

/// The branches of `list` as plain values.
pub open spec fn branches(list: Seq<StateInstructions>) -> Seq<Branch> {
    Seq::new(list.len(), |i: int| list[i]@)
}

/// The sum of the percentages of `list`.
pub open spec fn total(list: Seq<Branch>) -> int
    decreases list.len(),
{
    if list.len() == 0 {
        0
    } else {
        total(list.drop_last()) + list.last().percentage
    }
}

/// Whether the instructions of every branch of `list` fit the state `s`.
pub open spec fn all_fit(s: State, list: Seq<Branch>) -> bool {
    forall|i: int| 0 <= i < list.len() ==> s.all_applicable(#[trigger] list[i].instructions)
}

/// Whether every branch of `list` is undone exactly by its reverse: the
/// state `s` after the instructions of the branch, first to last, and
/// then after their reverses, last to first, is `s` again.
pub open spec fn all_undone(s: State, list: Seq<Branch>) -> bool {
    forall|i: int|
        0 <= i < list.len() ==> s.apply_all((#[trigger] list[i]).instructions).reverse_all(
            list[i].instructions,
        ) == s
}

/// Whether every branch of `list` leads the state `s` to a state in
/// bounds: no hit points below zero or above the maximum, no stage outside
/// of the stages, no layer above its cap.
pub open spec fn all_in_bounds(s: State, list: Seq<Branch>) -> bool {
    forall|i: int| 0 <= i < list.len() ==> s.apply_all((#[trigger] list[i]).instructions).in_bounds()
}

/// Branches whose instructions fit a state in bounds are undone exactly by
/// their reverses, and lead to states in bounds.
pub proof fn fitting_branches_are_undone_and_in_bounds(s: State, list: Seq<Branch>)
    requires
        s.in_bounds(),
        all_fit(s, list),
    ensures
        all_undone(s, list),
        all_in_bounds(s, list),
{
    assert forall|i: int| 0 <= i < list.len() implies s.apply_all(
        (#[trigger] list[i]).instructions,
    ).reverse_all(list[i].instructions) == s && s.apply_all(list[i].instructions).in_bounds() by {
        crate::laws::reverse_all_undoes_apply_all(s, list[i].instructions);
        crate::laws::apply_all_keeps_bounds(s, list[i].instructions);
    }
}

/// The sum over a list with one more branch at its end.
pub proof fn total_push(list: Seq<Branch>, branch: Branch)
    ensures
        total(list.push(branch)) == total(list) + branch.percentage,
{
    assert(list.push(branch).drop_last() =~= list);
}

/// The sum over two lists one after the other is the sum of their sums.
pub proof fn total_concat(first: Seq<Branch>, second: Seq<Branch>)
    ensures
        total(first + second) == total(first) + total(second),
    decreases second.len(),
{
    if second.len() == 0 {
        assert(first + second =~= first);
    } else {
        assert((first + second).drop_last() =~= first + second.drop_last());
        total_concat(first, second.drop_last());
    }
}

/// The branches of a list with one more at its end.
pub proof fn branches_push(list: Seq<StateInstructions>, branch: StateInstructions)
    ensures
        branches(list.push(branch)) == branches(list).push(branch@),
{
    assert(branches(list.push(branch)) =~= branches(list).push(branch@));
}

/// No percentage in a list is negative, so none is above their sum.
pub proof fn total_bounds(list: Seq<Branch>, i: int)
    requires
        forall|j: int| 0 <= j < list.len() ==> (#[trigger] list[j]).percentage >= 0,
        0 <= i < list.len(),
    ensures
        0 <= list[i].percentage <= total(list),
        total(list.take(i)) + list[i].percentage <= total(list),
    decreases list.len(),
{
    if i == list.len() - 1 {
        assert(list.take(i) =~= list.drop_last());
        total_nonnegative(list.drop_last());
    } else {
        total_bounds(list.drop_last(), i);
        assert(list.drop_last().take(i) =~= list.take(i));
    }
}

/// A sum of percentages that are not negative is not negative.
pub proof fn total_nonnegative(list: Seq<Branch>)
    requires
        forall|j: int| 0 <= j < list.len() ==> (#[trigger] list[j]).percentage >= 0,
    ensures
        total(list) >= 0,
    decreases list.len(),
{
    if list.len() > 0 {
        total_nonnegative(list.drop_last());
    }
}

/// `numerator` of `denominator` parts of `percentage`, rounded down.
pub open spec fn share_of(percentage: int, numerator: int, denominator: int) -> int {
    percentage * numerator / denominator
}

/// `numerator` of `denominator` parts of `percentage`, rounded down.
pub fn share(percentage: u32, numerator: u32, denominator: u32) -> (r: u32)
    requires
        0 < denominator,
        numerator <= denominator,
    ensures
        r == share_of(percentage as int, numerator as int, denominator as int),
        r <= percentage,
{
    assert(0 <= (percentage as int) * (numerator as int) <= 0xffff_ffff * 0xffff_ffff)
        by (nonlinear_arith)
        requires
            0 <= percentage as int <= 0xffff_ffff,
            0 <= numerator as int <= 0xffff_ffff,
    ;
    assert((percentage as int) * (numerator as int) / (denominator as int) <= percentage as int)
        by (nonlinear_arith)
        requires
            0 <= percentage as int,
            0 <= numerator as int <= denominator as int,
            0 < denominator as int,
    ;
    assert(0 <= (percentage as int) * (numerator as int) / (denominator as int))
        by (nonlinear_arith)
        requires
            0 <= percentage as int,
            0 <= numerator as int,
            0 < denominator as int,
    ;
    let product: u64 = (percentage as u64) * (numerator as u64);
    (product / (denominator as u64)) as u32
}

} // verus!
