//! A move that only deals damage, for every state: what its hit and its
//! use come to, how a sleep or a paralysis splits the certain branch
//! before it, and what the branches of the whole move are where its user
//! sleeps or is paralyzed.

use vstd::prelude::*;
use crate::abilities::{
    ability_before_move_steps, ability_modified_attack_against,
    ability_modified_attack_being_used, Abilities,
};
use crate::branches::{share_of, Branch};
use crate::choices::{ChoiceView, Choices, MoveCategory};
use crate::combine::{combined, position_of};
use crate::damage_calc::{damage_amounts, DamageRolls};
use crate::generate_instructions::{staged, Stage};
use crate::half_turn::{
    damage_steps, held_back, hitting, missing, move_blocked, move_modified, proceeding,
    updated_choice, FULLY_PARALYZED, WAKE_UP,
};
use crate::instruction::{ChangeStatusInstruction, DamageInstruction, Instruction, CERTAIN};
use crate::items::{item_modified_attack_against, item_modified_attack_being_used, Items};
use crate::moves::{
    damage_split, free_branches, hit_branches, hit_or_miss_branches, move_branches,
    used_move_branches,
};
use crate::state::{
    Pokemon, PokemonStatus, PokemonType, PokemonVolatileStatus, Side, SideReference, State,
};
use crate::steps::{run, Step};

verus! {

/// Whether the choice is a plain attack, as a tackle is: a move of the
/// normal type that cannot miss and does nothing but deal damage.
pub open spec fn plain(choice: ChoiceView) -> bool {
    &&& choice.move_id == Choices::TACKLE
    &&& choice.category == MoveCategory::Physical
    &&& choice.move_type == PokemonType::Normal
    &&& choice.accuracy >= 100
    &&& choice.boost is None
    &&& choice.heal is None
    &&& choice.status is None
    &&& choice.volatile_status is None
    &&& choice.side_condition is None
    &&& choice.drain is None
    &&& choice.recoil is None
    &&& choice.crash is None
    &&& !choice.flags.drag
    &&& !choice.flags.powder
}

/// Whether neither the attacker nor the defender has an ability or an
/// item, and the attacker has neither flinched nor is taunted.
pub open spec fn unaided(s: State, attacking_side: SideReference) -> bool {
    let attacker = s.active(attacking_side);
    let defender = s.active(attacking_side.other());
    &&& attacker.ability == Abilities::NONE
    &&& attacker.item == Items::NONE
    &&& defender.ability == Abilities::NONE
    &&& defender.item == Items::NONE
    &&& !attacker.volatile_statuses.has(PokemonVolatileStatus::Flinch)
    &&& !attacker.volatile_statuses.has(PokemonVolatileStatus::Taunt)
}

/// The damage of `amount` on the side that is attacked.
pub open spec fn hit_for(attacking_side: SideReference, amount: i16) -> Instruction {
    Instruction::Damage(
        DamageInstruction { side_ref: attacking_side.other(), damage_amount: amount },
    )
}

/// The branch that all is certain in and nothing has happened in.
pub open spec fn certain() -> Branch {
    Branch { percentage: CERTAIN as int, instructions: Seq::empty() }
}

/// No stage adds anything to a plain attack.
pub proof fn plain_stage_adds_nothing(
    stage: Stage,
    s: State,
    choice: ChoiceView,
    attacking_side: SideReference,
)
    requires
        plain(choice),
    ensures
        stage.instructions(s, choice, attacking_side) == Seq::<Instruction>::empty(),
{
    assert(stage.steps(s, choice, attacking_side) =~= Seq::<Step>::empty());
}

/// A plain attack that does not take the last hit points of its target
/// records its damage and nothing else.
pub proof fn plain_damage_is_recorded(
    s: State,
    choice: ChoiceView,
    attacking_side: SideReference,
    amount: i16,
)
    requires
        plain(choice),
        unaided(s, attacking_side),
        0 < amount < s.active(attacking_side.other()).hp,
    ensures
        run(s, damage_steps(s, choice, attacking_side, amount)) == seq![
            hit_for(attacking_side, amount),
        ],
{
    let steps = damage_steps(s, choice, attacking_side, amount);
    let step = Step::Damage { side_ref: attacking_side.other(), amount };
    assert(steps =~= seq![step]);
    assert(steps.drop_last() =~= Seq::<Step>::empty());
    assert(run(s, steps.drop_last()) =~= Seq::<Instruction>::empty());
    assert(s.apply_all(Seq::<Instruction>::empty()) == s);
    assert(run(s, steps) =~= seq![hit_for(attacking_side, amount)]);
}

/// A stage leaves the one branch of a plain attack as it is.
pub proof fn plain_stage_keeps_branch(
    stage: Stage,
    s: State,
    choice: ChoiceView,
    attacking_side: SideReference,
    done: Branch,
)
    requires
        plain(choice),
    ensures
        staged(stage, s, choice, attacking_side, seq![done]) == seq![done],
{
    plain_stage_adds_nothing(stage, s.apply_all(done.instructions), choice, attacking_side);
    assert(done.instructions + Seq::<Instruction>::empty() =~= done.instructions);
    assert(staged(stage, s, choice, attacking_side, seq![done]) =~= seq![done]);
}

/// The damage of a plain attack with one amount splits the hit into one
/// branch: the hit, and its damage.
pub proof fn plain_damage_is_one_branch(
    s: State,
    choice: ChoiceView,
    attacking_side: SideReference,
    hit: Branch,
    amount: i16,
)
    requires
        plain(choice),
        unaided(s.apply_all(hit.instructions), attacking_side),
        0 < amount < s.apply_all(hit.instructions).active(attacking_side.other()).hp,
    ensures
        damage_split(s, choice, attacking_side, hit, seq![amount]) == seq![
            hit.followed_by(seq![hit_for(attacking_side, amount)]),
        ],
{
    plain_damage_is_recorded(s.apply_all(hit.instructions), choice, attacking_side, amount);
    assert(hit.weighing(hit.percentage) == hit);
    assert(damage_split(s, choice, attacking_side, hit, seq![amount]) =~= seq![
        hit.followed_by(seq![hit_for(attacking_side, amount)]),
    ]);
}

/// A plain attack that hits gives one branch: the hit, and its damage.
pub proof fn plain_hit_is_one_branch(
    s: State,
    choice: ChoiceView,
    attacking_side: SideReference,
    hit: Branch,
    amount: i16,
)
    requires
        plain(choice),
        unaided(s.apply_all(hit.instructions), attacking_side),
        0 < amount < s.apply_all(hit.instructions).active(attacking_side.other()).hp,
    ensures
        hit_branches(s, choice, attacking_side, hit, Some(seq![amount])) == seq![
            hit.followed_by(seq![hit_for(attacking_side, amount)]),
        ],
{
    reveal(hit_branches);
    let done = hit.followed_by(seq![hit_for(attacking_side, amount)]);
    plain_damage_is_one_branch(s, choice, attacking_side, hit, amount);
    plain_stage_keeps_branch(Stage::SideConditions, s, choice, attacking_side, done);
    plain_stage_keeps_branch(Stage::HazardClearing, s, choice, attacking_side, done);
    plain_stage_keeps_branch(Stage::VolatileStatuses, s, choice, attacking_side, done);
    plain_stage_keeps_branch(Stage::StatusEffects, s, choice, attacking_side, done);
    plain_stage_keeps_branch(Stage::Boosts, s, choice, attacking_side, done);
    plain_stage_keeps_branch(Stage::Heal, s, choice, attacking_side, done);
}

/// The abilities and the items of creatures that have none leave a plain
/// attack as it is, and nothing is done before it.
pub proof fn plain_choice_stays(s: State, choice: ChoiceView, attacking_side: SideReference)
    requires
        plain(choice),
        unaided(s, attacking_side),
    ensures
        updated_choice(s, choice, attacking_side) == choice,
        run(s, ability_before_move_steps(s, choice, attacking_side)) == Seq::<Instruction>::empty(),
{
    let moved = move_modified(s, choice, attacking_side);
    assert(moved == choice);
    let used = ability_modified_attack_being_used(s, moved, attacking_side);
    assert(used == choice);
    let against = ability_modified_attack_against(s, used, attacking_side);
    assert(against == choice);
    let held = item_modified_attack_being_used(s, against, attacking_side);
    assert(held == choice);
    assert(item_modified_attack_against(s, held, attacking_side) == choice);
    assert(ability_before_move_steps(s, choice, attacking_side) =~= Seq::<Step>::empty());
}

/// A plain attack by a creature that gets to move gives one branch: the
/// branch that it proceeds in, and its damage.
pub proof fn plain_use_is_one_branch(
    s: State,
    choice: ChoiceView,
    attacking_side: SideReference,
    proceed: Branch,
    amount: i16,
)
    requires
        plain(choice),
        0 <= proceed.percentage,
        unaided(s.apply_all(proceed.instructions), attacking_side),
        0 < amount < s.apply_all(proceed.instructions).active(attacking_side.other()).hp,
    ensures
        free_branches(s, choice, attacking_side, proceed, Some(seq![amount])) == seq![
            proceed.followed_by(seq![hit_for(attacking_side, amount)]),
        ],
{
    reveal(free_branches);
    reveal(hit_or_miss_branches);
    let positioned = s.apply_all(proceed.instructions);
    assert(!move_blocked(positioned, choice, attacking_side));
    plain_stage_adds_nothing(Stage::SpecialEffect, positioned, choice, attacking_side);
    assert(proceed.instructions + Seq::<Instruction>::empty() =~= proceed.instructions);
    let special = proceed.followed_by(Seq::<Instruction>::empty());
    assert(special == proceed);
    assert(missing(s, choice, attacking_side, special) =~= Seq::<Branch>::empty());
    assert(share_of(proceed.percentage, 100, 100) == proceed.percentage);
    assert(hitting(choice, special) == Some(proceed));
    plain_hit_is_one_branch(s, choice, attacking_side, proceed, amount);
    assert(Seq::<Branch>::empty() + seq![
        proceed.followed_by(seq![hit_for(attacking_side, amount)]),
    ] =~= seq![proceed.followed_by(seq![hit_for(attacking_side, amount)])]);
}

/// The instruction that cures the status of the active creature of a side.
pub open spec fn cure_of(s: State, side_ref: SideReference) -> Instruction {
    Instruction::ChangeStatus(
        ChangeStatusInstruction {
            side_ref,
            pokemon_index: s.side(side_ref).active_index,
            old_status: s.active(side_ref).status,
            new_status: PokemonStatus::NONE,
        },
    )
}

/// Curing the status of a creature changes nothing else: the creature is
/// what it was but for its status, and the other side is as it was.
pub proof fn cure_changes_the_status_only(s: State, side_ref: SideReference)
    ensures
        s.apply_all(seq![cure_of(s, side_ref)]).active(side_ref) == (Pokemon {
            status: PokemonStatus::NONE,
            ..s.active(side_ref)
        }),
        s.apply_all(seq![cure_of(s, side_ref)]).active(side_ref.other()) == s.active(
            side_ref.other(),
        ),
        run(s, seq![Step::SetStatus { side_ref, status: PokemonStatus::NONE }]) == seq![
            cure_of(s, side_ref),
        ],
{
    reveal(Side::after_change_status);
    let list = seq![cure_of(s, side_ref)];
    assert(list.drop_last() =~= Seq::<Instruction>::empty());
    assert(s.apply_all(list.drop_last()) == s);
    assert(s.apply_all(list) == s.apply_one(cure_of(s, side_ref)));
    let steps = seq![Step::SetStatus { side_ref, status: PokemonStatus::NONE }];
    assert(steps.drop_last() =~= Seq::<Step>::empty());
    assert(run(s, steps.drop_last()) =~= Seq::<Instruction>::empty());
    assert(run(s, steps) =~= seq![cure_of(s, side_ref)]);
}

/// Two branches with different instructions are not combined.
pub proof fn two_branches_stay_two(first: Branch, second: Branch)
    requires
        first.instructions != second.instructions,
    ensures
        combined(seq![first, second]) == seq![first, second],
{
    let both = seq![first, second];
    let one = seq![first];
    assert(both.drop_last() =~= one);
    assert(one.drop_last() =~= Seq::<Branch>::empty());
    assert(combined(Seq::<Branch>::empty()) =~= Seq::<Branch>::empty());
    assert(position_of(Seq::<Branch>::empty(), first.instructions) == -1);
    assert(combined(one) =~= one);
    assert(position_of(Seq::<Branch>::empty(), second.instructions) == -1);
    assert(position_of(one, second.instructions) == -1);
    assert(combined(both) =~= both);
}

/// The branches of a plain attack are those of its use, combined: the
/// choice stays as it is, nothing is done before it, and its damage is the
/// one amount of the average roll.
pub proof fn plain_move_is_its_use(
    s: State,
    choice: ChoiceView,
    attacking_side: SideReference,
    amount: i16,
)
    requires
        plain(choice),
        unaided(s, attacking_side),
        s.active(attacking_side).hp > 0,
        damage_amounts(s, attacking_side, choice, DamageRolls::Average) == Some(seq![amount]),
    ensures
        move_branches(s, choice, attacking_side, certain()) == combined(
            used_move_branches(s, choice, attacking_side, certain(), Some(seq![amount])),
        ),
{
    let nothing = Seq::<Instruction>::empty();
    assert(certain().instructions =~= nothing);
    assert(s.apply_all(nothing) == s);
    plain_choice_stays(s, choice, attacking_side);
    assert(nothing + nothing =~= nothing);
    assert(certain().followed_by(nothing) == certain());
}

/// The branch in which a creature with a status does not get to move.
pub open spec fn held(percentage: int) -> Branch {
    Branch { percentage, instructions: Seq::empty() }
}

/// The status split of a sleeping attacker on the certain branch.
pub proof fn sleep_splits(s: State, attacking_side: SideReference)
    requires
        s.active(attacking_side).status == PokemonStatus::Sleep,
    ensures
        held_back(s, attacking_side, certain()) == seq![held(67_000_000)],
        proceeding(s, attacking_side, certain()) == (Branch {
            percentage: 33_000_000,
            instructions: seq![cure_of(s, attacking_side)],
        }),
{
    let nothing = Seq::<Instruction>::empty();
    assert(certain().instructions =~= nothing);
    assert(s.apply_all(nothing) == s);
    cure_changes_the_status_only(s, attacking_side);
    assert(share_of(CERTAIN as int, WAKE_UP as int, 100) == 33_000_000);
    assert(held_back(s, attacking_side, certain()) =~= seq![held(67_000_000)]);
    assert(nothing + seq![cure_of(s, attacking_side)] =~= seq![cure_of(s, attacking_side)]);
}

/// The status split of a paralyzed attacker on the certain branch.
pub proof fn paralysis_splits(s: State, attacking_side: SideReference)
    requires
        s.active(attacking_side).status == PokemonStatus::Paralyze,
    ensures
        held_back(s, attacking_side, certain()) == seq![held(25_000_000)],
        proceeding(s, attacking_side, certain()) == held(75_000_000),
{
    let nothing = Seq::<Instruction>::empty();
    assert(certain().instructions =~= nothing);
    assert(s.apply_all(nothing) == s);
    assert(share_of(CERTAIN as int, FULLY_PARALYZED as int, 100) == 25_000_000);
    assert(held_back(s, attacking_side, certain()) =~= seq![held(25_000_000)]);
}

/// The branch in which a sleeping attacker has woken up and dealt the
/// damage of `amount`.
pub open spec fn woken_and_hit(s: State, attacking_side: SideReference, amount: i16) -> Branch {
    Branch {
        percentage: 33_000_000,
        instructions: seq![cure_of(s, attacking_side), hit_for(attacking_side, amount)],
    }
}

/// The branch in which a paralyzed attacker has dealt the damage of
/// `amount`.
pub open spec fn moved_and_hit(attacking_side: SideReference, amount: i16) -> Branch {
    Branch { percentage: 75_000_000, instructions: seq![hit_for(attacking_side, amount)] }
}

/// The use of a plain attack by a creature that sleeps, on the certain
/// branch: the branch in which it sleeps on, and the branch in which it
/// wakes up and deals its damage.
pub proof fn sleeping_use(s: State, choice: ChoiceView, attacking_side: SideReference, amount: i16)
    requires
        plain(choice),
        unaided(s, attacking_side),
        s.active(attacking_side).status == PokemonStatus::Sleep,
        0 < amount < s.active(attacking_side.other()).hp,
    ensures
        used_move_branches(s, choice, attacking_side, certain(), Some(seq![amount])) == seq![
            held(67_000_000),
            woken_and_hit(s, attacking_side, amount),
        ],
{
    reveal(used_move_branches);
    let proceed = Branch { percentage: 33_000_000, instructions: seq![cure_of(s, attacking_side)] };
    let done = woken_and_hit(s, attacking_side, amount);
    sleep_splits(s, attacking_side);
    cure_changes_the_status_only(s, attacking_side);
    plain_use_is_one_branch(s, choice, attacking_side, proceed, amount);
    assert(proceed.instructions + seq![hit_for(attacking_side, amount)] =~= done.instructions);
    assert(seq![held(67_000_000)] + seq![done] =~= seq![held(67_000_000), done]);
}

/// The use of a plain attack by a creature that is paralyzed, on the
/// certain branch: the branch in which it cannot move, and the branch in
/// which it deals its damage.
pub proof fn paralyzed_use(s: State, choice: ChoiceView, attacking_side: SideReference, amount: i16)
    requires
        plain(choice),
        unaided(s, attacking_side),
        s.active(attacking_side).status == PokemonStatus::Paralyze,
        0 < amount < s.active(attacking_side.other()).hp,
    ensures
        used_move_branches(s, choice, attacking_side, certain(), Some(seq![amount])) == seq![
            held(25_000_000),
            moved_and_hit(attacking_side, amount),
        ],
{
    reveal(used_move_branches);
    let proceed = held(75_000_000);
    let done = moved_and_hit(attacking_side, amount);
    paralysis_splits(s, attacking_side);
    assert(proceed.instructions =~= Seq::<Instruction>::empty());
    assert(s.apply_all(proceed.instructions) == s);
    plain_use_is_one_branch(s, choice, attacking_side, proceed, amount);
    assert(proceed.instructions + seq![hit_for(attacking_side, amount)] =~= done.instructions);
    assert(seq![held(25_000_000)] + seq![done] =~= seq![held(25_000_000), done]);
}

/// A plain attack by a creature that sleeps, over every state: in 67 of a
/// hundred cases nothing happens, and in 33 the creature wakes up and
/// deals its damage. The attacker has hit points, neither side has an
/// ability or an item, and the one amount of the damage of the attack is
/// less than the hit points of the target.
pub proof fn sleeping_attacker_wakes_up_or_not(
    s: State,
    choice: ChoiceView,
    attacking_side: SideReference,
    amount: i16,
)
    requires
        plain(choice),
        unaided(s, attacking_side),
        s.active(attacking_side).status == PokemonStatus::Sleep,
        s.active(attacking_side).hp > 0,
        damage_amounts(s, attacking_side, choice, DamageRolls::Average) == Some(seq![amount]),
        0 < amount < s.active(attacking_side.other()).hp,
    ensures
        move_branches(s, choice, attacking_side, certain()) == seq![
            held(67_000_000),
            woken_and_hit(s, attacking_side, amount),
        ],
{
    plain_move_is_its_use(s, choice, attacking_side, amount);
    sleeping_use(s, choice, attacking_side, amount);
    let done = woken_and_hit(s, attacking_side, amount);
    assert(held(67_000_000).instructions.len() != done.instructions.len());
    two_branches_stay_two(held(67_000_000), done);
}

/// A plain attack by a creature that is paralyzed, over every state: in 25
/// of a hundred cases nothing happens, and in 75 the creature deals its
/// damage; its status stays. The attacker has hit points, neither side has
/// an ability or an item, and the one amount of the damage of the attack
/// is less than the hit points of the target.
pub proof fn paralyzed_attacker_moves_or_not(
    s: State,
    choice: ChoiceView,
    attacking_side: SideReference,
    amount: i16,
)
    requires
        plain(choice),
        unaided(s, attacking_side),
        s.active(attacking_side).status == PokemonStatus::Paralyze,
        s.active(attacking_side).hp > 0,
        damage_amounts(s, attacking_side, choice, DamageRolls::Average) == Some(seq![amount]),
        0 < amount < s.active(attacking_side.other()).hp,
    ensures
        move_branches(s, choice, attacking_side, certain()) == seq![
            held(25_000_000),
            moved_and_hit(attacking_side, amount),
        ],
{
    plain_move_is_its_use(s, choice, attacking_side, amount);
    paralyzed_use(s, choice, attacking_side, amount);
    let done = moved_and_hit(attacking_side, amount);
    assert(held(25_000_000).instructions.len() != done.instructions.len());
    two_branches_stay_two(held(25_000_000), done);
}

} // verus!
