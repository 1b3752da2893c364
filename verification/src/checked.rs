//! The checked way into the engine: a turn is generated only for a state
//! within its bounds and for choices that the state offers.

use vstd::prelude::*;
use crate::accessors::boost_in_bounds;
use crate::branches::{all_fit, all_in_bounds, all_undone, branches, total};
use crate::instruction::{StateInstructions, CERTAIN};
use crate::options::side_options;
use crate::perform::side_condition_cap;
use crate::state::{
    MoveChoice, Pokemon, PokemonIndex, PokemonSideCondition, Side, SideConditions,
    SideReference, State, MAX_BOOST, MIN_BOOST,
};
use crate::turn::{generate_instructions_from_move_pair, turn_branches, MoveTable};

verus! {

/// What the engine refuses.
#[derive(Clone, Copy, Debug, PartialEq, Eq, Structural)]
pub enum EngineError {
    /// The state is outside of its bounds.
    InvariantViolation,
    /// The choice of this side is none that the state offers.
    IllegalChoice(SideReference),
    /// The text of a state is malformed, or a value that it writes is out
    /// of its range.
    StateParseError,
    /// A text names an ability, an item or a move that is not known.
    UnknownIdentifier,
    /// An argument of a command is out of its range.
    IllegalArgument,
}

fn stage_in_bounds(stage: i8) -> (r: bool)
    ensures
        r == boost_in_bounds(stage),
{
    MIN_BOOST <= stage && stage <= MAX_BOOST
}

fn count_in_bounds(conditions: &SideConditions, condition: PokemonSideCondition) -> (r: bool)
    ensures
        r == (0 <= conditions.value(condition) <= condition.cap()),
{
    let count = conditions.get(condition);
    0 <= count && count <= side_condition_cap(condition)
}

impl Pokemon {
    /// Whether the creature is within its bounds.
    pub fn is_in_bounds(&self) -> (r: bool)
        ensures
            r == self.in_bounds(),
    {
        0 <= self.hp && self.hp <= self.maxhp && stage_in_bounds(self.attack_boost)
            && stage_in_bounds(self.defense_boost) && stage_in_bounds(self.special_attack_boost)
            && stage_in_bounds(self.special_defense_boost) && stage_in_bounds(self.speed_boost)
            && stage_in_bounds(self.accuracy_boost) && stage_in_bounds(self.evasion_boost)
    }
}

impl SideConditions {
    /// Whether no count is below zero or above the cap of its condition.
    pub fn is_in_bounds(&self) -> (r: bool)
        ensures
            r == self.in_bounds(),
    {
        let r = count_in_bounds(self, PokemonSideCondition::AuroraVeil) && count_in_bounds(
            self,
            PokemonSideCondition::CraftyShield,
        ) && count_in_bounds(self, PokemonSideCondition::HealingWish) && count_in_bounds(
            self,
            PokemonSideCondition::LightScreen,
        ) && count_in_bounds(self, PokemonSideCondition::LuckyChant) && count_in_bounds(
            self,
            PokemonSideCondition::LunarDance,
        ) && count_in_bounds(self, PokemonSideCondition::MatBlock) && count_in_bounds(
            self,
            PokemonSideCondition::Mist,
        ) && count_in_bounds(self, PokemonSideCondition::Protect) && count_in_bounds(
            self,
            PokemonSideCondition::QuickGuard,
        ) && count_in_bounds(self, PokemonSideCondition::Reflect) && count_in_bounds(
            self,
            PokemonSideCondition::Safeguard,
        ) && count_in_bounds(self, PokemonSideCondition::Spikes) && count_in_bounds(
            self,
            PokemonSideCondition::Stealthrock,
        ) && count_in_bounds(self, PokemonSideCondition::StickyWeb) && count_in_bounds(
            self,
            PokemonSideCondition::Tailwind,
        ) && count_in_bounds(self, PokemonSideCondition::ToxicCount) && count_in_bounds(
            self,
            PokemonSideCondition::ToxicSpikes,
        ) && count_in_bounds(self, PokemonSideCondition::WideGuard);
        proof {
            if r {
                assert forall|condition: PokemonSideCondition|
                    0 <= #[trigger] self.value(condition) <= condition.cap() by {
                    match condition {
                        PokemonSideCondition::AuroraVeil => {},
                        PokemonSideCondition::CraftyShield => {},
                        PokemonSideCondition::HealingWish => {},
                        PokemonSideCondition::LightScreen => {},
                        PokemonSideCondition::LuckyChant => {},
                        PokemonSideCondition::LunarDance => {},
                        PokemonSideCondition::MatBlock => {},
                        PokemonSideCondition::Mist => {},
                        PokemonSideCondition::Protect => {},
                        PokemonSideCondition::QuickGuard => {},
                        PokemonSideCondition::Reflect => {},
                        PokemonSideCondition::Safeguard => {},
                        PokemonSideCondition::Spikes => {},
                        PokemonSideCondition::Stealthrock => {},
                        PokemonSideCondition::StickyWeb => {},
                        PokemonSideCondition::Tailwind => {},
                        PokemonSideCondition::ToxicCount => {},
                        PokemonSideCondition::ToxicSpikes => {},
                        PokemonSideCondition::WideGuard => {},
                    }
                }
            }
        }
        r
    }
}

impl Side {
    /// Whether every creature of the side and its conditions are within
    /// their bounds.
    pub fn is_in_bounds(&self) -> (r: bool)
        ensures
            r == self.in_bounds(),
    {
        let mut i: usize = 0;
        while i < 6
            invariant
                i <= 6,
                forall|index: PokemonIndex|
                    index.number() < i ==> (#[trigger] self.at(index)).in_bounds(),
            decreases 6 - i,
        {
            let index = PokemonIndex::from_usize(i).unwrap();
            if !self.get_pokemon(index).is_in_bounds() {
                return false;
            }
            i += 1;
        }
        self.side_conditions.is_in_bounds()
    }
}

impl State {
    /// Whether the state is within its bounds.
    pub fn is_in_bounds(&self) -> (r: bool)
        ensures
            r == self.in_bounds(),
    {
        self.side_one.is_in_bounds() && self.side_two.is_in_bounds()
    }
}

/// Whether `choice` is among `options`.
pub fn offers(options: &Vec<MoveChoice>, choice: &MoveChoice) -> (r: bool)
    ensures
        r == options@.contains(*choice),
{
    let mut i: usize = 0;
    while i < options.len()
        invariant
            i <= options.len(),
            forall|j: int| 0 <= j < i ==> options@[j] != *choice,
        decreases options.len() - i,
    {
        if options[i] == *choice {
            return true;
        }
        i += 1;
    }
    false
}

/// What is wrong with a state and a pair of choices, if anything is: the
/// state is outside of its bounds; or else the choice of the first side is
/// none that the state offers it; or else that of the second side is none
/// that the state offers it.
pub open spec fn refusal(s: State, side_one_move: MoveChoice, side_two_move: MoveChoice) -> Option<
    EngineError,
> {
    if !s.in_bounds() {
        Some(EngineError::InvariantViolation)
    } else if !side_options(s, SideReference::SideOne).contains(side_one_move) {
        Some(EngineError::IllegalChoice(SideReference::SideOne))
    } else if !side_options(s, SideReference::SideTwo).contains(side_two_move) {
        Some(EngineError::IllegalChoice(SideReference::SideTwo))
    } else {
        None
    }
}

/// The branches of a turn, for a state within its bounds and choices that
/// the state offers; for anything else, what is wrong with it. The state is
/// left as it was.
pub fn generate_instructions_from_choices(
    state: &mut State,
    side_one_move: &MoveChoice,
    side_two_move: &MoveChoice,
    moves: &MoveTable,
) -> (r: Result<Vec<StateInstructions>, EngineError>)
    ensures
        *final(state) == *old(state),
        match r {
            Ok(list) => {
                &&& refusal(*old(state), *side_one_move, *side_two_move).is_none()
                &&& branches(list@) == turn_branches(
                    *old(state),
                    *moves,
                    *side_one_move,
                    *side_two_move,
                )
                &&& all_fit(*old(state), branches(list@))
                &&& all_undone(*old(state), branches(list@))
                &&& all_in_bounds(*old(state), branches(list@))
                &&& total(branches(list@)) == CERTAIN
            },
            Err(error) => refusal(*old(state), *side_one_move, *side_two_move) == Some(error),
        },
{
    if !state.is_in_bounds() {
        return Err(EngineError::InvariantViolation);
    }
    let (side_one_options, side_two_options) = state.get_all_options();
    if !offers(&side_one_options, side_one_move) {
        return Err(EngineError::IllegalChoice(SideReference::SideOne));
    }
    if !offers(&side_two_options, side_two_move) {
        return Err(EngineError::IllegalChoice(SideReference::SideTwo));
    }
    Ok(generate_instructions_from_move_pair(state, side_one_move, side_two_move, moves))
}

} // verus!
