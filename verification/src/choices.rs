//! What a side may choose in a turn: the description of a move as the
//! instruction generator reads it.
//!
//! Quantities that are fractions are carried as integers:
//! `base_power` in thousandths of a point, `accuracy` and a secondary's
//! `chance` in whole percent, and the fractions of drain, recoil, crash and
//! heal in thousandths (per mille).

use vstd::prelude::*;
use crate::state::{
    PokemonIndex, PokemonSideCondition, PokemonStatus, PokemonType, PokemonVolatileStatus,
};

verus! {

/// One point of base power, in the unit of `Choice::base_power`.
pub const BASE_POWER_POINT: u32 = 1000;

/// The whole of a quantity, in the unit of the per-mille fractions.
pub const WHOLE: i16 = 1000;

/// The identifiers of the moves this crate knows by name.
#[allow(non_camel_case_types)]
#[derive(Clone, Copy, Debug, PartialEq, Eq, Structural)]
pub enum Choices {
    NONE,
    ABSORB,
    ACROBATICS,
    AQUARING,
    ATTRACT,
    AURORAVEIL,
    BRAVEBIRD,
    CEASELESSEDGE,
    CHARM,
    COURTCHANGE,
    CROSSCHOP,
    DEFOG,
    DRAGONTAIL,
    EARTHQUAKE,
    EXPLOSION,
    FACADE,
    GLARE,
    HAIL,
    HEX,
    JUMPKICK,
    KINESIS,
    KNOCKOFF,
    LEECHSEED,
    LIGHTSCREEN,
    MORTALSPIN,
    RAINDANCE,
    RAPIDSPIN,
    RECOVER,
    REFLECT,
    REST,
    SAFEGUARD,
    SANDSTORM,
    SHELLSMASH,
    SPIKES,
    SPORE,
    STEALTHROCK,
    STICKYWEB,
    STONEAXE,
    SUBSTITUTE,
    SUNNYDAY,
    SWORDSDANCE,
    TACKLE,
    TAILWIND,
    TAUNT,
    THOUSANDARROWS,
    THUNDERBOLT,
    THUNDERWAVE,
    TOXICSPIKES,
    UTURN,
    WHIRLWIND,
    WISH,
    ZAPCANNON,
}

#[derive(Clone, Copy, Debug, PartialEq, Eq, Structural)]
pub enum MoveCategory {
    Physical,
    Special,
    Status,
    Switch,
}

#[derive(Clone, Copy, Debug, PartialEq, Eq, Structural)]
pub enum MoveTarget {
    User,
    Opponent,
}

#[derive(Clone, Copy, Debug, PartialEq, Eq, Structural)]
pub struct Flags {
    pub contact: bool,
    pub drag: bool,
    pub heal: bool,
    pub powder: bool,
    pub protect: bool,
    pub punch: bool,
    pub sound: bool,
}

#[derive(Clone, Copy, Debug, PartialEq, Eq, Structural)]
pub struct StatBoosts {
    pub attack: i8,
    pub defense: i8,
    pub special_attack: i8,
    pub special_defense: i8,
    pub speed: i8,
    pub accuracy: i8,
}

#[derive(Clone, Copy, Debug, PartialEq, Eq, Structural)]
pub struct Boost {
    pub target: MoveTarget,
    pub boosts: StatBoosts,
}

/// A heal of `amount` thousandths of the target's maximum hit points;
/// a negative amount is damage the user does to itself.
#[derive(Clone, Copy, Debug, PartialEq, Eq, Structural)]
pub struct Heal {
    pub target: MoveTarget,
    pub amount: i16,
}

#[derive(Clone, Copy, Debug, PartialEq, Eq, Structural)]
pub struct Status {
    pub target: MoveTarget,
    pub status: PokemonStatus,
}

#[derive(Clone, Copy, Debug, PartialEq, Eq, Structural)]
pub struct VolatileStatus {
    pub target: MoveTarget,
    pub volatile_status: PokemonVolatileStatus,
}

#[derive(Clone, Copy, Debug, PartialEq, Eq, Structural)]
pub struct SideCondition {
    pub target: MoveTarget,
    pub condition: PokemonSideCondition,
}

#[derive(Clone, Copy, Debug, PartialEq, Eq, Structural)]
pub enum Effect {
    VolatileStatus(PokemonVolatileStatus),
    Boost(StatBoosts),
    Status(PokemonStatus),
    /// Thousandths of the target's maximum hit points.
    Heal(i16),
    RemoveItem,
}

#[derive(Clone, Copy, Debug, PartialEq, Eq, Structural)]
pub struct Secondary {
    /// Whole percent.
    pub chance: u8,
    pub target: MoveTarget,
    pub effect: Effect,
}

/// `power` times `numerator` over `denominator`, rounded down and
/// saturating at the most that a base power can be.
pub open spec fn scaled_power(power: u32, numerator: int, denominator: int) -> u32 {
    let product = power * numerator / denominator;
    if product > u32::MAX {
        u32::MAX
    } else {
        product as u32
    }
}

pub fn scale_power(power: u32, numerator: u32, denominator: u32) -> (r: u32)
    requires
        denominator > 0,
    ensures
        r == scaled_power(power, numerator as int, denominator as int),
{
    assert(0 <= power * numerator <= 0xffff_ffff * 0xffff_ffff) by (nonlinear_arith)
        requires
            0 <= power <= 0xffff_ffff,
            0 <= numerator <= 0xffff_ffff,
    ;
    let product: u64 = (power as u64) * (numerator as u64) / (denominator as u64);
    if product > u32::MAX as u64 {
        u32::MAX
    } else {
        product as u32
    }
}

/// The description of one move, or of a switch, as chosen for a turn.
#[derive(Clone, Debug, PartialEq, Eq)]
pub struct Choice {
    pub move_id: Choices,
    /// The creature to bring in, where `category` is `Switch`.
    pub switch_id: PokemonIndex,
    pub move_type: PokemonType,
    /// Whole percent; 100 or more never misses.
    pub accuracy: u8,
    pub category: MoveCategory,
    /// Thousandths of a point.
    pub base_power: u32,
    pub boost: Option<Boost>,
    pub priority: i8,
    pub flags: Flags,
    /// Thousandths of the damage dealt that the user recovers.
    pub drain: Option<i16>,
    /// Thousandths of the damage dealt that the user takes.
    pub recoil: Option<i16>,
    /// Thousandths of its maximum hit points that the user loses on a miss.
    pub crash: Option<i16>,
    pub heal: Option<Heal>,
    pub status: Option<Status>,
    pub volatile_status: Option<VolatileStatus>,
    pub side_condition: Option<SideCondition>,
    /// The secondary effects, in the order in which they were added.
    pub secondaries: Vec<Secondary>,
    pub target: MoveTarget,
    /// Whether this choice is the first to be carried out in its turn.
    pub first_move: bool,
}

/// A choice as a plain value: what it holds, with its secondaries as a
/// list.
pub struct ChoiceView {
    pub move_id: Choices,
    /// The creature to bring in, where `category` is `Switch`.
    pub switch_id: PokemonIndex,
    pub move_type: PokemonType,
    /// Whole percent; 100 or more never misses.
    pub accuracy: u8,
    pub category: MoveCategory,
    /// Thousandths of a point.
    pub base_power: u32,
    pub boost: Option<Boost>,
    pub priority: i8,
    pub flags: Flags,
    /// Thousandths of the damage dealt that the user recovers.
    pub drain: Option<i16>,
    /// Thousandths of the damage dealt that the user takes.
    pub recoil: Option<i16>,
    /// Thousandths of its maximum hit points that the user loses on a miss.
    pub crash: Option<i16>,
    pub heal: Option<Heal>,
    pub status: Option<Status>,
    pub volatile_status: Option<VolatileStatus>,
    pub side_condition: Option<SideCondition>,
    /// The secondary effects, in the order in which they were added.
    pub secondaries: Seq<Secondary>,
    pub target: MoveTarget,
    /// Whether this choice is the first to be carried out in its turn.
    pub first_move: bool,
}

impl View for Choice {
    type V = ChoiceView;

    open spec fn view(&self) -> ChoiceView {
        ChoiceView {
            move_id: self.move_id,
            switch_id: self.switch_id,
            move_type: self.move_type,
            accuracy: self.accuracy,
            category: self.category,
            base_power: self.base_power,
            boost: self.boost,
            priority: self.priority,
            flags: self.flags,
            drain: self.drain,
            recoil: self.recoil,
            crash: self.crash,
            heal: self.heal,
            status: self.status,
            volatile_status: self.volatile_status,
            side_condition: self.side_condition,
            secondaries: self.secondaries@,
            target: self.target,
            first_move: self.first_move,
        }
    }
}

impl Flags {
    /// No flag set.
    pub fn new() -> (r: Flags)
        ensures
            r == (Flags {
                contact: false,
                drag: false,
                heal: false,
                powder: false,
                protect: false,
                punch: false,
                sound: false,
            }),
    {
        Flags {
            contact: false,
            drag: false,
            heal: false,
            powder: false,
            protect: false,
            punch: false,
            sound: false,
        }
    }
}

/// A choice that may be there or not, as a plain value.
pub open spec fn described(choice: Option<Choice>) -> Option<ChoiceView> {
    match choice {
        Some(description) => Some(description@),
        None => None,
    }
}

impl ChoiceView {
    /// The choice that does nothing: a move of no power and no effect that
    /// always hits.
    pub open spec fn nothing() -> ChoiceView {
        ChoiceView {
            move_id: Choices::NONE,
            switch_id: PokemonIndex::P0,
            move_type: PokemonType::Normal,
            accuracy: 100,
            category: MoveCategory::Physical,
            base_power: 0,
            boost: None,
            priority: 0,
            flags: Flags {
                contact: false,
                drag: false,
                heal: false,
                powder: false,
                protect: false,
                punch: false,
                sound: false,
            },
            drain: None,
            recoil: None,
            crash: None,
            heal: None,
            status: None,
            volatile_status: None,
            side_condition: None,
            secondaries: Seq::empty(),
            target: MoveTarget::Opponent,
            first_move: true,
        }
    }

    /// The choice to switch to the creature at `index`.
    pub open spec fn switching_to(index: PokemonIndex) -> ChoiceView {
        ChoiceView { category: MoveCategory::Switch, switch_id: index, ..Self::nothing() }
    }

    /// This choice with `secondary` after its secondaries.
    pub open spec fn with_secondary(self, secondary: Secondary) -> ChoiceView {
        ChoiceView { secondaries: self.secondaries.push(secondary), ..self }
    }

    /// This choice with its base power times `numerator` over `denominator`.
    pub open spec fn with_power_scaled(self, numerator: int, denominator: int) -> ChoiceView {
        ChoiceView { base_power: scaled_power(self.base_power, numerator, denominator), ..self }
    }
}

impl Choice {
    /// The choice to switch to the creature at `index`.
    pub fn switch_to(index: PokemonIndex) -> (r: Choice)
        ensures
            r@ == ChoiceView::switching_to(index),
    {
        let mut choice = Choice::default();
        choice.category = MoveCategory::Switch;
        choice.switch_id = index;
        choice
    }

    /// A choice that holds what this one holds.
    pub fn duplicate(&self) -> (r: Choice)
        ensures
            r@ == self@,
    {
        let secondaries = self.secondaries.clone();
        assert(secondaries@ =~= self.secondaries@);
        Choice {
            move_id: self.move_id,
            switch_id: self.switch_id,
            move_type: self.move_type,
            accuracy: self.accuracy,
            category: self.category,
            base_power: self.base_power,
            boost: self.boost,
            priority: self.priority,
            flags: self.flags,
            drain: self.drain,
            recoil: self.recoil,
            crash: self.crash,
            heal: self.heal,
            status: self.status,
            volatile_status: self.volatile_status,
            side_condition: self.side_condition,
            secondaries,
            target: self.target,
            first_move: self.first_move,
        }
    }

    /// Appends a secondary effect to this choice.
    pub fn add_or_create_secondaries(&mut self, secondary: Secondary)
        ensures
            final(self)@ == old(self)@.with_secondary(secondary),
    {
        self.secondaries.push(secondary);
    }

    /// Multiplies the base power by `numerator` over `denominator`.
    pub fn scale_base_power(&mut self, numerator: u32, denominator: u32)
        requires
            denominator > 0,
        ensures
            final(self)@ == old(self)@.with_power_scaled(numerator as int, denominator as int),
    {
        self.base_power = scale_power(self.base_power, numerator, denominator);
    }
}

impl Default for Choice {
    fn default() -> (r: Choice)
        ensures
            r@ == ChoiceView::nothing(),
            r.move_id == Choices::NONE,
            r.switch_id == PokemonIndex::P0,
            r.move_type == PokemonType::Normal,
            r.accuracy == 100,
            r.category == MoveCategory::Physical,
            r.base_power == 0,
            r.boost.is_none(),
            r.priority == 0,
            r.flags == (Flags {
                contact: false,
                drag: false,
                heal: false,
                powder: false,
                protect: false,
                punch: false,
                sound: false,
            }),
            r.drain.is_none(),
            r.recoil.is_none(),
            r.crash.is_none(),
            r.heal.is_none(),
            r.status.is_none(),
            r.volatile_status.is_none(),
            r.side_condition.is_none(),
            r.secondaries@ == Seq::<Secondary>::empty(),
            r.target == MoveTarget::Opponent,
            r.first_move,
    {
        Choice {
            move_id: Choices::NONE,
            switch_id: PokemonIndex::P0,
            move_type: PokemonType::Normal,
            accuracy: 100,
            category: MoveCategory::Physical,
            base_power: 0,
            boost: None,
            priority: 0,
            flags: Flags::new(),
            drain: None,
            recoil: None,
            crash: None,
            heal: None,
            status: None,
            volatile_status: None,
            side_condition: None,
            secondaries: Vec::new(),
            target: MoveTarget::Opponent,
            first_move: true,
        }
    }
}

} // verus!
