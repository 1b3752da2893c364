//! The battle state: two sides of six creatures each, the weather, the
//! terrain and two flags.
//!
//! Every part of the state is plain data of fixed layout. A value of `State`
//! is its own mathematical model: the contracts of this crate speak of states
//! with `==`.

use vstd::prelude::*;
use crate::abilities::Abilities;
use crate::choices::{Choices, MoveCategory};
use crate::items::Items;

verus! {

/// The lowest stage a stat can be lowered to.
pub const MIN_BOOST: i8 = -6;

/// The highest stage a stat can be raised to.
pub const MAX_BOOST: i8 = 6;

#[derive(Clone, Copy, Debug, PartialEq, Eq, Structural)]
pub enum SideReference {
    SideOne,
    SideTwo,
}

/// The place of a creature on its side.
#[derive(Clone, Copy, Debug, PartialEq, Eq, Structural)]
pub enum PokemonIndex {
    P0,
    P1,
    P2,
    P3,
    P4,
    P5,
}

/// The place of a move among the moves of a creature.
#[derive(Clone, Copy, Debug, PartialEq, Eq, Structural)]
pub enum PokemonMoveIndex {
    M0,
    M1,
    M2,
    M3,
}

/// What a side does in a turn.
#[allow(non_camel_case_types)]
#[derive(Clone, Copy, Debug, PartialEq, Eq, Structural)]
pub enum MoveChoice {
    Move(PokemonMoveIndex),
    Switch(PokemonIndex),
    NONE,
}

/// What a side did in its last turn.
#[allow(non_camel_case_types)]
#[derive(Clone, Copy, Debug, PartialEq, Eq, Structural)]
pub enum LastUsedMove {
    Move(PokemonMoveIndex),
    Switch(PokemonIndex),
    NONE,
}

#[allow(non_camel_case_types)]
#[derive(Clone, Copy, Debug, PartialEq, Eq, Structural)]
pub enum PokemonStatus {
    NONE,
    Burn,
    Sleep,
    Freeze,
    Paralyze,
    Poison,
    Toxic,
}

#[derive(Clone, Copy, Debug, PartialEq, Eq, Structural)]
pub enum PokemonVolatileStatus {
    AquaRing,
    Attract,
    Confusion,
    Encore,
    Flinch,
    LeechSeed,
    PartiallyTrapped,
    Protect,
    Substitute,
    Taunt,
}

#[derive(Clone, Copy, Debug, PartialEq, Eq, Structural)]
pub enum PokemonSideCondition {
    AuroraVeil,
    CraftyShield,
    HealingWish,
    LightScreen,
    LuckyChant,
    LunarDance,
    MatBlock,
    Mist,
    Protect,
    QuickGuard,
    Reflect,
    Safeguard,
    Spikes,
    Stealthrock,
    StickyWeb,
    Tailwind,
    ToxicCount,
    ToxicSpikes,
    WideGuard,
}

#[derive(Clone, Copy, Debug, PartialEq, Eq, Structural)]
pub enum PokemonBoostableStat {
    Attack,
    Defense,
    SpecialAttack,
    SpecialDefense,
    Speed,
    Evasion,
    Accuracy,
}

#[derive(Clone, Copy, Debug, PartialEq, Eq, Structural)]
pub enum PokemonType {
    Normal,
    Fire,
    Water,
    Electric,
    Grass,
    Ice,
    Fighting,
    Poison,
    Ground,
    Flying,
    Psychic,
    Bug,
    Rock,
    GhostType,
    Dragon,
    Dark,
    Steel,
    Fairy,
    Typeless,
}

#[allow(non_camel_case_types)]
#[derive(Clone, Copy, Debug, PartialEq, Eq, Structural)]
pub enum Weather {
    NONE,
    Sun,
    Rain,
    Sand,
    Hail,
    HarshSun,
    HeavyRain,
}

#[allow(non_camel_case_types)]
#[derive(Clone, Copy, Debug, PartialEq, Eq, Structural)]
pub enum Terrain {
    NONE,
    ElectricTerrain,
    PsychicTerrain,
    MistyTerrain,
    GrassyTerrain,
}

/// The species this crate knows by name.
#[allow(non_camel_case_types)]
#[derive(Clone, Copy, Debug, PartialEq, Eq, Structural)]
pub enum PokemonName {
    NONE,
    BULBASAUR,
    CHARMANDER,
    CUBONE,
    DIALGA,
    GIRATINA,
    LATIAS,
    LATIOS,
    MAROWAK,
    MAROWAKALOLA,
    PALKIA,
    PIDGEY,
    PIKACHU,
    RATTATA,
    SQUIRTLE,
    WEEDLE,
}

/// One of the four moves of a creature.
#[derive(Clone, Copy, Debug, PartialEq, Eq, Structural)]
pub struct Move {
    pub id: Choices,
    pub disabled: bool,
    pub pp: i8,
    /// The category of the move, as the move table has it.
    pub category: MoveCategory,
}

/// The set of volatile statuses of a creature, one flag for each.
#[derive(Clone, Copy, Debug, PartialEq, Eq, Structural)]
pub struct VolatileStatuses {
    pub aqua_ring: bool,
    pub attract: bool,
    pub confusion: bool,
    pub encore: bool,
    pub flinch: bool,
    pub leech_seed: bool,
    pub partially_trapped: bool,
    pub protect: bool,
    pub substitute: bool,
    pub taunt: bool,
}

#[derive(Clone, Copy, Debug, PartialEq, Eq)]
pub struct Pokemon {
    pub id: PokemonName,
    pub level: i8,
    pub types: (PokemonType, PokemonType),
    pub hp: i16,
    pub maxhp: i16,
    pub ability: Abilities,
    pub item: Items,
    pub attack: i16,
    pub defense: i16,
    pub special_attack: i16,
    pub special_defense: i16,
    pub speed: i16,
    pub attack_boost: i8,
    pub defense_boost: i8,
    pub special_attack_boost: i8,
    pub special_defense_boost: i8,
    pub speed_boost: i8,
    pub accuracy_boost: i8,
    pub evasion_boost: i8,
    pub status: PokemonStatus,
    pub substitute_health: i16,
    pub volatile_statuses: VolatileStatuses,
    pub moves: [Move; 4],
}

/// The number of layers, or of turns left, of each condition of a side.
#[derive(Clone, Copy, Debug, PartialEq, Eq, Structural)]
pub struct SideConditions {
    pub aurora_veil: i8,
    pub crafty_shield: i8,
    pub healing_wish: i8,
    pub light_screen: i8,
    pub lucky_chant: i8,
    pub lunar_dance: i8,
    pub mat_block: i8,
    pub mist: i8,
    pub protect: i8,
    pub quick_guard: i8,
    pub reflect: i8,
    pub safeguard: i8,
    pub spikes: i8,
    pub stealth_rock: i8,
    pub sticky_web: i8,
    pub tailwind: i8,
    pub toxic_count: i8,
    pub toxic_spikes: i8,
    pub wide_guard: i8,
}

/// A wish that is under way: the turns until it heals, and by how much.
#[derive(Clone, Copy, Debug, PartialEq, Eq, Structural)]
pub struct Wish {
    pub turns_remaining: i8,
    pub heal_amount: i16,
}

#[derive(Clone, Copy, Debug, PartialEq, Eq)]
pub struct Side {
    pub active_index: PokemonIndex,
    pub pokemon: [Pokemon; 6],
    pub side_conditions: SideConditions,
    pub wish: Wish,
    pub force_trapped: bool,
    pub slow_uturn_move: bool,
    pub last_used_move: LastUsedMove,
}

#[derive(Clone, Copy, Debug, PartialEq, Eq, Structural)]
pub struct StateWeather {
    pub weather_type: Weather,
    pub turns_remaining: i8,
}

#[derive(Clone, Copy, Debug, PartialEq, Eq, Structural)]
pub struct StateTerrain {
    pub terrain_type: Terrain,
    pub turns_remaining: i8,
}

#[derive(Clone, Copy, Debug, PartialEq, Eq)]
pub struct State {
    pub side_one: Side,
    pub side_two: Side,
    pub weather: StateWeather,
    pub terrain: StateTerrain,
    pub trick_room: bool,
    pub team_preview: bool,
}

/// `value` brought into the range of `i16`.
pub open spec fn clip16(value: int) -> i16 {
    if value < i16::MIN {
        i16::MIN
    } else if value > i16::MAX {
        i16::MAX
    } else {
        value as i16
    }
}

/// `value` brought into the range of `i8`.
pub open spec fn clip8(value: int) -> i8 {
    if value < i8::MIN {
        i8::MIN
    } else if value > i8::MAX {
        i8::MAX
    } else {
        value as i8
    }
}

/// The sum of `a` and `b`, saturating at the ends of `i16`.
pub fn saturating_add16(a: i16, b: i16) -> (r: i16)
    ensures
        r == clip16(a + b),
{
    let wide: i32 = a as i32 + b as i32;
    if wide < i16::MIN as i32 {
        i16::MIN
    } else if wide > i16::MAX as i32 {
        i16::MAX
    } else {
        wide as i16
    }
}

/// The difference of `a` and `b`, saturating at the ends of `i16`.
pub fn saturating_sub16(a: i16, b: i16) -> (r: i16)
    ensures
        r == clip16(a - b),
{
    let wide: i32 = a as i32 - b as i32;
    if wide < i16::MIN as i32 {
        i16::MIN
    } else if wide > i16::MAX as i32 {
        i16::MAX
    } else {
        wide as i16
    }
}

/// The sum of `a` and `b`, saturating at the ends of `i8`.
pub fn saturating_add8(a: i8, b: i8) -> (r: i8)
    ensures
        r == clip8(a + b),
{
    let wide: i16 = a as i16 + b as i16;
    if wide < i8::MIN as i16 {
        i8::MIN
    } else if wide > i8::MAX as i16 {
        i8::MAX
    } else {
        wide as i8
    }
}

/// The difference of `a` and `b`, saturating at the ends of `i8`.
pub fn saturating_sub8(a: i8, b: i8) -> (r: i8)
    ensures
        r == clip8(a - b),
{
    let wide: i16 = a as i16 - b as i16;
    if wide < i8::MIN as i16 {
        i8::MIN
    } else if wide > i8::MAX as i16 {
        i8::MAX
    } else {
        wide as i8
    }
}

/// The quotient of `value` by `divisor`, rounded towards zero.
pub open spec fn quotient(value: int, divisor: int) -> int {
    if value >= 0 {
        value / divisor
    } else {
        -((-value) / divisor)
    }
}

/// The quotient of `value` by `divisor`, rounded towards zero.
pub fn divide(value: i16, divisor: i16) -> (r: i16)
    requires
        divisor > 0,
    ensures
        r == quotient(value as int, divisor as int),
{
    let wide: i32 = value as i32;
    let by: i32 = divisor as i32;
    if wide >= 0 {
        let q: i32 = wide / by;
        assert(0 <= (wide as int) / (by as int) <= wide) by (nonlinear_arith)
            requires
                wide >= 0,
                by > 0,
        ;
        q as i16
    } else {
        let q: i32 = (-wide) / by;
        assert(0 <= (-(wide as int)) / (by as int) <= -(wide as int)) by (nonlinear_arith)
            requires
                wide < 0,
                by > 0,
        ;
        (-q) as i16
    }
}

impl SideReference {
    pub open spec fn other(self) -> SideReference {
        match self {
            SideReference::SideOne => SideReference::SideTwo,
            SideReference::SideTwo => SideReference::SideOne,
        }
    }

    /// The side opposite to this one.
    pub fn get_other_side(&self) -> (r: SideReference)
        ensures
            r == self.other(),
    {
        match self {
            SideReference::SideOne => SideReference::SideTwo,
            SideReference::SideTwo => SideReference::SideOne,
        }
    }
}

impl PokemonIndex {
    /// The place as a number, from 0 to 5.
    pub open spec fn number(self) -> int {
        match self {
            PokemonIndex::P0 => 0,
            PokemonIndex::P1 => 1,
            PokemonIndex::P2 => 2,
            PokemonIndex::P3 => 3,
            PokemonIndex::P4 => 4,
            PokemonIndex::P5 => 5,
        }
    }

    /// The six places, in order.
    pub open spec fn all() -> Seq<PokemonIndex> {
        seq![
            PokemonIndex::P0,
            PokemonIndex::P1,
            PokemonIndex::P2,
            PokemonIndex::P3,
            PokemonIndex::P4,
            PokemonIndex::P5,
        ]
    }

    pub fn to_usize(&self) -> (r: usize)
        ensures
            r == self.number(),
    {
        match self {
            PokemonIndex::P0 => 0,
            PokemonIndex::P1 => 1,
            PokemonIndex::P2 => 2,
            PokemonIndex::P3 => 3,
            PokemonIndex::P4 => 4,
            PokemonIndex::P5 => 5,
        }
    }

    /// The place with the given number, if it is below six.
    pub fn from_usize(n: usize) -> (r: Option<PokemonIndex>)
        ensures
            n < 6 ==> r.is_some() && r.unwrap().number() == n && r.unwrap() == Self::all()[n as int],
            n >= 6 ==> r.is_none(),
    {
        match n {
            0 => Some(PokemonIndex::P0),
            1 => Some(PokemonIndex::P1),
            2 => Some(PokemonIndex::P2),
            3 => Some(PokemonIndex::P3),
            4 => Some(PokemonIndex::P4),
            5 => Some(PokemonIndex::P5),
            _ => None,
        }
    }
}

impl PokemonMoveIndex {
    /// The place as a number, from 0 to 3.
    pub open spec fn number(self) -> int {
        match self {
            PokemonMoveIndex::M0 => 0,
            PokemonMoveIndex::M1 => 1,
            PokemonMoveIndex::M2 => 2,
            PokemonMoveIndex::M3 => 3,
        }
    }

    /// The four places, in order.
    pub open spec fn all() -> Seq<PokemonMoveIndex> {
        seq![
            PokemonMoveIndex::M0,
            PokemonMoveIndex::M1,
            PokemonMoveIndex::M2,
            PokemonMoveIndex::M3,
        ]
    }

    pub fn to_usize(&self) -> (r: usize)
        ensures
            r == self.number(),
    {
        match self {
            PokemonMoveIndex::M0 => 0,
            PokemonMoveIndex::M1 => 1,
            PokemonMoveIndex::M2 => 2,
            PokemonMoveIndex::M3 => 3,
        }
    }

    /// The place with the given number, if it is below four.
    pub fn from_usize(n: usize) -> (r: Option<PokemonMoveIndex>)
        ensures
            n < 4 ==> r.is_some() && r.unwrap().number() == n && r.unwrap() == Self::all()[n as int],
            n >= 4 ==> r.is_none(),
    {
        match n {
            0 => Some(PokemonMoveIndex::M0),
            1 => Some(PokemonMoveIndex::M1),
            2 => Some(PokemonMoveIndex::M2),
            3 => Some(PokemonMoveIndex::M3),
            _ => None,
        }
    }
}

impl PokemonSideCondition {
    /// The most layers a side can hold of this condition: three of spikes,
    /// two of toxic spikes, one of the other hazards. The conditions that
    /// count turns are bounded by their type alone.
    pub open spec fn cap(self) -> int {
        match self {
            PokemonSideCondition::Spikes => 3,
            PokemonSideCondition::ToxicSpikes => 2,
            PokemonSideCondition::Stealthrock => 1,
            PokemonSideCondition::StickyWeb => 1,
            _ => i8::MAX as int,
        }
    }
}

impl Move {
    /// An empty slot: no move, enabled, without power points.
    pub fn new() -> (r: Move)
        ensures
            r.id == Choices::NONE,
            !r.disabled,
            r.pp == 0,
            r.category == MoveCategory::Status,
    {
        Move { id: Choices::NONE, disabled: false, pp: 0, category: MoveCategory::Status }
    }
}

impl VolatileStatuses {
    /// Whether the set holds `status`.
    pub open spec fn has(self, status: PokemonVolatileStatus) -> bool {
        match status {
            PokemonVolatileStatus::AquaRing => self.aqua_ring,
            PokemonVolatileStatus::Attract => self.attract,
            PokemonVolatileStatus::Confusion => self.confusion,
            PokemonVolatileStatus::Encore => self.encore,
            PokemonVolatileStatus::Flinch => self.flinch,
            PokemonVolatileStatus::LeechSeed => self.leech_seed,
            PokemonVolatileStatus::PartiallyTrapped => self.partially_trapped,
            PokemonVolatileStatus::Protect => self.protect,
            PokemonVolatileStatus::Substitute => self.substitute,
            PokemonVolatileStatus::Taunt => self.taunt,
        }
    }

    /// The set with `status` made present or absent.
    pub open spec fn with(self, status: PokemonVolatileStatus, present: bool) -> VolatileStatuses {
        match status {
            PokemonVolatileStatus::AquaRing => VolatileStatuses { aqua_ring: present, ..self },
            PokemonVolatileStatus::Attract => VolatileStatuses { attract: present, ..self },
            PokemonVolatileStatus::Confusion => VolatileStatuses { confusion: present, ..self },
            PokemonVolatileStatus::Encore => VolatileStatuses { encore: present, ..self },
            PokemonVolatileStatus::Flinch => VolatileStatuses { flinch: present, ..self },
            PokemonVolatileStatus::LeechSeed => VolatileStatuses { leech_seed: present, ..self },
            PokemonVolatileStatus::PartiallyTrapped => VolatileStatuses {
                partially_trapped: present,
                ..self
            },
            PokemonVolatileStatus::Protect => VolatileStatuses { protect: present, ..self },
            PokemonVolatileStatus::Substitute => VolatileStatuses { substitute: present, ..self },
            PokemonVolatileStatus::Taunt => VolatileStatuses { taunt: present, ..self },
        }
    }

    /// The empty set.
    pub fn new() -> (r: VolatileStatuses)
        ensures
            forall|status: PokemonVolatileStatus| !r.has(status),
    {
        VolatileStatuses {
            aqua_ring: false,
            attract: false,
            confusion: false,
            encore: false,
            flinch: false,
            leech_seed: false,
            partially_trapped: false,
            protect: false,
            substitute: false,
            taunt: false,
        }
    }

    pub fn contains(&self, status: &PokemonVolatileStatus) -> (r: bool)
        ensures
            r == self.has(*status),
    {
        match status {
            PokemonVolatileStatus::AquaRing => self.aqua_ring,
            PokemonVolatileStatus::Attract => self.attract,
            PokemonVolatileStatus::Confusion => self.confusion,
            PokemonVolatileStatus::Encore => self.encore,
            PokemonVolatileStatus::Flinch => self.flinch,
            PokemonVolatileStatus::LeechSeed => self.leech_seed,
            PokemonVolatileStatus::PartiallyTrapped => self.partially_trapped,
            PokemonVolatileStatus::Protect => self.protect,
            PokemonVolatileStatus::Substitute => self.substitute,
            PokemonVolatileStatus::Taunt => self.taunt,
        }
    }

    fn put(&mut self, status: PokemonVolatileStatus, present: bool)
        ensures
            *final(self) == old(self).with(status, present),
    {
        match status {
            PokemonVolatileStatus::AquaRing => self.aqua_ring = present,
            PokemonVolatileStatus::Attract => self.attract = present,
            PokemonVolatileStatus::Confusion => self.confusion = present,
            PokemonVolatileStatus::Encore => self.encore = present,
            PokemonVolatileStatus::Flinch => self.flinch = present,
            PokemonVolatileStatus::LeechSeed => self.leech_seed = present,
            PokemonVolatileStatus::PartiallyTrapped => self.partially_trapped = present,
            PokemonVolatileStatus::Protect => self.protect = present,
            PokemonVolatileStatus::Substitute => self.substitute = present,
            PokemonVolatileStatus::Taunt => self.taunt = present,
        }
    }

    /// Adds `status` to the set; tells whether it was absent before.
    pub fn insert(&mut self, status: PokemonVolatileStatus) -> (r: bool)
        ensures
            *final(self) == old(self).with(status, true),
            r == !old(self).has(status),
    {
        let had = self.contains(&status);
        self.put(status, true);
        !had
    }

    /// Takes `status` out of the set; tells whether it was present before.
    pub fn remove(&mut self, status: &PokemonVolatileStatus) -> (r: bool)
        ensures
            *final(self) == old(self).with(*status, false),
            r == old(self).has(*status),
    {
        let had = self.contains(status);
        self.put(*status, false);
        had
    }
}

} // verus!
