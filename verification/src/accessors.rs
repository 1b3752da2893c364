//! Reading and reaching into the state: the creature at a place, the active
//! creature of a side, a side of the state, and what the rules ask of a
//! creature.

use vstd::prelude::*;
use vstd::array::spec_array_update;
use crate::abilities::Abilities;
use crate::choices::{Choices, MoveCategory};
use crate::items::Items;
use crate::state::{
    divide, quotient, LastUsedMove, Move, Pokemon, PokemonBoostableStat, PokemonIndex, PokemonMoveIndex,
    PokemonName, PokemonSideCondition, PokemonStatus, PokemonType, PokemonVolatileStatus, Side,
    SideConditions, SideReference, State, StateTerrain, StateWeather, Terrain, VolatileStatuses,
    Weather, Wish, MAX_BOOST, MIN_BOOST,
};

verus! {

/// Whether `boost` is a stage a stat can be at.
pub open spec fn boost_in_bounds(boost: i8) -> bool {
    MIN_BOOST <= boost <= MAX_BOOST
}

impl Pokemon {
    /// The hit points lie between zero and the maximum, and every stage
    /// between the lowest and the highest.
    pub open spec fn in_bounds(self) -> bool {
        &&& 0 <= self.hp <= self.maxhp
        &&& boost_in_bounds(self.attack_boost)
        &&& boost_in_bounds(self.defense_boost)
        &&& boost_in_bounds(self.special_attack_boost)
        &&& boost_in_bounds(self.special_defense_boost)
        &&& boost_in_bounds(self.speed_boost)
        &&& boost_in_bounds(self.accuracy_boost)
        &&& boost_in_bounds(self.evasion_boost)
    }

    /// The stage of `stat`.
    pub open spec fn boost(self, stat: PokemonBoostableStat) -> i8 {
        match stat {
            PokemonBoostableStat::Attack => self.attack_boost,
            PokemonBoostableStat::Defense => self.defense_boost,
            PokemonBoostableStat::SpecialAttack => self.special_attack_boost,
            PokemonBoostableStat::SpecialDefense => self.special_defense_boost,
            PokemonBoostableStat::Speed => self.speed_boost,
            PokemonBoostableStat::Evasion => self.evasion_boost,
            PokemonBoostableStat::Accuracy => self.accuracy_boost,
        }
    }

    /// This creature with the stage of `stat` set to `value`.
    pub open spec fn with_boost(self, stat: PokemonBoostableStat, value: i8) -> Pokemon {
        match stat {
            PokemonBoostableStat::Attack => Pokemon { attack_boost: value, ..self },
            PokemonBoostableStat::Defense => Pokemon { defense_boost: value, ..self },
            PokemonBoostableStat::SpecialAttack => Pokemon { special_attack_boost: value, ..self },
            PokemonBoostableStat::SpecialDefense => Pokemon {
                special_defense_boost: value,
                ..self
            },
            PokemonBoostableStat::Speed => Pokemon { speed_boost: value, ..self },
            PokemonBoostableStat::Evasion => Pokemon { evasion_boost: value, ..self },
            PokemonBoostableStat::Accuracy => Pokemon { accuracy_boost: value, ..self },
        }
    }

    /// Whether one of the two types is `pokemon_type`.
    pub open spec fn is_of_type(self, pokemon_type: PokemonType) -> bool {
        self.types.0 == pokemon_type || self.types.1 == pokemon_type
    }

    /// Whether the creature stands on the ground: it is not of the flying
    /// type, does not levitate and holds no balloon.
    pub open spec fn grounded(self) -> bool {
        &&& !self.is_of_type(PokemonType::Flying)
        &&& self.ability != Abilities::LEVITATE
        &&& self.item != Items::AIRBALLOON
    }

    /// Whether the creature holds an item that can be taken from it.
    pub open spec fn can_lose_item(self) -> bool {
        self.item != Items::NONE && self.ability != Abilities::STICKYHOLD
    }

    /// Whether the opponent cannot lower the stages of this creature.
    pub open spec fn keeps_stats(self) -> bool {
        ||| self.ability == Abilities::CLEARBODY
        ||| self.ability == Abilities::WHITESMOKE
        ||| self.ability == Abilities::FULLMETALBODY
        ||| self.item == Items::CLEARAMULET
    }

    /// Whether `status` can be put on this creature: it is alive and does
    /// not have the status yet, and for a substitute it has more than a
    /// quarter of its maximum hit points left.
    pub open spec fn can_receive(self, status: PokemonVolatileStatus) -> bool {
        &&& !self.volatile_statuses.has(status)
        &&& self.hp > 0
        &&& (status == PokemonVolatileStatus::Substitute ==> self.hp > quotient(
            self.maxhp as int,
            4,
        ))
    }

    /// The move at `index`.
    pub open spec fn move_at(self, index: PokemonMoveIndex) -> Move {
        self.moves[index.number()]
    }

    /// This creature with the move at `index` disabled or enabled.
    pub open spec fn with_move_disabled(self, index: PokemonMoveIndex, disabled: bool) -> Pokemon {
        Pokemon {
            moves: spec_array_update(
                self.moves,
                index.number(),
                Move { disabled: disabled, ..self.moves[index.number()] },
            ),
            ..self
        }
    }

    pub fn get_move(&self, index: PokemonMoveIndex) -> (r: &Move)
        ensures
            *r == self.move_at(index),
    {
        &self.moves[index.to_usize()]
    }

    /// Disables or enables the move at `index`.
    pub fn set_move_disabled(&mut self, index: PokemonMoveIndex, disabled: bool)
        ensures
            *final(self) == old(self).with_move_disabled(index, disabled),
    {
        let i = index.to_usize();
        self.moves[i].disabled = disabled;
        assert(self.moves =~= spec_array_update(
            old(self).moves,
            index.number(),
            Move { disabled: disabled, ..old(self).moves[index.number()] },
        ));
    }

    pub fn has_type(&self, pokemon_type: &PokemonType) -> (r: bool)
        ensures
            r == self.is_of_type(*pokemon_type),
    {
        self.types.0 == *pokemon_type || self.types.1 == *pokemon_type
    }

    pub fn is_grounded(&self) -> (r: bool)
        ensures
            r == self.grounded(),
    {
        !self.has_type(&PokemonType::Flying) && self.ability != Abilities::LEVITATE && self.item
            != Items::AIRBALLOON
    }

    pub fn item_can_be_removed(&self) -> (r: bool)
        ensures
            r == self.can_lose_item(),
    {
        self.item != Items::NONE && self.ability != Abilities::STICKYHOLD
    }

    pub fn immune_to_stats_lowered_by_opponent(&self) -> (r: bool)
        ensures
            r == self.keeps_stats(),
    {
        self.ability == Abilities::CLEARBODY || self.ability == Abilities::WHITESMOKE
            || self.ability == Abilities::FULLMETALBODY || self.item == Items::CLEARAMULET
    }

    pub fn volatile_status_can_be_applied(&self, status: &PokemonVolatileStatus) -> (r: bool)
        ensures
            r == self.can_receive(*status),
    {
        if self.volatile_statuses.contains(status) || self.hp <= 0 {
            return false;
        }
        match status {
            PokemonVolatileStatus::Substitute => self.hp > divide(self.maxhp, 4),
            _ => true,
        }
    }

    pub fn get_boost_from_boost_enum(&self, stat: &PokemonBoostableStat) -> (r: i8)
        ensures
            r == self.boost(*stat),
    {
        match stat {
            PokemonBoostableStat::Attack => self.attack_boost,
            PokemonBoostableStat::Defense => self.defense_boost,
            PokemonBoostableStat::SpecialAttack => self.special_attack_boost,
            PokemonBoostableStat::SpecialDefense => self.special_defense_boost,
            PokemonBoostableStat::Speed => self.speed_boost,
            PokemonBoostableStat::Evasion => self.evasion_boost,
            PokemonBoostableStat::Accuracy => self.accuracy_boost,
        }
    }

    /// Sets the stage of `stat` to `value`.
    pub fn set_boost(&mut self, stat: &PokemonBoostableStat, value: i8)
        ensures
            *final(self) == old(self).with_boost(*stat, value),
    {
        match stat {
            PokemonBoostableStat::Attack => self.attack_boost = value,
            PokemonBoostableStat::Defense => self.defense_boost = value,
            PokemonBoostableStat::SpecialAttack => self.special_attack_boost = value,
            PokemonBoostableStat::SpecialDefense => self.special_defense_boost = value,
            PokemonBoostableStat::Speed => self.speed_boost = value,
            PokemonBoostableStat::Evasion => self.evasion_boost = value,
            PokemonBoostableStat::Accuracy => self.accuracy_boost = value,
        }
    }
}

/// Setting the stage of a stat and reading it back gives what was set.
#[verifier::rlimit(60)]
pub proof fn boost_read_after_set(pokemon: Pokemon, stat: PokemonBoostableStat, value: i8)
    ensures
        pokemon.with_boost(stat, value).boost(stat) == value,
        pokemon.with_boost(stat, value).hp == pokemon.hp,
        pokemon.with_boost(stat, value).maxhp == pokemon.maxhp,
{
    match stat {
        PokemonBoostableStat::Attack => {},
        PokemonBoostableStat::Defense => {},
        PokemonBoostableStat::SpecialAttack => {},
        PokemonBoostableStat::SpecialDefense => {},
        PokemonBoostableStat::Speed => {},
        PokemonBoostableStat::Evasion => {},
        PokemonBoostableStat::Accuracy => {},
    }
}

/// Setting the stage of a stat leaves the stage of another stat as it was.
#[verifier::rlimit(60)]
pub proof fn boost_read_other_after_set(
    pokemon: Pokemon,
    stat: PokemonBoostableStat,
    value: i8,
    other: PokemonBoostableStat,
)
    requires
        other != stat,
    ensures
        pokemon.with_boost(stat, value).boost(other) == pokemon.boost(other),
{
    match stat {
        PokemonBoostableStat::Attack => {},
        PokemonBoostableStat::Defense => {},
        PokemonBoostableStat::SpecialAttack => {},
        PokemonBoostableStat::SpecialDefense => {},
        PokemonBoostableStat::Speed => {},
        PokemonBoostableStat::Evasion => {},
        PokemonBoostableStat::Accuracy => {},
    }
}

/// Setting the stage of a stat to `value` and then to `second` is setting
/// it to `second`.
#[verifier::rlimit(60)]
pub proof fn boost_set_twice(pokemon: Pokemon, stat: PokemonBoostableStat, value: i8, second: i8)
    ensures
        pokemon.with_boost(stat, value).with_boost(stat, second) == pokemon.with_boost(
            stat,
            second,
        ),
{
    match stat {
        PokemonBoostableStat::Attack => {},
        PokemonBoostableStat::Defense => {},
        PokemonBoostableStat::SpecialAttack => {},
        PokemonBoostableStat::SpecialDefense => {},
        PokemonBoostableStat::Speed => {},
        PokemonBoostableStat::Evasion => {},
        PokemonBoostableStat::Accuracy => {},
    }
}

/// Setting the stage of a stat to what it is changes nothing.
#[verifier::rlimit(60)]
pub proof fn boost_set_same(pokemon: Pokemon, stat: PokemonBoostableStat)
    ensures
        pokemon.with_boost(stat, pokemon.boost(stat)) == pokemon,
{
    match stat {
        PokemonBoostableStat::Attack => {},
        PokemonBoostableStat::Defense => {},
        PokemonBoostableStat::SpecialAttack => {},
        PokemonBoostableStat::SpecialDefense => {},
        PokemonBoostableStat::Speed => {},
        PokemonBoostableStat::Evasion => {},
        PokemonBoostableStat::Accuracy => {},
    }
}

/// The slot of a creature that holds no move.
pub open spec fn no_move() -> Move {
    Move { id: Choices::NONE, disabled: false, pp: 0, category: MoveCategory::Status }
}

impl Pokemon {
    /// The creature that a battle starts from where nothing else is said:
    /// a level-100 rattata of the normal type at full health, 100 in every
    /// stat, with no ability, item, status, volatile status or move.
    pub open spec fn initial() -> Pokemon {
        Pokemon {
            id: PokemonName::RATTATA,
            level: 100,
            types: (PokemonType::Normal, PokemonType::Typeless),
            hp: 100,
            maxhp: 100,
            ability: Abilities::NONE,
            item: Items::NONE,
            attack: 100,
            defense: 100,
            special_attack: 100,
            special_defense: 100,
            speed: 100,
            attack_boost: 0,
            defense_boost: 0,
            special_attack_boost: 0,
            special_defense_boost: 0,
            speed_boost: 0,
            accuracy_boost: 0,
            evasion_boost: 0,
            status: PokemonStatus::NONE,
            substitute_health: 0,
            volatile_statuses: VolatileStatuses {
                aqua_ring: false,
                attract: false,
                confusion: false,
                encore: false,
                flinch: false,
                leech_seed: false,
                partially_trapped: false,
                protect: false,
                substitute: false,
                taunt: false,
            },
            moves: [no_move(), no_move(), no_move(), no_move()],
        }
    }
}

impl Default for Pokemon {
    /// A level-100 creature of the normal type at full health, 100 in every
    /// stat, with no ability, item, status or move.
    fn default() -> (r: Pokemon)
        ensures
            r == Pokemon::initial(),
            r.in_bounds(),
            r.hp == 100,
            r.maxhp == 100,
            r.level == 100,
            r.types == (PokemonType::Normal, PokemonType::Typeless),
            r.ability == Abilities::NONE,
            r.item == Items::NONE,
            r.attack == 100 && r.defense == 100 && r.special_attack == 100
                && r.special_defense == 100 && r.speed == 100,
            r.attack_boost == 0 && r.defense_boost == 0 && r.special_attack_boost == 0
                && r.special_defense_boost == 0 && r.speed_boost == 0 && r.accuracy_boost == 0
                && r.evasion_boost == 0,
            r.status == PokemonStatus::NONE,
            forall|status: PokemonVolatileStatus| !r.volatile_statuses.has(status),
            forall|index: PokemonMoveIndex| !(#[trigger] r.move_at(index)).disabled,
    {
        let slot = Move::new();
        let moves = [slot, slot, slot, slot];
        assert(forall|i: int| 0 <= i < 4 ==> moves@[i] == slot);
        assert(moves =~= Pokemon::initial().moves);
        Pokemon {
            id: PokemonName::RATTATA,
            level: 100,
            types: (PokemonType::Normal, PokemonType::Typeless),
            hp: 100,
            maxhp: 100,
            ability: Abilities::NONE,
            item: Items::NONE,
            attack: 100,
            defense: 100,
            special_attack: 100,
            special_defense: 100,
            speed: 100,
            attack_boost: 0,
            defense_boost: 0,
            special_attack_boost: 0,
            special_defense_boost: 0,
            speed_boost: 0,
            accuracy_boost: 0,
            evasion_boost: 0,
            status: PokemonStatus::NONE,
            substitute_health: 0,
            volatile_statuses: VolatileStatuses {
                aqua_ring: false,
                attract: false,
                confusion: false,
                encore: false,
                flinch: false,
                leech_seed: false,
                partially_trapped: false,
                protect: false,
                substitute: false,
                taunt: false,
            },
            moves: moves,
        }
    }
}

impl SideConditions {
    /// The count of `condition`.
    pub open spec fn value(self, condition: PokemonSideCondition) -> i8 {
        match condition {
            PokemonSideCondition::AuroraVeil => self.aurora_veil,
            PokemonSideCondition::CraftyShield => self.crafty_shield,
            PokemonSideCondition::HealingWish => self.healing_wish,
            PokemonSideCondition::LightScreen => self.light_screen,
            PokemonSideCondition::LuckyChant => self.lucky_chant,
            PokemonSideCondition::LunarDance => self.lunar_dance,
            PokemonSideCondition::MatBlock => self.mat_block,
            PokemonSideCondition::Mist => self.mist,
            PokemonSideCondition::Protect => self.protect,
            PokemonSideCondition::QuickGuard => self.quick_guard,
            PokemonSideCondition::Reflect => self.reflect,
            PokemonSideCondition::Safeguard => self.safeguard,
            PokemonSideCondition::Spikes => self.spikes,
            PokemonSideCondition::Stealthrock => self.stealth_rock,
            PokemonSideCondition::StickyWeb => self.sticky_web,
            PokemonSideCondition::Tailwind => self.tailwind,
            PokemonSideCondition::ToxicCount => self.toxic_count,
            PokemonSideCondition::ToxicSpikes => self.toxic_spikes,
            PokemonSideCondition::WideGuard => self.wide_guard,
        }
    }

    /// These conditions with the count of `condition` set to `value`.
    pub open spec fn with(self, condition: PokemonSideCondition, value: i8) -> SideConditions {
        match condition {
            PokemonSideCondition::AuroraVeil => SideConditions { aurora_veil: value, ..self },
            PokemonSideCondition::CraftyShield => SideConditions { crafty_shield: value, ..self },
            PokemonSideCondition::HealingWish => SideConditions { healing_wish: value, ..self },
            PokemonSideCondition::LightScreen => SideConditions { light_screen: value, ..self },
            PokemonSideCondition::LuckyChant => SideConditions { lucky_chant: value, ..self },
            PokemonSideCondition::LunarDance => SideConditions { lunar_dance: value, ..self },
            PokemonSideCondition::MatBlock => SideConditions { mat_block: value, ..self },
            PokemonSideCondition::Mist => SideConditions { mist: value, ..self },
            PokemonSideCondition::Protect => SideConditions { protect: value, ..self },
            PokemonSideCondition::QuickGuard => SideConditions { quick_guard: value, ..self },
            PokemonSideCondition::Reflect => SideConditions { reflect: value, ..self },
            PokemonSideCondition::Safeguard => SideConditions { safeguard: value, ..self },
            PokemonSideCondition::Spikes => SideConditions { spikes: value, ..self },
            PokemonSideCondition::Stealthrock => SideConditions { stealth_rock: value, ..self },
            PokemonSideCondition::StickyWeb => SideConditions { sticky_web: value, ..self },
            PokemonSideCondition::Tailwind => SideConditions { tailwind: value, ..self },
            PokemonSideCondition::ToxicCount => SideConditions { toxic_count: value, ..self },
            PokemonSideCondition::ToxicSpikes => SideConditions { toxic_spikes: value, ..self },
            PokemonSideCondition::WideGuard => SideConditions { wide_guard: value, ..self },
        }
    }

    /// No count is negative, and none is above the cap of its condition.
    pub open spec fn in_bounds(self) -> bool {
        forall|condition: PokemonSideCondition|
            0 <= #[trigger] self.value(condition) <= condition.cap()
    }

    /// The conditions of a side that has none.
    pub open spec fn none() -> SideConditions {
        SideConditions {
            aurora_veil: 0,
            crafty_shield: 0,
            healing_wish: 0,
            light_screen: 0,
            lucky_chant: 0,
            lunar_dance: 0,
            mat_block: 0,
            mist: 0,
            protect: 0,
            quick_guard: 0,
            reflect: 0,
            safeguard: 0,
            spikes: 0,
            stealth_rock: 0,
            sticky_web: 0,
            tailwind: 0,
            toxic_count: 0,
            toxic_spikes: 0,
            wide_guard: 0,
        }
    }

    /// No condition at all.
    pub fn new() -> (r: SideConditions)
        ensures
            r == SideConditions::none(),
            forall|condition: PokemonSideCondition| #[trigger] r.value(condition) == 0,
    {
        SideConditions {
            aurora_veil: 0,
            crafty_shield: 0,
            healing_wish: 0,
            light_screen: 0,
            lucky_chant: 0,
            lunar_dance: 0,
            mat_block: 0,
            mist: 0,
            protect: 0,
            quick_guard: 0,
            reflect: 0,
            safeguard: 0,
            spikes: 0,
            stealth_rock: 0,
            sticky_web: 0,
            tailwind: 0,
            toxic_count: 0,
            toxic_spikes: 0,
            wide_guard: 0,
        }
    }

    pub fn get(&self, condition: PokemonSideCondition) -> (r: i8)
        ensures
            r == self.value(condition),
    {
        match condition {
            PokemonSideCondition::AuroraVeil => self.aurora_veil,
            PokemonSideCondition::CraftyShield => self.crafty_shield,
            PokemonSideCondition::HealingWish => self.healing_wish,
            PokemonSideCondition::LightScreen => self.light_screen,
            PokemonSideCondition::LuckyChant => self.lucky_chant,
            PokemonSideCondition::LunarDance => self.lunar_dance,
            PokemonSideCondition::MatBlock => self.mat_block,
            PokemonSideCondition::Mist => self.mist,
            PokemonSideCondition::Protect => self.protect,
            PokemonSideCondition::QuickGuard => self.quick_guard,
            PokemonSideCondition::Reflect => self.reflect,
            PokemonSideCondition::Safeguard => self.safeguard,
            PokemonSideCondition::Spikes => self.spikes,
            PokemonSideCondition::Stealthrock => self.stealth_rock,
            PokemonSideCondition::StickyWeb => self.sticky_web,
            PokemonSideCondition::Tailwind => self.tailwind,
            PokemonSideCondition::ToxicCount => self.toxic_count,
            PokemonSideCondition::ToxicSpikes => self.toxic_spikes,
            PokemonSideCondition::WideGuard => self.wide_guard,
        }
    }

    pub fn set(&mut self, condition: PokemonSideCondition, value: i8)
        ensures
            *final(self) == old(self).with(condition, value),
    {
        match condition {
            PokemonSideCondition::AuroraVeil => self.aurora_veil = value,
            PokemonSideCondition::CraftyShield => self.crafty_shield = value,
            PokemonSideCondition::HealingWish => self.healing_wish = value,
            PokemonSideCondition::LightScreen => self.light_screen = value,
            PokemonSideCondition::LuckyChant => self.lucky_chant = value,
            PokemonSideCondition::LunarDance => self.lunar_dance = value,
            PokemonSideCondition::MatBlock => self.mat_block = value,
            PokemonSideCondition::Mist => self.mist = value,
            PokemonSideCondition::Protect => self.protect = value,
            PokemonSideCondition::QuickGuard => self.quick_guard = value,
            PokemonSideCondition::Reflect => self.reflect = value,
            PokemonSideCondition::Safeguard => self.safeguard = value,
            PokemonSideCondition::Spikes => self.spikes = value,
            PokemonSideCondition::Stealthrock => self.stealth_rock = value,
            PokemonSideCondition::StickyWeb => self.sticky_web = value,
            PokemonSideCondition::Tailwind => self.tailwind = value,
            PokemonSideCondition::ToxicCount => self.toxic_count = value,
            PokemonSideCondition::ToxicSpikes => self.toxic_spikes = value,
            PokemonSideCondition::WideGuard => self.wide_guard = value,
        }
    }
}

/// Setting the count of a condition and reading it back gives what was set,
/// and leaves the other counts as they were; setting it twice is setting it
/// to the second value; and setting it to what it is changes nothing.
pub proof fn condition_set_and_read(
    conditions: SideConditions,
    condition: PokemonSideCondition,
    value: i8,
)
    ensures
        conditions.with(condition, value).value(condition) == value,
        forall|other: PokemonSideCondition|
            other != condition ==> #[trigger] conditions.with(condition, value).value(other)
                == conditions.value(other),
        forall|second: i8| #[trigger]
            conditions.with(condition, value).with(condition, second) == conditions.with(
                condition,
                second,
            ),
        conditions.with(condition, conditions.value(condition)) == conditions,
{
}

impl Side {
    /// The creature at the place `index`.
    pub open spec fn at(self, index: PokemonIndex) -> Pokemon {
        self.pokemon[index.number()]
    }

    /// This side with `value` at the place `index`.
    pub open spec fn with_pokemon(self, index: PokemonIndex, value: Pokemon) -> Side {
        Side { pokemon: spec_array_update(self.pokemon, index.number(), value), ..self }
    }

    /// The creature that is in battle.
    pub open spec fn active(self) -> Pokemon {
        self.at(self.active_index)
    }

    /// This side with `value` in the place of its active creature.
    pub open spec fn with_active(self, value: Pokemon) -> Side {
        self.with_pokemon(self.active_index, value)
    }

    /// Every creature of the side is in bounds, and so are its conditions.
    pub open spec fn in_bounds(self) -> bool {
        &&& forall|index: PokemonIndex| (#[trigger] self.at(index)).in_bounds()
        &&& self.side_conditions.in_bounds()
    }

    pub fn get_pokemon(&self, index: PokemonIndex) -> (r: &Pokemon)
        ensures
            *r == self.at(index),
    {
        &self.pokemon[index.to_usize()]
    }

    pub fn get_active(&mut self) -> (r: &mut Pokemon)
        ensures
            *r == old(self).active(),
            *final(self) == old(self).with_active(*final(r)),
    {
        let i = self.active_index.to_usize();
        &mut self.pokemon[i]
    }

    /// Puts `value` in the place of the active creature.
    pub fn set_active(&mut self, value: Pokemon)
        ensures
            *final(self) == old(self).with_active(value),
    {
        let index = self.active_index;
        self.set_pokemon(index, value);
    }

    /// Puts `value` in the place `index`.
    pub fn set_pokemon(&mut self, index: PokemonIndex, value: Pokemon)
        ensures
            *final(self) == old(self).with_pokemon(index, value),
    {
        let i = index.to_usize();
        self.pokemon[i] = value;
        assert(self.pokemon =~= spec_array_update(old(self).pokemon, index.number(), value));
    }

    pub fn get_active_immutable(&self) -> (r: &Pokemon)
        ensures
            *r == self.active(),
    {
        &self.pokemon[self.active_index.to_usize()]
    }

    pub fn get_side_condition(&self, condition: PokemonSideCondition) -> (r: i8)
        ensures
            r == self.side_conditions.value(condition),
    {
        self.side_conditions.get(condition)
    }
}

impl Side {
    /// The side that a battle starts from where nothing else is said: six
    /// creatures as they start, the first of them active, no side
    /// condition, no wish, not trapped, and no move used yet.
    pub open spec fn initial() -> Side {
        Side {
            active_index: PokemonIndex::P0,
            pokemon: [
                Pokemon::initial(),
                Pokemon::initial(),
                Pokemon::initial(),
                Pokemon::initial(),
                Pokemon::initial(),
                Pokemon::initial(),
            ],
            side_conditions: SideConditions::none(),
            wish: Wish { turns_remaining: 0, heal_amount: 0 },
            force_trapped: false,
            slow_uturn_move: false,
            last_used_move: LastUsedMove::NONE,
        }
    }
}

impl Default for Side {
    /// Six default creatures, the first of them active, and nothing else.
    fn default() -> (r: Side)
        ensures
            r == Side::initial(),
            r.in_bounds(),
            r.active_index == PokemonIndex::P0,
            forall|condition: PokemonSideCondition|
                #[trigger] r.side_conditions.value(condition) == 0,
            forall|index: PokemonIndex| (#[trigger] r.at(index)).hp == 100,
    {
        let creature = Pokemon::default();
        let pokemon = [creature, creature, creature, creature, creature, creature];
        assert(forall|i: int| 0 <= i < 6 ==> pokemon@[i] == creature);
        assert(pokemon =~= Side::initial().pokemon);
        Side {
            active_index: PokemonIndex::P0,
            pokemon: pokemon,
            side_conditions: SideConditions::new(),
            wish: Wish { turns_remaining: 0, heal_amount: 0 },
            force_trapped: false,
            slow_uturn_move: false,
            last_used_move: LastUsedMove::NONE,
        }
    }
}

impl State {
    /// The side that `side_ref` names.
    pub open spec fn side(self, side_ref: SideReference) -> Side {
        match side_ref {
            SideReference::SideOne => self.side_one,
            SideReference::SideTwo => self.side_two,
        }
    }

    /// This state with `value` as the side that `side_ref` names.
    pub open spec fn with_side(self, side_ref: SideReference, value: Side) -> State {
        match side_ref {
            SideReference::SideOne => State { side_one: value, ..self },
            SideReference::SideTwo => State { side_two: value, ..self },
        }
    }

    /// The active creature of a side.
    pub open spec fn active(self, side_ref: SideReference) -> Pokemon {
        self.side(side_ref).active()
    }

    /// This state with `value` in the place of the active creature of a
    /// side.
    pub open spec fn with_active(self, side_ref: SideReference, value: Pokemon) -> State {
        self.with_side(side_ref, self.side(side_ref).with_active(value))
    }

    /// Every creature of both sides is in bounds, and so are the conditions
    /// of both sides.
    pub open spec fn in_bounds(self) -> bool {
        self.side_one.in_bounds() && self.side_two.in_bounds()
    }

    /// Whether `terrain` lies on the field with turns left.
    pub open spec fn has_terrain(self, terrain: Terrain) -> bool {
        self.terrain.terrain_type == terrain && self.terrain.turns_remaining > 0
    }

    /// Whether `weather` is on the field.
    pub open spec fn has_weather(self, weather: Weather) -> bool {
        self.weather.weather_type == weather
    }

    pub fn get_side(&mut self, side_ref: &SideReference) -> (r: &mut Side)
        ensures
            *r == old(self).side(*side_ref),
            *final(self) == old(self).with_side(*side_ref, *final(r)),
    {
        match side_ref {
            SideReference::SideOne => &mut self.side_one,
            SideReference::SideTwo => &mut self.side_two,
        }
    }

    /// Puts `value` in the place of the side that `side_ref` names.
    pub fn set_side(&mut self, side_ref: &SideReference, value: Side)
        ensures
            *final(self) == old(self).with_side(*side_ref, value),
    {
        match side_ref {
            SideReference::SideOne => {
                *self = State { side_one: value, ..*self };
            },
            SideReference::SideTwo => {
                *self = State { side_two: value, ..*self };
            },
        }
    }

    pub fn get_side_immutable(&self, side_ref: &SideReference) -> (r: &Side)
        ensures
            *r == self.side(*side_ref),
    {
        match side_ref {
            SideReference::SideOne => &self.side_one,
            SideReference::SideTwo => &self.side_two,
        }
    }

    /// The side that `side_ref` names, and then the other one.
    pub fn get_both_sides(&mut self, side_ref: &SideReference) -> (r: (&mut Side, &mut Side))
        ensures
            *r.0 == old(self).side(*side_ref),
            *r.1 == old(self).side(side_ref.other()),
            *final(self) == old(self).with_side(*side_ref, *final(r.0)).with_side(
                side_ref.other(),
                *final(r.1),
            ),
    {
        match side_ref {
            SideReference::SideOne => (&mut self.side_one, &mut self.side_two),
            SideReference::SideTwo => (&mut self.side_two, &mut self.side_one),
        }
    }

    /// The side that `side_ref` names, and then the other one.
    pub fn get_both_sides_immutable(&self, side_ref: &SideReference) -> (r: (&Side, &Side))
        ensures
            *r.0 == self.side(*side_ref),
            *r.1 == self.side(side_ref.other()),
    {
        match side_ref {
            SideReference::SideOne => (&self.side_one, &self.side_two),
            SideReference::SideTwo => (&self.side_two, &self.side_one),
        }
    }

    pub fn terrain_is_active(&self, terrain: &Terrain) -> (r: bool)
        ensures
            r == self.has_terrain(*terrain),
    {
        self.terrain.terrain_type == *terrain && self.terrain.turns_remaining > 0
    }

    pub fn weather_is_active(&self, weather: &Weather) -> (r: bool)
        ensures
            r == self.has_weather(*weather),
    {
        self.weather.weather_type == *weather
    }
}

impl State {
    /// The state that a battle starts from where nothing else is said: two
    /// sides as they start, no weather, no terrain, no trick room, and the
    /// battle under way.
    pub open spec fn initial() -> State {
        State {
            side_one: Side::initial(),
            side_two: Side::initial(),
            weather: StateWeather { weather_type: Weather::NONE, turns_remaining: 0 },
            terrain: StateTerrain { terrain_type: Terrain::NONE, turns_remaining: 0 },
            trick_room: false,
            team_preview: false,
        }
    }
}

impl Default for State {
    /// Two default sides under no weather and on no terrain.
    fn default() -> (r: State)
        ensures
            r == State::initial(),
            r.in_bounds(),
            r.weather == (StateWeather { weather_type: Weather::NONE, turns_remaining: 0 }),
            r.terrain == (StateTerrain { terrain_type: Terrain::NONE, turns_remaining: 0 }),
            !r.trick_room,
            !r.team_preview,
            r.side_one.active_index == PokemonIndex::P0,
            r.side_two.active_index == PokemonIndex::P0,
    {
        State {
            side_one: Side::default(),
            side_two: Side::default(),
            weather: StateWeather { weather_type: Weather::NONE, turns_remaining: 0 },
            terrain: StateTerrain { terrain_type: Terrain::NONE, turns_remaining: 0 },
            trick_room: false,
            team_preview: false,
        }
    }
}

} // verus!
