//! A state read from one line of text.
//!
//! The sections of a state are separated by `/`: the two sides, the weather
//! and the terrain with their turns, and the trick room. The parts of a
//! side are separated by `-`: six creatures, the place of the active one,
//! the side conditions, the turns and the amount of the wish, whether the
//! side is trapped, and the last move. The fields of a creature are
//! separated by `,`, and the parts of a move and the side conditions by
//! `;`.

use vstd::prelude::*;
use crate::abilities::Abilities;
use crate::checked::EngineError;
use crate::choices::{Choices, MoveCategory};
use crate::items::Items;
use crate::labels::{named, read_name};
use crate::state::{
    LastUsedMove, Move, Pokemon, PokemonIndex, PokemonMoveIndex, PokemonName, PokemonStatus,
    PokemonType, Side, SideConditions, State, StateTerrain, StateWeather, Terrain,
    VolatileStatuses, Weather, Wish,
};
use crate::text::{
    characters, fields, flag, is_flag, is_name, lowered, number, number_within, parts,
    read_flag, read_number, split, split_parts, texts,
};
use crate::turn::MoveTable;

verus! {

/// What reading a text gives: the text is malformed, or it is well formed
/// and names a move, an ability or an item that is not known, or it is
/// fine and describes a value.
pub enum Reading<T> {
    Malformed,
    Unknown,
    Fine(T),
}

/// The reading of a text of which it is known whether it is well formed,
/// whether its names are known, and what it describes.
pub open spec fn reading<T>(well_formed: bool, known: bool, value: T) -> Reading<T> {
    if !well_formed {
        Reading::Malformed
    } else if !known {
        Reading::Unknown
    } else {
        Reading::Fine(value)
    }
}

/// Whether the text writes a whole number from `low` to `high`.
pub open spec fn whole(text: Seq<char>, low: int, high: int) -> bool {
    number_within(text, low, high).is_some()
}

/// Whether the text writes a number that an `i8` holds.
pub open spec fn small(text: Seq<char>) -> bool {
    whole(text, i8::MIN as int, i8::MAX as int)
}

/// Whether the text writes a number that an `i16` holds.
pub open spec fn short(text: Seq<char>) -> bool {
    whole(text, i16::MIN as int, i16::MAX as int)
}

/// Whether the text is empty or writes a number that an `i16` holds.
pub open spec fn short_or_empty(text: Seq<char>) -> bool {
    text.len() == 0 || short(text)
}

/// The number that the text writes, or zero for the empty text.
pub open spec fn number_or_zero(text: Seq<char>) -> int {
    if text.len() == 0 {
        0
    } else {
        number(text)
    }
}

/// Whether the text writes a stage of a stat.
pub open spec fn stage(text: Seq<char>) -> bool {
    whole(text, -6, 6)
}

fn read_small(list: &Vec<Vec<char>>, k: usize) -> (r: Option<i8>)
    requires
        k < list.len(),
    ensures
        r.is_some() == small(list@[k as int]@),
        r.is_some() ==> r.unwrap() == number(list@[k as int]@),
{
    match read_number(&list[k], -128, 127) {
        Some(n) => Some(n as i8),
        None => None,
    }
}

fn read_short(list: &Vec<Vec<char>>, k: usize) -> (r: Option<i16>)
    requires
        k < list.len(),
    ensures
        r.is_some() == short(list@[k as int]@),
        r.is_some() ==> r.unwrap() == number(list@[k as int]@),
{
    match read_number(&list[k], -32768, 32767) {
        Some(n) => Some(n as i16),
        None => None,
    }
}

fn read_within(list: &Vec<Vec<char>>, k: usize, low: i8, high: i8) -> (r: Option<i8>)
    requires
        k < list.len(),
    ensures
        r.is_some() == whole(list@[k as int]@, low as int, high as int),
        r.is_some() ==> r.unwrap() == number(list@[k as int]@),
{
    match read_number(&list[k], low as i64, high as i64) {
        Some(n) => Some(n as i8),
        None => None,
    }
}

/// The category that the table gives the move `id`; a move that the table
/// does not hold counts as a status move.
pub open spec fn category_in(table: MoveTable, id: Choices) -> MoveCategory {
    match table.lookup(id) {
        Some(choice) => choice.category,
        None => MoveCategory::Status,
    }
}

/// Whether the text of a move is well formed: a name, whether the move is
/// disabled, and its power points.
#[verifier::opaque]
pub open spec fn move_well_formed(text: Seq<char>) -> bool {
    let f = fields(text, ';');
    f.len() == 3 && is_flag(f[1]) && small(f[2])
}

/// Whether the move that a text names is known.
#[verifier::opaque]
pub open spec fn move_known(text: Seq<char>) -> bool {
    named::<Choices>(fields(text, ';')[0]).is_some()
}

/// The move that a text describes.
#[verifier::opaque]
pub open spec fn move_described(text: Seq<char>, table: MoveTable) -> Move {
    let f = fields(text, ';');
    let id = named::<Choices>(f[0]).unwrap();
    Move { id, disabled: flag(f[1]), pp: number(f[2]) as i8, category: category_in(table, id) }
}

/// Reads a move.
pub fn read_move(text: &Vec<char>, table: &MoveTable) -> (r: Reading<Move>)
    ensures
        r == reading(move_well_formed(text@), move_known(text@), move_described(text@, *table)),
{
    proof {
        reveal(move_well_formed);
        reveal(move_known);
        reveal(move_described);
    }
    let list = split(text, ';');
    assert(forall|k: int| 0 <= k < list.len() ==> texts(list@)[k] == list@[k]@);
    if list.len() != 3 {
        return Reading::Malformed;
    }
    let disabled = match read_flag(&list[1]) {
        Some(disabled) => disabled,
        None => return Reading::Malformed,
    };
    let pp = match read_small(&list, 2) {
        Some(pp) => pp,
        None => return Reading::Malformed,
    };
    match read_name::<Choices>(&list[0]) {
        Some(id) => {
            let category = match table.get(id) {
                Some(choice) => choice.category,
                None => MoveCategory::Status,
            };
            Reading::Fine(Move { id, disabled, pp, category })
        },
        None => Reading::Unknown,
    }
}


/// A slot without a move.
pub open spec fn empty_slot() -> Move {
    Move { id: Choices::NONE, disabled: false, pp: 0, category: MoveCategory::Status }
}

/// No volatile status at all.
pub open spec fn no_volatile_statuses() -> VolatileStatuses {
    VolatileStatuses {
        aqua_ring: false,
        attract: false,
        confusion: false,
        encore: false,
        flinch: false,
        leech_seed: false,
        partially_trapped: false,
        protect: false,
        substitute: false,
        taunt: false,
    }
}

/// Whether the move of the slot `k` of a creature is well formed, where the
/// fields of the creature hold one.
pub open spec fn slot_well_formed(f: Seq<Seq<char>>, k: int) -> bool {
    FIRST_MOVE + k < f.len() ==> move_well_formed(f[FIRST_MOVE + k])
}

/// Whether the move of the slot `k` of a creature is known, where the
/// fields of the creature hold one.
pub open spec fn slot_known(f: Seq<Seq<char>>, k: int) -> bool {
    FIRST_MOVE + k < f.len() ==> move_known(f[FIRST_MOVE + k])
}

/// The move of the slot `k` of a creature: the one that its fields
/// describe, or none where they hold none.
pub open spec fn slot(f: Seq<Seq<char>>, k: int, table: MoveTable) -> Move {
    if FIRST_MOVE + k < f.len() {
        move_described(f[FIRST_MOVE + k], table)
    } else {
        empty_slot()
    }
}

/// The field of a creature that holds its first move. Before it stand the
/// species, the level, two types, the hit points and their maximum, the
/// ability, the item, five stats, seven stages, the status, two fields
/// that the state does not hold, and the health of the substitute.
pub const FIRST_MOVE: usize = 24;

fn read_slot(list: &Vec<Vec<char>>, k: usize, table: &MoveTable) -> (r: Reading<Move>)
    requires
        k < 4,
    ensures
        r == reading(
            slot_well_formed(texts(list@), k as int),
            slot_known(texts(list@), k as int),
            slot(texts(list@), k as int, *table),
        ),
{
    if FIRST_MOVE + k < list.len() {
        assert(texts(list@)[FIRST_MOVE + k] == list@[FIRST_MOVE + k]@);
        read_move(&list[FIRST_MOVE + k], table)
    } else {
        Reading::Fine(Move::new())
    }
}


/// Whether the text of a creature is well formed: it has its fields and
/// at most four moves after them, every name but those of the ability, the
/// item and the moves is known, every number is one that its field holds,
/// the hit points lie between zero and the maximum, and every stage
/// between -6 and 6. The health of the substitute may be left empty.
#[verifier::opaque]
pub open spec fn pokemon_well_formed(text: Seq<char>) -> bool {
    let f = fields(text, ',');
    &&& FIRST_MOVE <= f.len() <= FIRST_MOVE + 4
    &&& named::<PokemonName>(f[0]).is_some()
    &&& small(f[1])
    &&& named::<PokemonType>(f[2]).is_some()
    &&& named::<PokemonType>(f[3]).is_some()
    &&& short(f[4])
    &&& short(f[5])
    &&& 0 <= number(f[4]) <= number(f[5])
    &&& short(f[8])
    &&& short(f[9])
    &&& short(f[10])
    &&& short(f[11])
    &&& short(f[12])
    &&& stage(f[13])
    &&& stage(f[14])
    &&& stage(f[15])
    &&& stage(f[16])
    &&& stage(f[17])
    &&& stage(f[18])
    &&& stage(f[19])
    &&& named::<PokemonStatus>(f[20]).is_some()
    &&& short_or_empty(f[23])
    &&& slot_well_formed(f, 0)
    &&& slot_well_formed(f, 1)
    &&& slot_well_formed(f, 2)
    &&& slot_well_formed(f, 3)
}

/// Whether the ability, the item and the moves that the text of a creature
/// names are known.
#[verifier::opaque]
pub open spec fn pokemon_known(text: Seq<char>) -> bool {
    let f = fields(text, ',');
    &&& named::<Abilities>(f[6]).is_some()
    &&& named::<Items>(f[7]).is_some()
    &&& slot_known(f, 0)
    &&& slot_known(f, 1)
    &&& slot_known(f, 2)
    &&& slot_known(f, 3)
}

/// The creature that a text describes. It has no volatile status.
#[verifier::opaque]
pub open spec fn pokemon_described(text: Seq<char>, table: MoveTable) -> Pokemon {
    let f = fields(text, ',');
    Pokemon {
        id: named::<PokemonName>(f[0]).unwrap(),
        level: number(f[1]) as i8,
        types: (named::<PokemonType>(f[2]).unwrap(), named::<PokemonType>(f[3]).unwrap()),
        hp: number(f[4]) as i16,
        maxhp: number(f[5]) as i16,
        ability: named::<Abilities>(f[6]).unwrap(),
        item: named::<Items>(f[7]).unwrap(),
        attack: number(f[8]) as i16,
        defense: number(f[9]) as i16,
        special_attack: number(f[10]) as i16,
        special_defense: number(f[11]) as i16,
        speed: number(f[12]) as i16,
        attack_boost: number(f[13]) as i8,
        defense_boost: number(f[14]) as i8,
        special_attack_boost: number(f[15]) as i8,
        special_defense_boost: number(f[16]) as i8,
        speed_boost: number(f[17]) as i8,
        accuracy_boost: number(f[18]) as i8,
        evasion_boost: number(f[19]) as i8,
        status: named::<PokemonStatus>(f[20]).unwrap(),
        substitute_health: number_or_zero(f[23]) as i16,
        volatile_statuses: no_volatile_statuses(),
        moves: [slot(f, 0, table), slot(f, 1, table), slot(f, 2, table), slot(f, 3, table)],
    }
}

/// Reads a creature.
pub fn read_pokemon(text: &Vec<char>, table: &MoveTable) -> (r: Reading<Pokemon>)
    ensures
        r == reading(
            pokemon_well_formed(text@),
            pokemon_known(text@),
            pokemon_described(text@, *table),
        ),
        r matches Reading::Fine(pokemon) ==> pokemon.in_bounds(),
{
    proof {
        reveal(pokemon_well_formed);
        reveal(pokemon_known);
        reveal(pokemon_described);
    }
    let list = split(text, ',');
    assert(forall|k: int| 0 <= k < list.len() ==> texts(list@)[k] == list@[k]@);
    if list.len() < FIRST_MOVE || list.len() > FIRST_MOVE + 4 {
        return Reading::Malformed;
    }
    let id = match read_name::<PokemonName>(&list[0]) {
        Some(id) => id,
        None => return Reading::Malformed,
    };
    let level = match read_small(&list, 1) {
        Some(level) => level,
        None => return Reading::Malformed,
    };
    let first_type = match read_name::<PokemonType>(&list[2]) {
        Some(first_type) => first_type,
        None => return Reading::Malformed,
    };
    let second_type = match read_name::<PokemonType>(&list[3]) {
        Some(second_type) => second_type,
        None => return Reading::Malformed,
    };
    let hp = match read_short(&list, 4) {
        Some(hp) => hp,
        None => return Reading::Malformed,
    };
    let maxhp = match read_short(&list, 5) {
        Some(maxhp) => maxhp,
        None => return Reading::Malformed,
    };
    if hp < 0 || hp > maxhp {
        return Reading::Malformed;
    }
    let attack = match read_short(&list, 8) {
        Some(stat) => stat,
        None => return Reading::Malformed,
    };
    let defense = match read_short(&list, 9) {
        Some(stat) => stat,
        None => return Reading::Malformed,
    };
    let special_attack = match read_short(&list, 10) {
        Some(stat) => stat,
        None => return Reading::Malformed,
    };
    let special_defense = match read_short(&list, 11) {
        Some(stat) => stat,
        None => return Reading::Malformed,
    };
    let speed = match read_short(&list, 12) {
        Some(stat) => stat,
        None => return Reading::Malformed,
    };
    let attack_boost = match read_within(&list, 13, -6, 6) {
        Some(stage) => stage,
        None => return Reading::Malformed,
    };
    let defense_boost = match read_within(&list, 14, -6, 6) {
        Some(stage) => stage,
        None => return Reading::Malformed,
    };
    let special_attack_boost = match read_within(&list, 15, -6, 6) {
        Some(stage) => stage,
        None => return Reading::Malformed,
    };
    let special_defense_boost = match read_within(&list, 16, -6, 6) {
        Some(stage) => stage,
        None => return Reading::Malformed,
    };
    let speed_boost = match read_within(&list, 17, -6, 6) {
        Some(stage) => stage,
        None => return Reading::Malformed,
    };
    let accuracy_boost = match read_within(&list, 18, -6, 6) {
        Some(stage) => stage,
        None => return Reading::Malformed,
    };
    let evasion_boost = match read_within(&list, 19, -6, 6) {
        Some(stage) => stage,
        None => return Reading::Malformed,
    };
    let status = match read_name::<PokemonStatus>(&list[20]) {
        Some(status) => status,
        None => return Reading::Malformed,
    };
    let substitute_health = if list[23].len() == 0 {
        0
    } else {
        match read_short(&list, 23) {
            Some(health) => health,
            None => return Reading::Malformed,
        }
    };
    let mut known = true;
    let move_0 = match read_slot(&list, 0, table) {
        Reading::Malformed => return Reading::Malformed,
        Reading::Unknown => {
            known = false;
            Move::new()
        },
        Reading::Fine(read) => read,
    };
    let move_1 = match read_slot(&list, 1, table) {
        Reading::Malformed => return Reading::Malformed,
        Reading::Unknown => {
            known = false;
            Move::new()
        },
        Reading::Fine(read) => read,
    };
    let move_2 = match read_slot(&list, 2, table) {
        Reading::Malformed => return Reading::Malformed,
        Reading::Unknown => {
            known = false;
            Move::new()
        },
        Reading::Fine(read) => read,
    };
    let move_3 = match read_slot(&list, 3, table) {
        Reading::Malformed => return Reading::Malformed,
        Reading::Unknown => {
            known = false;
            Move::new()
        },
        Reading::Fine(read) => read,
    };
    let ability = read_name::<Abilities>(&list[6]);
    let item = read_name::<Items>(&list[7]);
    if !known {
        return Reading::Unknown;
    }
    match (ability, item) {
        (Some(ability), Some(item)) => {
            let pokemon = Pokemon {
                id,
                level,
                types: (first_type, second_type),
                hp,
                maxhp,
                ability,
                item,
                attack,
                defense,
                special_attack,
                special_defense,
                speed,
                attack_boost,
                defense_boost,
                special_attack_boost,
                special_defense_boost,
                speed_boost,
                accuracy_boost,
                evasion_boost,
                status,
                substitute_health,
                volatile_statuses: VolatileStatuses {
                    aqua_ring: false,
                    attract: false,
                    confusion: false,
                    encore: false,
                    flinch: false,
                    leech_seed: false,
                    partially_trapped: false,
                    protect: false,
                    substitute: false,
                    taunt: false,
                },
                moves: [move_0, move_1, move_2, move_3],
            };
            assert(pokemon.moves =~= pokemon_described(text@, *table).moves);
            Reading::Fine(pokemon)
        },
        _ => Reading::Unknown,
    }
}


/// Whether the text of the side conditions is well formed: a count for
/// each condition, in the order of their names, none below zero and none
/// above the cap of its condition.
#[verifier::opaque]
pub open spec fn conditions_well_formed(text: Seq<char>) -> bool {
    let f = fields(text, ';');
    &&& f.len() == 19
    &&& whole(f[0], 0, 127)
    &&& whole(f[1], 0, 127)
    &&& whole(f[2], 0, 127)
    &&& whole(f[3], 0, 127)
    &&& whole(f[4], 0, 127)
    &&& whole(f[5], 0, 127)
    &&& whole(f[6], 0, 127)
    &&& whole(f[7], 0, 127)
    &&& whole(f[8], 0, 127)
    &&& whole(f[9], 0, 127)
    &&& whole(f[10], 0, 127)
    &&& whole(f[11], 0, 127)
    &&& whole(f[12], 0, 3)
    &&& whole(f[13], 0, 1)
    &&& whole(f[14], 0, 1)
    &&& whole(f[15], 0, 127)
    &&& whole(f[16], 0, 127)
    &&& whole(f[17], 0, 2)
    &&& whole(f[18], 0, 127)
}

/// The side conditions that a text describes.
#[verifier::opaque]
pub open spec fn conditions_described(text: Seq<char>) -> SideConditions {
    let f = fields(text, ';');
    SideConditions {
        aurora_veil: number(f[0]) as i8,
        crafty_shield: number(f[1]) as i8,
        healing_wish: number(f[2]) as i8,
        light_screen: number(f[3]) as i8,
        lucky_chant: number(f[4]) as i8,
        lunar_dance: number(f[5]) as i8,
        mat_block: number(f[6]) as i8,
        mist: number(f[7]) as i8,
        protect: number(f[8]) as i8,
        quick_guard: number(f[9]) as i8,
        reflect: number(f[10]) as i8,
        safeguard: number(f[11]) as i8,
        spikes: number(f[12]) as i8,
        stealth_rock: number(f[13]) as i8,
        sticky_web: number(f[14]) as i8,
        tailwind: number(f[15]) as i8,
        toxic_count: number(f[16]) as i8,
        toxic_spikes: number(f[17]) as i8,
        wide_guard: number(f[18]) as i8,
    }
}

/// Reads the side conditions.
pub fn read_conditions(text: &Vec<char>) -> (r: Option<SideConditions>)
    ensures
        r == if conditions_well_formed(text@) {
            Some(conditions_described(text@))
        } else {
            None
        },
        r matches Some(conditions) ==> conditions.in_bounds(),
{
    proof {
        reveal(conditions_well_formed);
        reveal(conditions_described);
    }
    let list = split(text, ';');
    assert(forall|k: int| 0 <= k < list.len() ==> texts(list@)[k] == list@[k]@);
    if list.len() != 19 {
        return None;
    }
    let aurora_veil = match read_within(&list, 0, 0, 127) {
        Some(count) => count,
        None => return None,
    };
    let crafty_shield = match read_within(&list, 1, 0, 127) {
        Some(count) => count,
        None => return None,
    };
    let healing_wish = match read_within(&list, 2, 0, 127) {
        Some(count) => count,
        None => return None,
    };
    let light_screen = match read_within(&list, 3, 0, 127) {
        Some(count) => count,
        None => return None,
    };
    let lucky_chant = match read_within(&list, 4, 0, 127) {
        Some(count) => count,
        None => return None,
    };
    let lunar_dance = match read_within(&list, 5, 0, 127) {
        Some(count) => count,
        None => return None,
    };
    let mat_block = match read_within(&list, 6, 0, 127) {
        Some(count) => count,
        None => return None,
    };
    let mist = match read_within(&list, 7, 0, 127) {
        Some(count) => count,
        None => return None,
    };
    let protect = match read_within(&list, 8, 0, 127) {
        Some(count) => count,
        None => return None,
    };
    let quick_guard = match read_within(&list, 9, 0, 127) {
        Some(count) => count,
        None => return None,
    };
    let reflect = match read_within(&list, 10, 0, 127) {
        Some(count) => count,
        None => return None,
    };
    let safeguard = match read_within(&list, 11, 0, 127) {
        Some(count) => count,
        None => return None,
    };
    let spikes = match read_within(&list, 12, 0, 3) {
        Some(count) => count,
        None => return None,
    };
    let stealth_rock = match read_within(&list, 13, 0, 1) {
        Some(count) => count,
        None => return None,
    };
    let sticky_web = match read_within(&list, 14, 0, 1) {
        Some(count) => count,
        None => return None,
    };
    let tailwind = match read_within(&list, 15, 0, 127) {
        Some(count) => count,
        None => return None,
    };
    let toxic_count = match read_within(&list, 16, 0, 127) {
        Some(count) => count,
        None => return None,
    };
    let toxic_spikes = match read_within(&list, 17, 0, 2) {
        Some(count) => count,
        None => return None,
    };
    let wide_guard = match read_within(&list, 18, 0, 127) {
        Some(count) => count,
        None => return None,
    };
    Some(SideConditions {
        aurora_veil,
        crafty_shield,
        healing_wish,
        light_screen,
        lucky_chant,
        lunar_dance,
        mat_block,
        mist,
        protect,
        quick_guard,
        reflect,
        safeguard,
        spikes,
        stealth_rock,
        sticky_web,
        tailwind,
        toxic_count,
        toxic_spikes,
        wide_guard,
    })
}

/// The last move that a text describes, whatever the case of its letters:
/// `none`, or `move` or `switch` with a place after a `:`.
#[verifier::opaque]
pub open spec fn last_move_described(text: Seq<char>) -> Option<LastUsedMove> {
    let f = fields(text, ':');
    if f.len() == 1 && lowered(f[0]) == "none"@ {
        Some(LastUsedMove::NONE)
    } else if f.len() == 2 && lowered(f[0]) == "move"@ && whole(f[1], 0, 3) {
        Some(LastUsedMove::Move(PokemonMoveIndex::all()[number(f[1])]))
    } else if f.len() == 2 && lowered(f[0]) == "switch"@ && whole(f[1], 0, 5) {
        Some(LastUsedMove::Switch(PokemonIndex::all()[number(f[1])]))
    } else {
        None
    }
}

/// Reads the last move of a side.
pub fn read_last_move(text: &Vec<char>) -> (r: Option<LastUsedMove>)
    ensures
        r == last_move_described(text@),
{
    proof {
        reveal(last_move_described);
    }
    let list = split(text, ':');
    assert(forall|k: int| 0 <= k < list.len() ==> texts(list@)[k] == list@[k]@);
    if list.len() == 1 && is_name(&list[0], "none") {
        return Some(LastUsedMove::NONE);
    }
    if list.len() != 2 {
        return None;
    }
    if is_name(&list[0], "move") {
        proof {
            reveal_strlit("move");
            reveal_strlit("switch");
            assert("move"@.len() == 4);
            assert("switch"@.len() == 6);
        }
        return match read_within(&list, 1, 0, 3) {
            Some(place) => Some(LastUsedMove::Move(PokemonMoveIndex::from_usize(place as usize).unwrap())),
            None => None,
        };
    }
    if is_name(&list[0], "switch") {
        return match read_within(&list, 1, 0, 5) {
            Some(place) => Some(LastUsedMove::Switch(PokemonIndex::from_usize(place as usize).unwrap())),
            None => None,
        };
    }
    None
}

/// Whether the text of a side is well formed.
#[verifier::opaque]
pub open spec fn side_well_formed(text: Seq<char>) -> bool {
    let p = parts(text);
    &&& p.len() == 12
    &&& pokemon_well_formed(p[0])
    &&& pokemon_well_formed(p[1])
    &&& pokemon_well_formed(p[2])
    &&& pokemon_well_formed(p[3])
    &&& pokemon_well_formed(p[4])
    &&& pokemon_well_formed(p[5])
    &&& whole(p[6], 0, 5)
    &&& conditions_well_formed(p[7])
    &&& small(p[8])
    &&& short(p[9])
    &&& is_flag(p[10])
    &&& last_move_described(p[11]).is_some()
}

/// Whether the abilities, the items and the moves that the text of a side
/// names are known.
#[verifier::opaque]
pub open spec fn side_known(text: Seq<char>) -> bool {
    let p = parts(text);
    &&& pokemon_known(p[0])
    &&& pokemon_known(p[1])
    &&& pokemon_known(p[2])
    &&& pokemon_known(p[3])
    &&& pokemon_known(p[4])
    &&& pokemon_known(p[5])
}

/// The side that a text describes.
#[verifier::opaque]
pub open spec fn side_described(text: Seq<char>, table: MoveTable) -> Side {
    let p = parts(text);
    Side {
        active_index: PokemonIndex::all()[number(p[6])],
        pokemon: [
            pokemon_described(p[0], table),
            pokemon_described(p[1], table),
            pokemon_described(p[2], table),
            pokemon_described(p[3], table),
            pokemon_described(p[4], table),
            pokemon_described(p[5], table),
        ],
        side_conditions: conditions_described(p[7]),
        wish: Wish { turns_remaining: number(p[8]) as i8, heal_amount: number(p[9]) as i16 },
        force_trapped: flag(p[10]),
        slow_uturn_move: false,
        last_used_move: last_move_described(p[11]).unwrap(),
    }
}

/// Reads a side.
pub fn read_side(text: &Vec<char>, table: &MoveTable) -> (r: Reading<Side>)
    ensures
        r == reading(side_well_formed(text@), side_known(text@), side_described(text@, *table)),
        r matches Reading::Fine(side) ==> side.in_bounds(),
{
    proof {
        reveal(side_well_formed);
        reveal(side_known);
        reveal(side_described);
    }
    let list = split_parts(text);
    assert(forall|k: int| 0 <= k < list.len() ==> texts(list@)[k] == list@[k]@);
    if list.len() != 12 {
        return Reading::Malformed;
    }
    let mut known = true;
    let pokemon_0 = match read_pokemon(&list[0], table) {
        Reading::Malformed => return Reading::Malformed,
        Reading::Unknown => {
            known = false;
            Pokemon::default()
        },
        Reading::Fine(read) => read,
    };
    let pokemon_1 = match read_pokemon(&list[1], table) {
        Reading::Malformed => return Reading::Malformed,
        Reading::Unknown => {
            known = false;
            Pokemon::default()
        },
        Reading::Fine(read) => read,
    };
    let pokemon_2 = match read_pokemon(&list[2], table) {
        Reading::Malformed => return Reading::Malformed,
        Reading::Unknown => {
            known = false;
            Pokemon::default()
        },
        Reading::Fine(read) => read,
    };
    let pokemon_3 = match read_pokemon(&list[3], table) {
        Reading::Malformed => return Reading::Malformed,
        Reading::Unknown => {
            known = false;
            Pokemon::default()
        },
        Reading::Fine(read) => read,
    };
    let pokemon_4 = match read_pokemon(&list[4], table) {
        Reading::Malformed => return Reading::Malformed,
        Reading::Unknown => {
            known = false;
            Pokemon::default()
        },
        Reading::Fine(read) => read,
    };
    let pokemon_5 = match read_pokemon(&list[5], table) {
        Reading::Malformed => return Reading::Malformed,
        Reading::Unknown => {
            known = false;
            Pokemon::default()
        },
        Reading::Fine(read) => read,
    };
    let active_index = match read_within(&list, 6, 0, 5) {
        Some(place) => PokemonIndex::from_usize(place as usize).unwrap(),
        None => return Reading::Malformed,
    };
    let side_conditions = match read_conditions(&list[7]) {
        Some(conditions) => conditions,
        None => return Reading::Malformed,
    };
    let turns_remaining = match read_small(&list, 8) {
        Some(turns) => turns,
        None => return Reading::Malformed,
    };
    let heal_amount = match read_short(&list, 9) {
        Some(amount) => amount,
        None => return Reading::Malformed,
    };
    let force_trapped = match read_flag(&list[10]) {
        Some(trapped) => trapped,
        None => return Reading::Malformed,
    };
    let last_used_move = match read_last_move(&list[11]) {
        Some(last) => last,
        None => return Reading::Malformed,
    };
    if !known {
        return Reading::Unknown;
    }
    let side = Side {
        active_index,
        pokemon: [pokemon_0, pokemon_1, pokemon_2, pokemon_3, pokemon_4, pokemon_5],
        side_conditions,
        wish: Wish { turns_remaining, heal_amount },
        force_trapped,
        slow_uturn_move: false,
        last_used_move,
    };
    assert(side.pokemon =~= side_described(text@, *table).pokemon);
    assert forall|index: PokemonIndex| (#[trigger] side.at(index)).in_bounds() by {
        assert(0 <= index.number() < 6);
    }
    Reading::Fine(side)
}

/// Whether the text of a weather or of a terrain is well formed as far as
/// its turns go: two parts, the second of them a number.
pub open spec fn with_turns(text: Seq<char>) -> bool {
    let f = fields(text, ';');
    f.len() == 2 && small(f[1])
}

/// Whether the text of a state is well formed.
pub open spec fn state_well_formed(text: Seq<char>) -> bool {
    let s = fields(text, '/');
    &&& s.len() == 5
    &&& side_well_formed(s[0])
    &&& side_well_formed(s[1])
    &&& with_turns(s[2])
    &&& named::<Weather>(fields(s[2], ';')[0]).is_some()
    &&& with_turns(s[3])
    &&& named::<Terrain>(fields(s[3], ';')[0]).is_some()
    &&& is_flag(s[4])
}

/// Whether the abilities, the items and the moves that the text of a state
/// names are known.
pub open spec fn state_known(text: Seq<char>) -> bool {
    let s = fields(text, '/');
    side_known(s[0]) && side_known(s[1])
}

/// The state that a text describes.
pub open spec fn state_described(text: Seq<char>, table: MoveTable) -> State {
    let s = fields(text, '/');
    State {
        side_one: side_described(s[0], table),
        side_two: side_described(s[1], table),
        weather: StateWeather {
            weather_type: named::<Weather>(fields(s[2], ';')[0]).unwrap(),
            turns_remaining: number(fields(s[2], ';')[1]) as i8,
        },
        terrain: StateTerrain {
            terrain_type: named::<Terrain>(fields(s[3], ';')[0]).unwrap(),
            turns_remaining: number(fields(s[3], ';')[1]) as i8,
        },
        trick_room: flag(s[4]),
        team_preview: false,
    }
}

/// What reading the text of a state gives: a text that is not well formed
/// is refused as such; a well-formed text that names an ability, an item
/// or a move that is not known is refused for that; any other text gives
/// the state that it describes.
pub open spec fn state_of(text: Seq<char>, table: MoveTable) -> Result<State, EngineError> {
    if !state_well_formed(text) {
        Err(EngineError::StateParseError)
    } else if !state_known(text) {
        Err(EngineError::UnknownIdentifier)
    } else {
        Ok(state_described(text, table))
    }
}

impl State {
    /// Reads a state from its text. The category of each move is the one
    /// that `table` gives it. A state that is read is within its bounds.
    pub fn deserialize(text: &str, table: &MoveTable) -> (r: Result<State, EngineError>)
        ensures
            r == state_of(text@, *table),
            r matches Ok(state) ==> state.in_bounds(),
    {
        State::read(&characters(text), table)
    }

    /// Reads a state from the characters of its text.
    pub fn read(text: &Vec<char>, table: &MoveTable) -> (r: Result<State, EngineError>)
        ensures
            r == state_of(text@, *table),
            r matches Ok(state) ==> state.in_bounds(),
    {
        let list = split(text, '/');
        assert(forall|k: int| 0 <= k < list.len() ==> texts(list@)[k] == list@[k]@);
        if list.len() != 5 {
            return Err(EngineError::StateParseError);
        }
        let mut known = true;
        let side_one = match read_side(&list[0], table) {
            Reading::Malformed => return Err(EngineError::StateParseError),
            Reading::Unknown => {
                known = false;
                Side::default()
            },
            Reading::Fine(read) => read,
        };
        let side_two = match read_side(&list[1], table) {
            Reading::Malformed => return Err(EngineError::StateParseError),
            Reading::Unknown => {
                known = false;
                Side::default()
            },
            Reading::Fine(read) => read,
        };
        let weather = split(&list[2], ';');
        assert(forall|k: int| 0 <= k < weather.len() ==> texts(weather@)[k] == weather@[k]@);
        if weather.len() != 2 {
            return Err(EngineError::StateParseError);
        }
        let weather_turns = match read_small(&weather, 1) {
            Some(turns) => turns,
            None => return Err(EngineError::StateParseError),
        };
        let weather_type = match read_name::<Weather>(&weather[0]) {
            Some(weather_type) => weather_type,
            None => return Err(EngineError::StateParseError),
        };
        let terrain = split(&list[3], ';');
        assert(forall|k: int| 0 <= k < terrain.len() ==> texts(terrain@)[k] == terrain@[k]@);
        if terrain.len() != 2 {
            return Err(EngineError::StateParseError);
        }
        let terrain_turns = match read_small(&terrain, 1) {
            Some(turns) => turns,
            None => return Err(EngineError::StateParseError),
        };
        let terrain_type = match read_name::<Terrain>(&terrain[0]) {
            Some(terrain_type) => terrain_type,
            None => return Err(EngineError::StateParseError),
        };
        let trick_room = match read_flag(&list[4]) {
            Some(trick_room) => trick_room,
            None => return Err(EngineError::StateParseError),
        };
        if !known {
            return Err(EngineError::UnknownIdentifier);
        }
        Ok(State {
            side_one,
            side_two,
            weather: StateWeather { weather_type, turns_remaining: weather_turns },
            terrain: StateTerrain { terrain_type, turns_remaining: terrain_turns },
            trick_room,
            team_preview: false,
        })
    }
}

} // verus!
