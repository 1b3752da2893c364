//! A state written as one line of text, in the form that it is read from.

use vstd::prelude::*;
use crate::labels::Named;
use crate::names::push_str;
use crate::state::{LastUsedMove, Move, Pokemon, Side, SideConditions, State};
use crate::text::{all_digits, digit, is_digit, natural, negative, number_within};

verus! {

/// The character that writes a digit.
pub open spec fn digit_char(d: int) -> char {
    ((48 + d) as u8) as char
}

/// The digits that write a number that is not negative, in base ten and
/// without a zero before them.
pub open spec fn digits(n: int) -> Seq<char>
    decreases n,
{
    if n < 10 {
        seq![digit_char(n)]
    } else {
        digits(n / 10).push(digit_char(n % 10))
    }
}

/// The text of a whole number: its digits, after a minus sign where it is
/// negative.
pub open spec fn number_text(n: int) -> Seq<char> {
    if n < 0 {
        seq!['-'] + digits(-n)
    } else {
        digits(n)
    }
}

/// The digits that write a number are digits, and the number that they
/// write is that number.
pub proof fn digits_are_read(n: int)
    requires
        0 <= n,
    ensures
        all_digits(digits(n)),
        natural(digits(n)) == n,
    decreases n,
{
    if n < 10 {
        assert(digits(n).drop_last() =~= Seq::<char>::empty());
        assert(natural(Seq::<char>::empty()) == 0);
        assert(is_digit(digit_char(n)));
        assert(digit(digits(n).last()) == n);
    } else {
        digits_are_read(n / 10);
        let before = digits(n / 10);
        assert(digits(n).drop_last() =~= before);
        assert(is_digit(digit_char(n % 10)));
        assert(digit(digits(n).last()) == n % 10);
        assert forall|i: int| 0 <= i < digits(n).len() implies is_digit(
            #[trigger] digits(n)[i],
        ) by {
            if i < before.len() {
                assert(digits(n)[i] == before[i]);
            }
        }
    }
}

/// A number that is written is read again: the text of a number from
/// `low` to `high` writes that number.
pub proof fn written_number_is_read(n: int, low: int, high: int)
    requires
        low <= n <= high,
    ensures
        number_within(number_text(n), low, high) == Some(n),
{
    if n < 0 {
        digits_are_read(-n);
        assert(negative(number_text(n)));
        assert(number_text(n).skip(1) =~= digits(-n));
    } else {
        digits_are_read(n);
        assert(is_digit(digits(n)[0]));
        assert(!negative(number_text(n)));
    }
}

/// The text of a flag.
pub open spec fn flag_text(flag: bool) -> Seq<char> {
    if flag {
        "true"@
    } else {
        "false"@
    }
}

/// `String::push`: the text with the character `c` after it.
#[verifier::external_body]
pub(crate) fn push_char(text: &mut String, c: char)
    ensures
        final(text)@ == old(text)@.push(c),
{
    text.push(c)
}

pub(crate) fn push_digits(out: &mut String, n: u64)
    ensures
        final(out)@ == old(out)@ + digits(n as int),
    decreases n,
{
    if n >= 10 {
        push_digits(out, n / 10);
    }
    let c = ((48 + n % 10) as u8) as char;
    push_char(out, c);
    assert(final(out)@ =~= old(out)@ + digits(n as int));
}

/// Writes the number `n` after the text.
pub fn push_number(out: &mut String, n: i64)
    ensures
        final(out)@ == old(out)@ + number_text(n as int),
{
    if n < 0 {
        push_char(out, '-');
        push_digits(out, (-(n as i128)) as u64);
        assert(final(out)@ =~= old(out)@ + number_text(n as int));
    } else {
        push_digits(out, n as u64);
    }
}

/// Writes a flag after the text.
pub fn push_flag(out: &mut String, flag: bool)
    ensures
        final(out)@ == old(out)@ + flag_text(flag),
{
    if flag {
        push_str(out, "true");
    } else {
        push_str(out, "false");
    }
}

/// The text of a move: its name, whether it is disabled, and its power
/// points.
pub open spec fn move_text(slot: Move) -> Seq<char> {
    slot.id.label() + ";"@ + flag_text(slot.disabled) + ";"@ + number_text(slot.pp as int)
}

/// Writes a move.
pub fn write_move(slot: &Move) -> (r: String)
    ensures
        r@ == move_text(*slot),
{
    let mut out = slot.id.word().to_owned();
    push_str(&mut out, ";");
    push_flag(&mut out, slot.disabled);
    push_str(&mut out, ";");
    push_number(&mut out, slot.pp as i64);
    out
}

/// The text of a creature: its fields with a `,` between them. The two
/// fields that the state does not hold are written as `0` and `serious`.
#[verifier::opaque]
pub open spec fn pokemon_text(pokemon: Pokemon) -> Seq<char> {
    pokemon.id.label() + ","@ + number_text(pokemon.level as int) + ","@
        + pokemon.types.0.label() + ","@ + pokemon.types.1.label() + ","@ + number_text(
        pokemon.hp as int,
    ) + ","@ + number_text(pokemon.maxhp as int) + ","@ + pokemon.ability.label() + ","@
        + pokemon.item.label()
        + ","@ + number_text(pokemon.attack as int)
        + ","@ + number_text(pokemon.defense as int)
        + ","@ + number_text(pokemon.special_attack as int)
        + ","@ + number_text(pokemon.special_defense as int)
        + ","@ + number_text(pokemon.speed as int)
        + ","@ + number_text(pokemon.attack_boost as int)
        + ","@ + number_text(pokemon.defense_boost as int)
        + ","@ + number_text(pokemon.special_attack_boost as int)
        + ","@ + number_text(pokemon.special_defense_boost as int)
        + ","@ + number_text(pokemon.speed_boost as int)
        + ","@ + number_text(pokemon.accuracy_boost as int)
        + ","@ + number_text(pokemon.evasion_boost as int)
        + ","@ + pokemon.status.label() + ",0,serious,"@ + number_text(
        pokemon.substitute_health as int,
    ) + ","@ + move_text(pokemon.moves[0]) + ","@ + move_text(pokemon.moves[1]) + ","@
        + move_text(pokemon.moves[2]) + ","@ + move_text(pokemon.moves[3])
}

/// Writes a creature.
pub fn write_pokemon(pokemon: &Pokemon) -> (r: String)
    ensures
        r@ == pokemon_text(*pokemon),
{
    proof {
        reveal(pokemon_text);
    }
    let mut out = pokemon.id.word().to_owned();
    push_str(&mut out, ",");
    push_number(&mut out, pokemon.level as i64);
    push_str(&mut out, ",");
    push_str(&mut out, pokemon.types.0.word());
    push_str(&mut out, ",");
    push_str(&mut out, pokemon.types.1.word());
    push_str(&mut out, ",");
    push_number(&mut out, pokemon.hp as i64);
    push_str(&mut out, ",");
    push_number(&mut out, pokemon.maxhp as i64);
    push_str(&mut out, ",");
    push_str(&mut out, pokemon.ability.word());
    push_str(&mut out, ",");
    push_str(&mut out, pokemon.item.word());
    push_str(&mut out, ",");
    push_number(&mut out, pokemon.attack as i64);
    push_str(&mut out, ",");
    push_number(&mut out, pokemon.defense as i64);
    push_str(&mut out, ",");
    push_number(&mut out, pokemon.special_attack as i64);
    push_str(&mut out, ",");
    push_number(&mut out, pokemon.special_defense as i64);
    push_str(&mut out, ",");
    push_number(&mut out, pokemon.speed as i64);
    push_str(&mut out, ",");
    push_number(&mut out, pokemon.attack_boost as i64);
    push_str(&mut out, ",");
    push_number(&mut out, pokemon.defense_boost as i64);
    push_str(&mut out, ",");
    push_number(&mut out, pokemon.special_attack_boost as i64);
    push_str(&mut out, ",");
    push_number(&mut out, pokemon.special_defense_boost as i64);
    push_str(&mut out, ",");
    push_number(&mut out, pokemon.speed_boost as i64);
    push_str(&mut out, ",");
    push_number(&mut out, pokemon.accuracy_boost as i64);
    push_str(&mut out, ",");
    push_number(&mut out, pokemon.evasion_boost as i64);
    push_str(&mut out, ",");
    push_str(&mut out, pokemon.status.word());
    push_str(&mut out, ",0,serious,");
    push_number(&mut out, pokemon.substitute_health as i64);
    push_str(&mut out, ",");
    push_str(&mut out, write_move(&pokemon.moves[0]).as_str());
    push_str(&mut out, ",");
    push_str(&mut out, write_move(&pokemon.moves[1]).as_str());
    push_str(&mut out, ",");
    push_str(&mut out, write_move(&pokemon.moves[2]).as_str());
    push_str(&mut out, ",");
    push_str(&mut out, write_move(&pokemon.moves[3]).as_str());
    out
}

/// The text of the side conditions: the count of each, in the order of
/// their names, with a `;` between them.
#[verifier::opaque]
pub open spec fn conditions_text(conditions: SideConditions) -> Seq<char> {
    number_text(conditions.aurora_veil as int)
        + ";"@ + number_text(conditions.crafty_shield as int)
        + ";"@ + number_text(conditions.healing_wish as int)
        + ";"@ + number_text(conditions.light_screen as int)
        + ";"@ + number_text(conditions.lucky_chant as int)
        + ";"@ + number_text(conditions.lunar_dance as int)
        + ";"@ + number_text(conditions.mat_block as int)
        + ";"@ + number_text(conditions.mist as int)
        + ";"@ + number_text(conditions.protect as int)
        + ";"@ + number_text(conditions.quick_guard as int)
        + ";"@ + number_text(conditions.reflect as int)
        + ";"@ + number_text(conditions.safeguard as int)
        + ";"@ + number_text(conditions.spikes as int)
        + ";"@ + number_text(conditions.stealth_rock as int)
        + ";"@ + number_text(conditions.sticky_web as int)
        + ";"@ + number_text(conditions.tailwind as int)
        + ";"@ + number_text(conditions.toxic_count as int)
        + ";"@ + number_text(conditions.toxic_spikes as int)
        + ";"@ + number_text(conditions.wide_guard as int)
}

/// Writes the side conditions.
pub fn write_conditions(conditions: &SideConditions) -> (r: String)
    ensures
        r@ == conditions_text(*conditions),
{
    proof {
        reveal(conditions_text);
    }
    let mut out = String::new();
    push_number(&mut out, conditions.aurora_veil as i64);
    assert(out@ =~= number_text(conditions.aurora_veil as int));
    push_str(&mut out, ";");
    push_number(&mut out, conditions.crafty_shield as i64);
    push_str(&mut out, ";");
    push_number(&mut out, conditions.healing_wish as i64);
    push_str(&mut out, ";");
    push_number(&mut out, conditions.light_screen as i64);
    push_str(&mut out, ";");
    push_number(&mut out, conditions.lucky_chant as i64);
    push_str(&mut out, ";");
    push_number(&mut out, conditions.lunar_dance as i64);
    push_str(&mut out, ";");
    push_number(&mut out, conditions.mat_block as i64);
    push_str(&mut out, ";");
    push_number(&mut out, conditions.mist as i64);
    push_str(&mut out, ";");
    push_number(&mut out, conditions.protect as i64);
    push_str(&mut out, ";");
    push_number(&mut out, conditions.quick_guard as i64);
    push_str(&mut out, ";");
    push_number(&mut out, conditions.reflect as i64);
    push_str(&mut out, ";");
    push_number(&mut out, conditions.safeguard as i64);
    push_str(&mut out, ";");
    push_number(&mut out, conditions.spikes as i64);
    push_str(&mut out, ";");
    push_number(&mut out, conditions.stealth_rock as i64);
    push_str(&mut out, ";");
    push_number(&mut out, conditions.sticky_web as i64);
    push_str(&mut out, ";");
    push_number(&mut out, conditions.tailwind as i64);
    push_str(&mut out, ";");
    push_number(&mut out, conditions.toxic_count as i64);
    push_str(&mut out, ";");
    push_number(&mut out, conditions.toxic_spikes as i64);
    push_str(&mut out, ";");
    push_number(&mut out, conditions.wide_guard as i64);
    out
}

/// The text of the last move of a side.
pub open spec fn last_move_text(last: LastUsedMove) -> Seq<char> {
    match last {
        LastUsedMove::Move(index) => "move:"@ + number_text(index.number()),
        LastUsedMove::Switch(index) => "switch:"@ + number_text(index.number()),
        LastUsedMove::NONE => "none"@,
    }
}

/// Writes the last move of a side.
pub fn write_last_move(last: &LastUsedMove) -> (r: String)
    ensures
        r@ == last_move_text(*last),
{
    match last {
        LastUsedMove::Move(index) => {
            let mut out = "move:".to_owned();
            push_number(&mut out, index.to_usize() as i64);
            out
        },
        LastUsedMove::Switch(index) => {
            let mut out = "switch:".to_owned();
            push_number(&mut out, index.to_usize() as i64);
            out
        },
        LastUsedMove::NONE => "none".to_owned(),
    }
}

/// The text of a side: its six creatures, the place of the active one, the
/// side conditions, the turns and the amount of the wish, whether the side
/// is trapped, and the last move, with a `-` between them.
#[verifier::opaque]
pub open spec fn side_text(side: Side) -> Seq<char> {
    pokemon_text(side.pokemon[0]) + "-"@ + pokemon_text(side.pokemon[1]) + "-"@ + pokemon_text(
        side.pokemon[2],
    ) + "-"@ + pokemon_text(side.pokemon[3]) + "-"@ + pokemon_text(side.pokemon[4]) + "-"@
        + pokemon_text(side.pokemon[5]) + "-"@ + number_text(side.active_index.number()) + "-"@
        + conditions_text(side.side_conditions) + "-"@ + number_text(
        side.wish.turns_remaining as int,
    ) + "-"@ + number_text(side.wish.heal_amount as int) + "-"@ + flag_text(side.force_trapped)
        + "-"@ + last_move_text(side.last_used_move)
}

/// Writes a side.
pub fn write_side(side: &Side) -> (r: String)
    ensures
        r@ == side_text(*side),
{
    proof {
        reveal(side_text);
    }
    let mut out = write_pokemon(&side.pokemon[0]);
    push_str(&mut out, "-");
    push_str(&mut out, write_pokemon(&side.pokemon[1]).as_str());
    push_str(&mut out, "-");
    push_str(&mut out, write_pokemon(&side.pokemon[2]).as_str());
    push_str(&mut out, "-");
    push_str(&mut out, write_pokemon(&side.pokemon[3]).as_str());
    push_str(&mut out, "-");
    push_str(&mut out, write_pokemon(&side.pokemon[4]).as_str());
    push_str(&mut out, "-");
    push_str(&mut out, write_pokemon(&side.pokemon[5]).as_str());
    push_str(&mut out, "-");
    push_number(&mut out, side.active_index.to_usize() as i64);
    push_str(&mut out, "-");
    push_str(&mut out, write_conditions(&side.side_conditions).as_str());
    push_str(&mut out, "-");
    push_number(&mut out, side.wish.turns_remaining as i64);
    push_str(&mut out, "-");
    push_number(&mut out, side.wish.heal_amount as i64);
    push_str(&mut out, "-");
    push_flag(&mut out, side.force_trapped);
    push_str(&mut out, "-");
    push_str(&mut out, write_last_move(&side.last_used_move).as_str());
    out
}

/// The text of a state: its two sides, the weather and the terrain, each
/// with its turns after a `;`, and the trick room, with a `/` between
/// them.
pub open spec fn state_text(state: State) -> Seq<char> {
    side_text(state.side_one) + "/"@ + side_text(state.side_two) + "/"@
        + state.weather.weather_type.label() + ";"@ + number_text(
        state.weather.turns_remaining as int,
    ) + "/"@ + state.terrain.terrain_type.label() + ";"@ + number_text(
        state.terrain.turns_remaining as int,
    ) + "/"@ + flag_text(state.trick_room)
}

impl State {
    /// The state as one line of text.
    pub fn serialize(&self) -> (r: String)
        ensures
            r@ == state_text(*self),
    {
        let mut out = write_side(&self.side_one);
        push_str(&mut out, "/");
        push_str(&mut out, write_side(&self.side_two).as_str());
        push_str(&mut out, "/");
        push_str(&mut out, self.weather.weather_type.word());
        push_str(&mut out, ";");
        push_number(&mut out, self.weather.turns_remaining as i64);
        push_str(&mut out, "/");
        push_str(&mut out, self.terrain.terrain_type.word());
        push_str(&mut out, ";");
        push_number(&mut out, self.terrain.turns_remaining as i64);
        push_str(&mut out, "/");
        push_flag(&mut out, self.trick_room);
        out
    }
}

} // verus!
