//! What a line of text is made of: fields between separators, numbers,
//! flags, and names whatever the case of their letters.

use vstd::prelude::*;
use vstd::string::StrSliceExecFns;

verus! {

/// The fields of a text: each separator begins a new field, and every
/// other character joins the field that is the last so far. A text without
/// a separator is one field, and so is the empty text.
pub open spec fn fields(text: Seq<char>, sep: char) -> Seq<Seq<char>>
    decreases text.len(),
{
    if text.len() == 0 {
        seq![Seq::<char>::empty()]
    } else {
        let before = fields(text.drop_last(), sep);
        if text.last() == sep {
            before.push(Seq::<char>::empty())
        } else {
            before.drop_last().push(before.last().push(text.last()))
        }
    }
}

/// A text has at least one field.
pub proof fn fields_are_some(text: Seq<char>, sep: char)
    ensures
        fields(text, sep).len() >= 1,
    decreases text.len(),
{
    if text.len() > 0 {
        fields_are_some(text.drop_last(), sep);
    }
}

/// A text without a separator is one field.
pub proof fn one_field(text: Seq<char>, sep: char)
    requires
        forall|i: int| 0 <= i < text.len() ==> text[i] != sep,
    ensures
        fields(text, sep) == seq![text],
    decreases text.len(),
{
    if text.len() == 0 {
        assert(text =~= Seq::<char>::empty());
    } else {
        one_field(text.drop_last(), sep);
        let before = seq![text.drop_last()];
        assert(text.drop_last().push(text.last()) =~= text);
        assert(before.last() == text.drop_last());
        assert(before.drop_last().push(text) =~= seq![text]);
    }
}

/// The fields of two texts with a separator between them are the fields
/// of the first and then those of the second.
pub proof fn fields_of_joined(first: Seq<char>, second: Seq<char>, sep: char)
    ensures
        fields(first + seq![sep] + second, sep) == fields(first, sep) + fields(second, sep),
    decreases second.len(),
{
    let joined = first + seq![sep] + second;
    let before = fields(first, sep);
    if second.len() == 0 {
        assert(joined.drop_last() =~= first);
        assert(before.push(Seq::<char>::empty()) =~= before + fields(second, sep));
    } else {
        let after = fields(second.drop_last(), sep);
        fields_of_joined(first, second.drop_last(), sep);
        fields_are_some(second.drop_last(), sep);
        assert(joined.drop_last() =~= first + seq![sep] + second.drop_last());
        assert(joined.last() == second.last());
        if second.last() == sep {
            assert((before + after).push(Seq::<char>::empty()) =~= before + after.push(
                Seq::<char>::empty(),
            ));
        } else {
            assert((before + after).drop_last().push(
                (before + after).last().push(second.last()),
            ) =~= before + after.drop_last().push(after.last().push(second.last())));
        }
    }
}

/// The texts that a list of fields holds.
pub open spec fn texts(list: Seq<Vec<char>>) -> Seq<Seq<char>> {
    Seq::new(list.len(), |i: int| list[i]@)
}

/// The characters of a text.
pub fn characters(text: &str) -> (r: Vec<char>)
    ensures
        r@ == text@,
{
    let length = text.unicode_len();
    let mut r: Vec<char> = Vec::new();
    let mut i: usize = 0;
    while i < length
        invariant
            length == text@.len(),
            i <= length,
            r@ == text@.take(i as int),
        decreases length - i,
    {
        r.push(text.get_char(i));
        assert(text@.take(i + 1) =~= text@.take(i as int).push(text@[i as int]));
        i += 1;
    }
    assert(text@.take(length as int) =~= text@);
    r
}

/// The fields of `text` between the separators `sep`.
pub fn split(text: &Vec<char>, sep: char) -> (r: Vec<Vec<char>>)
    ensures
        texts(r@) == fields(text@, sep),
        r.len() >= 1,
{
    let mut done: Vec<Vec<char>> = Vec::new();
    let mut last: Vec<char> = Vec::new();
    let mut i: usize = 0;
    assert(text@.take(0) =~= Seq::<char>::empty());
    assert(texts(done@).push(last@) =~= seq![Seq::<char>::empty()]);
    while i < text.len()
        invariant
            i <= text.len(),
            fields(text@.take(i as int), sep) == texts(done@).push(last@),
        decreases text.len() - i,
    {
        let ghost before = texts(done@).push(last@);
        let ghost so_far = text@.take(i + 1);
        assert(so_far.drop_last() =~= text@.take(i as int));
        assert(so_far.last() == text@[i as int]);
        if text[i] == sep {
            done.push(last);
            last = Vec::new();
            assert(texts(done@).push(last@) =~= before.push(Seq::<char>::empty()));
        } else {
            last.push(text[i]);
            assert(texts(done@).push(last@) =~= before.drop_last().push(
                before.last().push(text@[i as int]),
            ));
        }
        i += 1;
    }
    assert(text@.take(text.len() as int) =~= text@);
    let ghost all = texts(done@).push(last@);
    done.push(last);
    assert(texts(done@) =~= all);
    done
}

/// Whether the character at the place `i` of a text separates two parts of
/// a side: a `-` that is no sign of a number. A `-` at the start of the
/// text, or directly after a `,`, a `;` or a `-`, is a sign.
pub open spec fn separates(text: Seq<char>, i: int) -> bool {
    text[i] == '-' && i > 0 && text[i - 1] != ',' && text[i - 1] != ';' && text[i - 1] != '-'
}

/// The parts of a text between the `-` that separate: each of them begins
/// a new part, and every other character joins the part that is the last
/// so far.
pub open spec fn parts(text: Seq<char>) -> Seq<Seq<char>>
    decreases text.len(),
{
    if text.len() == 0 {
        seq![Seq::<char>::empty()]
    } else {
        let before = parts(text.drop_last());
        if separates(text, text.len() - 1) {
            before.push(Seq::<char>::empty())
        } else {
            before.drop_last().push(before.last().push(text.last()))
        }
    }
}

/// The parts of `text` between the `-` that separate.
pub fn split_parts(text: &Vec<char>) -> (r: Vec<Vec<char>>)
    ensures
        texts(r@) == parts(text@),
        r.len() >= 1,
{
    let mut done: Vec<Vec<char>> = Vec::new();
    let mut last: Vec<char> = Vec::new();
    let mut i: usize = 0;
    assert(text@.take(0) =~= Seq::<char>::empty());
    assert(texts(done@).push(last@) =~= seq![Seq::<char>::empty()]);
    while i < text.len()
        invariant
            i <= text.len(),
            parts(text@.take(i as int)) == texts(done@).push(last@),
        decreases text.len() - i,
    {
        let ghost before = texts(done@).push(last@);
        let ghost so_far = text@.take(i + 1);
        assert(so_far.drop_last() =~= text@.take(i as int));
        assert(so_far.last() == text@[i as int]);
        assert(i > 0 ==> so_far[i - 1] == text@[i - 1]);
        if text[i] == '-' && i > 0 && text[i - 1] != ',' && text[i - 1] != ';' && text[i - 1]
            != '-' {
            done.push(last);
            last = Vec::new();
            assert(texts(done@).push(last@) =~= before.push(Seq::<char>::empty()));
        } else {
            last.push(text[i]);
            assert(texts(done@).push(last@) =~= before.drop_last().push(
                before.last().push(text@[i as int]),
            ));
        }
        i += 1;
    }
    assert(text@.take(text.len() as int) =~= text@);
    let ghost all = texts(done@).push(last@);
    done.push(last);
    assert(texts(done@) =~= all);
    done
}

/// Whether the field is the text `literal`.
pub fn is_text(field: &Vec<char>, literal: &str) -> (r: bool)
    ensures
        r == (field@ == literal@),
{
    let length = literal.unicode_len();
    if field.len() != length {
        return false;
    }
    let mut i: usize = 0;
    while i < length
        invariant
            length == literal@.len(),
            field.len() == length,
            i <= length,
            field@.take(i as int) == literal@.take(i as int),
        decreases length - i,
    {
        if field[i] != literal.get_char(i) {
            return false;
        }
        assert(field@.take(i + 1) =~= field@.take(i as int).push(field@[i as int]));
        assert(literal@.take(i + 1) =~= literal@.take(i as int).push(literal@[i as int]));
        i += 1;
    }
    assert(field@.take(length as int) =~= field@);
    assert(literal@.take(length as int) =~= literal@);
    true
}

/// The letter in lower case, where it is one of `A` to `Z`; any other
/// character as it is.
pub open spec fn lower(c: char) -> char {
    if 'A' <= c <= 'Z' {
        ((c as u8) + 32) as char
    } else {
        c
    }
}

/// The text with its letters of `A` to `Z` in lower case.
pub open spec fn lowered(text: Seq<char>) -> Seq<char> {
    Seq::new(text.len(), |i: int| lower(text[i]))
}

/// The letter in lower case.
pub fn to_lower(c: char) -> (r: char)
    ensures
        r == lower(c),
{
    if 'A' <= c && c <= 'Z' {
        ((c as u8) + 32) as char
    } else {
        c
    }
}

/// Whether the field, with its letters in lower case, is the text `name`.
pub fn is_name(field: &Vec<char>, name: &str) -> (r: bool)
    ensures
        r == (lowered(field@) == name@),
{
    let length = name.unicode_len();
    if field.len() != length {
        return false;
    }
    let mut i: usize = 0;
    while i < length
        invariant
            length == name@.len(),
            field.len() == length,
            i <= length,
            lowered(field@).take(i as int) == name@.take(i as int),
        decreases length - i,
    {
        if to_lower(field[i]) != name.get_char(i) {
            assert(lowered(field@)[i as int] != name@[i as int]);
            return false;
        }
        assert(lowered(field@).take(i + 1) =~= lowered(field@).take(i as int).push(
            lowered(field@)[i as int],
        ));
        assert(name@.take(i + 1) =~= name@.take(i as int).push(name@[i as int]));
        i += 1;
    }
    assert(lowered(field@).take(length as int) =~= lowered(field@));
    assert(name@.take(length as int) =~= name@);
    true
}

/// Whether the character is one of `0` to `9`.
pub open spec fn is_digit(c: char) -> bool {
    '0' <= c <= '9'
}

/// The number that a digit stands for.
pub open spec fn digit(c: char) -> int {
    c as int - '0' as int
}

/// Whether the text is one digit or more, and nothing else.
pub open spec fn all_digits(text: Seq<char>) -> bool {
    text.len() > 0 && forall|i: int| 0 <= i < text.len() ==> is_digit(#[trigger] text[i])
}

/// The number that the digits of a text write, in base ten.
pub open spec fn natural(text: Seq<char>) -> int
    decreases text.len(),
{
    if text.len() == 0 {
        0
    } else {
        natural(text.drop_last()) * 10 + digit(text.last())
    }
}

/// Whether the text starts with a minus sign.
pub open spec fn negative(text: Seq<char>) -> bool {
    text.len() > 0 && text[0] == '-'
}

/// Whether the text writes a whole number: digits, after a minus sign or
/// after none.
pub open spec fn is_number(text: Seq<char>) -> bool {
    if negative(text) {
        all_digits(text.skip(1))
    } else {
        all_digits(text)
    }
}

/// The whole number that the text writes.
pub open spec fn number(text: Seq<char>) -> int {
    if negative(text) {
        -natural(text.skip(1))
    } else {
        natural(text)
    }
}

/// The number that the text writes, where it writes one from `low` to
/// `high`.
pub open spec fn number_within(text: Seq<char>, low: int, high: int) -> Option<int> {
    if is_number(text) && low <= number(text) <= high {
        Some(number(text))
    } else {
        None
    }
}

/// No number that is read reaches this limit.
pub const LIMIT: i64 = 1_000_000_000_000_000;

/// No number written with digits is negative.
pub proof fn natural_is_not_negative(text: Seq<char>)
    requires
        forall|i: int| 0 <= i < text.len() ==> is_digit(#[trigger] text[i]),
    ensures
        natural(text) >= 0,
    decreases text.len(),
{
    if text.len() > 0 {
        natural_is_not_negative(text.drop_last());
    }
}

/// The number that the field writes, where it writes one from `low` to
/// `high`.
pub fn read_number(field: &Vec<char>, low: i64, high: i64) -> (r: Option<i64>)
    requires
        -LIMIT < low,
        high < LIMIT,
    ensures
        number_within(field@, low as int, high as int) == match r {
            Some(n) => Some(n as int),
            None => None,
        },
{
    let start: usize = if field.len() > 0 && field[0] == '-' {
        1
    } else {
        0
    };
    if field.len() == start {
        assert(field@.skip(start as int).len() == 0);
        return None;
    }
    let ghost digits = field@.skip(start as int);
    let mut value: i64 = 0;
    let mut i: usize = start;
    assert(digits.take(0) =~= Seq::<char>::empty());
    while i < field.len()
        invariant
            start <= i <= field.len(),
            negative(field@) <==> start == 1,
            start == 0 || start == 1,
            digits == field@.skip(start as int),
            forall|j: int| 0 <= j < i - start ==> is_digit(#[trigger] digits[j]),
            0 <= value <= LIMIT,
            value == if natural(digits.take(i - start)) < LIMIT {
                natural(digits.take(i - start))
            } else {
                LIMIT as int
            },
        decreases field.len() - i,
    {
        let c = field[i];
        assert(digits[i - start] == c);
        if !('0' <= c && c <= '9') {
            assert(!is_digit(digits[i - start]));
            assert(!all_digits(digits));
            assert(negative(field@) <==> start == 1);
            return None;
        }
        assert(digits.take(i - start + 1).drop_last() =~= digits.take(i - start));
        proof {
            natural_is_not_negative(digits.take(i - start));
        }
        let next: i64 = value * 10 + ((c as u8) - 48) as i64;
        value = if next < LIMIT {
            next
        } else {
            LIMIT
        };
        i += 1;
    }
    assert(digits.take(field.len() - start) =~= digits);
    assert(all_digits(digits));
    assert(negative(field@) <==> start == 1);
    assert(start == 0 ==> digits =~= field@);
    let signed: i64 = if start == 1 {
        -value
    } else {
        value
    };
    if value < LIMIT && low <= signed && signed <= high {
        Some(signed)
    } else {
        None
    }
}

/// Whether the text is `true` or `false`.
pub open spec fn is_flag(text: Seq<char>) -> bool {
    text == "true"@ || text == "false"@
}

/// Whether the text is `true`.
pub open spec fn flag(text: Seq<char>) -> bool {
    text == "true"@
}

/// The flag that the field writes, where it writes one.
pub fn read_flag(field: &Vec<char>) -> (r: Option<bool>)
    ensures
        r == if is_flag(field@) {
            Some(flag(field@))
        } else {
            None
        },
{
    if is_text(field, "true") {
        Some(true)
    } else if is_text(field, "false") {
        Some(false)
    } else {
        None
    }
}

} // verus!
