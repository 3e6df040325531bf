//! Conversion between character indices and the UTF-16 offsets that native
//! text controls count in.

use vstd::prelude::*;

verus! {

/// How many UTF-16 code units one character takes: two for the characters
/// beyond the Basic Multilingual Plane, which are written as a surrogate pair.
pub open spec fn utf16_width(c: char) -> nat {
    if (c as u32) < 0x10000 {
        1
    } else {
        2
    }
}

/// The number of UTF-16 code units in a text.
pub open spec fn utf16_len(text: Seq<char>) -> nat
    decreases text.len(),
{
    if text.len() == 0 {
        0
    } else {
        utf16_len(text.drop_last()) + utf16_width(text.last())
    }
}

/// The UTF-16 offset at which the character with the given index starts. An
/// index past the end of the text stands for the end.
pub open spec fn utf16_offset(text: Seq<char>, char_index: int) -> nat {
    if char_index < text.len() {
        utf16_len(text.take(char_index))
    } else {
        utf16_len(text)
    }
}

/// Whether `index` is the character index that a UTF-16 offset stands for: the
/// first boundary between characters at or behind the offset, or the end of
/// the text where the offset lies past it.
pub open spec fn is_char_index_at(text: Seq<char>, offset: int, index: int) -> bool {
    &&& 0 <= index <= text.len()
    &&& forall|j: int| 0 <= j < index ==> #[trigger] utf16_offset(text, j) < offset
    &&& index < text.len() ==> utf16_offset(text, index) >= offset
}

/// The character index that a UTF-16 offset stands for.
pub open spec fn char_index_at(text: Seq<char>, offset: int) -> int {
    choose|index: int| is_char_index_at(text, offset, index)
}

/// One more character adds its own width.
proof fn lemma_utf16_len_push(text: Seq<char>, i: int)
    requires
        0 <= i < text.len(),
    ensures
        utf16_len(text.take(i + 1)) == utf16_len(text.take(i)) + utf16_width(text[i]),
{
    assert(text.take(i + 1).drop_last() =~= text.take(i));
}

/// A longer prefix has at least as many code units, and at least one more for
/// every character more.
proof fn lemma_utf16_len_grows(text: Seq<char>, i: int, j: int)
    requires
        0 <= i <= j <= text.len(),
    ensures
        utf16_len(text.take(i)) + (j - i) <= utf16_len(text.take(j)),
    decreases j - i,
{
    if i < j {
        lemma_utf16_len_push(text, j - 1);
        lemma_utf16_len_grows(text, i, j - 1);
    }
}

/// `utf16_offset` counts the code units of a prefix.
proof fn lemma_utf16_offset_is_prefix_len(text: Seq<char>, i: int)
    requires
        0 <= i <= text.len(),
    ensures
        utf16_offset(text, i) == utf16_len(text.take(i)),
{
    assert(text.take(text.len() as int) =~= text);
}

/// The number of code units of a text split in front of its first character.
proof fn lemma_utf16_len_first(text: Seq<char>)
    requires
        text.len() > 0,
    ensures
        utf16_len(text) == utf16_width(text[0]) + utf16_len(text.drop_first()),
    decreases text.len(),
{
    if text.len() == 1 {
        assert(text.drop_last() =~= Seq::empty());
        assert(text.drop_first() =~= Seq::empty());
    } else {
        lemma_utf16_len_first(text.drop_last());
        assert(text.drop_last().drop_first() =~= text.drop_first().drop_last());
    }
}

/// A text never has more UTF-16 code units than UTF-8 bytes.
pub proof fn lemma_utf16_len_at_most_bytes(text: Seq<char>)
    ensures
        utf16_len(text) <= vstd::utf8::encode_utf8(text).len(),
    decreases text.len(),
{
    if text.len() > 0 {
        lemma_utf16_len_first(text);
        lemma_utf16_len_at_most_bytes(text.drop_first());
    }
}

/// At most one index is the one that an offset stands for.
proof fn lemma_char_index_is_unique(text: Seq<char>, offset: int, a: int, b: int)
    requires
        is_char_index_at(text, offset, a),
        is_char_index_at(text, offset, b),
    ensures
        a == b,
{
    if a < b {
        assert(utf16_offset(text, a) < offset);
    } else if b < a {
        assert(utf16_offset(text, b) < offset);
    }
}

/// An index that meets the description of `char_index_at` is its value.
pub proof fn lemma_char_index_at(text: Seq<char>, offset: int, index: int)
    requires
        is_char_index_at(text, offset, index),
    ensures
        char_index_at(text, offset) == index,
{
    lemma_char_index_is_unique(text, offset, char_index_at(text, offset), index);
}

/// Every offset stands for some index.
proof fn lemma_char_index_exists(text: Seq<char>, offset: int, from: int)
    requires
        0 <= from <= text.len(),
        forall|j: int| 0 <= j < from ==> #[trigger] utf16_offset(text, j) < offset,
    ensures
        is_char_index_at(text, offset, char_index_at(text, offset)),
    decreases text.len() - from,
{
    if from < text.len() && utf16_offset(text, from) < offset {
        lemma_char_index_exists(text, offset, from + 1);
    } else {
        assert(is_char_index_at(text, offset, from));
    }
}

/// A character index, turned into a UTF-16 offset and back, is itself again;
/// an index past the end comes back as the end.
pub proof fn law_char_index_round_trips(text: Seq<char>, char_index: int)
    requires
        0 <= char_index,
    ensures
        char_index <= text.len() ==> char_index_at(text, utf16_offset(text, char_index) as int)
            == char_index,
        char_index > text.len() ==> char_index_at(text, utf16_offset(text, char_index) as int)
            == text.len(),
{
    let index = if char_index <= text.len() {
        char_index
    } else {
        text.len() as int
    };
    let offset = utf16_offset(text, char_index) as int;
    lemma_utf16_offset_is_prefix_len(text, index);
    assert forall|j: int| 0 <= j < index implies #[trigger] utf16_offset(text, j) < offset by {
        lemma_utf16_len_grows(text, j, index);
    }
    assert(text.take(text.len() as int) =~= text);
    lemma_char_index_at(text, offset, index);
}

/// A UTF-16 offset inside the text, turned into a character index and back,
/// is itself again, or one more where it pointed between the two halves of a
/// surrogate pair. An offset past the end comes back as the length of the text.
pub proof fn law_utf16_offset_round_trips(text: Seq<char>, offset: int)
    requires
        0 <= offset,
    ensures
        ({
            let index = char_index_at(text, offset);
            let back = utf16_offset(text, index);
            &&& 0 <= index <= text.len()
            &&& offset <= utf16_len(text) ==> (back == offset || (back == offset + 1 && index > 0
                && utf16_width(text[index - 1]) == 2))
            &&& offset > utf16_len(text) ==> index == text.len() && back == utf16_len(text)
        }),
{
    lemma_char_index_exists(text, offset, 0);
    let index = char_index_at(text, offset);
    lemma_utf16_offset_is_prefix_len(text, index);
    lemma_utf16_len_grows(text, index, text.len() as int);
    assert(text.take(text.len() as int) =~= text);
    if index > 0 {
        assert(utf16_offset(text, index - 1) < offset);
        lemma_utf16_len_push(text, index - 1);
    } else {
        assert(text.take(0) =~= Seq::empty());
    }
}

/// Both conversions keep the order of positions, and distinct characters start
/// at distinct offsets.
pub proof fn law_conversions_keep_order(text: Seq<char>, a: int, b: int)
    requires
        0 <= a <= b,
    ensures
        utf16_offset(text, a) <= utf16_offset(text, b),
        a < b && a < text.len() ==> utf16_offset(text, a) < utf16_offset(text, b),
        char_index_at(text, a) <= char_index_at(text, b),
{
    let end = text.len() as int;
    assert(text.take(end) =~= text);
    if a < end {
        let to = if b < end {
            b
        } else {
            end
        };
        lemma_utf16_len_grows(text, a, to);
    }
    lemma_char_index_exists(text, a, 0);
    lemma_char_index_exists(text, b, 0);
    let at_a = char_index_at(text, a);
    let at_b = char_index_at(text, b);
    if at_b < at_a {
        assert(utf16_offset(text, at_b) < a);
    }
}

/// The UTF-16 width of one character.
pub fn len_utf16(c: char) -> (width: usize)
    ensures
        width == if c as u32 >= 0x10000 {
            2int
        } else {
            1int
        },
        width == utf16_width(c),
{
    if (c as u32) < 0x10000 {
        1
    } else {
        2
    }
}

/// The UTF-16 offset of the character with the given index; an index past the
/// end of the text gives the length of the text in code units.
pub fn utf16_offset_for_char_index(text: &str, char_index: usize) -> (offset: usize)
    ensures
        char_index <= text@.len() ==> offset == encode_utf16(text@.take(char_index as int)).len(),
        char_index > text@.len() ==> offset == encode_utf16(text@).len(),
        offset == utf16_offset(text@, char_index as int),
{
    let bytes: usize = text.as_bytes().len();
    let mut characters = text.chars();
    let mut index: usize = 0;
    let mut offset: usize = 0;
    proof {
        lemma_utf16_len_at_most_bytes(text@);
        assert(text@.take(0) =~= Seq::empty());
        assert(text@.skip(0) =~= text@);
    }
    while index < char_index
        invariant_except_break
            vstd::std_specs::iter::IteratorSpec::remaining(&characters) == text@.skip(index as int),
        invariant
            index <= char_index,
            index <= text@.len(),
            offset == utf16_len(text@.take(index as int)),
            utf16_len(text@) <= bytes,
        ensures
            index == char_index || index == text@.len(),
        decreases char_index - index,
    {
        match characters.next() {
            Some(character) => {
                proof {
                    lemma_utf16_len_push(text@, index as int);
                    lemma_utf16_len_grows(text@, index + 1, text@.len() as int);
                    assert(text@.take(text@.len() as int) =~= text@);
                    assert(text@.skip(index as int).drop_first() =~= text@.skip(index + 1));
                }
                offset = offset + len_utf16(character);
                index = index + 1;
            },
            None => {
                break;
            },
        }
    }
    proof {
        lemma_utf16_offset_is_prefix_len(text@, index as int);
        law_offset_counts_code_units(text@, char_index as int);
    }
    offset
}

/// The character index that a UTF-16 offset stands for. An offset between the
/// two halves of a surrogate pair counts as behind the pair, and one past the
/// end of the text as the end.
pub fn char_index_for_utf16_offset(text: &str, utf16_offset: usize) -> (index: usize)
    ensures
        is_char_index_at(text@, utf16_offset as int, index as int),
        index == char_index_at(text@, utf16_offset as int),
{
    let bytes: usize = text.as_bytes().len();
    let mut characters = text.chars();
    let mut index: usize = 0;
    let mut consumed: usize = 0;
    proof {
        lemma_utf16_len_at_most_bytes(text@);
        lemma_utf16_len_grows(text@, 0, text@.len() as int);
        assert(text@.take(0) =~= Seq::empty());
        assert(text@.skip(0) =~= text@);
        assert(text@.take(text@.len() as int) =~= text@);
    }
    while consumed < utf16_offset
        invariant_except_break
            vstd::std_specs::iter::IteratorSpec::remaining(&characters) == text@.skip(index as int),
        invariant
            index <= text@.len() <= bytes,
            consumed == self::utf16_offset(text@, index as int),
            forall|j: int|
                0 <= j < index ==> #[trigger] self::utf16_offset(text@, j) < utf16_offset,
            utf16_len(text@) <= bytes,
        ensures
            index < text@.len() ==> consumed >= utf16_offset,
        decreases text@.len() - index,
    {
        match characters.next() {
            Some(character) => {
                proof {
                    lemma_utf16_offset_is_prefix_len(text@, index as int);
                    lemma_utf16_offset_is_prefix_len(text@, index + 1);
                    lemma_utf16_len_push(text@, index as int);
                    lemma_utf16_len_grows(text@, index + 1, text@.len() as int);
                    assert(text@.take(text@.len() as int) =~= text@);
                    assert(text@.skip(index as int).drop_first() =~= text@.skip(index + 1));
                }
                consumed = consumed + len_utf16(character);
                index = index + 1;
            },
            None => {
                break;
            },
        }
    }
    proof {
        lemma_char_index_at(text@, utf16_offset as int, index as int);
    }
    index
}

/// The UTF-16 code units that one character is written as: its code point where
/// that fits in sixteen bits, and otherwise a high and a low surrogate, which
/// share out the twenty bits of what the code point exceeds that range by.
pub open spec fn code_units(c: char) -> Seq<int> {
    let point = c as int;
    if point < 0x10000 {
        seq![point]
    } else {
        seq![0xD800 + (point - 0x10000) / 0x400, 0xDC00 + (point - 0x10000) % 0x400]
    }
}

/// The UTF-16 code units that a text is written as, one character after another.
pub open spec fn encode_utf16(text: Seq<char>) -> Seq<int>
    decreases text.len(),
{
    if text.len() == 0 {
        Seq::empty()
    } else {
        code_units(text[0]) + encode_utf16(text.drop_first())
    }
}

/// A character is as wide as the number of sixteen-bit units that it takes to
/// write it so that it can be read back: one that stands for itself, or a pair
/// of surrogates, which is what every code point from 0x10000 on takes.
pub proof fn law_width_counts_code_units(c: char)
    ensures
        utf16_width(c) == code_units(c).len(),
        utf16_width(c) == 1 <==> c as u32 <= 0xFFFF,
        utf16_width(c) == 2 <==> c as u32 >= 0x10000,
        forall|i: int| 0 <= i < code_units(c).len() ==> 0 <= #[trigger] code_units(c)[i] < 0x10000,
        code_units(c).len() == 1 ==> code_units(c)[0] == c as int && !(0xD800 <= code_units(c)[0]
            < 0xE000),
        code_units(c).len() == 2 ==> ({
            let high = code_units(c)[0];
            let low = code_units(c)[1];
            &&& 0xD800 <= high < 0xDC00
            &&& 0xDC00 <= low < 0xE000
            &&& 0x10000 + (high - 0xD800) * 0x400 + (low - 0xDC00) == c as int
        }),
{
}

/// A text has as many code units as it is written with.
pub proof fn lemma_utf16_len_counts_code_units(text: Seq<char>)
    ensures
        utf16_len(text) == encode_utf16(text).len(),
    decreases text.len(),
{
    if text.len() > 0 {
        lemma_utf16_len_first(text);
        law_width_counts_code_units(text[0]);
        lemma_utf16_len_counts_code_units(text.drop_first());
    }
}

/// The offset of a character is the number of code units that the characters in
/// front of it are written with; past the end it is that of the whole text. So
/// the first character is at offset zero, and each one lies behind the one
/// before it by the width of that one.
pub proof fn law_offset_counts_code_units(text: Seq<char>, char_index: int)
    requires
        0 <= char_index,
    ensures
        char_index <= text.len() ==> utf16_offset(text, char_index) == encode_utf16(
            text.take(char_index),
        ).len(),
        char_index >= text.len() ==> utf16_offset(text, char_index) == encode_utf16(text).len(),
        utf16_offset(text, 0) == 0,
        char_index < text.len() ==> utf16_offset(text, char_index + 1) == utf16_offset(
            text,
            char_index,
        ) + if text[char_index] as u32 >= 0x10000 {
            2int
        } else {
            1int
        },
{
    lemma_utf16_len_counts_code_units(text);
    assert(text.take(0) =~= Seq::empty());
    if char_index <= text.len() {
        lemma_utf16_offset_is_prefix_len(text, char_index);
        lemma_utf16_len_counts_code_units(text.take(char_index));
    }
    if char_index < text.len() {
        lemma_utf16_offset_is_prefix_len(text, char_index + 1);
        lemma_utf16_len_push(text, char_index);
    }
}

/// An offset stands for the character index whose prefix is the shortest one
/// with at least that many code units: for the front of the text where it is
/// zero, for the end where the text has fewer, and for the index behind a
/// character where it points behind its first unit.
pub proof fn law_index_is_the_first_boundary(text: Seq<char>, offset: int, index: int)
    requires
        0 <= index <= text.len(),
    ensures
        offset <= 0 ==> char_index_at(text, offset) == 0,
        offset >= encode_utf16(text).len() ==> char_index_at(text, offset) == text.len(),
        index > 0 && encode_utf16(text.take(index - 1)).len() < offset <= encode_utf16(
            text.take(index),
        ).len() ==> char_index_at(text, offset) == index,
{
    lemma_char_index_exists(text, offset, 0);
    let found = char_index_at(text, offset);
    let end = text.len() as int;
    assert(text.take(end) =~= text);
    law_offset_counts_code_units(text, found);
    law_offset_counts_code_units(text, index);
    law_offset_counts_code_units(text, end);
    if found > 0 {
        assert(utf16_offset(text, 0) < offset);
        assert(utf16_offset(text, found - 1) < offset);
    }
    if found < end {
        lemma_utf16_len_grows(text, found, end);
    }
    if index > 0 {
        law_offset_counts_code_units(text, index - 1);
        if found < index {
            lemma_utf16_len_grows(text, found, index - 1);
        } else if found > index {
            assert(utf16_offset(text, index) < offset);
        }
    }
}

/// A text is written as one part of it and then the other, down to its single
/// characters.
pub proof fn law_code_units_follow_the_characters(a: Seq<char>, b: Seq<char>, c: char)
    ensures
        encode_utf16(a + b) == encode_utf16(a) + encode_utf16(b),
        encode_utf16(seq![c]) == code_units(c),
        encode_utf16(Seq::empty()).len() == 0,
    decreases a.len(),
{
    reveal_with_fuel(encode_utf16, 2);
    assert(seq![c].drop_first() =~= Seq::empty());
    assert(encode_utf16(seq![c]) =~= code_units(c));
    if a.len() == 0 {
        assert(a + b =~= b);
        assert(encode_utf16(a) + encode_utf16(b) =~= encode_utf16(b));
    } else {
        law_code_units_follow_the_characters(a.drop_first(), b, c);
        assert((a + b).drop_first() =~= a.drop_first() + b);
        assert(encode_utf16(a + b) =~= encode_utf16(a) + encode_utf16(b));
    }
}

/// The functions that convert positions undo each other: the offset that is
/// computed for an index within a text is converted back to that index. The
/// offset counts the code units in front of the index, each character by its
/// width.
pub proof fn law_computed_positions_round_trip(
    text: &str,
    char_index: usize,
    offset: usize,
    back: usize,
    c: char,
    width: usize,
)
    requires
        char_index <= text@.len(),
        call_ensures(utf16_offset_for_char_index, (text, char_index), offset),
        call_ensures(char_index_for_utf16_offset, (text, offset), back),
        call_ensures(len_utf16, (c,), width),
    ensures
        back == char_index,
        offset == encode_utf16(text@.take(char_index as int)).len(),
        width == code_units(c).len(),
        char_index < text@.len() && text@[char_index as int] == c ==> encode_utf16(
            text@.take(char_index + 1),
        ).len() == offset + width,
{
    law_char_index_round_trips(text@, char_index as int);
    law_offset_counts_code_units(text@, char_index as int);
    law_width_counts_code_units(c);
    if char_index < text@.len() {
        law_offset_counts_code_units(text@, char_index + 1);
    }
}

} // verus!
