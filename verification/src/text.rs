//! Strings as sequences of characters.

use vstd::prelude::*;

verus! {

/// The characters of an optional string.
pub open spec fn text_of(value: Option<String>) -> Option<Seq<char>> {
    match value {
        Some(text) => Some(text@),
        None => None,
    }
}

/// The characters of an optional borrowed string.
pub open spec fn text_of_ref(value: Option<&String>) -> Option<Seq<char>> {
    match value {
        Some(text) => Some(text@),
        None => None,
    }
}

/// The characters of each string of a sequence.
pub open spec fn texts_of(values: Seq<String>) -> Seq<Seq<char>> {
    values.map_values(|text: String| text@)
}

/// A copy of an optional string.
pub fn copy_text(value: &Option<String>) -> (copy: Option<String>)
    ensures
        text_of(copy) == text_of(*value),
{
    match value {
        Some(text) => Some(text.clone()),
        None => None,
    }
}

/// A copy of a list of strings.
pub fn copy_texts(values: &Vec<String>) -> (copy: Vec<String>)
    ensures
        texts_of(copy@) == texts_of(values@),
{
    let mut copy: Vec<String> = Vec::new();
    let mut at: usize = 0;
    while at < values.len()
        invariant
            at <= values.len(),
            copy.len() == at,
            forall|i: int| 0 <= i < at ==> (#[trigger] copy@[i])@ == values@[i]@,
        decreases values.len() - at,
    {
        copy.push(values[at].clone());
        at += 1;
    }
    assert(texts_of(copy@) =~= texts_of(values@));
    copy
}

/// `String::push`: the character is added at the end.
pub assume_specification[ String::push ](text: &mut String, ch: char)
    ensures
        final(text)@ == old(text)@.push(ch),
;

/// The lower-case hexadecimal digit for a value below sixteen.
pub open spec fn hex_digit(value: int) -> char {
    seq!['0', '1', '2', '3', '4', '5', '6', '7', '8', '9', 'a', 'b', 'c', 'd', 'e', 'f'][value]
}

/// The lower-case hexadecimal text of a byte string: two digits for each
/// byte, the high half first.
pub open spec fn hex_text(bytes: Seq<u8>) -> Seq<char> {
    Seq::new(
        2 * bytes.len(),
        |i: int|
            if i % 2 == 0 {
                hex_digit(bytes[i / 2] as int / 16)
            } else {
                hex_digit(bytes[i / 2] as int % 16)
            },
    )
}

/// The hexadecimal digit for a value below sixteen.
fn hex_char(value: u8) -> (digit: char)
    requires
        value < 16,
    ensures
        digit == hex_digit(value as int),
{
    match value {
        0 => '0',
        1 => '1',
        2 => '2',
        3 => '3',
        4 => '4',
        5 => '5',
        6 => '6',
        7 => '7',
        8 => '8',
        9 => '9',
        10 => 'a',
        11 => 'b',
        12 => 'c',
        13 => 'd',
        14 => 'e',
        _ => 'f',
    }
}

/// Writes a byte string in lower-case hexadecimal.
pub fn to_hex(bytes: &Vec<u8>) -> (text: String)
    ensures
        text@ == hex_text(bytes@),
{
    let mut text = String::new();
    let mut at: usize = 0;
    while at < bytes.len()
        invariant
            at <= bytes.len(),
            text@ == hex_text(bytes@.take(at as int)),
        decreases bytes.len() - at,
    {
        let byte = bytes[at];
        let ghost before = text@;
        text.push(hex_char(byte / 16));
        text.push(hex_char(byte % 16));
        assert(text@ =~= hex_text(bytes@.take(at + 1))) by {
            let longer = hex_text(bytes@.take(at + 1));
            assert(text@.len() == longer.len());
            assert forall|i: int| 0 <= i < text@.len() implies text@[i] == longer[i] by {
                if i < 2 * at {
                    assert(text@[i] == before[i]);
                    assert(bytes@.take(at as int)[i / 2] == bytes@.take(at + 1)[i / 2]);
                } else {
                    assert(bytes@.take(at + 1)[i / 2] == byte);
                }
            }
        }
        at += 1;
    }
    assert(bytes@.take(at as int) =~= bytes@);
    text
}
} // verus!
