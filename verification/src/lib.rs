use vstd::prelude::*;

pub mod canvas_options;
pub mod color;
pub mod commands;
pub mod drawing;
pub mod glyphs;
pub mod rng;
pub mod stars;

use rng::RandomSource;

verus! {

/// The one message the surrounding widget sends itself: redraw the code.
pub enum Message {
    UpdateCheckCode,
}

/// The challenge string handed to the host: once when the widget first
/// draws, and again on every refresh.
pub enum CheckCode {
    Initialize(String),
    Update(String),
}

/// The fixed 67-symbol alphabet the challenge text is drawn from.
pub open spec fn alphabet() -> Seq<char> {
    seq![
        '0', '1', '2', '3', '4', '5', '6', '7', '8', '9',
        'a', 'b', 'c', 'd', 'e', 'f', 'g', 'h', 'i', 'j',
        'k', 'l', 'm', 'n', 'o', 'p', 'q', 'r', 's', 't',
        'u', 'v', 'w', 'x', 'y', 'z', 'A', 'B', 'C', 'D',
        'E', 'F', 'G', 'H', 'I', 'J', 'K', 'L', 'M', 'N',
        'O', 'P', 'Q', 'R', 'S', 'T', 'U', 'V', 'W', 'X',
        'Y', 'Z', '\u{4f60}', '\u{6211}', '\u{4ed6}', '\u{5979}', '\u{5b83}',
    ]
}

/// One character of a character vector, by position.
pub(crate) fn char_at(text: &Vec<char>, k: usize) -> (c: char)
    requires
        k < text@.len(),
    ensures
        c == text@[k as int],
{
    text[k]
}

/// The alphabet as a vector, for indexing by a drawn random value.
fn alphabet_chars() -> (r: Vec<char>)
    ensures
        r@ == alphabet(),
{
    let r: Vec<char> = vec![
        '0', '1', '2', '3', '4', '5', '6', '7', '8', '9',
        'a', 'b', 'c', 'd', 'e', 'f', 'g', 'h', 'i', 'j',
        'k', 'l', 'm', 'n', 'o', 'p', 'q', 'r', 's', 't',
        'u', 'v', 'w', 'x', 'y', 'z', 'A', 'B', 'C', 'D',
        'E', 'F', 'G', 'H', 'I', 'J', 'K', 'L', 'M', 'N',
        'O', 'P', 'Q', 'R', 'S', 'T', 'U', 'V', 'W', 'X',
        'Y', 'Z', '\u{4f60}', '\u{6211}', '\u{4ed6}', '\u{5979}', '\u{5b83}',
    ];
    assert(r@ =~= alphabet());
    r
}

/// Relies on `String`'s `FromIterator` impl: collecting a sequence of
/// characters yields the string of exactly those characters in order.
#[verifier::external_body]
fn chars_to_string(chars: &Vec<char>) -> (r: String)
    ensures
        r@ == chars@,
{
    chars.iter().collect()
}

/// The plaintext challenge: `count` characters, each drawn independently
/// and uniformly from the fixed alphabet, repeats allowed.  A count of
/// zero yields the empty string.
pub fn gen_random_characters(count: u8, source: &mut RandomSource) -> (r: String)
    ensures
        r@.len() == count,
        forall|i: int| 0 <= i < r@.len() ==> alphabet().contains(#[trigger] r@[i]),
{
    let table: Vec<char> = alphabet_chars();
    let mut chars: Vec<char> = Vec::new();
    let mut drawn: u8 = 0;
    while drawn < count
        invariant
            drawn <= count,
            table@ == alphabet(),
            chars@.len() == drawn,
            forall|i: int| 0 <= i < chars@.len() ==> alphabet().contains(#[trigger] chars@[i]),
        decreases count - drawn,
    {
        let pick: u64 = source.next_below(67);
        let c: char = table[pick as usize];
        assert(alphabet().contains(c));
        chars.push(c);
        drawn = drawn + 1;
    }
    chars_to_string(&chars)
}

} // verus!
