//! The parts of an HTTP response that decide how a run goes on.

use vstd::prelude::*;

verus! {

/// A status code in the redirection class, 300 to 399.
pub open spec fn redirection(status: u16) -> bool {
    300 <= status < 400
}

/// A status code in the success class, 200 to 299.
pub open spec fn successful(status: u16) -> bool {
    200 <= status < 300
}

/// Tells whether a status code announces a redirection.
pub fn is_redirection(status: u16) -> (r: bool)
    ensures
        r == redirection(status),
{
    300 <= status && status < 400
}

/// Tells whether a status code announces success.
pub fn is_success(status: u16) -> (r: bool)
    ensures
        r == successful(status),
{
    200 <= status && status < 300
}

/// A byte that may stand in a header value read as text: a visible ASCII
/// character, a space or a tab.
pub open spec fn text_byte(b: u8) -> bool {
    32 <= b < 127 || b == 9
}

/// A header value that can be read as text: each of its bytes is a text byte.
pub open spec fn all_text(bytes: Seq<u8>) -> bool {
    forall|i: int| 0 <= i < bytes.len() ==> text_byte(#[trigger] bytes[i])
}

/// The characters that a header value of text bytes spells.
pub open spec fn spelled(bytes: Seq<u8>) -> Seq<char> {
    Seq::new(bytes.len(), |i: int| bytes[i] as char)
}

/// What a header value reads as: its characters, or nothing where it holds
/// a byte that is no text byte.
pub open spec fn header_reading(bytes: Seq<u8>) -> Option<Seq<char>> {
    if all_text(bytes) {
        Some(spelled(bytes))
    } else {
        None
    }
}

/// `String::push` appends one character to the end of a string.
pub assume_specification[ String::push ](text: &mut String, c: char)
    ensures
        final(text)@ == old(text)@.push(c),
;

/// Reads a header value as text, byte for byte.
///
/// Gives `None` exactly where some byte is neither visible ASCII nor a space
/// nor a tab.
pub fn header_text(bytes: &[u8]) -> (r: Option<String>)
    ensures
        match r {
            Some(text) => header_reading(bytes@) == Some(text@),
            None => header_reading(bytes@).is_none(),
        },
{
    let mut text = String::new();
    let mut i: usize = 0;
    while i < bytes.len()
        invariant
            i <= bytes.len(),
            text@ == spelled(bytes@.take(i as int)),
            all_text(bytes@.take(i as int)),
        decreases bytes.len() - i,
    {
        let b: u8 = bytes[i];
        if !(32 <= b && b < 127 || b == 9) {
            return None;
        }
        text.push(b as char);
        proof {
            assert(bytes@.take(i + 1) =~= bytes@.take(i as int).push(b));
            assert(spelled(bytes@.take(i + 1)) =~= spelled(bytes@.take(i as int)).push(b as char));
        }
        i += 1;
    }
    proof {
        assert(bytes@.take(i as int) =~= bytes@);
    }
    Some(text)
}

} // verus!
