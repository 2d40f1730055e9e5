//! Sources of randomness: nonces and the numbers behind random options.
use vstd::prelude::*;

verus! {

/// Whether a character is an ASCII letter or digit.
pub open spec fn is_ascii_alphanumeric(c: char) -> bool {
    ('0' <= c && c <= '9') || ('a' <= c && c <= 'z') || ('A' <= c && c <= 'Z')
}

/// Whether a text consists of exactly `length` ASCII letters and digits.
pub open spec fn is_alphanumeric_text(text: Seq<char>, length: nat) -> bool {
    &&& text.len() == length
    &&& forall|i: int| 0 <= i < text.len() ==> is_ascii_alphanumeric(#[trigger] text[i])
}

/// Draws a random text with `cs_utils::random_str`.
///
/// Trusted: the text has exactly `length` characters, each an ASCII letter
/// or digit. Which ones is left open. A length of zero is excluded because
/// the call refuses it.
#[verifier::external_body]
pub(crate) fn random_text(length: usize) -> (text: String)
    requires
        length > 0,
    ensures
        is_alphanumeric_text(text@, length as nat),
{
    cs_utils::random_str(length)
}

/// Draws a random number with `cs_utils::random_number` on an inclusive range.
///
/// Trusted: the number lies within the bounds, both included. An empty range
/// is excluded because the call refuses it.
#[verifier::external_body]
pub(crate) fn random_between(low: u64, high: u64) -> (number: u64)
    requires
        low <= high,
    ensures
        low <= number <= high,
{
    cs_utils::random_number(low..=high)
}

/// A random text of letters and digits whose length is drawn from the
/// bounds, both included.
pub fn random_text_between(shortest: usize, longest: usize) -> (text: String)
    requires
        0 < shortest <= longest,
    ensures
        shortest <= text@.len() <= longest,
        is_alphanumeric_text(text@, text@.len()),
{
    let length = random_between(shortest as u64, longest as u64) as usize;
    random_text(length)
}

} // verus!
