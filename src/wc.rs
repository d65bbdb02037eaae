//! Counting words in a byte stream. A word is a maximal run of bytes that
//! are neither ASCII whitespace nor ASCII punctuation.
use vstd::prelude::*;

verus! {

/// ASCII whitespace as Rust's `u8::is_ascii_whitespace` has it: space, tab,
/// line feed, form feed and carriage return.
pub open spec fn is_space(b: u8) -> bool {
    b == 0x20 || b == 0x09 || b == 0x0a || b == 0x0c || b == 0x0d
}

/// ASCII punctuation as Rust's `u8::is_ascii_punctuation` has it.
pub open spec fn is_punct(b: u8) -> bool {
    (0x21 <= b <= 0x2f) || (0x3a <= b <= 0x40) || (0x5b <= b <= 0x60) || (0x7b <= b <= 0x7e)
}

/// A byte that ends a word.
pub open spec fn is_separator_spec(b: u8) -> bool {
    is_space(b) || is_punct(b)
}

/// Whether a word starts at index `i` of `s`.
pub open spec fn starts_word(s: Seq<u8>, i: int) -> bool {
    !is_separator_spec(s[i]) && (i == 0 || is_separator_spec(s[i - 1]))
}

/// The number of words in `s`: how many of its indices start one.
pub open spec fn words(s: Seq<u8>) -> nat
    decreases s.len(),
{
    if s.len() == 0 {
        0
    } else {
        words(s.drop_last()) + if starts_word(s, s.len() - 1) { 1nat } else { 0nat }
    }
}

/// Whether `b` is ASCII whitespace or ASCII punctuation.
pub fn is_separator(b: u8) -> (r: bool)
    ensures
        r == is_separator_spec(b),
{
    b == 0x20 || b == 0x09 || b == 0x0a || b == 0x0c || b == 0x0d || (0x21 <= b && b <= 0x2f)
        || (0x3a <= b && b <= 0x40) || (0x5b <= b && b <= 0x60) || (0x7b <= b && b <= 0x7e)
}

/// Counts the words in `bytes`.
pub fn word_count(bytes: &[u8]) -> (r: u64)
    ensures
        r == words(bytes@),
{
    let mut count: u64 = 0;
    let mut in_word = false;
    let mut i: usize = 0;
    while i < bytes.len()
        invariant
            i <= bytes@.len(),
            count + (if in_word { 1nat } else { 0nat }) <= i,
            in_word == (i > 0 && !is_separator_spec(bytes@[i - 1])),
            count + (if in_word { 1nat } else { 0nat }) == words(bytes@.subrange(0, i as int)),
        decreases bytes@.len() - i,
    {
        let ghost prefix = bytes@.subrange(0, i as int);
        let ghost next = bytes@.subrange(0, i + 1);
        assert(next.drop_last() =~= prefix);
        assert(starts_word(next, i as int) == (!is_separator_spec(bytes@[i as int]) && !in_word));
        if is_separator(bytes[i]) {
            if in_word {
                count = count + 1;
                in_word = false;
            }
        } else {
            in_word = true;
        }
        i = i + 1;
    }
    assert(bytes@.subrange(0, i as int) =~= bytes@);
    if in_word {
        count = count + 1;
    }
    count
}

} // verus!
