//! The four character classes a password may draw from.
//!
//! Each class is a fixed string. The predicates below say which characters
//! belong to a class, and the lemmas tie each predicate to its string.

use vstd::prelude::*;

verus! {

/// The uppercase letters, in alphabetical order.
pub const UPPERCASE: &'static str = "ABCDEFGHIJKLMNOPQRSTUVWXYZ";

/// The lowercase letters, in alphabetical order.
pub const LOWERCASE: &'static str = "abcdefghijklmnopqrstuvwxyz";

/// The decimal digits, in ascending order.
pub const NUMBERS: &'static str = "0123456789";

/// The punctuation marks that count as symbols.
pub const SYMBOLS: &'static str = "!@#$%^&*()_+-=[]{}|;:,.<>?";

/// Whether `c` is one of the letters `A` to `Z`.
pub open spec fn is_uppercase(c: char) -> bool {
    'A' <= c <= 'Z'
}

/// Whether `c` is one of the letters `a` to `z`.
pub open spec fn is_lowercase(c: char) -> bool {
    'a' <= c <= 'z'
}

/// Whether `c` is one of the digits `0` to `9`.
pub open spec fn is_number(c: char) -> bool {
    '0' <= c <= '9'
}

/// Whether `c` is one of the marks listed in [`SYMBOLS`].
pub open spec fn is_symbol(c: char) -> bool {
    SYMBOLS@.contains(c)
}

/// [`UPPERCASE`] holds each of the 26 letters `A` to `Z` once, and nothing else.
pub proof fn lemma_uppercase_class()
    ensures
        UPPERCASE@.len() == 26,
        UPPERCASE@.no_duplicates(),
        vstd::utf8::is_ascii_chars(UPPERCASE@),
        forall|c: char| UPPERCASE@.contains(c) <==> is_uppercase(c),
{
    reveal_strlit("ABCDEFGHIJKLMNOPQRSTUVWXYZ");
    let s = UPPERCASE@;
    assert forall|i: int| 0 <= i < 26 implies #[trigger] s[i] as int == 'A' as int + i by {}
    assert forall|c: char| is_uppercase(c) implies s.contains(c) by {
        assert(s[c as int - 'A' as int] == c);
    }
}

/// [`LOWERCASE`] holds each of the 26 letters `a` to `z` once, and nothing else.
pub proof fn lemma_lowercase_class()
    ensures
        LOWERCASE@.len() == 26,
        LOWERCASE@.no_duplicates(),
        vstd::utf8::is_ascii_chars(LOWERCASE@),
        forall|c: char| LOWERCASE@.contains(c) <==> is_lowercase(c),
{
    reveal_strlit("abcdefghijklmnopqrstuvwxyz");
    let s = LOWERCASE@;
    assert forall|i: int| 0 <= i < 26 implies #[trigger] s[i] as int == 'a' as int + i by {}
    assert forall|c: char| is_lowercase(c) implies s.contains(c) by {
        assert(s[c as int - 'a' as int] == c);
    }
}

/// [`NUMBERS`] holds each of the 10 digits `0` to `9` once, and nothing else.
pub proof fn lemma_numbers_class()
    ensures
        NUMBERS@.len() == 10,
        NUMBERS@.no_duplicates(),
        vstd::utf8::is_ascii_chars(NUMBERS@),
        forall|c: char| NUMBERS@.contains(c) <==> is_number(c),
{
    reveal_strlit("0123456789");
    let s = NUMBERS@;
    assert forall|i: int| 0 <= i < 10 implies #[trigger] s[i] as int == '0' as int + i by {}
    assert forall|c: char| is_number(c) implies s.contains(c) by {
        assert(s[c as int - '0' as int] == c);
    }
}

/// [`SYMBOLS`] holds 26 marks, each once, none of them a letter or a digit.
pub proof fn lemma_symbols_class()
    ensures
        SYMBOLS@.len() == 26,
        SYMBOLS@.no_duplicates(),
        vstd::utf8::is_ascii_chars(SYMBOLS@),
        forall|c: char| is_symbol(c) ==> !is_uppercase(c) && !is_lowercase(c) && !is_number(c),
{
    reveal_strlit("!@#$%^&*()_+-=[]{}|;:,.<>?");
}

/// No character belongs to two classes.
pub proof fn lemma_classes_disjoint(c: char)
    ensures
        !(is_uppercase(c) && is_lowercase(c)),
        !(is_uppercase(c) && is_number(c)),
        !(is_uppercase(c) && is_symbol(c)),
        !(is_lowercase(c) && is_number(c)),
        !(is_lowercase(c) && is_symbol(c)),
        !(is_number(c) && is_symbol(c)),
{
    lemma_symbols_class();
}

} // verus!
