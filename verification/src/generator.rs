//! The password generator: a length, one switch per character class, and
//! the operation that draws a password.

use crate::charset::{
    is_lowercase, is_number, is_symbol, is_uppercase, lemma_classes_disjoint,
    lemma_lowercase_class, lemma_numbers_class, lemma_symbols_class, lemma_uppercase_class,
    LOWERCASE, NUMBERS, SYMBOLS, UPPERCASE,
};
use crate::error::PasswordError;
use crate::sampling::{all_below, draw_indices, select_chars, selection};
use vstd::prelude::*;
use vstd::seq_lib::{lemma_no_dup_in_concat, lemma_seq_concat_contains_all_elements};

verus! {

/// What a class adds to the charset: all of it when enabled, else nothing.
pub open spec fn part(enabled: bool, class: Seq<char>) -> Seq<char> {
    if enabled {
        class
    } else {
        Seq::empty()
    }
}

/// What a generator is set to do: how long its passwords are, and which
/// classes they draw from.
pub struct Settings {
    pub length: nat,
    pub uppercase: bool,
    pub lowercase: bool,
    pub numbers: bool,
    pub symbols: bool,
}

impl Settings {
    /// The settings a fresh generator starts with: every class enabled.
    pub open spec fn all_classes(length: nat) -> Settings {
        Settings { length, uppercase: true, lowercase: true, numbers: true, symbols: true }
    }

    /// Whether at least one class is enabled.
    pub open spec fn any_class(self) -> bool {
        self.uppercase || self.lowercase || self.numbers || self.symbols
    }

    /// The characters a password is drawn from: the enabled classes, joined
    /// in the order uppercase, lowercase, numbers, symbols.
    pub open spec fn charset(self) -> Seq<char> {
        part(self.uppercase, UPPERCASE@) + part(self.lowercase, LOWERCASE@) + part(
            self.numbers,
            NUMBERS@,
        ) + part(self.symbols, SYMBOLS@)
    }

    /// Whether `c` belongs to a class that is enabled.
    pub open spec fn admits(self, c: char) -> bool {
        ||| self.uppercase && is_uppercase(c)
        ||| self.lowercase && is_lowercase(c)
        ||| self.numbers && is_number(c)
        ||| self.symbols && is_symbol(c)
    }

    /// Whether `c` lies outside every class that is disabled.
    pub open spec fn allows(self, c: char) -> bool {
        &&& is_uppercase(c) ==> self.uppercase
        &&& is_lowercase(c) ==> self.lowercase
        &&& is_number(c) ==> self.numbers
        &&& is_symbol(c) ==> self.symbols
    }

    /// Whether `password` is a possible outcome of generation: it has the
    /// requested length and each of its characters stands in the charset.
    pub open spec fn may_yield(self, password: Seq<char>) -> bool {
        &&& password.len() == self.length
        &&& forall|i: int| 0 <= i < password.len() ==> self.charset().contains(#[trigger] password[i])
    }

    /// Whether `password` is free of the characters of every disabled class.
    pub open spec fn avoids_disabled(self, password: Seq<char>) -> bool {
        forall|i: int| 0 <= i < password.len() ==> self.allows(#[trigger] password[i])
    }
}

/// A password generator with a fixed length and a switch for each class.
#[derive(Debug)]
pub struct PasswordGenerator {
    length: usize,
    use_uppercase: bool,
    use_lowercase: bool,
    use_numbers: bool,
    use_symbols: bool,
}

impl View for PasswordGenerator {
    type V = Settings;

    closed spec fn view(&self) -> Settings {
        Settings {
            length: self.length as nat,
            uppercase: self.use_uppercase,
            lowercase: self.use_lowercase,
            numbers: self.use_numbers,
            symbols: self.use_symbols,
        }
    }
}

impl PasswordGenerator {
    #[verifier::type_invariant]
    spec fn positive_length(self) -> bool {
        self.length > 0
    }

    /// A generator for passwords of `length` characters, with every class
    /// enabled. A length of zero is refused.
    pub fn new(length: usize) -> (result: Result<PasswordGenerator, PasswordError>)
        ensures
            result is Ok <==> length > 0,
            result is Ok ==> result->Ok_0@ == Settings::all_classes(length as nat),
            result is Err ==> result->Err_0 == PasswordError::ZeroLength,
    {
        if length == 0 {
            return Err(PasswordError::ZeroLength);
        }
        Ok(
            PasswordGenerator {
                length,
                use_uppercase: true,
                use_lowercase: true,
                use_numbers: true,
                use_symbols: true,
            },
        )
    }

    /// Switches the uppercase letters on or off.
    pub fn with_uppercase(self, use_uppercase: bool) -> (updated: PasswordGenerator)
        ensures
            updated@ == (Settings { uppercase: use_uppercase, ..self@ }),
    {
        proof {
            use_type_invariant(&self);
        }
        PasswordGenerator { use_uppercase, ..self }
    }

    /// Switches the lowercase letters on or off.
    pub fn with_lowercase(self, use_lowercase: bool) -> (updated: PasswordGenerator)
        ensures
            updated@ == (Settings { lowercase: use_lowercase, ..self@ }),
    {
        proof {
            use_type_invariant(&self);
        }
        PasswordGenerator { use_lowercase, ..self }
    }

    /// Switches the digits on or off.
    pub fn with_numbers(self, use_numbers: bool) -> (updated: PasswordGenerator)
        ensures
            updated@ == (Settings { numbers: use_numbers, ..self@ }),
    {
        proof {
            use_type_invariant(&self);
        }
        PasswordGenerator { use_numbers, ..self }
    }

    /// Switches the symbols on or off.
    pub fn with_symbols(self, use_symbols: bool) -> (updated: PasswordGenerator)
        ensures
            updated@ == (Settings { symbols: use_symbols, ..self@ }),
    {
        proof {
            use_type_invariant(&self);
        }
        PasswordGenerator { use_symbols, ..self }
    }

    /// The characters that this generator draws from.
    pub fn charset(&self) -> (charset: String)
        ensures
            charset@ == self@.charset(),
    {
        let mut charset = String::new();
        if self.use_uppercase {
            charset.append(UPPERCASE);
        }
        if self.use_lowercase {
            charset.append(LOWERCASE);
        }
        if self.use_numbers {
            charset.append(NUMBERS);
        }
        if self.use_symbols {
            charset.append(SYMBOLS);
        }
        assert(charset@ =~= self@.charset());
        charset
    }

    /// Draws a password: as many positions in the charset as the generator's
    /// length, each picked at random, and the characters that stand there,
    /// in the order drawn. With every class disabled there is nothing to pick
    /// from, and the call fails.
    pub fn generate(&self) -> (result: Result<String, PasswordError>)
        ensures
            result is Ok <==> self@.any_class(),
            result is Ok ==> self@.may_yield(result->Ok_0@),
            result is Ok ==> self@.avoids_disabled(result->Ok_0@),
            result is Ok ==> result->Ok_0@.len() >= 1,
            result is Err ==> result->Err_0 == PasswordError::EmptyCharset,
    {
        proof {
            use_type_invariant(self);
            lemma_charset_len(self@);
            lemma_charset_ascii(self@);
        }
        let charset = self.charset();
        let charset = charset.as_str();
        if charset.is_empty() {
            return Err(PasswordError::EmptyCharset);
        }
        proof {
            vstd::string::is_ascii_spec_bytes(charset);
        }
        let indices = draw_indices(self.length, charset.len());
        let password = select_chars(charset, indices.as_slice());
        proof {
            lemma_selection_may_yield(self@, indices@);
            lemma_disabled_class_absent(self@, password@);
        }
        Ok(password)
    }
}

/// Draws a password of `length` characters from all four classes.
pub fn generate_password(length: usize) -> (result: Result<String, PasswordError>)
    ensures
        result is Ok <==> length > 0,
        result is Ok ==> Settings::all_classes(length as nat).may_yield(result->Ok_0@),
        result is Err ==> result->Err_0 == PasswordError::ZeroLength,
{
    match PasswordGenerator::new(length) {
        Ok(generator) => generator.generate(),
        Err(e) => Err(e),
    }
}

/// Every character of the charset has a code below 128.
pub proof fn lemma_charset_ascii(s: Settings)
    ensures
        vstd::utf8::is_ascii_chars(s.charset()),
{
    lemma_uppercase_class();
    lemma_lowercase_class();
    lemma_numbers_class();
    lemma_symbols_class();
}

/// The size of the charset is the sum of the sizes of the enabled classes,
/// and the charset is empty exactly when no class is enabled.
pub proof fn lemma_charset_len(s: Settings)
    ensures
        s.charset().len() == (if s.uppercase { 26nat } else { 0 })
            + (if s.lowercase { 26nat } else { 0 })
            + (if s.numbers { 10nat } else { 0 })
            + (if s.symbols { 26nat } else { 0 }),
        s.charset().len() == 0 <==> !s.any_class(),
{
    lemma_uppercase_class();
    lemma_lowercase_class();
    lemma_numbers_class();
    lemma_symbols_class();
}

/// Which class each part of the charset comes from.
proof fn lemma_parts(s: Settings, c: char)
    ensures
        part(s.uppercase, UPPERCASE@).contains(c) <==> s.uppercase && is_uppercase(c),
        part(s.lowercase, LOWERCASE@).contains(c) <==> s.lowercase && is_lowercase(c),
        part(s.numbers, NUMBERS@).contains(c) <==> s.numbers && is_number(c),
        part(s.symbols, SYMBOLS@).contains(c) <==> s.symbols && is_symbol(c),
{
    lemma_uppercase_class();
    lemma_lowercase_class();
    lemma_numbers_class();
}

/// A character stands in the charset exactly when an enabled class holds it.
pub proof fn lemma_charset_admits(s: Settings, c: char)
    ensures
        s.charset().contains(c) <==> s.admits(c),
{
    let u = part(s.uppercase, UPPERCASE@);
    let l = part(s.lowercase, LOWERCASE@);
    let n = part(s.numbers, NUMBERS@);
    let y = part(s.symbols, SYMBOLS@);
    lemma_parts(s, c);
    lemma_seq_concat_contains_all_elements(u, l, c);
    lemma_seq_concat_contains_all_elements(u + l, n, c);
    lemma_seq_concat_contains_all_elements(u + l + n, y, c);
}

/// No character stands twice in the charset, so a position drawn uniformly
/// is a character drawn uniformly.
pub proof fn lemma_charset_no_duplicates(s: Settings)
    ensures
        s.charset().no_duplicates(),
{
    lemma_uppercase_class();
    lemma_lowercase_class();
    lemma_numbers_class();
    lemma_symbols_class();
    let u = part(s.uppercase, UPPERCASE@);
    let l = part(s.lowercase, LOWERCASE@);
    let n = part(s.numbers, NUMBERS@);
    let y = part(s.symbols, SYMBOLS@);
    assert forall|i: int, j: int| 0 <= i < u.len() && 0 <= j < l.len() implies u[i] != l[j] by {
        assert(u.contains(u[i]) && l.contains(l[j]));
        lemma_parts(s, u[i]);
        lemma_parts(s, l[j]);
    }
    lemma_no_dup_in_concat(u, l);
    assert forall|i: int, j: int| 0 <= i < (u + l).len() && 0 <= j < n.len() implies (u + l)[i]
        != n[j] by {
        let c = (u + l)[i];
        assert((u + l).contains(c) && n.contains(n[j]));
        lemma_seq_concat_contains_all_elements(u, l, c);
        lemma_parts(s, c);
        lemma_parts(s, n[j]);
    }
    lemma_no_dup_in_concat(u + l, n);
    assert forall|i: int, j: int| 0 <= i < (u + l + n).len() && 0 <= j < y.len() implies (u + l
        + n)[i] != y[j] by {
        let c = (u + l + n)[i];
        assert((u + l + n).contains(c) && y.contains(y[j]));
        lemma_seq_concat_contains_all_elements(u, l, c);
        lemma_seq_concat_contains_all_elements(u + l, n, c);
        lemma_parts(s, c);
        lemma_parts(s, y[j]);
    }
    lemma_no_dup_in_concat(u + l + n, y);
}

/// Reading the charset at as many positions as the length asks for gives a
/// password that the settings may yield.
pub proof fn lemma_selection_may_yield(s: Settings, indices: Seq<usize>)
    requires
        indices.len() == s.length,
        all_below(indices, s.charset().len()),
    ensures
        s.may_yield(selection(s.charset(), indices)),
{
}

/// Every password that the settings may yield is read off the charset at some
/// positions: no such password is out of the generator's reach.
pub proof fn lemma_may_yield_selection(s: Settings, password: Seq<char>)
    requires
        s.may_yield(password),
    ensures
        exists|indices: Seq<usize>|
            indices.len() == s.length && #[trigger] all_below(indices, s.charset().len())
                && password == selection(s.charset(), indices),
{
    lemma_charset_len(s);
    let charset = s.charset();
    let indices = Seq::new(
        password.len(),
        |i: int| (choose|k: int| 0 <= k < charset.len() && charset[k] == password[i]) as usize,
    );
    assert forall|i: int| 0 <= i < password.len() implies indices[i] < charset.len()
        && charset[indices[i] as int] == password[i] by {
        assert(charset.contains(password[i]));
    }
    assert(all_below(indices, charset.len()));
    assert(password =~= selection(charset, indices));
}

/// A class that is switched off leaves no character in any password that the
/// settings can yield.
pub proof fn lemma_disabled_class_absent(s: Settings, password: Seq<char>)
    requires
        s.may_yield(password),
    ensures
        s.avoids_disabled(password),
{
    assert forall|i: int| 0 <= i < password.len() implies s.allows(#[trigger] password[i]) by {
        lemma_charset_admits(s, password[i]);
        lemma_classes_disjoint(password[i]);
    }
}

} // verus!
