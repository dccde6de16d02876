//! The password request and what is computed from it.
use vstd::prelude::*;
use vstd::utf8::is_ascii_chars;
use rand::thread_rng;
use vstd::seq_lib::lemma_no_dup_in_concat;
use crate::charset::{
    alphabet_len, belongs, full_pool, lemma_alphabet, lemma_alphabet_members,
    lemma_alphabet_no_duplicates, lemma_alphabets_disjoint, lemma_classes_disjoint,
    CharacterClass,
};
use crate::sampler::{drawn_from, sample, SampleError};
use crate::utils::to_vec_char;

verus! {

/// A request for a password: how long it is to be, which classes of
/// characters it may draw on, and what is to be shown once it is made.
#[derive(Copy, Clone, Debug, PartialEq, Eq, Structural)]
pub struct Pswd {
    /// The required length of the password
    pub length: usize,
    /// Use all ASCII characters
    pub all: bool,
    /// Use uppercase ASCII letters
    pub upper: bool,
    /// Use lowercase ASCII letters
    pub lower: bool,
    /// Use ASCII numbers
    pub numbers: bool,
    /// Use ASCII symbol characters
    pub symbols: bool,
    /// Print the password out once generated
    pub print: bool,
    /// Show debug messages including clipboard errors
    pub debug: bool,
}

impl Pswd {
    /// The flag that stands for one class alone.
    pub open spec fn flag(self, class: CharacterClass) -> bool {
        match class {
            CharacterClass::Upper => self.upper,
            CharacterClass::Lower => self.lower,
            CharacterClass::Digits => self.numbers,
            CharacterClass::Symbols => self.symbols,
        }
    }

    /// Whether the request draws on `class`: by its own flag or by `all`.
    pub open spec fn selects(self, class: CharacterClass) -> bool {
        self.all || self.flag(class)
    }

    /// Whether the request names anything to draw on: the all flag or the
    /// flag of a class. Validation makes it so.
    pub open spec fn is_valid(self) -> bool {
        self.all || self.upper || self.lower || self.numbers || self.symbols
    }

    /// What `class` contributes to the pool: its alphabet or nothing.
    pub open spec fn share(self, class: CharacterClass) -> Seq<char> {
        if self.selects(class) {
            class.alphabet()
        } else {
            Seq::empty()
        }
    }

    /// The pool of the request: the alphabets of the selected classes, uppercase
    /// letters first, then lowercase letters, digits and symbols.
    pub open spec fn pool(self) -> Seq<char> {
        self.share(CharacterClass::Upper) + self.share(CharacterClass::Lower) + self.share(
            CharacterClass::Digits,
        ) + self.share(CharacterClass::Symbols)
    }

    /// Whether `class` is the one class that the request names, by its own flag.
    pub open spec fn selects_only(self, class: CharacterClass) -> bool {
        !self.all && forall|other: CharacterClass| self.flag(other) <==> other == class
    }

    /// The request with the fallback applied: one that names nothing selects everything.
    pub open spec fn normalized(self) -> Pswd {
        if self.is_valid() {
            self
        } else {
            Pswd { all: true, ..self }
        }
    }

    /// Set the all flag to true if no flags have been provided.
    pub fn validate(&mut self) -> (request: Self)
        ensures
            *final(self) == old(self).normalized(),
            request == old(self).normalized(),
            request.is_valid(),
    {
        if !self.all && !self.upper && !self.lower && !self.numbers && !self.symbols {
            self.all = true;
        }
        *self
    }

    /// Whether the request draws on `class`.
    pub fn is_selected(&self, class: CharacterClass) -> (selected: bool)
        ensures
            selected == self.selects(class),
    {
        self.all || match class {
            CharacterClass::Upper => self.upper,
            CharacterClass::Lower => self.lower,
            CharacterClass::Digits => self.numbers,
            CharacterClass::Symbols => self.symbols,
        }
    }

    /// Return a Vec of all usable characters: the pool of the request.
    pub fn get_charset(&self) -> (chars: Vec<char>)
        ensures
            chars@ == self.pool(),
            chars@.len() > 0 <==> self.is_valid(),
    {
        let mut chars: Vec<char> = Vec::new();
        proof {
            lemma_pool_len(*self);
        }

        if self.is_selected(CharacterClass::Upper) {
            chars.append(&mut to_vec_char(CharacterClass::Upper.letters()));
        }

        if self.is_selected(CharacterClass::Lower) {
            chars.append(&mut to_vec_char(CharacterClass::Lower.letters()));
        }

        if self.is_selected(CharacterClass::Digits) {
            chars.append(&mut to_vec_char(CharacterClass::Digits.letters()));
        }

        if self.is_selected(CharacterClass::Symbols) {
            chars.append(&mut to_vec_char(CharacterClass::Symbols.letters()));
        }

        chars
    }

    /// Generate a password.
    ///
    /// Each character is drawn from the request's pool by the generator of
    /// the calling thread. A request that names no class has an empty pool,
    /// which can give only the empty password.
    pub fn generate(&self) -> (password: Result<String, SampleError>)
        ensures
            password is Ok <==> (self.length == 0 || self.is_valid()),
            password matches Ok(p) ==> p@.len() == self.length && drawn_from(self.pool(), p@)
                && is_ascii_chars(p@),
            self.length == 0 ==> (password matches Ok(p) && p@ == Seq::<char>::empty()),
            password is Err ==> password == Err::<String, SampleError>(SampleError::Fatal),
    {
        let mut rng = thread_rng();

        let chars = self.get_charset();
        proof {
            lemma_pool_len(*self);
        }
        let password = sample(&chars, self.length, &mut rng);
        proof {
            if password is Ok {
                lemma_drawn_from_ascii(self.pool(), password->Ok_0@);
            }
        }
        password
    }

    /// Applies the fallback and generates a password for the request that
    /// results. That request names a class, so this cannot fail.
    pub fn generate_validated(&mut self) -> (password: String)
        ensures
            *final(self) == old(self).normalized(),
            password@.len() == old(self).length,
            drawn_from(old(self).normalized().pool(), password@),
            is_ascii_chars(password@),
    {
        let request = self.validate();
        request.generate().unwrap()
    }

    /// What to log once the clipboard has been tried: its error message where
    /// it failed and debug messages are wanted, nothing otherwise.
    pub fn clipboard_report(&self, outcome: Result<(), String>) -> (report: Option<String>)
        ensures
            report == if self.debug && outcome is Err {
                Some(outcome->Err_0)
            } else {
                None
            },
    {
        match outcome {
            Err(message) => if self.debug {
                Some(message)
            } else {
                None
            },
            Ok(_) => None,
        }
    }

    /// What to hand back for display: the password if the print flag is set,
    /// nothing if it has been omitted.
    pub fn displayed(&self, pass: String) -> (shown: Option<String>)
        ensures
            shown == if self.print {
                Some(pass)
            } else {
                None
            },
    {
        match self.print {
            true => Some(pass),
            false => None,
        }
    }
}

/// A password drawn from a pool of ASCII characters is itself ASCII.
pub proof fn lemma_drawn_from_ascii(pool: Seq<char>, password: Seq<char>)
    requires
        is_ascii_chars(pool),
        drawn_from(pool, password),
    ensures
        is_ascii_chars(password),
{
    assert forall|i: int| 0 <= i < password.len() implies '\0' <= #[trigger] password[i]
        <= '\u{7f}' by {
        assert(pool.contains(password[i]));
        let k = choose|k: int| 0 <= k < pool.len() && pool[k] == password[i];
        assert('\0' <= pool[k] <= '\u{7f}');
    }
}

/// The pool holds as many characters as the selected alphabets together. It
/// is empty exactly when the request names no class, and it is all ASCII.
pub proof fn lemma_pool_len(request: Pswd)
    ensures
        request.pool().len() == request.share(CharacterClass::Upper).len() + request.share(
            CharacterClass::Lower,
        ).len() + request.share(CharacterClass::Digits).len() + request.share(
            CharacterClass::Symbols,
        ).len(),
        forall|class: CharacterClass|
            #[trigger] request.share(class).len() == if request.selects(class) {
                alphabet_len(class)
            } else {
                0
            },
        request.pool().len() > 0 <==> request.is_valid(),
        is_ascii_chars(request.pool()),
{
    lemma_alphabet(CharacterClass::Upper);
    lemma_alphabet(CharacterClass::Lower);
    lemma_alphabet(CharacterClass::Digits);
    lemma_alphabet(CharacterClass::Symbols);
}

/// Once the fallback has been applied a request names a class, so its pool
/// is not empty. Applying the fallback again changes nothing, and a request
/// that names a class is left as it is.
pub proof fn lemma_normalized(request: Pswd)
    ensures
        request.normalized().is_valid(),
        request.normalized().pool().len() > 0,
        request.normalized().normalized() == request.normalized(),
        request.is_valid() ==> request.normalized() == request,
        request.normalized().length == request.length,
{
    lemma_pool_len(request.normalized());
}

/// A request with the all flag draws on the four alphabets in their fixed order.
pub proof fn lemma_all_pool(request: Pswd)
    requires
        request.all,
    ensures
        request.pool() == full_pool(),
{
}

/// A request that names no class draws, once the fallback has been applied,
/// on the four alphabets in their fixed order.
pub proof fn lemma_fallback_pool(request: Pswd)
    requires
        !request.is_valid(),
    ensures
        request.normalized().pool() == full_pool(),
{
}

/// The pool of a request that names one class by its flag is the alphabet
/// of that class, so every character of a password drawn from the pool
/// belongs to the class.
pub proof fn lemma_single_class(request: Pswd, class: CharacterClass, password: Seq<char>)
    requires
        request.selects_only(class),
        drawn_from(request.pool(), password),
    ensures
        request.pool() == class.alphabet(),
        drawn_from(class.alphabet(), password),
        forall|i: int| 0 <= i < password.len() ==> belongs(class, #[trigger] password[i]),
{
    assert(request.flag(CharacterClass::Upper) <==> CharacterClass::Upper == class);
    assert(request.flag(CharacterClass::Lower) <==> CharacterClass::Lower == class);
    assert(request.flag(CharacterClass::Digits) <==> CharacterClass::Digits == class);
    assert(request.flag(CharacterClass::Symbols) <==> CharacterClass::Symbols == class);
    assert(request.pool() =~= class.alphabet());
    assert forall|i: int| 0 <= i < password.len() implies belongs(
        class,
        #[trigger] password[i],
    ) by {
        lemma_alphabet_members(class, password[i]);
    }
}

/// The pool holds a character exactly when a selected class holds it: a
/// class that the request leaves out contributes nothing.
pub proof fn lemma_pool_members(request: Pswd, c: char)
    ensures
        request.pool().contains(c) <==> exists|class: CharacterClass|
            request.selects(class) && #[trigger] belongs(class, c),
        forall|class: CharacterClass|
            !request.selects(class) && #[trigger] belongs(class, c) ==> !request.pool().contains(
                c,
            ),
{
    let upper = request.share(CharacterClass::Upper);
    let lower = request.share(CharacterClass::Lower);
    let digits = request.share(CharacterClass::Digits);
    let symbols = request.share(CharacterClass::Symbols);
    lemma_alphabet_members(CharacterClass::Upper, c);
    lemma_alphabet_members(CharacterClass::Lower, c);
    lemma_alphabet_members(CharacterClass::Digits, c);
    lemma_alphabet_members(CharacterClass::Symbols, c);
    lemma_concat_contains(upper, lower, c);
    lemma_concat_contains(upper + lower, digits, c);
    lemma_concat_contains(upper + lower + digits, symbols, c);
    assert(!Seq::<char>::empty().contains(c));
    if request.pool().contains(c) {
        if upper.contains(c) {
            assert(request.selects(CharacterClass::Upper) && belongs(CharacterClass::Upper, c));
        } else if lower.contains(c) {
            assert(request.selects(CharacterClass::Lower) && belongs(CharacterClass::Lower, c));
        } else if digits.contains(c) {
            assert(request.selects(CharacterClass::Digits) && belongs(CharacterClass::Digits, c));
        } else {
            assert(request.selects(CharacterClass::Symbols) && belongs(
                CharacterClass::Symbols,
                c,
            ));
        }
    }
    assert forall|class: CharacterClass|
        !request.selects(class) && #[trigger] belongs(class, c) implies !request.pool().contains(
        c,
    ) by {
        lemma_alphabet_members(class, c);
        if request.pool().contains(c) {
            let other = choose|other: CharacterClass|
                request.selects(other) && #[trigger] belongs(other, c);
            lemma_alphabet_members(other, c);
            lemma_classes_disjoint(class, other, c);
        }
    }
}

/// No character occurs twice in a pool, whatever the request: also where
/// the all flag stands beside the flag of a class.
pub proof fn lemma_pool_no_duplicates(request: Pswd)
    ensures
        request.pool().no_duplicates(),
{
    let upper = request.share(CharacterClass::Upper);
    let lower = request.share(CharacterClass::Lower);
    let digits = request.share(CharacterClass::Digits);
    let symbols = request.share(CharacterClass::Symbols);
    lemma_alphabet_no_duplicates(CharacterClass::Upper);
    lemma_alphabet_no_duplicates(CharacterClass::Lower);
    lemma_alphabet_no_duplicates(CharacterClass::Digits);
    lemma_alphabet_no_duplicates(CharacterClass::Symbols);
    lemma_alphabets_disjoint(CharacterClass::Upper, CharacterClass::Lower);
    lemma_alphabets_disjoint(CharacterClass::Upper, CharacterClass::Digits);
    lemma_alphabets_disjoint(CharacterClass::Upper, CharacterClass::Symbols);
    lemma_alphabets_disjoint(CharacterClass::Lower, CharacterClass::Digits);
    lemma_alphabets_disjoint(CharacterClass::Lower, CharacterClass::Symbols);
    lemma_alphabets_disjoint(CharacterClass::Digits, CharacterClass::Symbols);
    lemma_no_dup_in_concat(upper, lower);
    lemma_no_dup_in_concat(upper + lower, digits);
    lemma_no_dup_in_concat(upper + lower + digits, symbols);
}

/// A character occurs in two sequences joined exactly when it occurs in one of them.
proof fn lemma_concat_contains(left: Seq<char>, right: Seq<char>, c: char)
    ensures
        (left + right).contains(c) <==> left.contains(c) || right.contains(c),
{
    let joined = left + right;
    if joined.contains(c) {
        let i = choose|i: int| 0 <= i < joined.len() && joined[i] == c;
        if i < left.len() {
            assert(left[i] == c);
        } else {
            assert(right[i - left.len()] == c);
        }
    }
    if left.contains(c) {
        let i = choose|i: int| 0 <= i < left.len() && left[i] == c;
        assert(joined[i] == c);
    }
    if right.contains(c) {
        let i = choose|i: int| 0 <= i < right.len() && right[i] == c;
        assert(joined[i + left.len()] == c);
    }
}

/// Building the character set is repeatable: whatever two runs on one
/// request return is the same sequence.
pub proof fn lemma_charset_repeatable(request: Pswd, first: Seq<char>, second: Seq<char>)
    requires
        first == request.pool(),
        second == request.pool(),
    ensures
        first == second,
{
}

/// The pool depends on nothing but which classes the request selects.
pub proof fn lemma_pool_by_selection(first: Pswd, second: Pswd)
    requires
        forall|class: CharacterClass| first.selects(class) == second.selects(class),
    ensures
        first.pool() == second.pool(),
{
    assert(first.selects(CharacterClass::Upper) == second.selects(CharacterClass::Upper));
    assert(first.selects(CharacterClass::Lower) == second.selects(CharacterClass::Lower));
    assert(first.selects(CharacterClass::Digits) == second.selects(CharacterClass::Digits));
    assert(first.selects(CharacterClass::Symbols) == second.selects(CharacterClass::Symbols));
}

} // verus!
