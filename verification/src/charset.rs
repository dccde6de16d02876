//! The fixed alphabets and the classes that own them.
use vstd::prelude::*;
use vstd::utf8::is_ascii_chars;

verus! {

/// The uppercase ASCII letters.
pub const ASCII_UPPER: &'static str = "ABCDEFGHIJKLMNOPQRSTUVWXYZ";

/// The lowercase ASCII letters.
pub const ASCII_LOWER: &'static str = "abcdefghijklmnopqrstuvwxyz";

/// The ASCII digits.
pub const ASCII_NUMBERS: &'static str = "0123456789";

/// The ASCII symbols.
pub const ASCII_SYMBOLS: &'static str = "!@#$%^&*()_+-=";

/// A named alphabet that a request can select.
#[derive(Clone, Copy, Debug, PartialEq, Eq, Structural)]
pub enum CharacterClass {
    Upper,
    Lower,
    Digits,
    Symbols,
}

impl CharacterClass {
    /// The characters of this class, in their fixed order.
    pub open spec fn alphabet(self) -> Seq<char> {
        match self {
            CharacterClass::Upper => ASCII_UPPER@,
            CharacterClass::Lower => ASCII_LOWER@,
            CharacterClass::Digits => ASCII_NUMBERS@,
            CharacterClass::Symbols => ASCII_SYMBOLS@,
        }
    }

    /// The literal that holds this class's characters.
    pub fn letters(self) -> (text: &'static str)
        ensures
            text@ == self.alphabet(),
    {
        match self {
            CharacterClass::Upper => ASCII_UPPER,
            CharacterClass::Lower => ASCII_LOWER,
            CharacterClass::Digits => ASCII_NUMBERS,
            CharacterClass::Symbols => ASCII_SYMBOLS,
        }
    }
}

/// Whether `c` is one of the characters of `class`, said without its literal.
pub open spec fn belongs(class: CharacterClass, c: char) -> bool {
    match class {
        CharacterClass::Upper => 'A' <= c <= 'Z',
        CharacterClass::Lower => 'a' <= c <= 'z',
        CharacterClass::Digits => '0' <= c <= '9',
        CharacterClass::Symbols => c == '!' || c == '@' || c == '#' || c == '$' || c == '%' || c
            == '^' || c == '&' || c == '*' || c == '(' || c == ')' || c == '_' || c == '+' || c
            == '-' || c == '=',
    }
}

/// The alphabet of a class holds the characters that belong to it, and no others.
pub proof fn lemma_alphabet_members(class: CharacterClass, c: char)
    ensures
        class.alphabet().contains(c) <==> belongs(class, c),
{
    reveal_strlit("ABCDEFGHIJKLMNOPQRSTUVWXYZ");
    reveal_strlit("abcdefghijklmnopqrstuvwxyz");
    reveal_strlit("0123456789");
    reveal_strlit("!@#$%^&*()_+-=");
    let letters = class.alphabet();
    if letters.contains(c) {
        let i = choose|i: int| 0 <= i < letters.len() && letters[i] == c;
        assert(belongs(class, letters[i]));
    }
    if belongs(class, c) {
        match class {
            CharacterClass::Upper => {
                assert(letters[c as int - 'A' as int] == c);
            },
            CharacterClass::Lower => {
                assert(letters[c as int - 'a' as int] == c);
            },
            CharacterClass::Digits => {
                assert(letters[c as int - '0' as int] == c);
            },
            CharacterClass::Symbols => {
                assert(letters[0] == '!' && letters[1] == '@' && letters[2] == '#');
                assert(letters[3] == '$' && letters[4] == '%' && letters[5] == '^');
                assert(letters[6] == '&' && letters[7] == '*' && letters[8] == '(');
                assert(letters[9] == ')' && letters[10] == '_' && letters[11] == '+');
                assert(letters[12] == '-' && letters[13] == '=');
            },
        }
    }
}

/// No character belongs to two classes.
pub proof fn lemma_classes_disjoint(first: CharacterClass, second: CharacterClass, c: char)
    requires
        first.alphabet().contains(c),
        second.alphabet().contains(c),
    ensures
        first == second,
{
    lemma_alphabet_members(first, c);
    lemma_alphabet_members(second, c);
}

/// The alphabets of two different classes have no character in common.
pub proof fn lemma_alphabets_disjoint(first: CharacterClass, second: CharacterClass)
    requires
        first != second,
    ensures
        first.alphabet().disjoint(second.alphabet()),
{
    let left = first.alphabet();
    let right = second.alphabet();
    assert forall|i: int, j: int| 0 <= i < left.len() && 0 <= j < right.len() implies left[i]
        != right[j] by {
        if left[i] == right[j] {
            assert(left.contains(left[i]));
            assert(right.contains(left[i]));
            lemma_classes_disjoint(first, second, left[i]);
        }
    }
}

/// No alphabet holds a character twice.
pub proof fn lemma_alphabet_no_duplicates(class: CharacterClass)
    ensures
        class.alphabet().no_duplicates(),
{
    reveal_strlit("ABCDEFGHIJKLMNOPQRSTUVWXYZ");
    reveal_strlit("abcdefghijklmnopqrstuvwxyz");
    reveal_strlit("0123456789");
    reveal_strlit("!@#$%^&*()_+-=");
}

/// The four alphabets one after another, in the fixed order of the classes.
pub open spec fn full_pool() -> Seq<char> {
    CharacterClass::Upper.alphabet() + CharacterClass::Lower.alphabet()
        + CharacterClass::Digits.alphabet() + CharacterClass::Symbols.alphabet()
}

/// The number of characters in the alphabet of a class.
pub open spec fn alphabet_len(class: CharacterClass) -> nat {
    match class {
        CharacterClass::Upper => 26,
        CharacterClass::Lower => 26,
        CharacterClass::Digits => 10,
        CharacterClass::Symbols => 14,
    }
}

/// Every alphabet has its fixed number of characters, none is empty, and
/// all of its characters are ASCII.
pub proof fn lemma_alphabet(class: CharacterClass)
    ensures
        class.alphabet().len() == alphabet_len(class),
        class.alphabet().len() > 0,
        is_ascii_chars(class.alphabet()),
{
    reveal_strlit("ABCDEFGHIJKLMNOPQRSTUVWXYZ");
    reveal_strlit("abcdefghijklmnopqrstuvwxyz");
    reveal_strlit("0123456789");
    reveal_strlit("!@#$%^&*()_+-=");
}

} // verus!
