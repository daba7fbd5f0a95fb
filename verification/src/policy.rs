//! The policy that governs random password generation.

use vstd::prelude::*;

verus! {

/// The default length of a generated password.
pub const DEFAULT_LENGTH: usize = 16;

/// The default number of passwords that one request generates.
pub const DEFAULT_COUNT: usize = 1;

/// Whether `c` is one of the ten decimal digits.
pub open spec fn is_number(c: char) -> bool {
    '0' <= c <= '9'
}

/// Whether `c` is one of the twenty-six lowercase ASCII letters.
pub open spec fn is_lowercase(c: char) -> bool {
    'a' <= c <= 'z'
}

/// Whether `c` is one of the twenty-six uppercase ASCII letters.
pub open spec fn is_uppercase(c: char) -> bool {
    'A' <= c <= 'Z'
}

/// Whether `c` is one of the thirty-two ASCII punctuation characters.
pub open spec fn is_symbol(c: char) -> bool {
    ||| '!' <= c <= '/'
    ||| ':' <= c <= '@'
    ||| '[' <= c <= '`'
    ||| '{' <= c <= '~'
}

/// The constraints on generated passwords: their length, the character
/// classes they draw from, and how many are produced at once.
#[derive(Clone, Copy, Debug, PartialEq, Eq, Structural)]
pub struct GenerationPolicy {
    pub length: usize,
    pub use_symbols: bool,
    pub use_uppercase: bool,
    pub use_lowercase: bool,
    pub use_numbers: bool,
    pub count: usize,
}

impl GenerationPolicy {
    /// Whether at least one character class is enabled.
    pub open spec fn has_alphabet(self) -> bool {
        self.use_symbols || self.use_uppercase || self.use_lowercase || self.use_numbers
    }

    /// The number of enabled character classes.
    pub open spec fn class_count(self) -> int {
        (if self.use_symbols { 1int } else { 0 }) + (if self.use_uppercase { 1int } else { 0 })
            + (if self.use_lowercase { 1int } else { 0 }) + (if self.use_numbers { 1int } else { 0 })
    }

    /// Whether a password of the policy's length can hold a character of
    /// every enabled class and fits in memory.
    pub open spec fn length_fits(self) -> bool {
        0 < self.length <= isize::MAX && self.class_count() <= self.length
    }

    /// Whether `c` belongs to an enabled character class.
    pub open spec fn allows(self, c: char) -> bool {
        ||| self.use_numbers && is_number(c)
        ||| self.use_lowercase && is_lowercase(c)
        ||| self.use_uppercase && is_uppercase(c)
        ||| self.use_symbols && is_symbol(c)
    }

    /// Whether `password` is one that this policy may produce: of the
    /// policy's length, made of allowed characters only, and holding at least
    /// one character of every enabled class.
    pub open spec fn admits(self, password: Seq<char>) -> bool {
        &&& password.len() == self.length
        &&& forall|i: int| 0 <= i < password.len() ==> self.allows(#[trigger] password[i])
        &&& self.use_numbers ==> exists|i: int|
            0 <= i < password.len() && is_number(#[trigger] password[i])
        &&& self.use_lowercase ==> exists|i: int|
            0 <= i < password.len() && is_lowercase(#[trigger] password[i])
        &&& self.use_uppercase ==> exists|i: int|
            0 <= i < password.len() && is_uppercase(#[trigger] password[i])
        &&& self.use_symbols ==> exists|i: int|
            0 <= i < password.len() && is_symbol(#[trigger] password[i])
    }

    /// The policy used when no option is given: sixteen characters of
    /// uppercase letters, lowercase letters and digits, without symbols, one
    /// password at a time.
    pub open spec fn standard_policy() -> GenerationPolicy {
        GenerationPolicy {
            length: DEFAULT_LENGTH,
            use_symbols: false,
            use_uppercase: true,
            use_lowercase: true,
            use_numbers: true,
            count: DEFAULT_COUNT,
        }
    }

    /// Returns the policy used when no option is given.
    pub fn standard() -> (policy: GenerationPolicy)
        ensures
            policy == GenerationPolicy::standard_policy(),
    {
        GenerationPolicy {
            length: DEFAULT_LENGTH,
            use_symbols: false,
            use_uppercase: true,
            use_lowercase: true,
            use_numbers: true,
            count: DEFAULT_COUNT,
        }
    }

    /// Returns the number of enabled character classes.
    pub fn classes(&self) -> (n: usize)
        ensures
            n == self.class_count(),
    {
        let mut n: usize = 0;
        if self.use_symbols {
            n = n + 1;
        }
        if self.use_uppercase {
            n = n + 1;
        }
        if self.use_lowercase {
            n = n + 1;
        }
        if self.use_numbers {
            n = n + 1;
        }
        n
    }
}

} // verus!
