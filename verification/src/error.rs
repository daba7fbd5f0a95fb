//! The kinds of failure that the vault and its actions report.

use vstd::prelude::*;
use vstd::string::*;

verus! {

/// Why an action on the vault did not succeed.
#[derive(Clone, Copy, Debug, PartialEq, Eq, Structural)]
pub enum VaultError {
    /// The master passphrase does not open the vault.
    Authentication,
    /// A required input is missing or a generation policy cannot be met.
    Validation,
    /// No record is stored under the given service and username.
    NotFound,
    /// The vault could not be read from or written to its file.
    Io,
    /// No character class is enabled, so there is nothing to draw from.
    Generation,
}

impl VaultError {
    /// The text shown to the user for this kind of failure.
    pub open spec fn message_text(self) -> Seq<char> {
        match self {
            VaultError::Authentication => "wrong master password"@,
            VaultError::Validation => "invalid input"@,
            VaultError::NotFound => "no such entry"@,
            VaultError::Io => "the vault file could not be read or written"@,
            VaultError::Generation => "no character class is enabled"@,
        }
    }

    /// Returns the text shown to the user for this kind of failure.
    pub fn message(&self) -> (text: String)
        ensures
            text@ == self.message_text(),
    {
        match self {
            VaultError::Authentication => String::from_str("wrong master password"),
            VaultError::Validation => String::from_str("invalid input"),
            VaultError::NotFound => String::from_str("no such entry"),
            VaultError::Io => String::from_str("the vault file could not be read or written"),
            VaultError::Generation => String::from_str("no character class is enabled"),
        }
    }
}

/// The messages of two different kinds of failure differ, so a user can tell
/// a wrong passphrase from a missing entry.
pub proof fn lemma_messages_distinct(a: VaultError, b: VaultError)
    requires
        a != b,
    ensures
        a.message_text() != b.message_text(),
{
    reveal_strlit("wrong master password");
    reveal_strlit("invalid input");
    reveal_strlit("no such entry");
    reveal_strlit("the vault file could not be read or written");
    reveal_strlit("no character class is enabled");
    assert(VaultError::Authentication.message_text()[0] == 'w');
    assert(VaultError::Validation.message_text()[0] == 'i');
    assert(VaultError::NotFound.message_text()[0] == 'n');
    assert(VaultError::Io.message_text()[0] == 't');
    assert(VaultError::Generation.message_text()[0] == 'n');
    assert(VaultError::NotFound.message_text().len() == 13);
    assert(VaultError::Generation.message_text().len() == 29);
}

} // verus!
