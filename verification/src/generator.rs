//! Random passwords drawn to a policy.

use crate::error::VaultError;
use crate::policy::GenerationPolicy;
use passwords::PasswordGenerator;
use vstd::prelude::*;

verus! {

/// Calls `passwords::PasswordGenerator::generate_one` with the policy's
/// length and character classes, without spaces, with similar characters
/// kept, and in strict mode.
///
/// Trusted: the call fails exactly when the length is zero, when no class is
/// enabled, or when the length is below the number of enabled classes; a
/// password that it returns has the policy's length, holds characters of the
/// enabled classes only, and at least one of each. Which password comes back
/// is left to chance.
#[verifier::external_body]
fn draw_password(policy: &GenerationPolicy) -> (drawn: Option<String>)
    requires
        policy.length <= isize::MAX,
    ensures
        match drawn {
            Some(password) => policy.has_alphabet() && policy.length_fits() && policy.admits(
                password@,
            ),
            None => !(policy.has_alphabet() && policy.length_fits()),
        },
{
    PasswordGenerator::new()
        .length(policy.length)
        .numbers(policy.use_numbers)
        .lowercase_letters(policy.use_lowercase)
        .uppercase_letters(policy.use_uppercase)
        .symbols(policy.use_symbols)
        .spaces(false)
        .exclude_similar_characters(false)
        .strict(true)
        .generate_one()
        .ok()
}

/// What a request for one password comes to, given what was drawn: the
/// password where the policy can be met, `Generation` where no class is
/// enabled, `Validation` where the length cannot hold every enabled class.
pub open spec fn drawn_outcome(
    policy: GenerationPolicy,
    drawn: Option<Seq<char>>,
) -> Result<Seq<char>, VaultError> {
    if !policy.has_alphabet() {
        Err(VaultError::Generation)
    } else if !policy.length_fits() {
        Err(VaultError::Validation)
    } else {
        match drawn {
            Some(password) => Ok(password),
            None => Err(VaultError::Generation),
        }
    }
}

/// Checks the policy and hands on the password that was drawn for it.
pub fn accept_drawn(policy: &GenerationPolicy, drawn: Option<String>) -> (result: Result<
    String,
    VaultError,
>)
    ensures
        match result {
            Ok(password) => drawn_outcome(
                *policy,
                match drawn {
                    Some(d) => Some(d@),
                    None => None,
                },
            ) == Ok::<Seq<char>, VaultError>(password@),
            Err(e) => drawn_outcome(
                *policy,
                match drawn {
                    Some(d) => Some(d@),
                    None => None,
                },
            ) == Err::<Seq<char>, VaultError>(e),
        },
{
    if !(policy.use_symbols || policy.use_uppercase || policy.use_lowercase || policy.use_numbers) {
        return Err(VaultError::Generation);
    }
    if !length_fits(policy) {
        return Err(VaultError::Validation);
    }
    match drawn {
        Some(password) => Ok(password),
        None => Err(VaultError::Generation),
    }
}

/// Whether a password of the policy's length can hold a character of every
/// enabled class.
pub fn length_fits(policy: &GenerationPolicy) -> (fits: bool)
    ensures
        fits == policy.length_fits(),
{
    policy.length > 0 && policy.length <= isize::MAX as usize && policy.classes() <= policy.length
}

/// Generates one random password under `policy`.
///
/// Fails with `Generation` when no character class is enabled, and with
/// `Validation` when the length is zero or too short to hold a character of
/// every enabled class. Otherwise the password has the policy's length and
/// holds characters of the enabled classes only, at least one of each.
pub fn generate_one(policy: &GenerationPolicy) -> (result: Result<String, VaultError>)
    ensures
        !policy.has_alphabet() ==> result == Err::<String, VaultError>(VaultError::Generation),
        policy.has_alphabet() && !policy.length_fits() ==> result == Err::<String, VaultError>(
            VaultError::Validation,
        ),
        policy.has_alphabet() && policy.length_fits() ==> result is Ok,
        result matches Ok(password) ==> policy.admits(password@),
{
    if !length_fits(policy) {
        if policy.use_symbols || policy.use_uppercase || policy.use_lowercase || policy.use_numbers {
            return Err(VaultError::Validation);
        }
        return Err(VaultError::Generation);
    }
    let drawn = draw_password(policy);
    accept_drawn(policy, drawn)
}

/// Generates `policy.count` random passwords under `policy`.
///
/// Fails with `Generation` when no character class is enabled, and with
/// `Validation` when the length is zero or too short to hold a character of
/// every enabled class. Otherwise exactly `policy.count` passwords come back,
/// each of the policy's length and of characters of the enabled classes only.
pub fn generate_many(policy: &GenerationPolicy) -> (result: Result<Vec<String>, VaultError>)
    ensures
        !policy.has_alphabet() ==> result == Err::<Vec<String>, VaultError>(
            VaultError::Generation,
        ),
        policy.has_alphabet() && !policy.length_fits() ==> result == Err::<
            Vec<String>,
            VaultError,
        >(VaultError::Validation),
        policy.has_alphabet() && policy.length_fits() ==> result is Ok,
        result matches Ok(passwords) ==> {
            &&& passwords.len() == policy.count
            &&& forall|i: int|
                0 <= i < passwords.len() ==> policy.admits(#[trigger] passwords[i]@)
        },
{
    let mut passwords: Vec<String> = Vec::new();
    if policy.count == 0 {
        return match generate_one(policy) {
            Ok(_) => Ok(passwords),
            Err(e) => Err(e),
        };
    }
    let mut done: usize = 0;
    while done < policy.count
        invariant
            done <= policy.count,
            passwords.len() == done,
            done > 0 ==> policy.has_alphabet() && policy.length_fits(),
            forall|i: int| 0 <= i < passwords.len() ==> policy.admits(#[trigger] passwords[i]@),
        decreases policy.count - done,
    {
        match generate_one(policy) {
            Ok(password) => {
                passwords.push(password);
            },
            Err(e) => {
                return Err(e);
            },
        }
        done = done + 1;
    }
    Ok(passwords)
}

} // verus!
