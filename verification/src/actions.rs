//! One action per use case, each on inputs that are already resolved.

use crate::error::VaultError;
use crate::generator::{generate_many, generate_one};
use crate::policy::GenerationPolicy;
use crate::text::texts;
use crate::vault::{
    contains_key, lookup, put, rekeyed, views, without, Record, RecordView, Vault,
};
use vstd::prelude::*;
use vstd::string::*;

verus! {

/// The line that lists one record, with the password shown or masked.
pub open spec fn record_line(record: RecordView, show_passwords: bool) -> Seq<char> {
    "Service: "@ + record.service + ", Username: "@ + record.username + ", Password: "@ + (
    if show_passwords {
        record.password
    } else {
        "********"@
    })
}

/// The lines that list `records`, one per record and in their order.
pub open spec fn record_lines(records: Seq<RecordView>, show_passwords: bool) -> Seq<Seq<char>> {
    records.map_values(|r: RecordView| record_line(r, show_passwords))
}

/// The password that an add request stores, given what was supplied and
/// what the generator gave where it was asked.
pub open spec fn chosen_password(
    password: Option<Seq<char>>,
    generate: bool,
    generated: Result<Seq<char>, VaultError>,
) -> Result<Seq<char>, VaultError> {
    if generate {
        generated
    } else {
        match password {
            Some(p) => Ok(p),
            None => Err(VaultError::Validation),
        }
    }
}

/// Stores the chosen password under `service` and `username`, or hands on
/// the failure and leaves the vault as it was.
pub fn store_chosen(
    vault: &mut Vault,
    service: String,
    username: String,
    chosen: Result<String, VaultError>,
) -> (result: Result<(), VaultError>)
    ensures
        final(vault).inv(),
        match chosen {
            Ok(password) => result is Ok && final(vault)@.passphrase == old(vault)@.passphrase
                && final(vault)@.records == put(
                old(vault)@.records,
                service@,
                username@,
                password@,
            ),
            Err(e) => result == Err::<(), VaultError>(e) && final(vault)@ == old(vault)@,
        },
{
    proof {
        use_type_invariant(&*vault);
    }
    match chosen {
        Ok(password) => {
            vault.insert_record(service, username, password);
            Ok(())
        },
        Err(e) => Err(e),
    }
}

/// Adds a record under `service` and `username`, or overwrites the one that
/// is there.
///
/// With `generate` set, the password is a new random one under `policy`
/// (one password, whatever the policy's count), and what was supplied is
/// ignored. Without it the supplied password is stored; where none was
/// supplied the result is `Validation`. On every failure the vault is as it
/// was.
pub fn add_password(
    vault: &mut Vault,
    service: String,
    username: String,
    password: Option<String>,
    generate: bool,
    policy: &GenerationPolicy,
) -> (result: Result<(), VaultError>)
    ensures
        final(vault).inv(),
        final(vault)@.passphrase == old(vault)@.passphrase,
        result is Err ==> final(vault)@ == old(vault)@,
        !generate ==> match password {
            Some(p) => result is Ok && final(vault)@.records == put(
                old(vault)@.records,
                service@,
                username@,
                p@,
            ),
            None => result == Err::<(), VaultError>(VaultError::Validation),
        },
        generate && !policy.has_alphabet() ==> result == Err::<(), VaultError>(
            VaultError::Generation,
        ),
        generate && policy.has_alphabet() && !policy.length_fits() ==> result == Err::<
            (),
            VaultError,
        >(VaultError::Validation),
        generate && policy.has_alphabet() && policy.length_fits() ==> result is Ok && exists|
            p: Seq<char>,
        |
            #![trigger policy.admits(p)]
            policy.admits(p) && final(vault)@.records == put(
                old(vault)@.records,
                service@,
                username@,
                p,
            ),
{
    let chosen = if generate {
        generate_one(policy)
    } else {
        match password {
            Some(p) => Ok(p),
            None => Err(VaultError::Validation),
        }
    };
    proof {
        if generate && chosen is Ok {
            assert(policy.admits(chosen->Ok_0@));
        }
    }
    store_chosen(vault, service, username, chosen)
}

/// The line that lists `record`.
fn line_of(record: &Record, show_passwords: bool) -> (line: String)
    ensures
        line@ == record_line(record@, show_passwords),
{
    let mut line = String::from_str("Service: ");
    line.append(record.service.as_str());
    line.append(", Username: ");
    line.append(record.username.as_str());
    line.append(", Password: ");
    if show_passwords {
        line.append(record.password.as_str());
    } else {
        line.append("********");
    }
    line
}

/// Lists the records, one line each and in storage order, with the
/// passwords shown or masked.
pub fn list_passwords(vault: &Vault, show_passwords: bool) -> (lines: Vec<String>)
    ensures
        texts(lines@) == record_lines(vault@.records, show_passwords),
{
    let records = vault.list_records();
    let mut lines: Vec<String> = Vec::new();
    let mut i: usize = 0;
    while i < records.len()
        invariant
            i <= records.len(),
            lines.len() == i,
            forall|k: int|
                0 <= k < i ==> (#[trigger] lines[k])@ == record_line(records[k]@, show_passwords),
        decreases records.len() - i,
    {
        lines.push(line_of(&records[i], show_passwords));
        i = i + 1;
    }
    assert(texts(lines@) =~= record_lines(views(records@), show_passwords));
    lines
}

/// Removes the record under `service` and `username`. Where there is none
/// the result is `NotFound` and the vault is as it was.
pub fn remove_password(vault: &mut Vault, service: String, username: String) -> (result: Result<
    (),
    VaultError,
>)
    ensures
        final(vault).inv(),
        final(vault)@.passphrase == old(vault)@.passphrase,
        final(vault)@.records == without(old(vault)@.records, service@, username@),
        match result {
            Ok(_) => contains_key(old(vault)@.records, service@, username@),
            Err(e) => e == VaultError::NotFound && !contains_key(
                old(vault)@.records,
                service@,
                username@,
            ) && final(vault)@ == old(vault)@,
        },
{
    vault.delete_record(&service, &username)
}

/// The password stored under `service` and `username`, unmasked, or
/// `NotFound`.
pub fn show_password(vault: &Vault, service: String, username: String) -> (result: Result<
    String,
    VaultError,
>)
    ensures
        match result {
            Ok(password) => lookup(vault@.records, service@, username@) == Some(password@),
            Err(e) => e == VaultError::NotFound && lookup(vault@.records, service@, username@)
                is None,
        },
{
    vault.find_record(&service, &username)
}

/// Puts the vault under `new_passphrase`. All records stay as they are, so
/// the change is whole or not made at all.
pub fn update_master_password(vault: &mut Vault, new_passphrase: String)
    ensures
        final(vault).inv(),
        final(vault)@ == rekeyed(old(vault)@, new_passphrase@),
{
    vault.rekey(new_passphrase)
}

/// Generates `policy.count` random passwords under `policy`, without any
/// vault.
///
/// Fails with `Generation` when no character class is enabled, and with
/// `Validation` when the length is zero or too short to hold a character of
/// every enabled class.
pub fn generate_password(policy: &GenerationPolicy) -> (result: Result<Vec<String>, VaultError>)
    ensures
        !policy.has_alphabet() ==> result == Err::<Vec<String>, VaultError>(
            VaultError::Generation,
        ),
        policy.has_alphabet() && !policy.length_fits() ==> result == Err::<
            Vec<String>,
            VaultError,
        >(VaultError::Validation),
        policy.has_alphabet() && policy.length_fits() ==> result is Ok,
        result matches Ok(passwords) ==> {
            &&& passwords.len() == policy.count
            &&& forall|i: int|
                0 <= i < passwords.len() ==> policy.admits(#[trigger] passwords[i]@)
        },
{
    generate_many(policy)
}

} // verus!
