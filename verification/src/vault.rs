//! The vault: credential records under one master passphrase.
//!
//! An open [`Vault`] is the handle that actions work on. A [`SealedVault`] is
//! the same content at rest, as it is read from and written to storage.
//!
//! Neither can be printed: the types that hold a passphrase or a password
//! have no `Debug`, so that no secret reaches a log by accident.

use crate::error::VaultError;
use crate::text::texts;
use vstd::prelude::*;
use vstd::string::*;

verus! {

/// One stored credential.
pub struct Record {
    pub service: String,
    pub username: String,
    pub password: String,
}

/// What a record holds, as sequences of characters.
pub struct RecordView {
    pub service: Seq<char>,
    pub username: Seq<char>,
    pub password: Seq<char>,
}

impl View for Record {
    type V = RecordView;

    open spec fn view(&self) -> RecordView {
        RecordView { service: self.service@, username: self.username@, password: self.password@ }
    }
}

impl Clone for Record {
    fn clone(&self) -> (copy: Record)
        ensures
            copy@ == self@,
    {
        Record {
            service: self.service.clone(),
            username: self.username.clone(),
            password: self.password.clone(),
        }
    }
}

/// The views of a sequence of records, in order.
pub open spec fn views(records: Seq<Record>) -> Seq<RecordView> {
    records.map_values(|r: Record| r@)
}

/// Whether `record` is stored under `service` and `username`.
pub open spec fn has_key(record: RecordView, service: Seq<char>, username: Seq<char>) -> bool {
    record.service == service && record.username == username
}

/// Whether no two records share a service and username.
pub open spec fn unique_keys(records: Seq<RecordView>) -> bool {
    forall|i: int, j: int|
        0 <= i < j < records.len() ==> !has_key(
            #[trigger] records[j],
            (#[trigger] records[i]).service,
            records[i].username,
        )
}

/// Whether some record is stored under `service` and `username`.
pub open spec fn contains_key(
    records: Seq<RecordView>,
    service: Seq<char>,
    username: Seq<char>,
) -> bool {
    exists|i: int| 0 <= i < records.len() && has_key(#[trigger] records[i], service, username)
}

/// The index of a record stored under `service` and `username`, if there is
/// one. Where keys are unique it is the only one.
pub open spec fn position(
    records: Seq<RecordView>,
    service: Seq<char>,
    username: Seq<char>,
) -> Option<int> {
    if contains_key(records, service, username) {
        Some(
            choose|i: int|
                0 <= i < records.len() && has_key(#[trigger] records[i], service, username),
        )
    } else {
        None
    }
}

/// The password stored under `service` and `username`, if any.
pub open spec fn lookup(
    records: Seq<RecordView>,
    service: Seq<char>,
    username: Seq<char>,
) -> Option<Seq<char>> {
    match position(records, service, username) {
        Some(i) => Some(records[i].password),
        None => None,
    }
}

/// The records after `password` is stored under `service` and `username`:
/// an existing record keeps its place and gets the new password, a new one
/// goes to the end.
pub open spec fn put(
    records: Seq<RecordView>,
    service: Seq<char>,
    username: Seq<char>,
    password: Seq<char>,
) -> Seq<RecordView> {
    let record = RecordView { service, username, password };
    match position(records, service, username) {
        Some(i) => records.update(i, record),
        None => records.push(record),
    }
}

/// The records after the one under `service` and `username` is taken out;
/// the others keep their order.
pub open spec fn without(
    records: Seq<RecordView>,
    service: Seq<char>,
    username: Seq<char>,
) -> Seq<RecordView> {
    match position(records, service, username) {
        Some(i) => records.remove(i),
        None => records,
    }
}

/// What a vault holds: its master passphrase and its records in storage
/// order.
pub struct VaultView {
    pub passphrase: Seq<char>,
    pub records: Seq<RecordView>,
}

/// A vault at rest: the passphrase it is sealed under and its records.
pub struct SealedVault {
    pub passphrase: String,
    pub records: Vec<Record>,
}

impl View for SealedVault {
    type V = VaultView;

    open spec fn view(&self) -> VaultView {
        VaultView { passphrase: self.passphrase@, records: views(self.records@) }
    }
}

/// What storage holds, as a view: nothing, or a sealed vault.
pub open spec fn stored_view(stored: Option<SealedVault>) -> Option<VaultView> {
    match stored {
        Some(sealed) => Some(sealed@),
        None => None,
    }
}

/// What opening comes to: a new empty vault where storage holds nothing;
/// `Authentication` where the passphrase is not the one the content is
/// sealed under; `Io` where two stored records share a key; else the content.
pub open spec fn open_outcome(stored: Option<VaultView>, passphrase: Seq<char>) -> Result<
    VaultView,
    VaultError,
> {
    match stored {
        None => Ok(VaultView { passphrase, records: Seq::empty() }),
        Some(sealed) => if sealed.passphrase != passphrase {
            Err(VaultError::Authentication)
        } else if !unique_keys(sealed.records) {
            Err(VaultError::Io)
        } else {
            Ok(sealed)
        },
    }
}

/// The vault under a new passphrase, with the same records.
pub open spec fn rekeyed(vault: VaultView, new_passphrase: Seq<char>) -> VaultView {
    VaultView { passphrase: new_passphrase, records: vault.records }
}

/// An open vault. No two of its records share a service and username.
pub struct Vault {
    passphrase: String,
    records: Vec<Record>,
}

impl View for Vault {
    type V = VaultView;

    closed spec fn view(&self) -> VaultView {
        VaultView { passphrase: self.passphrase@, records: views(self.records@) }
    }
}

/// Whether `records[index]` is the first record under its key.
fn key_is_new(records: &Vec<Record>, index: usize) -> (fresh: bool)
    requires
        index < records.len(),
    ensures
        fresh == !contains_key(
            views(records@).take(index as int),
            records[index as int].service@,
            records[index as int].username@,
        ),
{
    let ghost seen = views(records@).take(index as int);
    let ghost service = records[index as int].service@;
    let ghost username = records[index as int].username@;
    let mut j: usize = 0;
    while j < index
        invariant
            j <= index < records.len(),
            seen == views(records@).take(index as int),
            service == records[index as int].service@,
            username == records[index as int].username@,
            forall|k: int| 0 <= k < j ==> !has_key(#[trigger] seen[k], service, username),
        decreases index - j,
    {
        if records[j].service == records[index].service && records[j].username
            == records[index].username {
            assert(has_key(seen[j as int], service, username));
            return false;
        }
        j = j + 1;
    }
    true
}

/// Whether no two of `records` share a service and username.
fn keys_are_unique(records: &Vec<Record>) -> (unique: bool)
    ensures
        unique == unique_keys(views(records@)),
{
    let ghost all = views(records@);
    let mut i: usize = 0;
    while i < records.len()
        invariant
            i <= records.len(),
            all == views(records@),
            unique_keys(all.take(i as int)),
        decreases records.len() - i,
    {
        if !key_is_new(records, i) {
            proof {
                let seen = all.take(i as int);
                let k = choose|k: int|
                    0 <= k < seen.len() && has_key(
                        #[trigger] seen[k],
                        all[i as int].service,
                        all[i as int].username,
                    );
                assert(all[k] == seen[k]);
                assert(has_key(all[i as int], all[k].service, all[k].username));
            }
            return false;
        }
        proof {
            let seen = all.take(i as int);
            let next = all.take(i + 1);
            assert forall|a: int, b: int| 0 <= a < b < next.len() implies !has_key(
                #[trigger] next[b],
                (#[trigger] next[a]).service,
                next[a].username,
            ) by {
                if b < i {
                    assert(seen[a] == next[a] && seen[b] == next[b]);
                } else {
                    assert(seen[a] == next[a]);
                    assert(!has_key(seen[a], all[i as int].service, all[i as int].username));
                }
            }
        }
        i = i + 1;
    }
    assert(all.take(i as int) == all);
    true
}

impl Vault {
    /// The invariant of an open vault: keys are unique.
    #[verifier::type_invariant]
    pub closed spec fn inv(self) -> bool {
        unique_keys(views(self.records@))
    }

    /// The keys of a vault that meets its invariant are unique.
    pub proof fn lemma_inv(self)
        requires
            self.inv(),
        ensures
            unique_keys(self@.records),
    {
    }

    /// A new, empty vault under `passphrase`.
    pub fn create(passphrase: String) -> (vault: Vault)
        ensures
            vault@ == (VaultView { passphrase: passphrase@, records: Seq::empty() }),
            vault.inv(),
    {
        let vault = Vault { passphrase, records: Vec::new() };
        assert(views(vault.records@) == Seq::<RecordView>::empty());
        vault
    }

    /// Opens what storage holds with `passphrase`.
    ///
    /// Where storage holds nothing, a new empty vault under `passphrase` is
    /// created. Where it holds a vault sealed under another passphrase, the
    /// result is `Authentication` and nothing of the content comes back.
    /// Where two stored records share a key the content is damaged, and the
    /// result is `Io`.
    pub fn open(stored: Option<SealedVault>, passphrase: String) -> (result: Result<
        Vault,
        VaultError,
    >)
        ensures
            match result {
                Ok(vault) => open_outcome(stored_view(stored), passphrase@) == Ok::<
                    VaultView,
                    VaultError,
                >(vault@) && vault.inv(),
                Err(e) => open_outcome(stored_view(stored), passphrase@) == Err::<
                    VaultView,
                    VaultError,
                >(e),
            },
    {
        match stored {
            None => Ok(Vault::create(passphrase)),
            Some(sealed) => {
                if sealed.passphrase != passphrase {
                    return Err(VaultError::Authentication);
                }
                if !keys_are_unique(&sealed.records) {
                    return Err(VaultError::Io);
                }
                Ok(Vault { passphrase: sealed.passphrase, records: sealed.records })
            },
        }
    }

    /// The vault as it goes to storage: the same passphrase and records.
    pub fn seal(&self) -> (sealed: SealedVault)
        ensures
            sealed@ == self@,
    {
        let records = copy_records(&self.records);
        SealedVault { passphrase: self.passphrase.clone(), records }
    }

    /// The number of records.
    pub fn len(&self) -> (n: usize)
        ensures
            n == self@.records.len(),
    {
        self.records.len()
    }

    /// Whether `passphrase` is the vault's master passphrase.
    pub fn is_master(&self, passphrase: &String) -> (same: bool)
        ensures
            same == (self@.passphrase == passphrase@),
    {
        self.passphrase == *passphrase
    }

    /// The records, in storage order.
    pub fn list_records(&self) -> (records: Vec<Record>)
        ensures
            views(records@) == self@.records,
    {
        copy_records(&self.records)
    }

    /// The index of the record under `service` and `username`, if any.
    fn find_index(&self, service: &String, username: &String) -> (found: Option<usize>)
        ensures
            match found {
                Some(i) => position(self@.records, service@, username@) == Some(i as int) && i
                    < self.records.len(),
                None => position(self@.records, service@, username@) is None,
            },
    {
        proof {
            use_type_invariant(self);
        }
        let ghost all = views(self.records@);
        let mut i: usize = 0;
        while i < self.records.len()
            invariant
                i <= self.records.len(),
                all == views(self.records@),
                unique_keys(all),
                forall|k: int| 0 <= k < i ==> !has_key(#[trigger] all[k], service@, username@),
            decreases self.records.len() - i,
        {
            if self.records[i].service == *service && self.records[i].username == *username {
                proof {
                    assert(has_key(all[i as int], service@, username@));
                    lemma_position_found(all, service@, username@, i as int);
                }
                return Some(i);
            }
            i = i + 1;
        }
        None
    }

    /// Stores `password` under `service` and `username`, in place of what was
    /// there, or as a new last record.
    pub fn insert_record(&mut self, service: String, username: String, password: String)
        ensures
            final(self)@.passphrase == old(self)@.passphrase,
            final(self)@.records == put(old(self)@.records, service@, username@, password@),
            final(self).inv(),
    {
        proof {
            use_type_invariant(&*self);
            lemma_put_unique(views(self.records@), service@, username@, password@);
        }
        let found = self.find_index(&service, &username);
        let record = Record { service, username, password };
        let ghost before = views(self.records@);
        let mut records: Vec<Record> = Vec::new();
        assert(views(records@) == Seq::<RecordView>::empty());
        core::mem::swap(&mut self.records, &mut records);
        match found {
            Some(i) => {
                records.set(i, record);
                assert(views(records@) == before.update(i as int, record@));
            },
            None => {
                records.push(record);
                assert(views(records@) == before.push(record@));
            },
        }
        self.records = records;
    }

    /// The password stored under `service` and `username`, or `NotFound`.
    pub fn find_record(&self, service: &String, username: &String) -> (result: Result<
        String,
        VaultError,
    >)
        ensures
            match result {
                Ok(password) => lookup(self@.records, service@, username@) == Some(password@),
                Err(e) => e == VaultError::NotFound && lookup(self@.records, service@, username@)
                    is None,
            },
    {
        match self.find_index(service, username) {
            Some(i) => Ok(self.records[i].password.clone()),
            None => Err(VaultError::NotFound),
        }
    }

    /// Takes out the record under `service` and `username`. Where there is
    /// none the result is `NotFound` and the vault is as it was.
    pub fn delete_record(&mut self, service: &String, username: &String) -> (result: Result<
        (),
        VaultError,
    >)
        ensures
            final(self)@.passphrase == old(self)@.passphrase,
            final(self)@.records == without(old(self)@.records, service@, username@),
            match result {
                Ok(_) => contains_key(old(self)@.records, service@, username@),
                Err(e) => e == VaultError::NotFound && !contains_key(
                    old(self)@.records,
                    service@,
                    username@,
                ) && final(self)@ == old(self)@,
            },
            final(self).inv(),
    {
        proof {
            use_type_invariant(&*self);
            lemma_without_unique(views(self.records@), service@, username@);
        }
        let ghost before = views(self.records@);
        match self.find_index(service, username) {
            Some(i) => {
                let mut records: Vec<Record> = Vec::new();
                assert(views(records@) == Seq::<RecordView>::empty());
                core::mem::swap(&mut self.records, &mut records);
                records.remove(i);
                assert(views(records@) == before.remove(i as int));
                self.records = records;
                Ok(())
            },
            None => Err(VaultError::NotFound),
        }
    }

    /// Puts the vault under `new_passphrase`; the records stay as they are.
    pub fn rekey(&mut self, new_passphrase: String)
        ensures
            final(self)@ == rekeyed(old(self)@, new_passphrase@),
            final(self).inv(),
    {
        proof {
            use_type_invariant(&*self);
        }
        self.passphrase = new_passphrase;
    }
}

/// A copy of `records`, record by record.
fn copy_records(records: &Vec<Record>) -> (copy: Vec<Record>)
    ensures
        views(copy@) == views(records@),
{
    let mut copy: Vec<Record> = Vec::new();
    let mut i: usize = 0;
    while i < records.len()
        invariant
            i <= records.len(),
            copy.len() == i,
            forall|k: int| 0 <= k < i ==> (#[trigger] copy[k])@ == records[k]@,
        decreases records.len() - i,
    {
        copy.push(records[i].clone());
        i = i + 1;
    }
    assert(views(copy@) =~= views(records@));
    copy
}

/// Where keys are unique, a record found under a key is at the position of
/// that key.
pub proof fn lemma_position_found(
    records: Seq<RecordView>,
    service: Seq<char>,
    username: Seq<char>,
    i: int,
)
    requires
        unique_keys(records),
        0 <= i < records.len(),
        has_key(records[i], service, username),
    ensures
        position(records, service, username) == Some(i),
        lookup(records, service, username) == Some(records[i].password),
{
    let k = choose|k: int| 0 <= k < records.len() && has_key(#[trigger] records[k], service, username);
    if k < i {
        assert(!has_key(records[i], records[k].service, records[k].username));
    } else if i < k {
        assert(!has_key(records[k], records[i].service, records[i].username));
    }
}

/// Storing a password keeps keys unique.
pub proof fn lemma_put_unique(
    records: Seq<RecordView>,
    service: Seq<char>,
    username: Seq<char>,
    password: Seq<char>,
)
    requires
        unique_keys(records),
    ensures
        unique_keys(put(records, service, username, password)),
{
    let after = put(records, service, username, password);
    assert forall|a: int, b: int| 0 <= a < b < after.len() implies !has_key(
        #[trigger] after[b],
        (#[trigger] after[a]).service,
        after[a].username,
    ) by {
        match position(records, service, username) {
            Some(i) => {
                assert(has_key(records[i], service, username));
                assert(!has_key(records[b], records[a].service, records[a].username));
            },
            None => {
                if b < records.len() {
                    assert(!has_key(records[b], records[a].service, records[a].username));
                } else {
                    assert(!has_key(records[a], service, username));
                }
            },
        }
    }
}

/// Taking a record out keeps keys unique.
pub proof fn lemma_without_unique(
    records: Seq<RecordView>,
    service: Seq<char>,
    username: Seq<char>,
)
    requires
        unique_keys(records),
    ensures
        unique_keys(without(records, service, username)),
{
    let after = without(records, service, username);
    match position(records, service, username) {
        Some(i) => {
            assert forall|a: int, b: int| 0 <= a < b < after.len() implies !has_key(
                #[trigger] after[b],
                (#[trigger] after[a]).service,
                after[a].username,
            ) by {
                let a0 = if a < i { a } else { a + 1 };
                let b0 = if b < i { b } else { b + 1 };
                assert(after[a] == records[a0] && after[b] == records[b0]);
                assert(!has_key(records[b0], records[a0].service, records[a0].username));
            }
        },
        None => {},
    }
}

/// The field with index `i` of a vault laid out flat: the passphrase first,
/// then service, username and password of each record in turn.
pub open spec fn flat_field(vault: VaultView, i: int) -> Seq<char> {
    if i == 0 {
        vault.passphrase
    } else {
        let record = vault.records[(i - 1) / 3];
        if (i - 1) % 3 == 0 {
            record.service
        } else if (i - 1) % 3 == 1 {
            record.username
        } else {
            record.password
        }
    }
}

/// A vault laid out flat, as a list of fields.
pub open spec fn flat(vault: VaultView) -> Seq<Seq<char>> {
    Seq::new(1 + 3 * vault.records.len(), |i: int| flat_field(vault, i))
}

/// The vault that a flat list of fields holds: a passphrase followed by
/// whole records. Any other list holds none.
pub open spec fn unflat(fields: Seq<Seq<char>>) -> Option<VaultView> {
    if fields.len() >= 1 && (fields.len() - 1) % 3 == 0 {
        Some(
            VaultView {
                passphrase: fields[0],
                records: Seq::new(
                    ((fields.len() - 1) / 3) as nat,
                    |k: int|
                        RecordView {
                            service: fields[1 + 3 * k],
                            username: fields[2 + 3 * k],
                            password: fields[3 + 3 * k],
                        },
                ),
            },
        )
    } else {
        None
    }
}

impl SealedVault {
    /// The sealed vault laid out flat, for storage that keeps a list of
    /// texts.
    pub fn to_fields(&self) -> (fields: Vec<String>)
        ensures
            texts(fields@) == flat(self@),
    {
        let mut fields: Vec<String> = Vec::new();
        fields.push(self.passphrase.clone());
        let mut k: usize = 0;
        while k < self.records.len()
            invariant
                k <= self.records.len(),
                fields.len() == 1 + 3 * k,
                forall|i: int| 0 <= i < fields.len() ==> (#[trigger] fields[i])@ == flat_field(self@, i),
            decreases self.records.len() - k,
        {
            let ghost before = fields@;
            fields.push(self.records[k].service.clone());
            fields.push(self.records[k].username.clone());
            fields.push(self.records[k].password.clone());
            proof {
                assert(views(self.records@)[k as int] == self.records[k as int]@);
                assert forall|i: int| 0 <= i < fields.len() implies (#[trigger] fields[i])@
                    == flat_field(self@, i) by {
                    if i < before.len() {
                        assert(fields[i] == before[i]);
                    }
                }
            }
            k = k + 1;
        }
        assert(texts(fields@) =~= flat(self@));
        fields
    }

    /// The sealed vault that a flat list of fields holds, if it holds one.
    pub fn from_fields(fields: &Vec<String>) -> (sealed: Option<SealedVault>)
        ensures
            match sealed {
                Some(vault) => unflat(texts(fields@)) == Some(vault@),
                None => unflat(texts(fields@)) is None,
            },
    {
        let ghost given = texts(fields@);
        if fields.len() == 0 || (fields.len() - 1) % 3 != 0 {
            return None;
        }
        let count = (fields.len() - 1) / 3;
        let mut records: Vec<Record> = Vec::new();
        let mut k: usize = 0;
        while k < count
            invariant
                k <= count,
                count == (fields.len() - 1) / 3,
                (fields.len() - 1) % 3 == 0,
                fields.len() >= 1,
                given == texts(fields@),
                records.len() == k,
                forall|j: int|
                    0 <= j < k ==> (#[trigger] records[j])@ == (RecordView {
                        service: given[1 + 3 * j],
                        username: given[2 + 3 * j],
                        password: given[3 + 3 * j],
                    }),
            decreases count - k,
        {
            let at = 1 + 3 * k;
            records.push(
                Record {
                    service: fields[at].clone(),
                    username: fields[at + 1].clone(),
                    password: fields[at + 2].clone(),
                },
            );
            k = k + 1;
        }
        let sealed = SealedVault { passphrase: fields[0].clone(), records };
        assert(sealed@.records =~= unflat(given)->0.records);
        Some(sealed)
    }
}

/// A vault laid out flat and read back is the same vault.
pub proof fn lemma_unflat_flat(vault: VaultView)
    ensures
        unflat(flat(vault)) == Some(vault),
{
    let fields = flat(vault);
    assert(unflat(fields)->0.records =~= vault.records);
}

/// A list of fields that holds a vault is that vault laid out flat.
pub proof fn lemma_flat_unflat(fields: Seq<Seq<char>>)
    requires
        unflat(fields) is Some,
    ensures
        flat(unflat(fields)->0) == fields,
{
    let vault = unflat(fields)->0;
    assert forall|i: int| 0 <= i < fields.len() implies flat(vault)[i] == fields[i] by {
        if i > 0 {
            let k = (i - 1) / 3;
            assert(0 <= k < vault.records.len());
        }
    }
    assert(flat(vault) =~= fields);
}

/// A password stored under a key is the one found under that key.
pub proof fn lemma_put_then_lookup(
    records: Seq<RecordView>,
    service: Seq<char>,
    username: Seq<char>,
    password: Seq<char>,
)
    requires
        unique_keys(records),
    ensures
        lookup(put(records, service, username, password), service, username) == Some(password),
{
    let after = put(records, service, username, password);
    lemma_put_unique(records, service, username, password);
    match position(records, service, username) {
        Some(i) => {
            assert(has_key(records[i], service, username));
            lemma_position_found(after, service, username, i);
        },
        None => {
            lemma_position_found(after, service, username, records.len() as int);
        },
    }
}

/// Storing under one key leaves what is found under every other key as it
/// was.
pub proof fn lemma_put_keeps_others(
    records: Seq<RecordView>,
    service: Seq<char>,
    username: Seq<char>,
    password: Seq<char>,
    other_service: Seq<char>,
    other_username: Seq<char>,
)
    requires
        unique_keys(records),
        other_service != service || other_username != username,
    ensures
        lookup(put(records, service, username, password), other_service, other_username)
            == lookup(records, other_service, other_username),
{
    let after = put(records, service, username, password);
    lemma_put_unique(records, service, username, password);
    if contains_key(records, other_service, other_username) {
        let k = position(records, other_service, other_username)->0;
        assert(has_key(records[k], other_service, other_username));
        match position(records, service, username) {
            Some(i) => {
                assert(has_key(records[i], service, username));
                assert(after[k] == records[k]);
            },
            None => {
                assert(after[k] == records[k]);
            },
        }
        lemma_position_found(after, other_service, other_username, k);
    } else {
        if contains_key(after, other_service, other_username) {
            let k = position(after, other_service, other_username)->0;
            assert(has_key(after[k], other_service, other_username));
            match position(records, service, username) {
                Some(i) => {
                    assert(has_key(records[i], service, username));
                    assert(k != i);
                    assert(after[k] == records[k]);
                },
                None => {
                    assert(k < records.len());
                    assert(after[k] == records[k]);
                },
            }
            assert(has_key(records[k], other_service, other_username));
        }
    }
}

/// After the record under a key is taken out, nothing is found under that
/// key.
pub proof fn lemma_without_then_lookup(
    records: Seq<RecordView>,
    service: Seq<char>,
    username: Seq<char>,
)
    requires
        unique_keys(records),
    ensures
        lookup(without(records, service, username), service, username) is None,
        !contains_key(without(records, service, username), service, username),
{
    let after = without(records, service, username);
    match position(records, service, username) {
        Some(i) => {
            assert(has_key(records[i], service, username));
            if contains_key(after, service, username) {
                let k = position(after, service, username)->0;
                assert(has_key(after[k], service, username));
                let k0 = if k < i { k } else { k + 1 };
                assert(after[k] == records[k0]);
                if k0 < i {
                    assert(!has_key(records[i], records[k0].service, records[k0].username));
                } else {
                    assert(!has_key(records[k0], records[i].service, records[i].username));
                }
            }
        },
        None => {},
    }
}

/// Storing a password, taking it out again, then looking it up finds
/// nothing.
pub proof fn lemma_put_without_lookup(
    records: Seq<RecordView>,
    service: Seq<char>,
    username: Seq<char>,
    password: Seq<char>,
)
    requires
        unique_keys(records),
    ensures
        lookup(
            without(put(records, service, username, password), service, username),
            service,
            username,
        ) is None,
{
    lemma_put_unique(records, service, username, password);
    lemma_without_then_lookup(put(records, service, username, password), service, username);
}

/// Taking out what is not there changes nothing: the records, and so their
/// number, stay as they were.
pub proof fn lemma_without_absent(
    records: Seq<RecordView>,
    service: Seq<char>,
    username: Seq<char>,
)
    requires
        !contains_key(records, service, username),
    ensures
        without(records, service, username) == records,
        without(records, service, username).len() == records.len(),
        lookup(records, service, username) is None,
{
}

/// A vault put under a new passphrase and sealed opens with the new
/// passphrase to the same records, and no longer opens with the old one.
pub proof fn lemma_rekey_then_open(
    vault: VaultView,
    new_passphrase: Seq<char>,
)
    requires
        unique_keys(vault.records),
    ensures
        open_outcome(Some(rekeyed(vault, new_passphrase)), new_passphrase) == Ok::<
            VaultView,
            VaultError,
        >(rekeyed(vault, new_passphrase)),
        rekeyed(vault, new_passphrase).records == vault.records,
        vault.passphrase != new_passphrase ==> open_outcome(
            Some(rekeyed(vault, new_passphrase)),
            vault.passphrase,
        ) == Err::<VaultView, VaultError>(VaultError::Authentication),
{
}

/// Opening a sealed vault with any passphrase but its own fails with
/// `Authentication`; no record comes back.
pub proof fn lemma_wrong_passphrase(sealed: VaultView, passphrase: Seq<char>)
    requires
        sealed.passphrase != passphrase,
    ensures
        open_outcome(Some(sealed), passphrase) == Err::<VaultView, VaultError>(
            VaultError::Authentication,
        ),
{
}

} // verus!
