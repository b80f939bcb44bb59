use vstd::prelude::*;

use crate::error::Y2mdError;
use crate::strings::concat;

verus! {

#[verifier::external_type_specification]
#[verifier::external_body]
pub struct ExKeyringEntry(keyring::Entry);

#[verifier::external_type_specification]
#[verifier::external_body]
pub struct ExKeyringError(keyring::Error);

/// Relies on keyring::Entry::new: a handle on the platform credential for
/// (service, user), or the platform's error. Nothing is known of which.
pub assume_specification[ keyring::Entry::new ](service: &str, user: &str) -> Result<
    keyring::Entry,
    keyring::Error,
>;

/// Relies on keyring::Entry::set_password: stores the secret, or reports the
/// platform's error.
pub assume_specification[ keyring::Entry::set_password ](
    entry: &keyring::Entry,
    password: &str,
) -> Result<(), keyring::Error>;

/// What the platform store answered to a read.
#[derive(Clone, Debug, PartialEq, Eq)]
pub enum KeychainRead {
    Found(String),
    NoEntry,
    /// A storage fault, with the platform's description.
    Fault(String),
}

/// What the platform store answered to a removal.
#[derive(Clone, Debug, PartialEq, Eq)]
pub enum KeychainRemoval {
    Removed,
    NoEntry,
    /// A storage fault, with the platform's description.
    Fault(String),
}

/// Relies on keyring::Entry::get_password: the stored secret, `NoEntry` when
/// there is none, any other error (as its Display text) a fault. What the
/// platform holds is not known here.
#[verifier::external_body]
fn read_password(entry: &keyring::Entry) -> (r: KeychainRead) {
    match entry.get_password() {
        Ok(p) => KeychainRead::Found(p),
        Err(keyring::Error::NoEntry) => KeychainRead::NoEntry,
        Err(e) => KeychainRead::Fault(e.to_string()),
    }
}

/// Relies on keyring::Entry::delete_password: the secret removed, `NoEntry`
/// when there was none, any other error (as its Display text) a fault.
#[verifier::external_body]
fn delete_password(entry: &keyring::Entry) -> (r: KeychainRemoval) {
    match entry.delete_password() {
        Ok(()) => KeychainRemoval::Removed,
        Err(keyring::Error::NoEntry) => KeychainRemoval::NoEntry,
        Err(e) => KeychainRemoval::Fault(e.to_string()),
    }
}

/// `r` is what a read of the platform store gives for answer `o`: a missing
/// entry is absence, a fault is a storage error, never absence.
pub open spec fn read_mapping(o: KeychainRead, r: Result<Option<String>, Y2mdError>) -> bool {
    match o {
        KeychainRead::Found(p) => r == Ok::<Option<String>, Y2mdError>(Some(p)),
        KeychainRead::NoEntry => r == Ok::<Option<String>, Y2mdError>(None),
        KeychainRead::Fault(m) => r matches Err(Y2mdError::SecretStore(e)) && e@ == "Failed to read from keyring: "@
            + m@,
    }
}

/// `r` is what a removal from the platform store gives for answer `o`:
/// removing a missing entry is no error, a fault is a storage error.
pub open spec fn removal_mapping(o: KeychainRemoval, r: Result<(), Y2mdError>) -> bool {
    match o {
        KeychainRemoval::Removed => r is Ok,
        KeychainRemoval::NoEntry => r is Ok,
        KeychainRemoval::Fault(m) => r matches Err(Y2mdError::SecretStore(e)) && e@
            == "Failed to delete from keyring: "@ + m@,
    }
}

/// What a read of the platform store gives for its answer.
pub fn read_result(o: KeychainRead) -> (r: Result<Option<String>, Y2mdError>)
    ensures
        read_mapping(o, r),
{
    match o {
        KeychainRead::Found(p) => Ok(Some(p)),
        KeychainRead::NoEntry => Ok(None),
        KeychainRead::Fault(m) => Err(Y2mdError::SecretStore(concat("Failed to read from keyring: ", m.as_str()))),
    }
}

/// What a removal from the platform store gives for its answer.
pub fn removal_result(o: KeychainRemoval) -> (r: Result<(), Y2mdError>)
    ensures
        removal_mapping(o, r),
{
    match o {
        KeychainRemoval::Removed => Ok(()),
        KeychainRemoval::NoEntry => Ok(()),
        KeychainRemoval::Fault(m) => Err(
            Y2mdError::SecretStore(concat("Failed to delete from keyring: ", m.as_str())),
        ),
    }
}

/// Relies on keyring::Error's Display: the error's description.
#[verifier::external_body]
fn keyring_message(e: &keyring::Error) -> (r: String) {
    e.to_string()
}

/// One secret of the in-memory store.
#[derive(Clone, Debug, PartialEq, Eq)]
pub struct StoredSecret {
    pub service: String,
    pub account: String,
    pub secret: String,
}

/// Secure storage of secrets keyed by (service, account): the platform's
/// credential store, or an in-memory one.
#[derive(Clone, Debug, PartialEq, Eq)]
pub enum SecretStore {
    Keychain,
    Memory(Vec<StoredSecret>),
}

/// The entry at `i` has the key (service, account).
pub open spec fn key_at(s: Seq<StoredSecret>, i: int, service: Seq<char>, account: Seq<char>) -> bool {
    s[i].service@ == service && s[i].account@ == account
}

/// No two entries share a key.
pub open spec fn keys_unique(s: Seq<StoredSecret>) -> bool {
    forall|i: int, j: int|
        0 <= i < s.len() && 0 <= j < s.len() && i != j ==> !(#[trigger] s[i].service@ == (#[trigger] s[j]).service@
            && s[i].account@ == s[j].account@)
}

/// The secret that `s` holds under (service, account).
pub open spec fn lookup(s: Seq<StoredSecret>, service: Seq<char>, account: Seq<char>) -> Option<Seq<char>> {
    if exists|i: int| 0 <= i < s.len() && key_at(s, i, service, account) {
        let i = choose|i: int| 0 <= i < s.len() && key_at(s, i, service, account);
        Some(s[i].secret@)
    } else {
        None
    }
}

pub proof fn lemma_lookup_at(s: Seq<StoredSecret>, i: int, service: Seq<char>, account: Seq<char>)
    requires
        keys_unique(s),
        0 <= i < s.len(),
        key_at(s, i, service, account),
    ensures
        lookup(s, service, account) == Some(s[i].secret@),
{
    let j = choose|j: int| 0 <= j < s.len() && key_at(s, j, service, account);
    assert(s[j].service@ == s[i].service@);
    if j != i {
        assert(!(s[i].service@ == s[j].service@ && s[i].account@ == s[j].account@));
    }
}

/// The view of an optional string.
pub open spec fn opt_view(o: Option<String>) -> Option<Seq<char>> {
    match o {
        Some(s) => Some(s@),
        None => None,
    }
}

pub open spec fn store_fault(r: Result<Option<String>, Y2mdError>) -> bool {
    r is Err ==> r matches Err(Y2mdError::SecretStore(_))
}

impl SecretStore {
    pub open spec fn wf(&self) -> bool {
        match self {
            SecretStore::Keychain => true,
            SecretStore::Memory(v) => keys_unique(v@),
        }
    }

    /// What an in-memory store holds under (service, account); nothing is
    /// known of the platform's store.
    pub open spec fn stored(&self, service: Seq<char>, account: Seq<char>) -> Option<Seq<char>> {
        match self {
            SecretStore::Keychain => None,
            SecretStore::Memory(v) => lookup(v@, service, account),
        }
    }

    /// An empty in-memory store.
    pub fn in_memory() -> (r: SecretStore)
        ensures
            r is Memory,
            r.wf(),
            forall|s: Seq<char>, a: Seq<char>| r.stored(s, a) is None,
    {
        SecretStore::Memory(Vec::new())
    }

    fn position(v: &Vec<StoredSecret>, service: &str, account: &str) -> (r: Option<usize>)
        ensures
            match r {
                Some(i) => i < v@.len() && key_at(v@, i as int, service@, account@),
                None => forall|i: int| 0 <= i < v@.len() ==> !key_at(v@, i, service@, account@),
            },
    {
        let s = service.to_owned();
        let a = account.to_owned();
        let mut i: usize = 0;
        while i < v.len()
            invariant
                0 <= i <= v@.len(),
                s@ == service@,
                a@ == account@,
                forall|j: int| 0 <= j < i ==> !key_at(v@, j, service@, account@),
            decreases v@.len() - i,
        {
            if v[i].service == s && v[i].account == a {
                return Some(i);
            }
            i = i + 1;
        }
        None
    }

    /// The secret under (service, account), or none; a storage fault is an
    /// error of its own kind.
    pub fn get(&self, service: &str, account: &str) -> (r: Result<Option<String>, Y2mdError>)
        requires
            self.wf(),
        ensures
            self is Memory ==> (r matches Ok(o) && opt_view(o) == self.stored(service@, account@)),
            self is Keychain ==> (r matches Err(Y2mdError::SecretStore(_)) || exists|o: KeychainRead|
                #[trigger] read_mapping(o, r)),
            store_fault(r),
    {
        match self {
            SecretStore::Memory(v) => {
                match Self::position(v, service, account) {
                    Some(i) => {
                        proof {
                            lemma_lookup_at(v@, i as int, service@, account@);
                        }
                        Ok(Some(v[i].secret.clone()))
                    },
                    None => Ok(None),
                }
            },
            SecretStore::Keychain => {
                let entry = match keyring::Entry::new(service, account) {
                    Ok(e) => e,
                    Err(e) => {
                        let m = keyring_message(&e);
                        return Err(Y2mdError::SecretStore(concat("Failed to access keyring: ", m.as_str())));
                    },
                };
                read_result(read_password(&entry))
            },
        }
    }

    /// Stores `secret` under (service, account), replacing what was there.
    pub fn set(&mut self, service: &str, account: &str, secret: &str) -> (r: Result<(), Y2mdError>)
        requires
            old(self).wf(),
        ensures
            final(self).wf(),
            *old(self) is Memory ==> {
                &&& r is Ok
                &&& *final(self) is Memory
                &&& final(self).stored(service@, account@) == Some(secret@)
                &&& forall|s: Seq<char>, a: Seq<char>|
                    !(s == service@ && a == account@) ==> #[trigger] final(self).stored(s, a) == old(self).stored(s, a)
            },
            *old(self) is Keychain ==> *final(self) is Keychain,
            r is Err ==> r matches Err(Y2mdError::SecretStore(_)),
    {
        match self {
            SecretStore::Memory(v) => {
                let ghost before = v@;
                let item = StoredSecret {
                    service: service.to_owned(),
                    account: account.to_owned(),
                    secret: secret.to_owned(),
                };
                match Self::position(v, service, account) {
                    Some(i) => {
                        v.set(i, item);
                        proof {
                            let after = v@;
                            assert(after == before.update(i as int, item));
                            assert forall|x: int, y: int|
                                0 <= x < after.len() && 0 <= y < after.len() && x != y
                                implies !(#[trigger] after[x].service@ == (#[trigger] after[y]).service@
                                    && after[x].account@ == after[y].account@) by {
                                assert(!(before[x].service@ == before[y].service@ && before[x].account@ == before[y].account@));
                            }
                            lemma_lookup_at(after, i as int, service@, account@);
                            assert forall|s: Seq<char>, a: Seq<char>|
                                !(s == service@ && a == account@) implies #[trigger] lookup(after, s, a) == lookup(before, s, a) by {
                                if exists|k: int| 0 <= k < before.len() && key_at(before, k, s, a) {
                                    let k = choose|k: int| 0 <= k < before.len() && key_at(before, k, s, a);
                                    assert(k != i);
                                    lemma_lookup_at(before, k, s, a);
                                    lemma_lookup_at(after, k, s, a);
                                } else {
                                    assert forall|k: int| 0 <= k < after.len() implies !key_at(after, k, s, a) by {
                                        if k != i as int {
                                            assert(after[k] == before[k]);
                                            assert(!key_at(before, k, s, a));
                                        } else {
                                            assert(after[k] == item);
                                        }
                                    }
                                }
                            }
                        }
                    },
                    None => {
                        v.push(item);
                        proof {
                            let after = v@;
                            let n = before.len() as int;
                            assert(after == before.push(item));
                            assert forall|x: int, y: int|
                                0 <= x < after.len() && 0 <= y < after.len() && x != y
                                implies !(#[trigger] after[x].service@ == (#[trigger] after[y]).service@
                                    && after[x].account@ == after[y].account@) by {
                                if x != n && y != n {
                                    assert(after[x] == before[x]);
                                    assert(after[y] == before[y]);
                                } else if x == n {
                                    assert(!key_at(before, y, service@, account@));
                                } else {
                                    assert(!key_at(before, x, service@, account@));
                                }
                            }
                            lemma_lookup_at(after, n, service@, account@);
                            assert forall|s: Seq<char>, a: Seq<char>|
                                !(s == service@ && a == account@) implies #[trigger] lookup(after, s, a) == lookup(before, s, a) by {
                                if exists|k: int| 0 <= k < before.len() && key_at(before, k, s, a) {
                                    let k = choose|k: int| 0 <= k < before.len() && key_at(before, k, s, a);
                                    assert(after[k] == before[k]);
                                    lemma_lookup_at(before, k, s, a);
                                    lemma_lookup_at(after, k, s, a);
                                } else {
                                    assert forall|k: int| 0 <= k < after.len() implies !key_at(after, k, s, a) by {
                                        if k != n {
                                            assert(after[k] == before[k]);
                                            assert(!key_at(before, k, s, a));
                                        } else {
                                            assert(after[k] == item);
                                        }
                                    }
                                }
                            }
                        }
                    },
                }
                Ok(())
            },
            SecretStore::Keychain => {
                let entry = match keyring::Entry::new(service, account) {
                    Ok(e) => e,
                    Err(e) => {
                        let m = keyring_message(&e);
                        return Err(Y2mdError::SecretStore(concat("Failed to access keyring: ", m.as_str())));
                    },
                };
                match entry.set_password(secret) {
                    Ok(()) => Ok(()),
                    Err(e) => {
                        let m = keyring_message(&e);
                        Err(Y2mdError::SecretStore(concat("Failed to write to keyring: ", m.as_str())))
                    },
                }
            },
        }
    }

    /// Removes what is stored under (service, account); removing an absent
    /// entry is no error.
    pub fn delete(&mut self, service: &str, account: &str) -> (r: Result<(), Y2mdError>)
        requires
            old(self).wf(),
        ensures
            final(self).wf(),
            *old(self) is Memory ==> {
                &&& r is Ok
                &&& *final(self) is Memory
                &&& final(self).stored(service@, account@) is None
                &&& forall|s: Seq<char>, a: Seq<char>|
                    !(s == service@ && a == account@) ==> #[trigger] final(self).stored(s, a) == old(self).stored(s, a)
            },
            *old(self) is Keychain ==> *final(self) is Keychain,
            r is Err ==> r matches Err(Y2mdError::SecretStore(_)),
    {
        match self {
            SecretStore::Memory(v) => {
                let ghost before = v@;
                match Self::position(v, service, account) {
                    Some(i) => {
                        v.remove(i);
                        proof {
                            let after = v@;
                            assert(after == before.remove(i as int));
                            assert forall|x: int, y: int|
                                0 <= x < after.len() && 0 <= y < after.len() && x != y
                                implies !(#[trigger] after[x].service@ == (#[trigger] after[y]).service@
                                    && after[x].account@ == after[y].account@) by {
                                let bx = if x < i { x } else { x + 1 };
                                let by_ = if y < i { y } else { y + 1 };
                                assert(after[x] == before[bx]);
                                assert(after[y] == before[by_]);
                            }
                            assert forall|k: int| 0 <= k < after.len() implies !key_at(after, k, service@, account@) by {
                                let bk = if k < i { k } else { k + 1 };
                                assert(after[k] == before[bk]);
                                assert(bk != i);
                            }
                            assert forall|s: Seq<char>, a: Seq<char>|
                                !(s == service@ && a == account@) implies #[trigger] lookup(after, s, a) == lookup(before, s, a) by {
                                if exists|k: int| 0 <= k < before.len() && key_at(before, k, s, a) {
                                    let k = choose|k: int| 0 <= k < before.len() && key_at(before, k, s, a);
                                    assert(k != i);
                                    let ak = if k < i { k } else { k - 1 };
                                    assert(after[ak] == before[k]);
                                    lemma_lookup_at(before, k, s, a);
                                    lemma_lookup_at(after, ak, s, a);
                                } else {
                                    assert forall|k: int| 0 <= k < after.len() implies !key_at(after, k, s, a) by {
                                        let bk = if k < i { k } else { k + 1 };
                                        assert(after[k] == before[bk]);
                                        assert(!key_at(before, bk, s, a));
                                    }
                                }
                            }
                        }
                    },
                    None => {},
                }
                Ok(())
            },
            SecretStore::Keychain => {
                let entry = match keyring::Entry::new(service, account) {
                    Ok(e) => e,
                    Err(e) => {
                        let m = keyring_message(&e);
                        return Err(Y2mdError::SecretStore(concat("Failed to access keyring: ", m.as_str())));
                    },
                };
                removal_result(delete_password(&entry))
            },
        }
    }
}

} // verus!
