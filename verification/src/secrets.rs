//! Secrets kept outside the configuration file: the keys they are filed
//! under, and the stores that hold them.
use vstd::prelude::*;
use vstd::utf8::encode_utf8;

use crate::credentials::{
    keyring_delete, keyring_entry, keyring_get, keyring_set, CredentialExchange, CredentialLog,
    KeyringFailure,
};
use crate::text::str_eq;

verus! {

/// A secret text, held in a `secrecy::SecretString` so that it is wiped from
/// memory when dropped and never printed. The box is opaque: what it holds is
/// known only through `secret_text`.
#[verifier::external_body]
pub struct SecretString {
    inner: secrecy::SecretString,
}

/// The text held in a secret box.
pub uninterp spec fn secret_text(secret: SecretString) -> Seq<char>;

impl SecretString {
    /// `<secrecy::SecretString as From<String>>::from`: boxes `value`, which
    /// the box then holds.
    #[verifier::external_body]
    pub fn new(value: String) -> (r: SecretString)
        ensures
            secret_text(r) == value@,
    {
        SecretString { inner: secrecy::SecretString::from(value) }
    }

    /// `secrecy::ExposeSecret::expose_secret`: the text the box holds.
    #[verifier::external_body]
    pub fn expose_secret(&self) -> (r: &str)
        ensures
            r@ == secret_text(*self),
    {
        secrecy::ExposeSecret::expose_secret(&self.inner)
    }

    /// `<secrecy::SecretString as Clone>::clone`: a second box holding the
    /// same text.
    #[verifier::external_body]
    pub fn duplicate(&self) -> (r: SecretString)
        ensures
            secret_text(r) == secret_text(*self),
    {
        SecretString { inner: self.inner.clone() }
    }

    /// `<secrecy::SecretString as zeroize::Zeroize>::zeroize`: every byte of
    /// the text is overwritten with zero, so the box then holds as many NUL
    /// characters as the text had bytes.
    #[verifier::external_body]
    pub fn wipe(&mut self)
        ensures
            secret_text(*final(self)).len() == encode_utf8(secret_text(*old(self))).len(),
            forall|i: int|
                0 <= i < secret_text(*final(self)).len() ==> #[trigger] secret_text(*final(self))[i]
                    == '\0',
    {
        zeroize::Zeroize::zeroize(&mut self.inner)
    }
}

/// Why a secret could not be filed, read or removed.
#[derive(Debug, Clone, PartialEq, Eq)]
pub enum SecretError {
    /// The key is not a valid secret key.
    InvalidKey(String),
    /// The system credential store is unavailable.
    Unavailable(String),
    /// The secret store operation failed.
    Backend(String),
}

/// A byte a secret key may hold: an ASCII letter or digit, `.`, `_` or `-`.
pub open spec fn is_key_byte(b: u8) -> bool {
    ||| 0x30 <= b <= 0x39
    ||| 0x41 <= b <= 0x5a
    ||| 0x61 <= b <= 0x7a
    ||| b == 0x2e
    ||| b == 0x5f
    ||| b == 0x2d
}

/// A valid secret key: 1 to 128 bytes, each a key byte (so no path
/// separators and no white space).
pub open spec fn is_valid_key(text: Seq<char>) -> bool {
    let bytes = encode_utf8(text);
    &&& bytes.len() > 0
    &&& bytes.len() <= 128
    &&& forall|i: int| 0 <= i < bytes.len() ==> is_key_byte(#[trigger] bytes[i])
}

/// The name a secret is filed under.
#[derive(Debug, Clone, PartialEq, Eq, Hash)]
pub struct SecretKey(String);

impl View for SecretKey {
    type V = Seq<char>;

    closed spec fn view(&self) -> Seq<char> {
        self.0@
    }
}

impl SecretKey {
    /// Every key held is valid.
    pub closed spec fn valid(&self) -> bool {
        is_valid_key(self.0@)
    }

    /// The key `value`, when it is valid; else `InvalidKey` with the value.
    pub fn new(value: &str) -> (r: Result<Self, SecretError>)
        ensures
            is_valid_key(value@) ==> (r matches Ok(k) && k@ == value@ && k.valid()),
            !is_valid_key(value@) ==> (r matches Err(SecretError::InvalidKey(v)) && v@ == value@),
    {
        let bytes = value.as_bytes();
        let mut valid = bytes.len() > 0 && bytes.len() <= 128;
        let mut i: usize = 0;
        while i < bytes.len()
            invariant
                i <= bytes@.len(),
                bytes@ == encode_utf8(value@),
                valid == (bytes@.len() > 0 && bytes@.len() <= 128 && forall|j: int|
                    0 <= j < i ==> is_key_byte(#[trigger] bytes@[j])),
            decreases bytes@.len() - i,
        {
            let b = bytes[i];
            let ok = (48 <= b && b <= 57) || (65 <= b && b <= 90) || (97 <= b && b <= 122) || b == 46
                || b == 95 || b == 45;
            if !ok {
                valid = false;
            }
            i = i + 1;
        }
        if !valid {
            return Err(SecretError::InvalidKey(value.to_string()));
        }
        Ok(SecretKey(value.to_string()))
    }

    /// The key as text.
    pub fn as_str(&self) -> (r: &str)
        ensures
            r@ == self@,
    {
        self.0.as_str()
    }
}

/// A place secrets are filed in, by key.
pub trait SecretStore {
    /// The secret filed under `key`, if any.
    fn get(&mut self, key: &SecretKey) -> Result<Option<SecretString>, SecretError>;

    /// Files `value` under `key`, replacing what was there.
    fn set(&mut self, key: &SecretKey, value: SecretString) -> Result<(), SecretError>;

    /// Removes what is filed under `key`; nothing there is not an error.
    fn delete(&mut self, key: &SecretKey) -> Result<(), SecretError>;
}

/// What a read from the credential store gives: the password as a secret; no
/// credential is no secret; any other failure is a backend error.
pub fn stored_secret(reply: Result<String, KeyringFailure>) -> (r: Result<Option<SecretString>, SecretError>)
    ensures
        match reply {
            Ok(p) => r matches Ok(Some(s)) && secret_text(s) == p@,
            Err(KeyringFailure::NoEntry) => r matches Ok(None),
            Err(KeyringFailure::Other(m)) => r == Err::<Option<SecretString>, SecretError>(
                SecretError::Backend(m),
            ),
        },
{
    match reply {
        Ok(password) => Ok(Some(SecretString::new(password))),
        Err(KeyringFailure::NoEntry) => Ok(None),
        Err(KeyringFailure::Other(message)) => Err(SecretError::Backend(message)),
    }
}

/// What a removal from the credential store gives: no credential to remove
/// is success too.
pub fn removal_result(reply: Result<(), KeyringFailure>) -> (r: Result<(), SecretError>)
    ensures
        match reply {
            Ok(()) => r is Ok,
            Err(KeyringFailure::NoEntry) => r is Ok,
            Err(KeyringFailure::Other(m)) => r == Err::<(), SecretError>(SecretError::Backend(m)),
        },
{
    match reply {
        Ok(()) => Ok(()),
        Err(KeyringFailure::NoEntry) => Ok(()),
        Err(KeyringFailure::Other(message)) => Err(SecretError::Backend(message)),
    }
}

/// The store's answer to a write, as the library reports it.
pub open spec fn set_result(exchange: CredentialExchange, r: Result<(), SecretError>) -> bool {
    match exchange {
        CredentialExchange::Unavailable { message, .. } => r matches Err(SecretError::Unavailable(m))
            && m@ == message,
        CredentialExchange::Write { answer: Ok(()), .. } => r is Ok,
        CredentialExchange::Write { answer: Err(message), .. } => r matches Err(SecretError::Backend(m))
            && m@ == message,
        _ => false,
    }
}

/// The store's answer to a removal, as the library reports it: no credential
/// to remove is success.
pub open spec fn delete_result(exchange: CredentialExchange, r: Result<(), SecretError>) -> bool {
    match exchange {
        CredentialExchange::Unavailable { message, .. } => r matches Err(SecretError::Unavailable(m))
            && m@ == message,
        CredentialExchange::Remove { answer: Ok(()), .. } => r is Ok,
        CredentialExchange::Remove { answer: Err(None), .. } => r is Ok,
        CredentialExchange::Remove { answer: Err(Some(message)), .. } => r matches Err(
            SecretError::Backend(m),
        ) && m@ == message,
        _ => false,
    }
}

/// The store's answer to a read, as the library reports it: the password as a
/// secret, no credential as no secret, any other failure as `Backend`.
pub open spec fn get_result(exchange: CredentialExchange, r: Result<Option<SecretString>, SecretError>) -> bool {
    match exchange {
        CredentialExchange::Unavailable { message, .. } => r matches Err(SecretError::Unavailable(m))
            && m@ == message,
        CredentialExchange::Read { answer: Ok(password), .. } => r matches Ok(Some(s)) && secret_text(s)
            == password,
        CredentialExchange::Read { answer: Err(None), .. } => r matches Ok(None),
        CredentialExchange::Read { answer: Err(Some(message)), .. } => r matches Err(
            SecretError::Backend(m),
        ) && m@ == message,
        _ => false,
    }
}

/// The credential an exchange addressed.
pub open spec fn addressed(exchange: CredentialExchange) -> (Seq<char>, Seq<char>) {
    match exchange {
        CredentialExchange::Read { service, user, .. } => (service, user),
        CredentialExchange::Unavailable { service, user, .. } => (service, user),
        CredentialExchange::Write { service, user, .. } => (service, user),
        CredentialExchange::Remove { service, user, .. } => (service, user),
    }
}

/// Secrets in the operating system's credential store, under one service name.
pub struct KeyringSecretStore {
    service: String,
    log: CredentialLog,
}

impl KeyringSecretStore {
    pub closed spec fn service(&self) -> Seq<char> {
        self.service@
    }

    /// The requests this store has made of the credential store, oldest
    /// first, and the refusals to make an entry for them.
    pub closed spec fn exchanges(&self) -> Seq<CredentialExchange> {
        self.log.exchanges()
    }

    /// Every request this store has made addressed a credential of its own
    /// service.
    pub open spec fn keeps_to_its_service(&self) -> bool {
        forall|i: int| 0 <= i < self.exchanges().len() ==> (#[trigger] addressed(self.exchanges()[i])).0 == self.service()
    }

    pub fn new(service: &str) -> (r: Self)
        ensures
            r.service() == service@,
            r.exchanges().len() == 0,
            r.keeps_to_its_service(),
    {
        KeyringSecretStore { service: service.to_string(), log: CredentialLog::new() }
    }
}

impl SecretStore for KeyringSecretStore {
    /// Reads the credential `key` of this service: exactly one request is
    /// made, a read of that credential, and its answer is reported as
    /// `stored_secret` reads it (an unusable entry is `Unavailable`).
    fn get(&mut self, key: &SecretKey) -> (r: Result<Option<SecretString>, SecretError>)
        ensures
            final(self).service() == old(self).service(),
            final(self).exchanges().len() == old(self).exchanges().len() + 1,
            final(self).exchanges().drop_last() == old(self).exchanges(),
            addressed(final(self).exchanges().last()) == (old(self).service(), key@),
            old(self).keeps_to_its_service() ==> final(self).keeps_to_its_service(),
            get_result(final(self).exchanges().last(), r),
    {
        let entry = match keyring_entry(&mut self.log, self.service.as_str(), key.as_str()) {
            Ok(entry) => entry,
            Err(message) => {
                proof {
            lemma_one_more_request(old(self).log.exchanges(), self.log.exchanges(), self.service@);
        }
                return Err(SecretError::Unavailable(message));
            },
        };
        let answer = keyring_get(&mut self.log, &entry);
        proof {
            lemma_one_more_request(old(self).log.exchanges(), self.log.exchanges(), self.service@);
        }
        stored_secret(answer)
    }

    /// Writes `value` to the credential `key` of this service: exactly one
    /// request is made, of that credential with that text, and its answer is
    /// reported (an unusable entry is `Unavailable`, a refused write
    /// `Backend`).
    fn set(&mut self, key: &SecretKey, value: SecretString) -> (r: Result<(), SecretError>)
        ensures
            final(self).service() == old(self).service(),
            final(self).exchanges().len() == old(self).exchanges().len() + 1,
            final(self).exchanges().drop_last() == old(self).exchanges(),
            addressed(final(self).exchanges().last()) == (old(self).service(), key@),
            old(self).keeps_to_its_service() ==> final(self).keeps_to_its_service(),
            !(final(self).exchanges().last() is Remove),
            final(self).exchanges().last() matches CredentialExchange::Write { secret, .. } ==> secret
                == secret_text(value),
            set_result(final(self).exchanges().last(), r),
    {
        let entry = match keyring_entry(&mut self.log, self.service.as_str(), key.as_str()) {
            Ok(entry) => entry,
            Err(message) => {
                proof {
            lemma_one_more_request(old(self).log.exchanges(), self.log.exchanges(), self.service@);
        }
                return Err(SecretError::Unavailable(message));
            },
        };
        let answer = keyring_set(&mut self.log, &entry, value.expose_secret());
        proof {
            lemma_one_more_request(old(self).log.exchanges(), self.log.exchanges(), self.service@);
        }
        match answer {
            Ok(()) => Ok(()),
            Err(message) => Err(SecretError::Backend(message)),
        }
    }

    /// Removes the credential `key` of this service: exactly one request is
    /// made, of that credential, and its answer is reported (no credential to
    /// remove is success; an unusable entry is `Unavailable`).
    fn delete(&mut self, key: &SecretKey) -> (r: Result<(), SecretError>)
        ensures
            final(self).service() == old(self).service(),
            final(self).exchanges().len() == old(self).exchanges().len() + 1,
            final(self).exchanges().drop_last() == old(self).exchanges(),
            addressed(final(self).exchanges().last()) == (old(self).service(), key@),
            old(self).keeps_to_its_service() ==> final(self).keeps_to_its_service(),
            !(final(self).exchanges().last() is Write),
            delete_result(final(self).exchanges().last(), r),
    {
        let entry = match keyring_entry(&mut self.log, self.service.as_str(), key.as_str()) {
            Ok(entry) => entry,
            Err(message) => {
                proof {
            lemma_one_more_request(old(self).log.exchanges(), self.log.exchanges(), self.service@);
        }
                return Err(SecretError::Unavailable(message));
            },
        };
        let answer = keyring_delete(&mut self.log, &entry);
        proof {
            lemma_one_more_request(old(self).log.exchanges(), self.log.exchanges(), self.service@);
        }
        removal_result(answer)
    }
}

/// One request added after `before`, addressed to `service`: the earlier
/// requests are kept, and if they all addressed `service` so do all now.
proof fn lemma_one_more_request(before: Seq<CredentialExchange>, after: Seq<CredentialExchange>, service: Seq<char>)
    requires
        after == before.push(after.last()),
        addressed(after.last()).0 == service,
    ensures
        after.drop_last() == before,
        (forall|i: int| 0 <= i < before.len() ==> (#[trigger] addressed(before[i])).0 == service) ==> (forall|i: int|
            0 <= i < after.len() ==> (#[trigger] addressed(after[i])).0 == service),
{
    assert(after.drop_last() =~= before);
    if forall|i: int| 0 <= i < before.len() ==> (#[trigger] addressed(before[i])).0 == service {
        assert forall|i: int| 0 <= i < after.len() implies (#[trigger] addressed(after[i])).0 == service by {
            if i < before.len() {
                assert(after[i] == before[i]);
            }
        }
    }
}

/// The secret filed under `key` in `entries`: the first entry with that key.
pub open spec fn lookup(entries: Seq<(String, SecretString)>, key: Seq<char>) -> Option<SecretString>
    decreases entries.len(),
{
    if entries.len() == 0 {
        None
    } else if entries[0].0@ == key {
        Some(entries[0].1)
    } else {
        lookup(entries.drop_first(), key)
    }
}

/// The text of a secret that may be absent.
pub open spec fn text_of(secret: Option<SecretString>) -> Option<Seq<char>> {
    match secret {
        Some(s) => Some(secret_text(s)),
        None => None,
    }
}

/// `after` is `before` with `value` filed under `key`.
pub open spec fn after_set(before: MemorySecretStore, after: MemorySecretStore, key: Seq<char>, value: Seq<char>) -> bool {
    &&& after.stored(key) == Some(value)
    &&& forall|k: Seq<char>| k != key ==> after.stored(k) == before.stored(k)
}

/// `after` is `before` with nothing filed under `key`.
pub open spec fn after_delete(before: MemorySecretStore, after: MemorySecretStore, key: Seq<char>) -> bool {
    &&& after.stored(key) is None
    &&& forall|k: Seq<char>| k != key ==> after.stored(k) == before.stored(k)
}

/// Secrets held in memory, for tests and for platforms without a store.
pub struct MemorySecretStore {
    entries: Vec<(String, SecretString)>,
}

impl MemorySecretStore {
    /// The text of the secret filed under `key`.
    pub closed spec fn stored(&self, key: Seq<char>) -> Option<Seq<char>> {
        text_of(lookup(self.entries@, key))
    }

    /// An empty store.
    pub fn new() -> (r: Self)
        ensures
            forall|k: Seq<char>| r.stored(k) is None,
    {
        MemorySecretStore { entries: Vec::new() }
    }

    /// Removes every entry filed under `key`, wiping each removed secret.
    fn remove_key(&mut self, key: &str)
        ensures
            final(self).stored(key@) is None,
            forall|k: Seq<char>| k != key@ ==> final(self).stored(k) == old(self).stored(k),
    {
        let mut i: usize = 0;
        while i < self.entries.len()
            invariant
                i <= self.entries@.len(),
                forall|j: int| 0 <= j < i ==> self.entries@[j].0@ != key@,
                forall|k: Seq<char>| k != key@ ==> lookup(self.entries@, k) == lookup(old(self).entries@, k),
            decreases self.entries@.len() - i,
        {
            if str_eq(self.entries[i].0.as_str(), key) {
                let ghost before = self.entries@;
                let (_, mut secret) = self.entries.remove(i);
                secret.wipe();
                proof {
                    lemma_lookup_remove(before, i as int, key@);
                }
            } else {
                i = i + 1;
            }
        }
        proof {
            assert(self.entries@.skip(i as int) =~= Seq::<(String, SecretString)>::empty());
            lemma_lookup_prefix_none(self.entries@, i as int, key@);
        }
    }
}

/// Removing an entry whose key is `key` keeps every other key's secret.
proof fn lemma_lookup_remove(s: Seq<(String, SecretString)>, i: int, key: Seq<char>)
    requires
        0 <= i < s.len(),
        s[i].0@ == key,
        forall|j: int| 0 <= j < i ==> s[j].0@ != key,
    ensures
        forall|k: Seq<char>| k != key ==> lookup(s.remove(i), k) == lookup(s, k),
    decreases i,
{
    if i == 0 {
        assert(s.remove(0) =~= s.drop_first());
    } else {
        lemma_lookup_remove(s.drop_first(), i - 1, key);
        let r = s.remove(i);
        assert(r[0] == s[0]);
        assert(r.drop_first() =~= s.drop_first().remove(i - 1));
        assert forall|k: Seq<char>| k != key implies lookup(r, k) == lookup(s, k) by {
            if s[0].0@ != k {
                assert(lookup(r, k) == lookup(r.drop_first(), k));
                assert(lookup(s.drop_first().remove(i - 1), k) == lookup(s.drop_first(), k));
                assert(lookup(s, k) == lookup(s.drop_first(), k));
            } else {
                assert(lookup(r, k) == Some(r[0].1));
                assert(lookup(s, k) == Some(s[0].1));
            }
        }
    }
}

/// When no entry before `i` has `key` and none from `i` on does, none does.
proof fn lemma_lookup_prefix_none(s: Seq<(String, SecretString)>, i: int, key: Seq<char>)
    requires
        0 <= i <= s.len(),
        forall|j: int| 0 <= j < i ==> s[j].0@ != key,
        lookup(s.skip(i), key) is None,
    ensures
        lookup(s, key) is None,
    decreases i,
{
    if i > 0 {
        assert(s.drop_first().skip(i - 1) =~= s.skip(i));
        lemma_lookup_prefix_none(s.drop_first(), i - 1, key);
    } else {
        assert(s.skip(0) =~= s);
    }
}

/// A key appended after all others is found when no earlier entry has it.
proof fn lemma_lookup_push(s: Seq<(String, SecretString)>, e: (String, SecretString), key: Seq<char>)
    ensures
        lookup(s.push(e), key) == match lookup(s, key) {
            Some(v) => Some(v),
            None => if e.0@ == key {
                Some(e.1)
            } else {
                None
            },
        },
    decreases s.len(),
{
    let t = s.push(e);
    if s.len() > 0 {
        lemma_lookup_push(s.drop_first(), e, key);
        assert(t[0] == s[0]);
        assert(t.drop_first() =~= s.drop_first().push(e));
        if s[0].0@ != key {
            assert(lookup(t, key) == lookup(t.drop_first(), key));
            assert(lookup(s, key) == lookup(s.drop_first(), key));
        } else {
            assert(lookup(t, key) == Some(s[0].1));
        }
    } else {
        assert(lookup(s, key) is None);
        assert(t[0] == e);
        assert(t.drop_first() =~= Seq::<(String, SecretString)>::empty());
        if e.0@ == key {
            assert(lookup(t, key) == Some(e.1));
        } else {
            assert(lookup(t, key) == lookup(t.drop_first(), key));
            assert(lookup(t.drop_first(), key) is None);
        }
    }
}

impl SecretStore for MemorySecretStore {
    /// The secret filed under `key`, if any; the store is left as it was.
    fn get(&mut self, key: &SecretKey) -> (r: Result<Option<SecretString>, SecretError>)
        ensures
            *final(self) == *old(self),
            r matches Ok(found) && text_of(found) == old(self).stored(key@),
    {
        let wanted = key.as_str();
        let mut i: usize = 0;
        while i < self.entries.len()
            invariant
                i <= self.entries@.len(),
                forall|j: int| 0 <= j < i ==> self.entries@[j].0@ != wanted@,
                wanted@ == key@,
            decreases self.entries@.len() - i,
        {
            if str_eq(self.entries[i].0.as_str(), wanted) {
                let found = self.entries[i].1.duplicate();
                proof {
                    lemma_lookup_first(self.entries@, i as int, key@);
                }
                return Ok(Some(found));
            }
            i = i + 1;
        }
        proof {
            assert(self.entries@.skip(i as int) =~= Seq::<(String, SecretString)>::empty());
            lemma_lookup_prefix_none(self.entries@, i as int, key@);
        }
        Ok(None)
    }

    /// Files `value` under `key`; every other key keeps its secret.
    fn set(&mut self, key: &SecretKey, value: SecretString) -> (r: Result<(), SecretError>)
        ensures
            r is Ok,
            after_set(*old(self), *final(self), key@, secret_text(value)),
    {
        self.remove_key(key.as_str());
        let ghost before = self.entries@;
        let entry = (key.as_str().to_string(), value);
        self.entries.push(entry);
        proof {
            assert forall|k: Seq<char>| true implies lookup(self.entries@, k) == match lookup(before, k) {
                Some(v) => Some(v),
                None => if entry.0@ == k {
                    Some(entry.1)
                } else {
                    None
                },
            } by {
                lemma_lookup_push(before, entry, k);
            }
        }
        Ok(())
    }

    /// Removes and wipes what is filed under `key`; every other key keeps its
    /// secret.
    fn delete(&mut self, key: &SecretKey) -> (r: Result<(), SecretError>)
        ensures
            r is Ok,
            after_delete(*old(self), *final(self), key@),
    {
        self.remove_key(key.as_str());
        Ok(())
    }
}

/// The first entry with `key` gives the secret looked up.
proof fn lemma_lookup_first(s: Seq<(String, SecretString)>, i: int, key: Seq<char>)
    requires
        0 <= i < s.len(),
        s[i].0@ == key,
        forall|j: int| 0 <= j < i ==> s[j].0@ != key,
    ensures
        lookup(s, key) == Some(s[i].1),
    decreases i,
{
    if i > 0 {
        lemma_lookup_first(s.drop_first(), i - 1, key);
    }
}

/// A valid key is a plain name: it holds no `/`, no `\` and no white space, so
/// it can never name a path.
pub proof fn valid_keys_are_not_paths(text: Seq<char>)
    requires
        is_valid_key(text),
    ensures
        forall|i: int| 0 <= i < text.len() ==> {
            let c = #[trigger] text[i];
            c != '/' && c != '\\' && c != ' ' && c != '\t' && c != '\n'
        },
{
    let bytes = encode_utf8(text);
    assert(vstd::utf8::is_ascii_chars(text)) by {
        assert forall|i: int| 0 <= i < text.len() implies '\0' <= #[trigger] text[i] <= '\u{7f}' by {
            lemma_key_chars_ascii(text, i);
        }
    }
    vstd::utf8::is_ascii_chars_encode_utf8(text);
    assert forall|i: int| 0 <= i < text.len() implies {
        let c = #[trigger] text[i];
        c != '/' && c != '\\' && c != ' ' && c != '\t' && c != '\n'
    } by {
        assert(text[i] as u8 == bytes[i]);
        assert(is_key_byte(bytes[i]));
    }
}

/// Each character of a valid key is ASCII: its encoding starts with a key
/// byte, and key bytes are below 0x80.
proof fn lemma_key_chars_ascii(text: Seq<char>, i: int)
    requires
        is_valid_key(text),
        0 <= i < text.len(),
    ensures
        '\0' <= text[i] <= '\u{7f}',
    decreases i,
{
    let bytes = encode_utf8(text);
    vstd::utf8::encode_utf8_first_scalar(text);
    let b0 = bytes[0];
    assert(is_key_byte(b0));
    assert(b0 < 0x80);
    assert((b0 & 0x7f) as u32 <= 0x7f) by (bit_vector);
    assert(vstd::utf8::decode_first_scalar(bytes) <= 0x7f);
    let u = text[0] as u32;
    assert(u <= 0x7f);
    vstd::utf8::char_u32_cast(text[0], u);
    assert('\0' <= u as char <= '\u{7f}');
    if i > 0 {
        let rest = text.drop_first();
        assert(bytes =~= vstd::utf8::encode_scalar(text[0] as u32) + encode_utf8(rest));
        assert(encode_utf8(rest) =~= bytes.skip(1));
        assert(rest[0] == text[1]);
        vstd::utf8::encode_utf8_first_scalar(rest);
        assert(is_valid_key(rest));
        lemma_key_chars_ascii(rest, i - 1);
        assert(rest[i - 1] == text[i]);
    }
}

/// A read gives back what the last write filed under that key, and a write
/// or a removal leaves every other key as it was.
pub proof fn memory_store_read_after_write(
    before: MemorySecretStore,
    after: MemorySecretStore,
    key: Seq<char>,
    value: Seq<char>,
    other: Seq<char>,
)
    requires
        after_set(before, after, key, value),
        other != key,
    ensures
        after.stored(key) == Some(value),
        after.stored(other) == before.stored(other),
{
}

/// After a removal nothing is filed under the key, and every other key keeps
/// its secret.
pub proof fn memory_store_read_after_delete(
    before: MemorySecretStore,
    after: MemorySecretStore,
    key: Seq<char>,
    other: Seq<char>,
)
    requires
        after_delete(before, after, key),
        other != key,
    ensures
        after.stored(key) is None,
        after.stored(other) == before.stored(other),
{
}

/// Two keyring stores of different services never address each other's
/// credentials: every request either has made, read, write or removal,
/// names a credential of its own service only.
pub proof fn keyring_stores_keep_apart(a: KeyringSecretStore, b: KeyringSecretStore)
    requires
        a.keeps_to_its_service(),
        b.keeps_to_its_service(),
        a.service() != b.service(),
    ensures
        forall|i: int| 0 <= i < a.exchanges().len() ==> (#[trigger] addressed(a.exchanges()[i])).0 != b.service(),
        forall|i: int| 0 <= i < b.exchanges().len() ==> (#[trigger] addressed(b.exchanges()[i])).0 != a.service(),
{
}

/// A character that may appear in a key: an ASCII letter of either case, an
/// ASCII digit, `.`, `_` or `-`.
pub open spec fn is_key_char(c: char) -> bool {
    ||| 'a' <= c <= 'z'
    ||| 'A' <= c <= 'Z'
    ||| '0' <= c <= '9'
    ||| c == '.'
    ||| c == '_'
    ||| c == '-'
}

/// The valid keys are exactly the texts of 1 to 128 characters, each an
/// ASCII letter (any case), an ASCII digit, `.`, `_` or `-`.
pub proof fn keys_are_letters_digits_and_marks(text: Seq<char>)
    ensures
        is_valid_key(text) <==> (1 <= text.len() <= 128 && forall|i: int|
            0 <= i < text.len() ==> is_key_char(#[trigger] text[i])),
{
    broadcast use vstd::utf8::is_ascii_chars_encode_utf8;

    if is_valid_key(text) {
        assert forall|i: int| 0 <= i < text.len() implies '\0' <= #[trigger] text[i] <= '\u{7f}' by {
            lemma_key_chars_ascii(text, i);
        }
        assert(vstd::utf8::is_ascii_chars(text));
        let bytes = encode_utf8(text);
        assert forall|i: int| 0 <= i < text.len() implies is_key_char(#[trigger] text[i]) by {
            lemma_key_chars_ascii(text, i);
            assert(is_key_byte(bytes[i]));
            assert(text[i] as u8 == bytes[i]);
        }
    }
    if 1 <= text.len() <= 128 && forall|i: int| 0 <= i < text.len() ==> is_key_char(#[trigger] text[i]) {
        assert(vstd::utf8::is_ascii_chars(text));
        let bytes = encode_utf8(text);
        assert forall|i: int| 0 <= i < bytes.len() implies is_key_byte(#[trigger] bytes[i]) by {
            assert(is_key_char(text[i]));
            assert(text[i] as u8 == bytes[i]);
        }
    }
}

} // verus!
