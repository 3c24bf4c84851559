//! The system credential store as the library sees it: entries addressed by
//! service and user, and a record of every request made of the store, or
//! that failed to reach it. Only the calls into `keyring` below add to that
//! record.
use vstd::prelude::*;

verus! {

/// `keyring::Entry`: one credential of the system credential store.
#[verifier::external_type_specification]
#[verifier::external_body]
pub struct ExKeyringEntry(keyring::Entry);

/// How the credential store answered a read or a removal.
#[derive(Debug, Clone, PartialEq, Eq)]
pub enum KeyringFailure {
    /// There is no credential for the entry.
    NoEntry,
    /// Any other failure, with its message.
    Other(String),
}

/// A credential of the system credential store: the one of `user` in
/// `service`.
pub struct CredentialEntry {
    entry: keyring::Entry,
    service: Ghost<Seq<char>>,
    user: Ghost<Seq<char>>,
}

impl CredentialEntry {
    pub closed spec fn service(&self) -> Seq<char> {
        self.service@
    }

    pub closed spec fn user(&self) -> Seq<char> {
        self.user@
    }
}

/// The view of a credential-store answer: `None` is "no credential".
pub open spec fn failure_view(r: Result<(), KeyringFailure>) -> Result<(), Option<Seq<char>>> {
    match r {
        Ok(()) => Ok(()),
        Err(KeyringFailure::NoEntry) => Err(None),
        Err(KeyringFailure::Other(m)) => Err(Some(m@)),
    }
}

/// The view of the answer to a read: the password, or `None` for "no
/// credential" and the message of any other failure.
pub open spec fn read_view(r: Result<String, KeyringFailure>) -> Result<Seq<char>, Option<Seq<char>>> {
    match r {
        Ok(p) => Ok(p@),
        Err(KeyringFailure::NoEntry) => Err(None),
        Err(KeyringFailure::Other(m)) => Err(Some(m@)),
    }
}

/// One request made of the credential store.
pub enum CredentialExchange {
    /// The entry of `user` in `service` was read.
    Read { service: Seq<char>, user: Seq<char>, answer: Result<Seq<char>, Option<Seq<char>>> },
    /// The entry of `user` in `service` could not be made.
    Unavailable { service: Seq<char>, user: Seq<char>, message: Seq<char> },
    /// `secret` was written to the entry of `user` in `service`.
    Write { service: Seq<char>, user: Seq<char>, secret: Seq<char>, answer: Result<(), Seq<char>> },
    /// The entry of `user` in `service` was removed.
    Remove { service: Seq<char>, user: Seq<char>, answer: Result<(), Option<Seq<char>>> },
}

/// The requests made of the credential store through one handle, oldest
/// first.
pub struct CredentialLog {
    exchanges: Ghost<Seq<CredentialExchange>>,
}

impl CredentialLog {
    pub closed spec fn exchanges(&self) -> Seq<CredentialExchange> {
        self.exchanges@
    }

    /// A record with no request in it.
    pub fn new() -> (r: Self)
        ensures
            r.exchanges().len() == 0,
    {
        CredentialLog { exchanges: Ghost(Seq::empty()) }
    }
}

/// `keyring::Entry::new`: the credential of `user` in `service`. Whether the
/// platform store accepts it depends on the platform and its state; a refusal
/// is added to `log`.
#[verifier::external_body]
pub(crate) fn keyring_entry(log: &mut CredentialLog, service: &str, user: &str) -> (r: Result<CredentialEntry, String>)
    ensures
        r matches Ok(e) ==> e.service() == service@ && e.user() == user@,
        final(log).exchanges() == match r {
            Ok(_) => old(log).exchanges(),
            Err(m) => old(log).exchanges().push(
                CredentialExchange::Unavailable { service: service@, user: user@, message: m@ },
            ),
        },
{
    match keyring::Entry::new(service, user) {
        Ok(entry) => Ok(CredentialEntry { entry, service: Ghost(service@), user: Ghost(user@) }),
        Err(error) => Err(error.to_string()),
    }
}

/// `keyring::Entry::get_password` on `entry`; the request and the store's
/// answer are added to `log`. What the store holds is outside the library, so
/// nothing more is stated of the answer.
#[verifier::external_body]
pub(crate) fn keyring_get(log: &mut CredentialLog, entry: &CredentialEntry) -> (r: Result<String, KeyringFailure>)
    ensures
        final(log).exchanges() == old(log).exchanges().push(
            CredentialExchange::Read { service: entry.service(), user: entry.user(), answer: read_view(r) },
        ),
{
    match entry.entry.get_password() {
        Ok(password) => Ok(password),
        Err(keyring::Error::NoEntry) => Err(KeyringFailure::NoEntry),
        Err(error) => Err(KeyringFailure::Other(error.to_string())),
    }
}

/// `keyring::Entry::set_password` on `entry`; the request and the store's
/// answer are added to `log`.
#[verifier::external_body]
pub(crate) fn keyring_set(log: &mut CredentialLog, entry: &CredentialEntry, password: &str) -> (r: Result<(), String>)
    ensures
        final(log).exchanges() == old(log).exchanges().push(
            CredentialExchange::Write {
                service: entry.service(),
                user: entry.user(),
                secret: password@,
                answer: match r {
                    Ok(()) => Ok(()),
                    Err(m) => Err(m@),
                },
            },
        ),
{
    entry.entry.set_password(password).map_err(|error| error.to_string())
}

/// `keyring::Entry::delete_credential` on `entry`; the request and the
/// store's answer are added to `log`.
#[verifier::external_body]
pub(crate) fn keyring_delete(log: &mut CredentialLog, entry: &CredentialEntry) -> (r: Result<(), KeyringFailure>)
    ensures
        final(log).exchanges() == old(log).exchanges().push(
            CredentialExchange::Remove { service: entry.service(), user: entry.user(), answer: failure_view(r) },
        ),
{
    match entry.entry.delete_credential() {
        Ok(()) => Ok(()),
        Err(keyring::Error::NoEntry) => Err(KeyringFailure::NoEntry),
        Err(error) => Err(KeyringFailure::Other(error.to_string())),
    }
}

} // verus!
