//! Options and handles of the certificate-management protocol layer.

use vstd::prelude::*;

verus! {

/// url's `Url`, carried through as an opaque value.
#[verifier::external_type_specification]
#[verifier::external_body]
pub struct ExUrl(url::Url);

/// Options of the protocol layer; none are defined yet.
#[derive(Clone)]
pub struct AcmeOptions {}

/// Where the account lives and how to obtain it.
pub struct AccountOptions {
    pub endpoint: url::Url,
    pub account_type: AccountType,
}

/// Register a new account, or use the one that a key already holds.
#[derive(Clone)]
pub enum AccountType {
    NewAccount(NewAccount),
    AccountFromKey(AccountFromKey),
}

/// A new account: its contacts and whether the terms of service are agreed to.
#[derive(Clone)]
pub struct NewAccount {
    pub contacts: Vec<String>,
    pub agree_tos: bool,
}

/// An existing account, identified by its key.
#[derive(Clone)]
pub struct AccountFromKey {
    pub key: String,
}

/// An opaque reference to an account.
#[derive(Clone, Copy)]
pub struct AccountHandle(i64);

impl AccountHandle {
    /// The number that identifies the account.
    pub closed spec fn spec_id(self) -> i64 {
        self.0
    }

    /// A handle for the account numbered `id`.
    pub fn new(id: i64) -> (r: AccountHandle)
        ensures
            r.spec_id() == id,
    {
        AccountHandle(id)
    }

    /// The number that identifies the account.
    pub fn id(&self) -> (r: i64)
        ensures
            r == self.spec_id(),
    {
        self.0
    }
}

} // verus!
