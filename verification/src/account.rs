//! Accounts: who holds a balance, on which domain.

use crate::domain::Domain;
use vstd::prelude::*;

verus! {

/// What kind of account an entry describes.
#[derive(Debug, PartialEq, Clone)]
pub enum AccountType {
    /// An account that is already instantiated, at this address.
    Addr { addr: String },
    /// A base account that is still to be instantiated, with its admin if
    /// one is set.
    Base { admin: Option<String> },
}

impl Default for AccountType {
    /// A base account without an admin.
    fn default() -> (r: AccountType)
        ensures
            r == (AccountType::Base { admin: None }),
    {
        AccountType::Base { admin: None }
    }
}

impl AccountType {
    /// An already instantiated account at `addr`.
    pub fn new_addr(addr: String) -> (r: AccountType)
        ensures
            r == (AccountType::Addr { addr }),
    {
        AccountType::Addr { addr }
    }

    /// A base account administered by `admin`.
    pub fn new_base(admin: String) -> (r: AccountType)
        ensures
            r == (AccountType::Base { admin: Some(admin) }),
    {
        AccountType::Base { admin: Some(admin) }
    }
}

/// An account as its user describes it: a name, a kind and the domain it
/// is on. The address is filled in once the account is instantiated.
#[derive(Debug, PartialEq, Clone)]
pub struct AccountInfo {
    /// The name of the account.
    pub name: String,
    /// The kind of the account.
    pub ty: AccountType,
    /// The domain the account is on.
    pub domain: Domain,
    /// The address of the account, once it is instantiated.
    pub addr: Option<String>,
}

impl AccountInfo {
    /// An account on `domain` that has no address yet.
    pub fn new(name: String, domain: &Domain, ty: AccountType) -> (r: AccountInfo)
        ensures
            r == (AccountInfo { name, ty, domain: *domain, addr: None }),
    {
        AccountInfo { name, ty, domain: *domain, addr: None }
    }
}

/// What instantiating an account takes: its identifier, its description,
/// the address it will have, the salt that address derives from, and the
/// libraries approved to act on it, in the order they were added.
#[derive(Debug)]
pub struct InstantiateAccountData {
    pub id: u64,
    pub info: AccountInfo,
    pub addr: String,
    pub salt: Vec<u8>,
    pub approved_libraries: Vec<String>,
}

impl InstantiateAccountData {
    /// The data for an account with no library approved yet.
    pub fn new(id: u64, info: AccountInfo, addr: String, salt: Vec<u8>) -> (r:
        InstantiateAccountData)
        ensures
            r.id == id,
            r.info == info,
            r.addr == addr,
            r.salt == salt,
            r.approved_libraries@ == Seq::<String>::empty(),
    {
        InstantiateAccountData { id, info, addr, salt, approved_libraries: Vec::new() }
    }

    /// Approves one more library, after those approved before. Nothing is
    /// checked of it: a library added twice is listed twice.
    pub fn add_library(&mut self, library_addr: String)
        ensures
            final(self).approved_libraries@ == old(self).approved_libraries@.push(library_addr),
            final(self).id == old(self).id,
            final(self).info == old(self).info,
            final(self).addr == old(self).addr,
            final(self).salt == old(self).salt,
    {
        self.approved_libraries.push(library_addr);
    }
}

} // verus!
