//! Account identifiers.
use vstd::prelude::*;

verus! {

/// The first account id handed out to user-created accounts; every id
/// below it is reserved for system and built-in accounts.
pub const ACCOUNT_ID_NON_RESERVED_START: u64 = 65536;

/// An opaque identifier of an account. Zero is the null (system) account.
#[derive(Clone, Copy, Debug, PartialEq, Eq, Structural)]
pub struct AccountID {
    /// The numeric value.
    pub id: u64,
}

impl AccountID {
    /// The numeric value of the id.
    pub open spec fn value(self) -> u64 {
        self.id
    }

    /// The id with the given numeric value.
    pub open spec fn spec_new(id: u64) -> AccountID {
        AccountID { id }
    }

    /// Wraps a numeric id.
    pub fn new(id: u64) -> (r: AccountID)
        ensures
            r == AccountID::spec_new(id),
    {
        AccountID { id }
    }

    /// The numeric value of the id.
    pub fn get(&self) -> (r: u64)
        ensures
            r == self.value(),
    {
        self.id
    }

    /// The null account, target of system messages.
    pub fn empty() -> (r: AccountID)
        ensures
            r.value() == 0,
    {
        AccountID { id: 0 }
    }

    /// Whether this is the null account.
    pub fn is_null(&self) -> (r: bool)
        ensures
            r == (self.value() == 0),
    {
        self.id == 0
    }
}

} // verus!
