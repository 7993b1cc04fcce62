use vstd::prelude::*;

use crate::shared::table::Stored;

verus! {

/// What an address stands for on the network.
#[derive(Clone, Copy, Debug, PartialEq, Eq, Structural)]
pub enum AddressKind {
    Account,
    Contract,
}

/// The identity of an account or a contract: its kind and the 32 bytes of its
/// key or hash, as two big-endian halves.
#[derive(Clone, Copy, Debug, PartialEq, Eq, Structural)]
pub struct Address {
    pub kind: AddressKind,
    pub hi: u128,
    pub lo: u128,
}

impl Address {
    /// The order in which addresses are sorted as keys: accounts before
    /// contracts, then by their bytes.
    pub open spec fn spec_precedes(self, other: Address) -> bool {
        match (self.kind, other.kind) {
            (AddressKind::Account, AddressKind::Contract) => true,
            (AddressKind::Contract, AddressKind::Account) => false,
            _ => self.hi < other.hi || (self.hi == other.hi && self.lo < other.lo),
        }
    }

    pub fn precedes(&self, other: &Address) -> (r: bool)
        ensures
            r == self.spec_precedes(*other),
    {
        match (self.kind, other.kind) {
            (AddressKind::Account, AddressKind::Contract) => true,
            (AddressKind::Contract, AddressKind::Account) => false,
            _ => self.hi < other.hi || (self.hi == other.hi && self.lo < other.lo),
        }
    }
}

impl View for Address {
    type V = Address;

    open spec fn view(&self) -> Address {
        *self
    }
}

/// An invoice offered for financing.
#[derive(Clone, Copy, Debug, PartialEq, Eq, Structural)]
pub struct Listing {
    pub invoice_id: u64,
    pub seller: Address,
    pub asking_price: i128,
    pub face_value: i128,
    pub token: Address,
    pub funded_amount: i128,
    pub funding_deadline: u64,
    pub is_active: bool,
}

impl View for Listing {
    type V = Listing;

    open spec fn view(&self) -> Listing {
        *self
    }
}

impl Stored for Listing {
    fn duplicate(&self) -> (r: Self) {
        *self
    }
}

/// The money raised for, and paid back on, one invoice.
#[derive(Clone, Copy, Debug, PartialEq, Eq, Structural)]
pub struct Pool {
    pub invoice_id: u64,
    pub token: Address,
    pub total_funded: i128,
    pub face_value: i128,
    pub repaid_amount: i128,
    pub is_closed: bool,
    pub late_penalty_bps: u32,
}

impl View for Pool {
    type V = Pool;

    open spec fn view(&self) -> Pool {
        *self
    }
}

impl Stored for Pool {
    fn duplicate(&self) -> (r: Self) {
        *self
    }
}

/// One investor's share of a pool.
#[derive(Clone, Copy, Debug, PartialEq, Eq, Structural)]
pub struct Position {
    pub investor: Address,
    pub invoice_id: u64,
    pub contributed: i128,
    pub share_bps: u32,
    pub yield_claimed: i128,
}

/// What the risk registry knows of a business that sells invoices.
#[derive(Clone, Copy, Debug, PartialEq, Eq, Structural)]
pub struct SmeProfile {
    pub address: Address,
    pub verified: bool,
    pub verifier: Address,
    pub risk_score: u32,
    pub total_invoices: u32,
    pub defaults: u32,
    pub registered_at: u64,
}

impl View for SmeProfile {
    type V = SmeProfile;

    open spec fn view(&self) -> SmeProfile {
        *self
    }
}

impl Stored for SmeProfile {
    fn duplicate(&self) -> (r: Self) {
        *self
    }
}

} // verus!
