//! Deterministic address derivation.
//!
//! Every logical entity maps to exactly one storage address, derived from the
//! entity's logical key fields.  The host derives an opaque address by hashing
//! an encoding of those fields and treats the derivation as injective across
//! distinct input tuples; the model therefore represents an address directly
//! by its key tuple, which makes determinism and injectivity structural.
//! Derivation is total: it never fails.

use vstd::prelude::*;

use crate::records::Identity;

verus! {

/// A derived storage address, represented by the key tuple it is derived from.
pub enum Address {
    /// Derived from the poll identifier alone.
    Poll { poll_id: u64 },
    /// Derived from the poll identifier and the candidate name, in that
    /// order: the concatenation order is part of the external contract.
    Candidate { poll_id: u64, name: String },
    /// Derived from the poll identifier and the voter's identity.
    Voter { poll_id: u64, voter: Identity },
}

/// The mathematical value of an [`Address`].
pub enum AddressView {
    Poll { poll_id: u64 },
    Candidate { poll_id: u64, name: Seq<char> },
    Voter { poll_id: u64, voter: Identity },
}

impl View for Address {
    type V = AddressView;

    open spec fn view(&self) -> AddressView {
        match self {
            Address::Poll { poll_id } => AddressView::Poll { poll_id: *poll_id },
            Address::Candidate { poll_id, name } => AddressView::Candidate {
                poll_id: *poll_id,
                name: name@,
            },
            Address::Voter { poll_id, voter } => AddressView::Voter {
                poll_id: *poll_id,
                voter: *voter,
            },
        }
    }
}

/// The address of the poll record for `poll_id`.
pub open spec fn poll_address(poll_id: u64) -> AddressView {
    AddressView::Poll { poll_id }
}

/// The address of the candidate record for `name` under `poll_id`.
pub open spec fn candidate_address(poll_id: u64, name: Seq<char>) -> AddressView {
    AddressView::Candidate { poll_id, name }
}

/// The address of the vote receipt for `voter` in `poll_id`.
pub open spec fn voter_address(poll_id: u64, voter: Identity) -> AddressView {
    AddressView::Voter { poll_id, voter }
}

/// Derives the storage address of the poll record for `poll_id`.
pub fn derive_poll_address(poll_id: u64) -> (a: Address)
    ensures
        a@ == poll_address(poll_id),
{
    Address::Poll { poll_id }
}

/// Derives the storage address of the candidate record for `name` under
/// `poll_id`.
pub fn derive_candidate_address(poll_id: u64, name: String) -> (a: Address)
    ensures
        a@ == candidate_address(poll_id, name@),
{
    Address::Candidate { poll_id, name }
}

/// Derives the storage address of the vote receipt for `voter` in `poll_id`.
pub fn derive_voter_address(poll_id: u64, voter: Identity) -> (a: Address)
    ensures
        a@ == voter_address(poll_id, voter),
{
    Address::Voter { poll_id, voter }
}

/// Decides whether two derived addresses are the same storage address.
pub fn address_eq(a: &Address, b: &Address) -> (r: bool)
    ensures
        r == (a@ == b@),
{
    match (a, b) {
        (Address::Poll { poll_id: i }, Address::Poll { poll_id: j }) => *i == *j,
        (
            Address::Candidate { poll_id: i, name: n },
            Address::Candidate { poll_id: j, name: o },
        ) => *i == *j && *n == *o,
        (Address::Voter { poll_id: i, voter: v }, Address::Voter { poll_id: j, voter: w }) => *i
            == *j && *v == *w,
        _ => false,
    }
}

} // verus!
