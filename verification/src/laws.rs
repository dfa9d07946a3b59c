//! The guarantees the addressing scheme buys, proved once and for all over
//! the request transitions of [`crate::ops`].

use vstd::prelude::*;

use crate::address::{candidate_address, poll_address, AddressView};
use crate::ops::{
    apply_initialize, apply_initialize_candidate, apply_vote, candidate_at, has_voted, poll_at,
    room_for_candidate, room_for_vote,
};
use crate::records::{CustomError, Identity, PollView, RecordView, RequestError};

verus! {

/// Creating a poll twice with the same identifier fails the second time with
/// `AddressInUse`, whatever the second request carries, and the first poll's
/// fields remain exactly as created.
pub proof fn poll_creation_is_unique(
    m: Map<AddressView, RecordView>,
    poll_id: u64,
    d1: Seq<char>,
    s1: u64,
    e1: u64,
    c1: Identity,
    d2: Seq<char>,
    s2: u64,
    e2: u64,
    c2: Identity,
)
    requires
        apply_initialize(m, poll_id, d1, s1, e1, c1).1 is Ok,
    ensures
        ({
            let m1 = apply_initialize(m, poll_id, d1, s1, e1, c1).0;
            let second = apply_initialize(m1, poll_id, d2, s2, e2, c2);
            &&& second.1 == Err::<(), RequestError>(RequestError::AddressInUse)
            &&& second.0 == m1
            &&& poll_at(m1, poll_id) == Some(
                (PollView {
                    poll_id,
                    description: d1,
                    start_time: s1,
                    end_time: e1,
                    candidate_amount: 0,
                    creator: c1,
                }),
            )
        }),
{
}

/// Registering the same candidate name under the same poll twice fails the
/// second time and leaves the store — the poll's candidate count included —
/// unchanged; when the second request comes from the creator itself, the
/// failure is the store's `AddressInUse`.  The count thus reflects only the
/// successful registration: it rose by exactly one.
pub proof fn candidate_registration_is_unique(
    m: Map<AddressView, RecordView>,
    poll_id: u64,
    name: Seq<char>,
    signer1: Identity,
    signer2: Identity,
)
    requires
        room_for_candidate(m, poll_id),
        apply_initialize_candidate(m, poll_id, name, signer1).1 is Ok,
    ensures
        ({
            let m1 = apply_initialize_candidate(m, poll_id, name, signer1).0;
            let second = apply_initialize_candidate(m1, poll_id, name, signer2);
            &&& second.1 is Err
            &&& second.0 == m1
            &&& (signer2 == signer1 ==> second.1 == Err::<(), RequestError>(
                RequestError::AddressInUse,
            ))
            &&& poll_at(m1, poll_id)->Some_0.candidate_amount == poll_at(
                m,
                poll_id,
            )->Some_0.candidate_amount + 1
        }),
{
}

/// Registering a candidate from any identity other than the poll's creator
/// fails with `Unauthorized` and changes nothing, so the poll's candidate
/// count stays as it was.
pub proof fn registration_requires_creator(
    m: Map<AddressView, RecordView>,
    poll_id: u64,
    name: Seq<char>,
    signer: Identity,
)
    requires
        poll_at(m, poll_id) is Some,
        poll_at(m, poll_id)->Some_0.poll_id == poll_id,
        poll_at(m, poll_id)->Some_0.creator != signer,
    ensures
        apply_initialize_candidate(m, poll_id, name, signer).0 == m,
        apply_initialize_candidate(m, poll_id, name, signer).1 == Err::<(), RequestError>(
            RequestError::Custom(CustomError::Unauthorized),
        ),
{
}

/// Casting a vote before the poll's start or after its end fails with
/// `PollNotActive` and changes nothing, so every candidate's vote count
/// stays as it was.
pub proof fn inactive_poll_rejects_votes(
    m: Map<AddressView, RecordView>,
    poll_id: u64,
    name: Seq<char>,
    signer: Identity,
    t: u64,
)
    requires
        poll_at(m, poll_id) is Some,
        t < poll_at(m, poll_id)->Some_0.start_time || t > poll_at(m, poll_id)->Some_0.end_time,
    ensures
        apply_vote(m, poll_id, name, signer, t).0 == m,
        apply_vote(m, poll_id, name, signer, t).1 == Err::<(), RequestError>(
            RequestError::Custom(CustomError::PollNotActive),
        ),
{
}

/// After an identity's vote in a poll has succeeded, any further vote attempt
/// by the same identity in the same poll — for whatever candidate, at
/// whatever time — fails and leaves the store unchanged, so no vote count is
/// incremented a second time.  When the poll is still active at the second
/// attempt and the named candidate exists, the failure is the store's
/// duplicate-address rejection of the vote receipt.
pub proof fn double_vote_is_rejected(
    m: Map<AddressView, RecordView>,
    poll_id: u64,
    name1: Seq<char>,
    name2: Seq<char>,
    signer: Identity,
    t1: u64,
    t2: u64,
)
    requires
        apply_vote(m, poll_id, name1, signer, t1).1 is Ok,
    ensures
        ({
            let m1 = apply_vote(m, poll_id, name1, signer, t1).0;
            let second = apply_vote(m1, poll_id, name2, signer, t2);
            &&& has_voted(m1, poll_id, signer)
            &&& second.1 is Err
            &&& second.0 == m1
            &&& (poll_at(m1, poll_id)->Some_0.start_time <= t2 && t2 <= poll_at(
                m1,
                poll_id,
            )->Some_0.end_time && candidate_at(m1, poll_id, name2) is Some ==> second.1 == Err::<
                (),
                RequestError,
            >(RequestError::AddressInUse))
        }),
{
}

/// Two racing vote requests from the same identity for the same poll and
/// candidate, serialized by the host in either order: the one applied first
/// succeeds, the one applied second observes `AddressInUse`, and the
/// candidate's final vote count reflects exactly one increment.
pub proof fn racing_votes_admit_one_winner(
    m: Map<AddressView, RecordView>,
    poll_id: u64,
    name: Seq<char>,
    signer: Identity,
    t: u64,
)
    requires
        room_for_vote(m, poll_id, name),
        apply_vote(m, poll_id, name, signer, t).1 is Ok,
    ensures
        ({
            let m1 = apply_vote(m, poll_id, name, signer, t).0;
            let second = apply_vote(m1, poll_id, name, signer, t);
            &&& second.1 == Err::<(), RequestError>(RequestError::AddressInUse)
            &&& second.0 == m1
            &&& candidate_at(m1, poll_id, name) is Some
            &&& candidate_at(m1, poll_id, name)->Some_0.candidate_vote == candidate_at(
                m,
                poll_id,
                name,
            )->Some_0.candidate_vote + 1
        }),
{
}

/// A vote receipt, once created, survives every request: there is no path
/// from "voted" back to "not voted", whatever else is asked of the system.
pub proof fn vote_state_is_irreversible(
    m: Map<AddressView, RecordView>,
    receipt_poll: u64,
    receipt_voter: Identity,
    poll_id: u64,
    description: Seq<char>,
    start_time: u64,
    end_time: u64,
    name: Seq<char>,
    signer: Identity,
    t: u64,
)
    requires
        has_voted(m, receipt_poll, receipt_voter),
    ensures
        has_voted(
            apply_initialize(m, poll_id, description, start_time, end_time, signer).0,
            receipt_poll,
            receipt_voter,
        ),
        has_voted(
            apply_initialize_candidate(m, poll_id, name, signer).0,
            receipt_poll,
            receipt_voter,
        ),
        has_voted(apply_vote(m, poll_id, name, signer, t).0, receipt_poll, receipt_voter),
{
}

/// The names of the candidates registered under `poll_id`.
pub open spec fn candidate_names_of(m: Map<AddressView, RecordView>, poll_id: u64) -> Set<
    Seq<char>,
> {
    Set::new(|n: Seq<char>| m.dom().contains(candidate_address(poll_id, n)))
}

/// The structural consistency every request transition maintains: a candidate
/// record exists only under an existing poll, each poll's set of candidate
/// names is finite, and each poll's stored candidate count equals the number
/// of candidate records created under it.
pub open spec fn counts_consistent(m: Map<AddressView, RecordView>) -> bool {
    &&& forall|poll_id: u64, n: Seq<char>|
        #[trigger] m.dom().contains(candidate_address(poll_id, n)) ==> poll_at(m, poll_id) is Some
    &&& forall|poll_id: u64|
        #![trigger poll_at(m, poll_id)]
        poll_at(m, poll_id) is Some ==> candidate_names_of(m, poll_id).finite() && poll_at(
            m,
            poll_id,
        )->Some_0.candidate_amount == candidate_names_of(m, poll_id).len()
}

/// The consistency holds of the store every history starts from.
pub proof fn empty_store_is_consistent()
    ensures
        counts_consistent(Map::<AddressView, RecordView>::empty()),
{
    broadcast use vstd::set::group_set_axioms;

    assert forall|poll_id: u64|
        #![trigger poll_at(Map::<AddressView, RecordView>::empty(), poll_id)]
        poll_at(Map::<AddressView, RecordView>::empty(), poll_id) is Some implies false by {
        assert(!Map::<AddressView, RecordView>::empty().dom().contains(poll_address(poll_id)));
    }
}

/// Creating a poll preserves the consistency: the new poll starts with a zero
/// count and, the store never having held the poll before, no candidate
/// record exists under its identifier.
pub proof fn initialize_preserves_counts(
    m: Map<AddressView, RecordView>,
    poll_id: u64,
    description: Seq<char>,
    start_time: u64,
    end_time: u64,
    signer: Identity,
)
    requires
        counts_consistent(m),
    ensures
        counts_consistent(apply_initialize(m, poll_id, description, start_time, end_time, signer).0),
{
    broadcast use vstd::set::group_set_axioms;

    let m2 = apply_initialize(m, poll_id, description, start_time, end_time, signer).0;
    if !m.dom().contains(poll_address(poll_id)) {
        assert forall|pid: u64, n: Seq<char>|
            #[trigger] m2.dom().contains(candidate_address(pid, n)) implies poll_at(
            m2,
            pid,
        ) is Some by {
            assert(m.dom().contains(candidate_address(pid, n)));
        }
        assert forall|pid: u64|
            #![trigger poll_at(m2, pid)]
            poll_at(m2, pid) is Some implies candidate_names_of(m2, pid).finite() && poll_at(
            m2,
            pid,
        )->Some_0.candidate_amount == candidate_names_of(m2, pid).len() by {
            assert(candidate_names_of(m2, pid) =~= candidate_names_of(m, pid));
            if pid == poll_id {
                assert forall|n: Seq<char>|
                    !(#[trigger] candidate_names_of(m, poll_id).contains(n)) by {
                    if m.dom().contains(candidate_address(poll_id, n)) {
                        assert(poll_at(m, poll_id) is Some);
                    }
                }
                assert(candidate_names_of(m, poll_id) =~= Set::<Seq<char>>::empty());
            } else {
                assert(poll_at(m2, pid) == poll_at(m, pid));
            }
        }
    }
}

/// Registering a candidate preserves the consistency: the candidate set of
/// its poll gains exactly the one new name while the stored count rises by
/// one, and every other poll is untouched.
pub proof fn initialize_candidate_preserves_counts(
    m: Map<AddressView, RecordView>,
    poll_id: u64,
    name: Seq<char>,
    signer: Identity,
)
    requires
        counts_consistent(m),
        room_for_candidate(m, poll_id),
    ensures
        counts_consistent(apply_initialize_candidate(m, poll_id, name, signer).0),
{
    broadcast use vstd::set::group_set_axioms;

    let m2 = apply_initialize_candidate(m, poll_id, name, signer).0;
    let ca = candidate_address(poll_id, name);
    if apply_initialize_candidate(m, poll_id, name, signer).1 is Ok {
        assert forall|pid: u64, n: Seq<char>|
            #[trigger] m2.dom().contains(candidate_address(pid, n)) implies poll_at(
            m2,
            pid,
        ) is Some by {
            if pid == poll_id {
                assert(m2.dom().contains(poll_address(poll_id)));
            } else {
                assert(m.dom().contains(candidate_address(pid, n)));
                assert(poll_at(m2, pid) == poll_at(m, pid));
            }
        }
        assert forall|pid: u64|
            #![trigger poll_at(m2, pid)]
            poll_at(m2, pid) is Some implies candidate_names_of(m2, pid).finite() && poll_at(
            m2,
            pid,
        )->Some_0.candidate_amount == candidate_names_of(m2, pid).len() by {
            if pid == poll_id {
                assert(candidate_names_of(m2, poll_id) =~= candidate_names_of(
                    m,
                    poll_id,
                ).insert(name));
                assert(!candidate_names_of(m, poll_id).contains(name));
            } else {
                assert(candidate_names_of(m2, pid) =~= candidate_names_of(m, pid));
                assert(poll_at(m2, pid) == poll_at(m, pid));
            }
        }
    }
}

/// Casting a vote preserves the consistency: no poll record and no candidate
/// address is created or removed, so every count and every candidate set is
/// exactly as before.
pub proof fn vote_preserves_counts(
    m: Map<AddressView, RecordView>,
    poll_id: u64,
    name: Seq<char>,
    signer: Identity,
    t: u64,
)
    requires
        counts_consistent(m),
    ensures
        counts_consistent(apply_vote(m, poll_id, name, signer, t).0),
{
    broadcast use vstd::set::group_set_axioms;

    let m2 = apply_vote(m, poll_id, name, signer, t).0;
    if apply_vote(m, poll_id, name, signer, t).1 is Ok {
        assert forall|pid: u64, n: Seq<char>|
            #[trigger] m2.dom().contains(candidate_address(pid, n)) implies poll_at(
            m2,
            pid,
        ) is Some by {
            assert(m.dom().contains(candidate_address(pid, n)));
            assert(poll_at(m2, pid) == poll_at(m, pid));
        }
        assert forall|pid: u64|
            #![trigger poll_at(m2, pid)]
            poll_at(m2, pid) is Some implies candidate_names_of(m2, pid).finite() && poll_at(
            m2,
            pid,
        )->Some_0.candidate_amount == candidate_names_of(m2, pid).len() by {
            assert(candidate_names_of(m2, pid) =~= candidate_names_of(m, pid));
            assert(poll_at(m2, pid) == poll_at(m, pid));
        }
    }
}

} // verus!
