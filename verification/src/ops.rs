//! The three state-transition requests: create a poll, register a candidate,
//! cast a vote.
//!
//! Each request is one atomic unit: it either fully commits or fails with a
//! [`RequestError`] and leaves the store exactly as it was.  The spec
//! functions [`apply_initialize`], [`apply_initialize_candidate`] and
//! [`apply_vote`] state each handler's whole effect — the new store contents
//! and the result — and the executable handlers are verified to match them.

use vstd::prelude::*;

use crate::address::{
    candidate_address, derive_candidate_address, derive_poll_address, derive_voter_address,
    poll_address, voter_address, AddressView,
};
use crate::records::{
    Candidate, CandidateView, CustomError, Identity, Poll, PollView, Record, RecordView,
    RequestError, Voter,
};
use crate::store::RecordStore;

verus! {

/// A request to create a poll; carries the verified signer identity that the
/// host runtime attaches to every request.  The signer becomes the poll's
/// creator.
pub struct Initialize {
    pub poll_id: u64,
    pub description: String,
    pub start_time: u64,
    pub end_time: u64,
    pub signer: Identity,
}

/// A request to register a candidate under an existing poll.  Only the
/// poll's creator is authorized.
pub struct InitializeCandidate {
    pub poll_id: u64,
    pub candidate_name: String,
    pub signer: Identity,
}

/// A request to cast a vote.  `current_time` is supplied by the host's clock
/// collaborator and treated as trusted input.
pub struct InitializeVote {
    pub poll_id: u64,
    pub candidate_name: String,
    pub signer: Identity,
    pub current_time: u64,
}

/// The poll stored for `poll_id`, if the poll address is occupied by a poll
/// record.
pub open spec fn poll_at(m: Map<AddressView, RecordView>, poll_id: u64) -> Option<PollView> {
    let a = poll_address(poll_id);
    if m.dom().contains(a) {
        match m[a] {
            RecordView::Poll(p) => Some(p),
            _ => None,
        }
    } else {
        None
    }
}

/// The candidate stored for `name` under `poll_id`, if the candidate address
/// is occupied by a candidate record.
pub open spec fn candidate_at(
    m: Map<AddressView, RecordView>,
    poll_id: u64,
    name: Seq<char>,
) -> Option<CandidateView> {
    let a = candidate_address(poll_id, name);
    if m.dom().contains(a) {
        match m[a] {
            RecordView::Candidate(c) => Some(c),
            _ => None,
        }
    } else {
        None
    }
}

/// Whether a vote receipt for `voter` in `poll_id` exists: the receipt's
/// presence at its derived address is the fact "this identity already voted
/// in this poll".
pub open spec fn has_voted(m: Map<AddressView, RecordView>, poll_id: u64, voter: Identity) -> bool {
    m.dom().contains(voter_address(poll_id, voter))
}

/// The whole effect of [`initialize`]: the store afterwards, and the result.
///
/// Creation fails only when the poll address is already occupied; no other
/// validation is performed — the time window's ordering and the description
/// are accepted as given.
pub open spec fn apply_initialize(
    m: Map<AddressView, RecordView>,
    poll_id: u64,
    description: Seq<char>,
    start_time: u64,
    end_time: u64,
    signer: Identity,
) -> (Map<AddressView, RecordView>, Result<(), RequestError>) {
    let a = poll_address(poll_id);
    if m.dom().contains(a) {
        (m, Err(RequestError::AddressInUse))
    } else {
        (
            m.insert(
                a,
                RecordView::Poll(
                    PollView {
                        poll_id,
                        description,
                        start_time,
                        end_time,
                        candidate_amount: 0,
                        creator: signer,
                    },
                ),
            ),
            Ok(()),
        )
    }
}

/// The whole effect of [`initialize_candidate`].
///
/// In order: the poll must be present at its derived address, its stored
/// identifier must equal the requested one, and the signer must be the
/// poll's creator; then the candidate record is created (failing if its
/// address is occupied) and the poll's candidate count is incremented, both
/// in one atomic unit.
pub open spec fn apply_initialize_candidate(
    m: Map<AddressView, RecordView>,
    poll_id: u64,
    candidate_name: Seq<char>,
    signer: Identity,
) -> (Map<AddressView, RecordView>, Result<(), RequestError>) {
    match poll_at(m, poll_id) {
        None => (m, Err(RequestError::AccountNotFound)),
        Some(p) => if p.poll_id != poll_id {
            (m, Err(RequestError::Custom(CustomError::PollMismatch)))
        } else if p.creator != signer {
            (m, Err(RequestError::Custom(CustomError::Unauthorized)))
        } else {
            let ca = candidate_address(poll_id, candidate_name);
            if m.dom().contains(ca) {
                (m, Err(RequestError::AddressInUse))
            } else {
                let counted = PollView {
                    poll_id: p.poll_id,
                    description: p.description,
                    start_time: p.start_time,
                    end_time: p.end_time,
                    candidate_amount: (p.candidate_amount + 1) as u64,
                    creator: p.creator,
                };
                (
                    m.insert(
                        ca,
                        RecordView::Candidate(
                            CandidateView { candidate_name, candidate_vote: 0 },
                        ),
                    ).insert(poll_address(poll_id), RecordView::Poll(counted)),
                    Ok(()),
                )
            }
        },
    }
}

/// The whole effect of [`vote`].
///
/// In order: the poll must be present, the current time must lie inside the
/// inclusive voting window, and the candidate must be present; then the vote
/// receipt is created at its derived address — the store's duplicate-address
/// rejection there is the sole double-vote guard — and the candidate's vote
/// count is incremented, both in one atomic unit.
pub open spec fn apply_vote(
    m: Map<AddressView, RecordView>,
    poll_id: u64,
    candidate_name: Seq<char>,
    signer: Identity,
    current_time: u64,
) -> (Map<AddressView, RecordView>, Result<(), RequestError>) {
    match poll_at(m, poll_id) {
        None => (m, Err(RequestError::AccountNotFound)),
        Some(p) => if !(p.start_time <= current_time && current_time <= p.end_time) {
            (m, Err(RequestError::Custom(CustomError::PollNotActive)))
        } else {
            match candidate_at(m, poll_id, candidate_name) {
                None => (m, Err(RequestError::AccountNotFound)),
                Some(c) => {
                    let va = voter_address(poll_id, signer);
                    if m.dom().contains(va) {
                        (m, Err(RequestError::AddressInUse))
                    } else {
                        let tallied = CandidateView {
                            candidate_name: c.candidate_name,
                            candidate_vote: (c.candidate_vote + 1) as u64,
                        };
                        (
                            m.insert(va, RecordView::Voter(Voter { poll_id, voter: signer }))
                                .insert(
                                candidate_address(poll_id, candidate_name),
                                RecordView::Candidate(tallied),
                            ),
                            Ok(()),
                        )
                    }
                },
            }
        },
    }
}

/// The poll's candidate count, if the poll exists, is not yet at the machine
/// limit, so registration can increment it.
pub open spec fn room_for_candidate(m: Map<AddressView, RecordView>, poll_id: u64) -> bool {
    poll_at(m, poll_id) is Some ==> poll_at(m, poll_id)->Some_0.candidate_amount < u64::MAX
}

/// The candidate's vote count, if the candidate exists, is not yet at the
/// machine limit, so a vote can increment it.
pub open spec fn room_for_vote(
    m: Map<AddressView, RecordView>,
    poll_id: u64,
    name: Seq<char>,
) -> bool {
    candidate_at(m, poll_id, name) is Some ==> candidate_at(
        m,
        poll_id,
        name,
    )->Some_0.candidate_vote < u64::MAX
}

/// Creates a poll: one record at the poll's derived address, with a zero
/// candidate count and the signer as creator.
///
/// Fails with `AddressInUse`, leaving the store unchanged, if a poll was
/// ever created with the same identifier.
pub fn initialize(store: &mut RecordStore, req: Initialize) -> (r: Result<(), RequestError>)
    requires
        old(store).wf(),
    ensures
        final(store).wf(),
        final(store)@ == apply_initialize(
            old(store)@,
            req.poll_id,
            req.description@,
            req.start_time,
            req.end_time,
            req.signer,
        ).0,
        r == apply_initialize(
            old(store)@,
            req.poll_id,
            req.description@,
            req.start_time,
            req.end_time,
            req.signer,
        ).1,
{
    let addr = derive_poll_address(req.poll_id);
    let rec = Record::Poll(
        Poll {
            poll_id: req.poll_id,
            description: req.description,
            start_time: req.start_time,
            end_time: req.end_time,
            candidate_amount: 0,
            creator: req.signer,
        },
    );
    store.create_if_absent(addr, rec)
}

/// Registers a candidate under an existing poll: validates the stored poll
/// identifier and the signer's authority, creates the candidate record at
/// its derived address with a zero vote count, and increments the poll's
/// candidate count — all atomically.
///
/// Fails with `AddressInUse`, changing nothing, if the same name was already
/// registered under the same poll.
pub fn initialize_candidate(store: &mut RecordStore, req: InitializeCandidate) -> (r: Result<
    (),
    RequestError,
>)
    requires
        old(store).wf(),
        room_for_candidate(old(store)@, req.poll_id),
    ensures
        final(store).wf(),
        final(store)@ == apply_initialize_candidate(
            old(store)@,
            req.poll_id,
            req.candidate_name@,
            req.signer,
        ).0,
        r == apply_initialize_candidate(
            old(store)@,
            req.poll_id,
            req.candidate_name@,
            req.signer,
        ).1,
{
    let paddr = derive_poll_address(req.poll_id);
    let counted: Poll = match store.read(&paddr) {
        None => {
            return Err(RequestError::AccountNotFound);
        },
        Some(rec) => match rec {
            Record::Poll(p) => {
                if p.poll_id != req.poll_id {
                    return Err(RequestError::Custom(CustomError::PollMismatch));
                }
                if !(p.creator == req.signer) {
                    return Err(RequestError::Custom(CustomError::Unauthorized));
                }
                Poll {
                    poll_id: p.poll_id,
                    description: p.description.clone(),
                    start_time: p.start_time,
                    end_time: p.end_time,
                    candidate_amount: p.candidate_amount + 1,
                    creator: p.creator,
                }
            },
            _ => {
                return Err(RequestError::AccountNotFound);
            },
        },
    };
    let caddr = derive_candidate_address(req.poll_id, req.candidate_name.clone());
    let crec = Record::Candidate(
        Candidate { candidate_name: req.candidate_name, candidate_vote: 0 },
    );
    match store.create_if_absent(caddr, crec) {
        Err(e) => {
            return Err(e);
        },
        Ok(()) => {},
    }
    match store.update(paddr, Record::Poll(counted)) {
        Ok(()) => Ok(()),
        Err(e) => Err(e),
    }
}

/// Casts a vote: validates that the poll exists and is active at
/// `current_time` (the window is inclusive on both ends), that the candidate
/// exists, creates the vote receipt at its derived address, and increments
/// the candidate's vote count — all atomically.
///
/// Fails with `AddressInUse`, changing nothing, if the signer already voted
/// in this poll: the receipt's presence is the double-vote guard.
pub fn vote(store: &mut RecordStore, req: InitializeVote) -> (r: Result<(), RequestError>)
    requires
        old(store).wf(),
        room_for_vote(old(store)@, req.poll_id, req.candidate_name@),
    ensures
        final(store).wf(),
        final(store)@ == apply_vote(
            old(store)@,
            req.poll_id,
            req.candidate_name@,
            req.signer,
            req.current_time,
        ).0,
        r == apply_vote(
            old(store)@,
            req.poll_id,
            req.candidate_name@,
            req.signer,
            req.current_time,
        ).1,
{
    let paddr = derive_poll_address(req.poll_id);
    let (start_time, end_time) = match store.read(&paddr) {
        None => {
            return Err(RequestError::AccountNotFound);
        },
        Some(rec) => match rec {
            Record::Poll(p) => (p.start_time, p.end_time),
            _ => {
                return Err(RequestError::AccountNotFound);
            },
        },
    };
    if !(start_time <= req.current_time && req.current_time <= end_time) {
        return Err(RequestError::Custom(CustomError::PollNotActive));
    }
    let caddr = derive_candidate_address(req.poll_id, req.candidate_name.clone());
    let tallied: Candidate = match store.read(&caddr) {
        None => {
            return Err(RequestError::AccountNotFound);
        },
        Some(rec) => match rec {
            Record::Candidate(c) => Candidate {
                candidate_name: c.candidate_name.clone(),
                candidate_vote: c.candidate_vote + 1,
            },
            _ => {
                return Err(RequestError::AccountNotFound);
            },
        },
    };
    let vaddr = derive_voter_address(req.poll_id, req.signer);
    let vrec = Record::Voter(Voter { poll_id: req.poll_id, voter: req.signer });
    match store.create_if_absent(vaddr, vrec) {
        Err(e) => {
            return Err(e);
        },
        Ok(()) => {},
    }
    match store.update(caddr, Record::Candidate(tallied)) {
        Ok(()) => Ok(()),
        Err(e) => Err(e),
    }
}

} // verus!
