//! The three record kinds kept in the store, and the error kinds a request
//! can fail with.

use vstd::prelude::*;

verus! {

/// A caller's verified public identifier.
///
/// The host runtime authenticates every request and hands the core a verified
/// identity; the core only ever stores identities and compares them for
/// equality, so the model carries the identifier as a plain number.
#[derive(Clone, Copy, PartialEq, Eq, Structural, Debug)]
pub struct Identity {
    pub id: u64,
}

/// A poll: one record per poll identifier.
pub struct Poll {
    /// External identifier; also the input of the poll's address derivation.
    pub poll_id: u64,
    /// Free-form text, accepted as given (bounded by storage at 50 units).
    pub description: String,
    /// Start of the inclusive voting window (unix-epoch seconds).
    pub start_time: u64,
    /// End of the inclusive voting window (unix-epoch seconds).
    pub end_time: u64,
    /// Number of candidates successfully registered under this poll.
    /// Incremented by candidate registration, never decremented.
    pub candidate_amount: u64,
    /// The authoring identity, set once at creation; used for authorization.
    pub creator: Identity,
}

/// The mathematical value of a [`Poll`].
pub struct PollView {
    pub poll_id: u64,
    pub description: Seq<char>,
    pub start_time: u64,
    pub end_time: u64,
    pub candidate_amount: u64,
    pub creator: Identity,
}

impl View for Poll {
    type V = PollView;

    open spec fn view(&self) -> PollView {
        PollView {
            poll_id: self.poll_id,
            description: self.description@,
            start_time: self.start_time,
            end_time: self.end_time,
            candidate_amount: self.candidate_amount,
            creator: self.creator,
        }
    }
}

/// A candidate: one record per (poll identifier, candidate name) pair.
///
/// The record itself does not name its poll; the linkage lives entirely in
/// the address the record was created at.
pub struct Candidate {
    /// The candidate's name (bounded by storage at 50 units); part of the
    /// record's own derivation key.
    pub candidate_name: String,
    /// Number of votes cast for this candidate; starts at 0.
    pub candidate_vote: u64,
}

/// The mathematical value of a [`Candidate`].
pub struct CandidateView {
    pub candidate_name: Seq<char>,
    pub candidate_vote: u64,
}

impl View for Candidate {
    type V = CandidateView;

    open spec fn view(&self) -> CandidateView {
        CandidateView { candidate_name: self.candidate_name@, candidate_vote: self.candidate_vote }
    }
}

/// A vote receipt: one record per (poll identifier, voter identity) pair.
///
/// Its mere existence at its derived address is the double-vote guard: the
/// record is created at the first successful vote and never mutated or
/// deleted after.
#[derive(Clone, Copy, PartialEq, Eq, Structural, Debug)]
pub struct Voter {
    /// The poll this voter participated in.
    pub poll_id: u64,
    /// The identity that cast the vote.
    pub voter: Identity,
}

/// One stored record, of any of the three kinds.
pub enum Record {
    Poll(Poll),
    Candidate(Candidate),
    Voter(Voter),
}

/// The mathematical value of a [`Record`].
pub enum RecordView {
    Poll(PollView),
    Candidate(CandidateView),
    Voter(Voter),
}

impl View for Record {
    type V = RecordView;

    open spec fn view(&self) -> RecordView {
        match self {
            Record::Poll(p) => RecordView::Poll(p@),
            Record::Candidate(c) => RecordView::Candidate(c@),
            Record::Voter(v) => RecordView::Voter(*v),
        }
    }
}

/// The domain-specific failures a request handler raises itself.
///
/// `AlreadyVoted` is declared for completeness but never raised: the actual
/// double-vote guard is the store's duplicate-address rejection, which
/// surfaces as [`RequestError::AddressInUse`].
#[derive(Clone, Copy, PartialEq, Eq, Structural, Debug)]
pub enum CustomError {
    /// The loaded poll's stored identifier disagrees with the requested one.
    PollMismatch,
    /// The current time lies outside the poll's voting window.
    PollNotActive,
    /// The caller is not the poll's creator, on an operation that requires
    /// creator privilege.
    Unauthorized,
    /// Declared but unused; see the enum-level documentation.
    AlreadyVoted,
}

/// Everything a request can fail with: the store collaborator's two generic
/// failures, or a domain-specific [`CustomError`].
///
/// Any failure aborts the whole request with no partial state change.
#[derive(Clone, Copy, PartialEq, Eq, Structural, Debug)]
pub enum RequestError {
    /// Create-if-absent found the derived address already occupied.
    AddressInUse,
    /// A record the request must load is absent from its derived address.
    AccountNotFound,
    /// A validation inside the request handler failed.
    Custom(CustomError),
}

} // verus!
