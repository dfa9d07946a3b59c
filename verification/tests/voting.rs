use voting::address::Address;
use voting::records::{CustomError, Identity, Poll, Record, RequestError, Voter};
use voting::store::RecordStore;
use voting::{initialize, initialize_candidate, vote, Initialize, InitializeCandidate, InitializeVote};

fn creator() -> Identity {
    Identity { id: 5 }
}

fn new_poll(store: &mut RecordStore, poll_id: u64, start: u64, end: u64) -> Result<(), RequestError> {
    initialize(
        store,
        Initialize {
            poll_id,
            description: "city budget".to_string(),
            start_time: start,
            end_time: end,
            signer: creator(),
        },
    )
}

fn register(store: &mut RecordStore, poll_id: u64, name: &str, signer: Identity) -> Result<(), RequestError> {
    initialize_candidate(
        store,
        InitializeCandidate { poll_id, candidate_name: name.to_string(), signer },
    )
}

fn cast(store: &mut RecordStore, poll_id: u64, name: &str, signer: Identity, t: u64) -> Result<(), RequestError> {
    vote(
        store,
        InitializeVote { poll_id, candidate_name: name.to_string(), signer, current_time: t },
    )
}

fn read_poll(store: &RecordStore, poll_id: u64) -> Option<Poll> {
    match store.read(&Address::Poll { poll_id }) {
        Some(Record::Poll(p)) => Some(Poll {
            poll_id: p.poll_id,
            description: p.description.clone(),
            start_time: p.start_time,
            end_time: p.end_time,
            candidate_amount: p.candidate_amount,
            creator: p.creator,
        }),
        _ => None,
    }
}

fn candidate_votes(store: &RecordStore, poll_id: u64, name: &str) -> Option<u64> {
    match store.read(&Address::Candidate { poll_id, name: name.to_string() }) {
        Some(Record::Candidate(c)) => Some(c.candidate_vote),
        _ => None,
    }
}

fn receipt(store: &RecordStore, poll_id: u64, voter: Identity) -> Option<Voter> {
    match store.read(&Address::Voter { poll_id, voter }) {
        Some(Record::Voter(v)) => Some(*v),
        _ => None,
    }
}

#[test]
fn create_poll_sets_fields() {
    let mut store = RecordStore::new();
    assert_eq!(new_poll(&mut store, 1, 100, 200), Ok(()));
    let p = read_poll(&store, 1).unwrap();
    assert_eq!(p.poll_id, 1);
    assert_eq!(p.description, "city budget");
    assert_eq!(p.start_time, 100);
    assert_eq!(p.end_time, 200);
    assert_eq!(p.candidate_amount, 0);
    assert_eq!(p.creator, creator());
}

#[test]
fn create_poll_twice_fails_and_preserves_first() {
    let mut store = RecordStore::new();
    assert_eq!(new_poll(&mut store, 1, 100, 200), Ok(()));
    let second = initialize(
        &mut store,
        Initialize {
            poll_id: 1,
            description: "other text".to_string(),
            start_time: 0,
            end_time: 9,
            signer: Identity { id: 99 },
        },
    );
    assert_eq!(second, Err(RequestError::AddressInUse));
    let p = read_poll(&store, 1).unwrap();
    assert_eq!(p.description, "city budget");
    assert_eq!(p.start_time, 100);
    assert_eq!(p.end_time, 200);
    assert_eq!(p.creator, creator());
}

#[test]
fn create_poll_accepts_inverted_window() {
    // start_time > end_time is not validated at creation; the poll is simply
    // never active.
    let mut store = RecordStore::new();
    assert_eq!(new_poll(&mut store, 1, 200, 100), Ok(()));
    assert_eq!(register(&mut store, 1, "alice", creator()), Ok(()));
    assert_eq!(
        cast(&mut store, 1, "alice", Identity { id: 7 }, 150),
        Err(RequestError::Custom(CustomError::PollNotActive))
    );
}

#[test]
fn register_candidate_starts_at_zero_votes() {
    let mut store = RecordStore::new();
    new_poll(&mut store, 1, 100, 200).unwrap();
    assert_eq!(register(&mut store, 1, "alice", creator()), Ok(()));
    assert_eq!(candidate_votes(&store, 1, "alice"), Some(0));
    assert_eq!(read_poll(&store, 1).unwrap().candidate_amount, 1);
}

#[test]
fn register_same_candidate_twice_fails_and_counts_once() {
    let mut store = RecordStore::new();
    new_poll(&mut store, 1, 100, 200).unwrap();
    assert_eq!(register(&mut store, 1, "alice", creator()), Ok(()));
    assert_eq!(register(&mut store, 1, "alice", creator()), Err(RequestError::AddressInUse));
    // The duplicate attempt is aborted as a whole: the count reflects only
    // the successful registration.
    assert_eq!(read_poll(&store, 1).unwrap().candidate_amount, 1);
    assert_eq!(candidate_votes(&store, 1, "alice"), Some(0));
}

#[test]
fn register_by_non_creator_is_unauthorized() {
    let mut store = RecordStore::new();
    new_poll(&mut store, 1, 100, 200).unwrap();
    let outsider = Identity { id: 6 };
    assert_eq!(
        register(&mut store, 1, "alice", outsider),
        Err(RequestError::Custom(CustomError::Unauthorized))
    );
    assert_eq!(read_poll(&store, 1).unwrap().candidate_amount, 0);
    assert_eq!(candidate_votes(&store, 1, "alice"), None);
}

#[test]
fn register_on_missing_poll_fails() {
    let mut store = RecordStore::new();
    assert_eq!(register(&mut store, 1, "alice", creator()), Err(RequestError::AccountNotFound));
}

#[test]
fn register_detects_poll_id_mismatch() {
    // A record whose stored identifier disagrees with the address it sits at
    // can only come from outside the three request handlers; registration
    // still defends against it.
    let mut store = RecordStore::new();
    let stray = Poll {
        poll_id: 2,
        description: "planted".to_string(),
        start_time: 100,
        end_time: 200,
        candidate_amount: 0,
        creator: creator(),
    };
    store
        .create_if_absent(Address::Poll { poll_id: 1 }, Record::Poll(stray))
        .unwrap();
    assert_eq!(
        register(&mut store, 1, "alice", creator()),
        Err(RequestError::Custom(CustomError::PollMismatch))
    );
}

#[test]
fn vote_before_start_fails() {
    let mut store = RecordStore::new();
    new_poll(&mut store, 1, 100, 200).unwrap();
    register(&mut store, 1, "alice", creator()).unwrap();
    assert_eq!(
        cast(&mut store, 1, "alice", Identity { id: 7 }, 99),
        Err(RequestError::Custom(CustomError::PollNotActive))
    );
    assert_eq!(candidate_votes(&store, 1, "alice"), Some(0));
}

#[test]
fn vote_after_end_fails() {
    let mut store = RecordStore::new();
    new_poll(&mut store, 1, 100, 200).unwrap();
    register(&mut store, 1, "alice", creator()).unwrap();
    assert_eq!(
        cast(&mut store, 1, "alice", Identity { id: 7 }, 201),
        Err(RequestError::Custom(CustomError::PollNotActive))
    );
    assert_eq!(candidate_votes(&store, 1, "alice"), Some(0));
}

#[test]
fn vote_window_is_inclusive() {
    let mut store = RecordStore::new();
    new_poll(&mut store, 1, 100, 200).unwrap();
    register(&mut store, 1, "alice", creator()).unwrap();
    assert_eq!(cast(&mut store, 1, "alice", Identity { id: 7 }, 100), Ok(()));
    assert_eq!(cast(&mut store, 1, "alice", Identity { id: 8 }, 200), Ok(()));
    assert_eq!(candidate_votes(&store, 1, "alice"), Some(2));
}

#[test]
fn vote_for_missing_candidate_fails() {
    let mut store = RecordStore::new();
    new_poll(&mut store, 1, 100, 200).unwrap();
    assert_eq!(
        cast(&mut store, 1, "alice", Identity { id: 7 }, 150),
        Err(RequestError::AccountNotFound)
    );
}

#[test]
fn vote_on_missing_poll_fails() {
    let mut store = RecordStore::new();
    assert_eq!(
        cast(&mut store, 1, "alice", Identity { id: 7 }, 150),
        Err(RequestError::AccountNotFound)
    );
}

#[test]
fn vote_creates_receipt_and_increments_tally() {
    let mut store = RecordStore::new();
    new_poll(&mut store, 1, 100, 200).unwrap();
    register(&mut store, 1, "alice", creator()).unwrap();
    let v = Identity { id: 7 };
    assert_eq!(cast(&mut store, 1, "alice", v, 150), Ok(()));
    assert_eq!(candidate_votes(&store, 1, "alice"), Some(1));
    let r = receipt(&store, 1, v).unwrap();
    assert_eq!(r.poll_id, 1);
    assert_eq!(r.voter, v);
}

#[test]
fn second_vote_by_same_identity_fails() {
    let mut store = RecordStore::new();
    new_poll(&mut store, 1, 100, 200).unwrap();
    register(&mut store, 1, "alice", creator()).unwrap();
    register(&mut store, 1, "bob", creator()).unwrap();
    let v = Identity { id: 7 };
    assert_eq!(cast(&mut store, 1, "alice", v, 150), Ok(()));
    // Same identity, same poll, other candidate, later time: still rejected.
    assert_eq!(cast(&mut store, 1, "bob", v, 160), Err(RequestError::AddressInUse));
    assert_eq!(candidate_votes(&store, 1, "alice"), Some(1));
    assert_eq!(candidate_votes(&store, 1, "bob"), Some(0));
}

#[test]
fn same_identity_may_vote_in_another_poll() {
    let mut store = RecordStore::new();
    new_poll(&mut store, 1, 100, 200).unwrap();
    new_poll(&mut store, 2, 100, 200).unwrap();
    register(&mut store, 1, "alice", creator()).unwrap();
    register(&mut store, 2, "alice", creator()).unwrap();
    let v = Identity { id: 7 };
    assert_eq!(cast(&mut store, 1, "alice", v, 150), Ok(()));
    assert_eq!(cast(&mut store, 2, "alice", v, 150), Ok(()));
    assert_eq!(candidate_votes(&store, 1, "alice"), Some(1));
    assert_eq!(candidate_votes(&store, 2, "alice"), Some(1));
}

#[test]
fn racing_votes_admit_exactly_one() {
    // Two identical requests, serialized by the host: one wins, the other
    // observes the duplicate-address rejection, and the tally rises once.
    let mut store = RecordStore::new();
    new_poll(&mut store, 1, 100, 200).unwrap();
    register(&mut store, 1, "alice", creator()).unwrap();
    let v = Identity { id: 7 };
    let first = cast(&mut store, 1, "alice", v, 150);
    let second = cast(&mut store, 1, "alice", v, 150);
    assert_eq!(first, Ok(()));
    assert_eq!(second, Err(RequestError::AddressInUse));
    assert_eq!(candidate_votes(&store, 1, "alice"), Some(1));
}

#[test]
fn end_to_end_scenario() {
    let mut store = RecordStore::new();
    assert_eq!(new_poll(&mut store, 1, 100, 200), Ok(()));
    assert_eq!(register(&mut store, 1, "Alice", creator()), Ok(()));
    assert_eq!(register(&mut store, 1, "Bob", creator()), Ok(()));
    assert_eq!(read_poll(&store, 1).unwrap().candidate_amount, 2);

    let v1 = Identity { id: 41 };
    assert_eq!(cast(&mut store, 1, "Alice", v1, 150), Ok(()));
    assert_eq!(candidate_votes(&store, 1, "Alice"), Some(1));
    let r = receipt(&store, 1, v1).unwrap();
    assert_eq!(r.poll_id, 1);
    assert_eq!(r.voter, v1);

    assert!(cast(&mut store, 1, "Bob", v1, 160).is_err());
    assert_eq!(candidate_votes(&store, 1, "Bob"), Some(0));
}

#[test]
fn distinct_names_get_distinct_records() {
    let mut store = RecordStore::new();
    new_poll(&mut store, 1, 100, 200).unwrap();
    register(&mut store, 1, "alice", creator()).unwrap();
    register(&mut store, 1, "alicia", creator()).unwrap();
    assert_eq!(read_poll(&store, 1).unwrap().candidate_amount, 2);
    assert_eq!(candidate_votes(&store, 1, "alice"), Some(0));
    assert_eq!(candidate_votes(&store, 1, "alicia"), Some(0));
}
