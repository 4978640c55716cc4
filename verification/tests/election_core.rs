//! End-to-end checks of the execution engine: validation order, lifecycle
//! boundaries, idempotent rejections, and the vote-uniqueness rules.

use crypto_election::schema::ElectionSchema;
use crypto_election::transactions::{
    CreateAdministration, CreateParticipant, IssueElection, PublicKey, TxHash, Vote,
};
use crypto_election::tx_behavior::{execute_transaction, ElectionTransactions, Error};

fn pk(value: u64) -> PublicKey {
    PublicKey { value }
}

fn hash(value: u64) -> TxHash {
    TxHash { value }
}

fn participant_tx(name: &str) -> ElectionTransactions {
    ElectionTransactions::CreateParticipant(CreateParticipant {
        name: name.to_owned(),
        email: format!("{}@example.org", name),
        phone_number: "555-0100".to_owned(),
        pass_code: "0000".to_owned(),
    })
}

fn administration_tx(name: &str, principal: Option<PublicKey>) -> ElectionTransactions {
    ElectionTransactions::CreateAdministration(CreateAdministration {
        name: name.to_owned(),
        principal_key: principal,
    })
}

fn issue_tx(name: &str, start: i64, finish: i64, labels: &[&str]) -> ElectionTransactions {
    ElectionTransactions::IssueElection(IssueElection {
        name: name.to_owned(),
        start_date: start,
        finish_date: finish,
        options: labels.iter().map(|l| (*l).to_owned()).collect(),
    })
}

fn vote_tx(election_id: i64, option_id: i32, seed: i64) -> ElectionTransactions {
    ElectionTransactions::Vote(Vote {
        election_id,
        option_id,
        seed,
    })
}

#[test]
fn scenario_issue_vote_revote_stranger() {
    let mut schema = ElectionSchema::new();
    let admin = pk(1);
    let voter = pk(2);
    let stranger = pk(3);

    let r = execute_transaction(&mut schema, &administration_tx("A", None), &admin, 0, &hash(10));
    assert_eq!(r, Ok(()));
    let r = execute_transaction(
        &mut schema,
        &issue_tx("E", 100, 200, &["Yes", "No"]),
        &admin,
        0,
        &hash(11),
    );
    assert_eq!(r, Ok(()));
    let r = execute_transaction(&mut schema, &participant_tx("P"), &voter, 0, &hash(12));
    assert_eq!(r, Ok(()));

    let r = execute_transaction(&mut schema, &vote_tx(0, 1, 7), &voter, 150, &hash(13));
    assert_eq!(r, Ok(()));
    let record = schema.election_vote(0, &voter).expect("vote must be recorded");
    assert_eq!(record.option_id, 1);
    assert_eq!(record.tx_hash, hash(13));

    let r = execute_transaction(&mut schema, &vote_tx(0, 0, 8), &voter, 160, &hash(14));
    assert_eq!(r, Err(Error::VotedYet));

    let r = execute_transaction(&mut schema, &vote_tx(0, 1, 9), &stranger, 150, &hash(15));
    assert_eq!(r, Err(Error::ParticipantNotFound));

    let votes = schema.election_votes(0);
    assert_eq!(votes.len(), 1);
    assert_eq!(votes[0].voter, voter);
}

#[test]
fn participant_registration_is_idempotently_rejected() {
    let mut schema = ElectionSchema::new();
    let k = pk(5);
    let r = execute_transaction(&mut schema, &participant_tx("first"), &k, 0, &hash(1));
    assert_eq!(r, Ok(()));
    // A second registration fails regardless of its payload fields.
    let r = execute_transaction(&mut schema, &participant_tx("other"), &k, 0, &hash(2));
    assert_eq!(r, Err(Error::ParticipantAlreadyExists));
    assert!(schema.participant(&k).is_some());
}

#[test]
fn administration_registration_is_idempotently_rejected() {
    let mut schema = ElectionSchema::new();
    let k = pk(6);
    let r = execute_transaction(&mut schema, &administration_tx("adm", Some(pk(99))), &k, 0, &hash(1));
    assert_eq!(r, Ok(()));
    let a = schema.administration(&k).expect("administration must exist");
    // The principal key is stored verbatim even though pk(99) is dangling.
    assert_eq!(a.principal_key, Some(pk(99)));
    let r = execute_transaction(&mut schema, &administration_tx("again", None), &k, 0, &hash(2));
    assert_eq!(r, Err(Error::AdministrationAlreadyExists));
}

#[test]
fn issuance_requires_registered_administration() {
    let mut schema = ElectionSchema::new();
    let r = execute_transaction(
        &mut schema,
        &issue_tx("E", 1, 2, &["a"]),
        &pk(7),
        0,
        &hash(1),
    );
    assert_eq!(r, Err(Error::AdministrationNotFound));
}

#[test]
fn issuance_rejects_empty_window() {
    let mut schema = ElectionSchema::new();
    let admin = pk(8);
    execute_transaction(&mut schema, &administration_tx("A", None), &admin, 0, &hash(1)).unwrap();
    let r = execute_transaction(&mut schema, &issue_tx("E", 5, 5, &["a"]), &admin, 0, &hash(2));
    assert_eq!(r, Err(Error::ElectionFinishedEarlierStart));
    let r = execute_transaction(&mut schema, &issue_tx("E", 5, 4, &["a"]), &admin, 0, &hash(3));
    assert_eq!(r, Err(Error::ElectionFinishedEarlierStart));
    let r = execute_transaction(&mut schema, &issue_tx("E", 5, 6, &["a"]), &admin, 0, &hash(4));
    assert_eq!(r, Ok(()));
}

#[test]
fn election_ids_are_assigned_in_order() {
    let mut schema = ElectionSchema::new();
    let admin = pk(9);
    execute_transaction(&mut schema, &administration_tx("A", None), &admin, 0, &hash(1)).unwrap();
    execute_transaction(&mut schema, &issue_tx("E0", 1, 2, &["x"]), &admin, 0, &hash(2)).unwrap();
    execute_transaction(&mut schema, &issue_tx("E1", 3, 9, &["y", "z"]), &admin, 0, &hash(3))
        .unwrap();
    let e0 = schema.election(0).expect("election 0 exists");
    let e1 = schema.election(1).expect("election 1 exists");
    assert_eq!(e0.id, 0);
    assert_eq!(e0.name, "E0");
    assert_eq!(e1.id, 1);
    assert_eq!(e1.options.len(), 2);
    assert_eq!(e1.options[0].id, 0);
    assert_eq!(e1.options[0].label, "y");
    assert_eq!(e1.options[1].id, 1);
    assert_eq!(e1.options[1].label, "z");
    assert!(schema.election(2).is_none());
    assert!(schema.election(-1).is_none());
}

#[test]
fn unregistered_voter_precedes_unknown_election() {
    let mut schema = ElectionSchema::new();
    // No participant and no election 42: the participant check wins.
    let r = execute_transaction(&mut schema, &vote_tx(42, 0, 1), &pk(10), 50, &hash(1));
    assert_eq!(r, Err(Error::ParticipantNotFound));
}

#[test]
fn vote_on_unknown_election_fails() {
    let mut schema = ElectionSchema::new();
    let voter = pk(11);
    execute_transaction(&mut schema, &participant_tx("P"), &voter, 0, &hash(1)).unwrap();
    let r = execute_transaction(&mut schema, &vote_tx(42, 0, 1), &voter, 50, &hash(2));
    assert_eq!(r, Err(Error::ElectionNotFound));
}

#[test]
fn vote_on_unknown_option_fails() {
    let mut schema = ElectionSchema::new();
    let admin = pk(12);
    let voter = pk(13);
    execute_transaction(&mut schema, &administration_tx("A", None), &admin, 0, &hash(1)).unwrap();
    execute_transaction(&mut schema, &issue_tx("E", 100, 200, &["Yes", "No"]), &admin, 0, &hash(2))
        .unwrap();
    execute_transaction(&mut schema, &participant_tx("P"), &voter, 0, &hash(3)).unwrap();
    let r = execute_transaction(&mut schema, &vote_tx(0, 5, 1), &voter, 150, &hash(4));
    assert_eq!(r, Err(Error::OptionNotFound));
}

#[test]
fn lifecycle_boundaries_are_half_open() {
    let mut schema = ElectionSchema::new();
    let admin = pk(14);
    let voter = pk(15);
    execute_transaction(&mut schema, &administration_tx("A", None), &admin, 0, &hash(1)).unwrap();
    execute_transaction(&mut schema, &issue_tx("E", 100, 200, &["Yes"]), &admin, 0, &hash(2))
        .unwrap();
    execute_transaction(&mut schema, &participant_tx("P"), &voter, 0, &hash(3)).unwrap();

    let r = execute_transaction(&mut schema, &vote_tx(0, 0, 1), &voter, 99, &hash(4));
    assert_eq!(r, Err(Error::ElectionNotStartedYet));
    let r = execute_transaction(&mut schema, &vote_tx(0, 0, 1), &voter, 200, &hash(5));
    assert_eq!(r, Err(Error::ElectionInactive));
    let r = execute_transaction(&mut schema, &vote_tx(0, 0, 1), &voter, 201, &hash(6));
    assert_eq!(r, Err(Error::ElectionInactive));
    // The start instant itself is inside the window.
    let r = execute_transaction(&mut schema, &vote_tx(0, 0, 1), &voter, 100, &hash(7));
    assert_eq!(r, Ok(()));
}

#[test]
fn failed_execution_leaves_no_trace() {
    let mut schema = ElectionSchema::new();
    let admin = pk(16);
    let voter = pk(17);
    execute_transaction(&mut schema, &administration_tx("A", None), &admin, 0, &hash(1)).unwrap();
    execute_transaction(&mut schema, &issue_tx("E", 100, 200, &["Yes"]), &admin, 0, &hash(2))
        .unwrap();
    execute_transaction(&mut schema, &participant_tx("P"), &voter, 0, &hash(3)).unwrap();
    // A vote rejected for timing must not create a record.
    let r = execute_transaction(&mut schema, &vote_tx(0, 0, 1), &voter, 10, &hash(4));
    assert_eq!(r, Err(Error::ElectionNotStartedYet));
    assert!(schema.election_vote(0, &voter).is_none());
    assert_eq!(schema.election_votes(0).len(), 0);
}

#[test]
fn at_most_one_record_per_key_after_a_sequence() {
    let mut schema = ElectionSchema::new();
    let k = pk(18);
    for round in 0..5u64 {
        let _ = execute_transaction(&mut schema, &participant_tx("P"), &k, 0, &hash(round));
        let _ = execute_transaction(&mut schema, &administration_tx("A", None), &k, 0, &hash(100 + round));
    }
    assert_eq!(schema.participants.len(), 1);
    assert_eq!(schema.administrations.len(), 1);
}
