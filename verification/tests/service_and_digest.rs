//! Checks of the error taxonomy, the signing helpers, and the state digest.

use crypto_election::constant::BLOCKCHAIN_SERVICE_ID;
use crypto_election::schema::ElectionSchema;
use crypto_election::service::{Service, ServiceFactory};
use crypto_election::transactions::{
    CreateAdministration, CreateParticipant, IssueElection, PublicKey, SecretKey, TxHash, Vote,
};
use crypto_election::tx_behavior::{
    execute_transaction, ElectionTransactions, Error, ExecutionError,
};

fn pk(value: u64) -> PublicKey {
    PublicKey { value }
}

fn sk(value: u64) -> SecretKey {
    SecretKey { value }
}

fn hash(value: u64) -> TxHash {
    TxHash { value }
}

#[test]
fn error_codes_are_stable() {
    let table: &[(Error, u8)] = &[
        (Error::ParticipantAlreadyExists, 1),
        (Error::AdministrationAlreadyExists, 2),
        (Error::ParticipantNotFound, 3),
        (Error::AdministrationNotFound, 4),
        (Error::ElectionFinishedEarlierStart, 5),
        (Error::ElectionNotFound, 6),
        (Error::OptionNotFound, 7),
        (Error::VotedYet, 8),
        (Error::ElectionInactive, 9),
        (Error::ElectionNotStartedYet, 10),
    ];
    for (e, code) in table {
        assert_eq!(e.code(), *code);
    }
}

#[test]
fn execution_error_carries_code_and_description() {
    let e = ExecutionError::from_error(&Error::VotedYet);
    assert_eq!(e.code, 8);
    assert_eq!(e.description, "Vote for current participant has been counted yet");
    let e = ExecutionError::from_error(&Error::ParticipantAlreadyExists);
    assert_eq!(e.code, 1);
    assert_eq!(e.description, "Participant already exists");
}

#[test]
fn sign_packages_participant_payload() {
    let signed = CreateParticipant::sign(
        "Alice",
        "alice@example.org",
        "555-0101",
        "1234",
        &pk(1),
        &sk(2),
    );
    assert_eq!(signed.service_id, BLOCKCHAIN_SERVICE_ID);
    assert_eq!(signed.author, pk(1));
    match signed.payload {
        ElectionTransactions::CreateParticipant(t) => {
            assert_eq!(t.name, "Alice");
            assert_eq!(t.email, "alice@example.org");
            assert_eq!(t.phone_number, "555-0101");
            assert_eq!(t.pass_code, "1234");
        }
        _ => panic!("wrong payload kind"),
    }
}

#[test]
fn sign_packages_administration_and_issue_payloads() {
    let signed = CreateAdministration::sign("Board", &Some(pk(9)), &pk(3), &sk(4));
    match signed.payload {
        ElectionTransactions::CreateAdministration(t) => {
            assert_eq!(t.name, "Board");
            assert_eq!(t.principal_key, Some(pk(9)));
        }
        _ => panic!("wrong payload kind"),
    }

    let labels = vec!["Yes".to_owned(), "No".to_owned()];
    let signed = IssueElection::sign("E", 100, 200, &labels, &pk(3), &sk(4));
    match signed.payload {
        ElectionTransactions::IssueElection(t) => {
            assert_eq!(t.name, "E");
            assert_eq!(t.start_date, 100);
            assert_eq!(t.finish_date, 200);
            assert_eq!(t.options, labels);
        }
        _ => panic!("wrong payload kind"),
    }
}

#[test]
fn sign_packages_vote_payload_with_fresh_seed() {
    let signed = Vote::sign(7, 1, &pk(5), &sk(6));
    assert_eq!(signed.service_id, BLOCKCHAIN_SERVICE_ID);
    assert_eq!(signed.author, pk(5));
    match signed.payload {
        ElectionTransactions::Vote(t) => {
            assert_eq!(t.election_id, 7);
            assert_eq!(t.option_id, 1);
        }
        _ => panic!("wrong payload kind"),
    }
}

#[test]
fn service_identity() {
    let service = Service;
    assert_eq!(service.service_id(), BLOCKCHAIN_SERVICE_ID);
    assert_eq!(service.service_name(), "crypto_election");
    let mut factory = ServiceFactory;
    assert_eq!(factory.service_name(), "crypto_election");
    let made = factory.make_service();
    assert_eq!(made.service_id(), BLOCKCHAIN_SERVICE_ID);
}

fn sample_ledger() -> ElectionSchema {
    let mut schema = ElectionSchema::new();
    let admin = pk(1);
    let voter = pk(2);
    let adm_tx = ElectionTransactions::CreateAdministration(CreateAdministration {
        name: "A".to_owned(),
        principal_key: None,
    });
    execute_transaction(&mut schema, &adm_tx, &admin, 0, &hash(1)).unwrap();
    let issue = ElectionTransactions::IssueElection(IssueElection {
        name: "E".to_owned(),
        start_date: 100,
        finish_date: 200,
        options: vec!["Yes".to_owned(), "No".to_owned()],
    });
    execute_transaction(&mut schema, &issue, &admin, 0, &hash(2)).unwrap();
    let join = ElectionTransactions::CreateParticipant(CreateParticipant {
        name: "P".to_owned(),
        email: "p@example.org".to_owned(),
        phone_number: "555-0102".to_owned(),
        pass_code: "42".to_owned(),
    });
    execute_transaction(&mut schema, &join, &voter, 0, &hash(3)).unwrap();
    let ballot = ElectionTransactions::Vote(Vote { election_id: 0, option_id: 1, seed: 77 });
    execute_transaction(&mut schema, &ballot, &voter, 150, &hash(4)).unwrap();
    schema
}

#[test]
fn state_hash_is_four_fixed_size_digests() {
    let schema = sample_ledger();
    let service = Service;
    let digests = service.state_hash(&schema);
    assert_eq!(digests.len(), 4);
    for d in &digests {
        // A real digest, not the encoded collection handed back unchanged:
        // every summary is exactly 32 bytes, whatever the contents' size.
        assert_eq!(d.len(), 32);
    }
}

#[test]
fn state_hash_depends_only_on_contents() {
    let a = sample_ledger();
    let b = sample_ledger();
    assert_eq!(a.state_hash(), b.state_hash());
    let empty = ElectionSchema::new();
    assert_ne!(a.state_hash(), empty.state_hash());
    // Collections with different contents summarize differently.
    assert_ne!(a.state_hash()[0], a.state_hash()[1]);
}

#[test]
fn encoded_collections_are_length_prefixed() {
    let empty = ElectionSchema::new();
    // An empty collection encodes as its zero length alone.
    assert_eq!(empty.encode_participants(), vec![0u8; 8]);
    assert_eq!(empty.encode_votes(), vec![0u8; 8]);
    let schema = sample_ledger();
    let one_vote = schema.encode_votes();
    assert_eq!(&one_vote[0..8], &[1u8, 0, 0, 0, 0, 0, 0, 0]);
}
