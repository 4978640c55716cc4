//! The execution engine: one state-transition rule per transaction kind.
//!
//! Each rule validates in a fixed order and either mutates the ledger or
//! returns exactly one typed error, atomically. The whole transition is also
//! written down as a specification-level step function, and every executable
//! rule is proved to implement it exactly, so that every replica that
//! executes the same transaction sequence reaches the same state.

use vstd::prelude::*;

use crate::constant::BLOCKCHAIN_SERVICE_ID;
use crate::schema::{
    Administration, ElectionSchema, ElectionV, LedgerView, Participant, VoteRecord,
};
use crate::transactions::{
    CreateAdministration, CreateParticipant, IssueElection, PublicKey, SecretKey, TxHash, Vote,
};

verus! {

/// The closed set of transaction kinds, matched exhaustively by the engine.
pub enum ElectionTransactions {
    CreateParticipant(CreateParticipant),
    CreateAdministration(CreateAdministration),
    IssueElection(IssueElection),
    Vote(Vote),
}

/// The closed taxonomy of validation failures. Every failure is terminal for
/// its transaction and is reported upward unchanged.
#[derive(Clone, Copy, PartialEq, Eq, Structural, Debug)]
pub enum Error {
    ParticipantAlreadyExists,
    AdministrationAlreadyExists,
    ParticipantNotFound,
    AdministrationNotFound,
    ElectionFinishedEarlierStart,
    ElectionNotFound,
    OptionNotFound,
    VotedYet,
    ElectionInactive,
    ElectionNotStartedYet,
}

impl Error {
    /// The stable numeric code reported with each failure kind.
    pub open spec fn spec_code(self) -> u8 {
        match self {
            Error::ParticipantAlreadyExists => 1,
            Error::AdministrationAlreadyExists => 2,
            Error::ParticipantNotFound => 3,
            Error::AdministrationNotFound => 4,
            Error::ElectionFinishedEarlierStart => 5,
            Error::ElectionNotFound => 6,
            Error::OptionNotFound => 7,
            Error::VotedYet => 8,
            Error::ElectionInactive => 9,
            Error::ElectionNotStartedYet => 10,
        }
    }

    /// Returns the stable numeric code of this failure kind.
    pub fn code(&self) -> (r: u8)
        ensures
            r == self.spec_code(),
    {
        match self {
            Error::ParticipantAlreadyExists => 1,
            Error::AdministrationAlreadyExists => 2,
            Error::ParticipantNotFound => 3,
            Error::AdministrationNotFound => 4,
            Error::ElectionFinishedEarlierStart => 5,
            Error::ElectionNotFound => 6,
            Error::OptionNotFound => 7,
            Error::VotedYet => 8,
            Error::ElectionInactive => 9,
            Error::ElectionNotStartedYet => 10,
        }
    }

    /// The human-readable description reported with each failure kind.
    pub open spec fn spec_description(self) -> Seq<char> {
        match self {
            Error::ParticipantAlreadyExists => "Participant already exists"@,
            Error::AdministrationAlreadyExists => "Administration already exists"@,
            Error::ParticipantNotFound => "Unable to find participant"@,
            Error::AdministrationNotFound => "Unable to find administration"@,
            Error::ElectionFinishedEarlierStart => "Election finished before start"@,
            Error::ElectionNotFound => "Unable to find election"@,
            Error::OptionNotFound => "Unable to find selected option"@,
            Error::VotedYet => "Vote for current participant has been counted yet"@,
            Error::ElectionInactive => "Election not available for voting"@,
            Error::ElectionNotStartedYet => "Election not started yet"@,
        }
    }

    /// Returns the human-readable description of this failure kind.
    pub fn description(&self) -> (r: String)
        ensures
            r@ == self.spec_description(),
    {
        match self {
            Error::ParticipantAlreadyExists => "Participant already exists".to_owned(),
            Error::AdministrationAlreadyExists => "Administration already exists".to_owned(),
            Error::ParticipantNotFound => "Unable to find participant".to_owned(),
            Error::AdministrationNotFound => "Unable to find administration".to_owned(),
            Error::ElectionFinishedEarlierStart => "Election finished before start".to_owned(),
            Error::ElectionNotFound => "Unable to find election".to_owned(),
            Error::OptionNotFound => "Unable to find selected option".to_owned(),
            Error::VotedYet => "Vote for current participant has been counted yet".to_owned(),
            Error::ElectionInactive => "Election not available for voting".to_owned(),
            Error::ElectionNotStartedYet => "Election not started yet".to_owned(),
        }
    }
}

/// The structured failure handed upward to the replication layer: the stable
/// code together with its description.
pub struct ExecutionError {
    pub code: u8,
    pub description: String,
}

impl ExecutionError {
    /// Builds the externally reported failure from a validation error.
    pub fn from_error(value: &Error) -> (r: ExecutionError)
        ensures
            r.code == value.spec_code(),
            r.description@ == value.spec_description(),
    {
        ExecutionError { code: value.code(), description: value.description() }
    }
}

/// A transaction packaged for the wire: the payload addressed to this
/// service under its routing identifier, together with the author identity
/// the downstream layers authenticate it against. Producing the signature
/// bytes themselves is the upstream cryptography collaborator's job.
pub struct SignedTransaction {
    pub payload: ElectionTransactions,
    pub service_id: u16,
    pub author: PublicKey,
}

/// Relies on rand::random: a fresh 64-bit value from the thread-local
/// generator; nothing holds of which one comes back.
#[verifier::external_body]
fn random_seed() -> i64 {
    rand::random::<i64>()
}

impl CreateParticipant {
    /// Packages a participant registration, addressed to this service and
    /// attributed to the signing key pair.
    pub fn sign(
        name: &str,
        email: &str,
        phone_number: &str,
        pass_code: &str,
        pk: &PublicKey,
        _sk: &SecretKey,
    ) -> (r: SignedTransaction)
        ensures
            r.service_id == BLOCKCHAIN_SERVICE_ID,
            r.author == *pk,
            r.payload matches ElectionTransactions::CreateParticipant(t) && t.name@ == name@
                && t.email@ == email@ && t.phone_number@ == phone_number@ && t.pass_code@
                == pass_code@,
    {
        SignedTransaction {
            payload: ElectionTransactions::CreateParticipant(
                CreateParticipant {
                    name: name.to_owned(),
                    email: email.to_owned(),
                    phone_number: phone_number.to_owned(),
                    pass_code: pass_code.to_owned(),
                },
            ),
            service_id: BLOCKCHAIN_SERVICE_ID,
            author: *pk,
        }
    }
}

impl CreateAdministration {
    /// Packages an administration registration, addressed to this service
    /// and attributed to the signing key pair.
    pub fn sign(
        name: &str,
        principal_key: &Option<PublicKey>,
        pk: &PublicKey,
        _sk: &SecretKey,
    ) -> (r: SignedTransaction)
        ensures
            r.service_id == BLOCKCHAIN_SERVICE_ID,
            r.author == *pk,
            r.payload matches ElectionTransactions::CreateAdministration(t) && t.name@ == name@
                && t.principal_key == *principal_key,
    {
        SignedTransaction {
            payload: ElectionTransactions::CreateAdministration(
                CreateAdministration { name: name.to_owned(), principal_key: *principal_key },
            ),
            service_id: BLOCKCHAIN_SERVICE_ID,
            author: *pk,
        }
    }
}

impl IssueElection {
    /// Packages an election issuance, addressed to this service and
    /// attributed to the signing key pair. Labels are kept in input order.
    pub fn sign(
        name: &str,
        start_date: i64,
        finish_date: i64,
        options: &Vec<String>,
        pk: &PublicKey,
        _sk: &SecretKey,
    ) -> (r: SignedTransaction)
        ensures
            r.service_id == BLOCKCHAIN_SERVICE_ID,
            r.author == *pk,
            r.payload matches ElectionTransactions::IssueElection(t) && t.name@ == name@
                && t.start_date == start_date && t.finish_date == finish_date && t.options@
                == options@,
    {
        let mut stored: Vec<String> = Vec::new();
        let n: usize = options.len();
        let mut i: usize = 0;
        while i < n
            invariant
                n == options.len(),
                i <= n,
                stored@ =~= options@.take(i as int),
            decreases n - i,
        {
            stored.push(options[i].clone());
            i = i + 1;
        }
        proof {
            assert(options@.take(n as int) =~= options@);
        }
        SignedTransaction {
            payload: ElectionTransactions::IssueElection(
                IssueElection {
                    name: name.to_owned(),
                    start_date: start_date,
                    finish_date: finish_date,
                    options: stored,
                },
            ),
            service_id: BLOCKCHAIN_SERVICE_ID,
            author: *pk,
        }
    }
}

impl Vote {
    /// Packages a vote, addressed to this service and attributed to the
    /// signing key pair. The fresh seed only makes repeated identical votes
    /// hash apart; nothing is promised of its value.
    pub fn sign(election_id: i64, option_id: i32, pk: &PublicKey, _sk: &SecretKey) -> (r:
        SignedTransaction)
        ensures
            r.service_id == BLOCKCHAIN_SERVICE_ID,
            r.author == *pk,
            r.payload matches ElectionTransactions::Vote(t) && t.election_id == election_id
                && t.option_id == option_id,
    {
        SignedTransaction {
            payload: ElectionTransactions::Vote(
                Vote { election_id: election_id, option_id: option_id, seed: random_seed() },
            ),
            service_id: BLOCKCHAIN_SERVICE_ID,
            author: *pk,
        }
    }
}

impl CreateParticipant {
    /// The result this registration is owed: success exactly when the author
    /// key is still unregistered.
    pub open spec fn outcome(s: LedgerView, author: PublicKey) -> Result<(), Error> {
        if s.has_participant(author) {
            Err(Error::ParticipantAlreadyExists)
        } else {
            Ok(())
        }
    }

    /// The ledger this registration leaves behind.
    pub open spec fn applied(
        s: LedgerView,
        tx: CreateParticipant,
        author: PublicKey,
        tx_hash: TxHash,
    ) -> LedgerView {
        if s.has_participant(author) {
            s
        } else {
            LedgerView {
                participants: s.participants.push(
                    (Participant {
                        pub_key: author,
                        name: tx.name,
                        email: tx.email,
                        phone_number: tx.phone_number,
                        pass_code: tx.pass_code,
                        tx_hash: tx_hash,
                    }),
                ),
                ..s
            }
        }
    }

    /// Registers the author as a participant, at most once per key.
    pub fn execute(&self, schema: &mut ElectionSchema, author: &PublicKey, tx_hash: &TxHash) -> (r:
        Result<(), Error>)
        requires
            old(schema)@.wf(),
        ensures
            final(schema)@.wf(),
            r == Self::outcome(old(schema)@, *author),
            final(schema)@ == Self::applied(old(schema)@, *self, *author, *tx_hash),
    {
        if schema.participant(author).is_none() {
            proof {
                old(schema)@.lemma_wf_create_participant(
                    Participant {
                        pub_key: *author,
                        name: self.name,
                        email: self.email,
                        phone_number: self.phone_number,
                        pass_code: self.pass_code,
                        tx_hash: *tx_hash,
                    },
                );
            }
            schema.create_participant(
                author,
                self.name.clone(),
                self.email.clone(),
                self.phone_number.clone(),
                self.pass_code.clone(),
                tx_hash,
            );
            Ok(())
        } else {
            Err(Error::ParticipantAlreadyExists)
        }
    }
}

impl CreateAdministration {
    /// The result this registration is owed: success exactly when the author
    /// key is still unregistered.
    pub open spec fn outcome(s: LedgerView, author: PublicKey) -> Result<(), Error> {
        if s.has_administration(author) {
            Err(Error::AdministrationAlreadyExists)
        } else {
            Ok(())
        }
    }

    /// The ledger this registration leaves behind. The principal key is kept
    /// verbatim, dangling or not.
    pub open spec fn applied(
        s: LedgerView,
        tx: CreateAdministration,
        author: PublicKey,
        tx_hash: TxHash,
    ) -> LedgerView {
        if s.has_administration(author) {
            s
        } else {
            LedgerView {
                administrations: s.administrations.push(
                    (Administration {
                        pub_key: author,
                        name: tx.name,
                        principal_key: tx.principal_key,
                        tx_hash: tx_hash,
                    }),
                ),
                ..s
            }
        }
    }

    /// Registers the author as an administration, at most once per key.
    pub fn execute(&self, schema: &mut ElectionSchema, author: &PublicKey, tx_hash: &TxHash) -> (r:
        Result<(), Error>)
        requires
            old(schema)@.wf(),
        ensures
            final(schema)@.wf(),
            r == Self::outcome(old(schema)@, *author),
            final(schema)@ == Self::applied(old(schema)@, *self, *author, *tx_hash),
    {
        if schema.administration(author).is_none() {
            proof {
                old(schema)@.lemma_wf_create_administration(
                    Administration {
                        pub_key: *author,
                        name: self.name,
                        principal_key: self.principal_key,
                        tx_hash: *tx_hash,
                    },
                );
            }
            schema.create_administration(author, self.name.clone(), self.principal_key, tx_hash);
            Ok(())
        } else {
            Err(Error::AdministrationAlreadyExists)
        }
    }
}

impl IssueElection {
    /// The result an issuance is owed: the author must be a registered
    /// administration and the window must be non-empty, in that order.
    pub open spec fn outcome(s: LedgerView, tx: IssueElection, author: PublicKey) -> Result<
        (),
        Error,
    > {
        if !s.has_administration(author) {
            Err(Error::AdministrationNotFound)
        } else if tx.finish_date <= tx.start_date {
            Err(Error::ElectionFinishedEarlierStart)
        } else {
            Ok(())
        }
    }

    /// The ledger an issuance leaves behind: on success, the new election
    /// under the next id, its labels numbered 0..n in input order.
    pub open spec fn applied(
        s: LedgerView,
        tx: IssueElection,
        author: PublicKey,
        tx_hash: TxHash,
    ) -> LedgerView {
        if Self::outcome(s, tx, author) is Ok {
            LedgerView {
                elections: s.elections.push(
                    ElectionSchema::issued_election(
                        s,
                        tx.name,
                        author,
                        tx.start_date,
                        tx.finish_date,
                        tx.options@,
                        tx_hash,
                    ),
                ),
                ..s
            }
        } else {
            s
        }
    }

    /// Opens a new election, issued by a registered administration over a
    /// non-empty time window.
    pub fn execute(&self, schema: &mut ElectionSchema, author: &PublicKey, tx_hash: &TxHash) -> (r:
        Result<(), Error>)
        requires
            old(schema)@.wf(),
            old(schema)@.elections.len() < 0x7fff_ffff_ffff_ffff,
            self.options@.len() <= 0x7fff_ffff,
        ensures
            final(schema)@.wf(),
            r == Self::outcome(old(schema)@, *self, *author),
            final(schema)@ == Self::applied(old(schema)@, *self, *author, *tx_hash),
    {
        if schema.administration(author).is_none() {
            return Err(Error::AdministrationNotFound);
        }
        if self.finish_date <= self.start_date {
            return Err(Error::ElectionFinishedEarlierStart);
        }
        proof {
            old(schema)@.lemma_wf_issue_election(
                ElectionSchema::issued_election(
                    old(schema)@,
                    self.name,
                    *author,
                    self.start_date,
                    self.finish_date,
                    self.options@,
                    *tx_hash,
                ),
            );
        }
        schema.issue_election(
            self.name.clone(),
            author,
            self.start_date,
            self.finish_date,
            &self.options,
            tx_hash,
        );
        Ok(())
    }
}

impl Vote {
    /// The result a vote is owed, with the fixed failure-mode precedence:
    /// unregistered voter, then unknown election, then lifecycle, then
    /// unknown option, then an already-counted vote. The seed never takes
    /// part in any decision.
    pub open spec fn outcome(s: LedgerView, tx: Vote, author: PublicKey, now: i64) -> Result<
        (),
        Error,
    > {
        if !s.has_participant(author) {
            Err(Error::ParticipantNotFound)
        } else if !s.has_election(tx.election_id) {
            Err(Error::ElectionNotFound)
        } else if s.election(tx.election_id).not_started_yet(now) {
            Err(Error::ElectionNotStartedYet)
        } else if !s.election(tx.election_id).is_active(now) {
            Err(Error::ElectionInactive)
        } else if !s.election(tx.election_id).has_option(tx.option_id) {
            Err(Error::OptionNotFound)
        } else if s.has_vote(tx.election_id, author) {
            Err(Error::VotedYet)
        } else {
            Ok(())
        }
    }

    /// The ledger a vote leaves behind: on success, exactly one new record
    /// for the (election, voter) pair.
    pub open spec fn applied(s: LedgerView, tx: Vote, author: PublicKey, now: i64, tx_hash: TxHash) -> LedgerView {
        if Self::outcome(s, tx, author, now) is Ok {
            LedgerView {
                votes: s.votes.push(
                    (VoteRecord {
                        election_id: tx.election_id,
                        voter: author,
                        option_id: tx.option_id,
                        tx_hash: tx_hash,
                    }),
                ),
                ..s
            }
        } else {
            s
        }
    }

    /// Casts the author's vote, at most once per election, only while the
    /// election is active and only for one of its options.
    pub fn execute(
        &self,
        schema: &mut ElectionSchema,
        author: &PublicKey,
        now: i64,
        tx_hash: &TxHash,
    ) -> (r: Result<(), Error>)
        requires
            old(schema)@.wf(),
        ensures
            final(schema)@.wf(),
            r == Self::outcome(old(schema)@, *self, *author, now),
            final(schema)@ == Self::applied(old(schema)@, *self, *author, now, *tx_hash),
    {
        if schema.participant(author).is_none() {
            return Err(Error::ParticipantNotFound);
        }
        match schema.election(self.election_id) {
            None => {
                return Err(Error::ElectionNotFound);
            },
            Some(election) => {
                if !election.is_active(now) {
                    if election.not_started_yet(now) {
                        return Err(Error::ElectionNotStartedYet);
                    }
                    return Err(Error::ElectionInactive);
                }
                if !election.has_option(self.option_id) {
                    return Err(Error::OptionNotFound);
                }
            },
        }
        if schema.election_vote(self.election_id, author).is_some() {
            return Err(Error::VotedYet);
        }
        proof {
            old(schema)@.lemma_wf_vote(
                VoteRecord {
                    election_id: self.election_id,
                    voter: *author,
                    option_id: self.option_id,
                    tx_hash: *tx_hash,
                },
            );
        }
        schema.vote(self.election_id, author, self.option_id, tx_hash);
        Ok(())
    }
}

/// The result any transaction is owed against a given ledger, author and
/// trusted timestamp.
pub open spec fn step_result(
    s: LedgerView,
    tx: ElectionTransactions,
    author: PublicKey,
    now: i64,
) -> Result<(), Error> {
    match tx {
        ElectionTransactions::CreateParticipant(t) => CreateParticipant::outcome(s, author),
        ElectionTransactions::CreateAdministration(t) => CreateAdministration::outcome(s, author),
        ElectionTransactions::IssueElection(t) => IssueElection::outcome(s, t, author),
        ElectionTransactions::Vote(t) => Vote::outcome(s, t, author, now),
    }
}

/// The ledger any transaction leaves behind: unchanged on failure, mutated
/// by exactly its own rule on success.
pub open spec fn step(
    s: LedgerView,
    tx: ElectionTransactions,
    author: PublicKey,
    now: i64,
    tx_hash: TxHash,
) -> LedgerView {
    match tx {
        ElectionTransactions::CreateParticipant(t) => CreateParticipant::applied(
            s,
            t,
            author,
            tx_hash,
        ),
        ElectionTransactions::CreateAdministration(t) => CreateAdministration::applied(
            s,
            t,
            author,
            tx_hash,
        ),
        ElectionTransactions::IssueElection(t) => IssueElection::applied(s, t, author, tx_hash),
        ElectionTransactions::Vote(t) => Vote::applied(s, t, author, now, tx_hash),
    }
}

/// Applies one ordered transaction to the ledger: validates, then either
/// mutates or leaves the ledger untouched and reports exactly one typed
/// error. This is the pure state-transition function every replica runs.
pub fn execute_transaction(
    schema: &mut ElectionSchema,
    tx: &ElectionTransactions,
    author: &PublicKey,
    now: i64,
    tx_hash: &TxHash,
) -> (r: Result<(), Error>)
    requires
        old(schema)@.wf(),
        tx matches ElectionTransactions::IssueElection(t) ==> old(schema)@.elections.len()
            < 0x7fff_ffff_ffff_ffff && t.options@.len() <= 0x7fff_ffff,
    ensures
        final(schema)@.wf(),
        r == step_result(old(schema)@, *tx, *author, now),
        final(schema)@ == step(old(schema)@, *tx, *author, now, *tx_hash),
        r is Err ==> final(schema)@ == old(schema)@,
{
    match tx {
        ElectionTransactions::CreateParticipant(t) => t.execute(schema, author, tx_hash),
        ElectionTransactions::CreateAdministration(t) => t.execute(schema, author, tx_hash),
        ElectionTransactions::IssueElection(t) => t.execute(schema, author, tx_hash),
        ElectionTransactions::Vote(t) => t.execute(schema, author, now, tx_hash),
    }
}

} // verus!
