//! The ledger's laws: properties of whole transaction sequences and of the
//! failure-mode precedence, proved once and for all over the specification-
//! level step function that every executable rule implements exactly.

use vstd::prelude::*;

use crate::schema::LedgerView;
use crate::transactions::{CreateParticipant, IssueElection, PublicKey, TxHash, Vote};
use crate::tx_behavior::{step, step_result, ElectionTransactions, Error};

verus! {

/// One ordered, authenticated transaction as the replication layer hands it
/// to the engine: payload, verified author, trusted timestamp, and hash.
pub struct TxInstance {
    pub tx: ElectionTransactions,
    pub author: PublicKey,
    pub now: i64,
    pub tx_hash: TxHash,
}

/// Machine-width bound on one instance: an issuance carries at most
/// `i32::MAX` option labels, so option ids fit their type.
pub open spec fn option_bound(t: TxInstance) -> bool {
    t.tx matches ElectionTransactions::IssueElection(e) ==> e.options@.len() <= 0x7fff_ffff
}

/// The ledger left behind by a whole transaction sequence, applied in order.
pub open spec fn run(s: LedgerView, txs: Seq<TxInstance>) -> LedgerView
    decreases txs.len(),
{
    if txs.len() == 0 {
        s
    } else {
        step(
            run(s, txs.drop_last()),
            txs.last().tx,
            txs.last().author,
            txs.last().now,
            txs.last().tx_hash,
        )
    }
}

/// One step from a well-formed ledger leaves a well-formed ledger, and grows
/// the election list by at most one.
pub proof fn lemma_step_preserves_wf(
    s: LedgerView,
    tx: ElectionTransactions,
    author: PublicKey,
    now: i64,
    tx_hash: TxHash,
)
    requires
        s.wf(),
        tx matches ElectionTransactions::IssueElection(e) ==> s.elections.len()
            < 0x7fff_ffff_ffff_ffff && e.options@.len() <= 0x7fff_ffff,
    ensures
        step(s, tx, author, now, tx_hash).wf(),
        step(s, tx, author, now, tx_hash).elections.len() <= s.elections.len() + 1,
{
    match tx {
        ElectionTransactions::CreateParticipant(t) => {
            if !s.has_participant(author) {
                s.lemma_wf_create_participant(
                    crate::schema::Participant {
                        pub_key: author,
                        name: t.name,
                        email: t.email,
                        phone_number: t.phone_number,
                        pass_code: t.pass_code,
                        tx_hash: tx_hash,
                    },
                );
            }
        },
        ElectionTransactions::CreateAdministration(t) => {
            if !s.has_administration(author) {
                s.lemma_wf_create_administration(
                    crate::schema::Administration {
                        pub_key: author,
                        name: t.name,
                        principal_key: t.principal_key,
                        tx_hash: tx_hash,
                    },
                );
            }
        },
        ElectionTransactions::IssueElection(t) => {
            if IssueElection::outcome(s, t, author) is Ok {
                s.lemma_wf_issue_election(
                    crate::schema::ElectionSchema::issued_election(
                        s,
                        t.name,
                        author,
                        t.start_date,
                        t.finish_date,
                        t.options@,
                        tx_hash,
                    ),
                );
            }
        },
        ElectionTransactions::Vote(t) => {
            if Vote::outcome(s, t, author, now) is Ok {
                s.lemma_wf_vote(
                    crate::schema::VoteRecord {
                        election_id: t.election_id,
                        voter: author,
                        option_id: t.option_id,
                        tx_hash: tx_hash,
                    },
                );
            }
        },
    }
}

/// A whole transaction sequence, applied in order to a well-formed ledger,
/// leaves a well-formed ledger.
pub proof fn lemma_run_preserves_wf(s: LedgerView, txs: Seq<TxInstance>)
    requires
        s.wf(),
        s.elections.len() + txs.len() <= 0x7fff_ffff_ffff_ffff,
        forall|i: int| 0 <= i < txs.len() ==> option_bound(#[trigger] txs[i]),
    ensures
        run(s, txs).wf(),
        run(s, txs).elections.len() <= s.elections.len() + txs.len(),
    decreases txs.len(),
{
    if txs.len() > 0 {
        let prefix = txs.drop_last();
        assert(forall|i: int| 0 <= i < prefix.len() ==> option_bound(#[trigger] prefix[i]))
            by {
            assert(forall|i: int| 0 <= i < prefix.len() ==> prefix[i] == #[trigger] txs[i]);
        }
        lemma_run_preserves_wf(s, prefix);
        assert(option_bound(txs[txs.len() - 1]));
        lemma_step_preserves_wf(
            run(s, prefix),
            txs.last().tx,
            txs.last().author,
            txs.last().now,
            txs.last().tx_hash,
        );
    }
}

/// Law (uniqueness): after processing any transaction sequence, at most one
/// participant record and at most one administration record exist for any
/// public key — two positions holding the same key are the same position.
pub proof fn lemma_uniqueness(s: LedgerView, txs: Seq<TxInstance>, k: PublicKey)
    requires
        s.wf(),
        s.elections.len() + txs.len() <= 0x7fff_ffff_ffff_ffff,
        forall|i: int| 0 <= i < txs.len() ==> option_bound(#[trigger] txs[i]),
    ensures
        forall|i: int, j: int|
            0 <= i < run(s, txs).participants.len() && 0 <= j < run(s, txs).participants.len() && (
            #[trigger] run(s, txs).participants[i]).pub_key == k && (#[trigger] run(
                s,
                txs,
            ).participants[j]).pub_key == k ==> i == j,
        forall|i: int, j: int|
            0 <= i < run(s, txs).administrations.len() && 0 <= j < run(
                s,
                txs,
            ).administrations.len() && (#[trigger] run(s, txs).administrations[i]).pub_key == k && (
            #[trigger] run(s, txs).administrations[j]).pub_key == k ==> i == j,
{
    lemma_run_preserves_wf(s, txs);
}

/// Law (single vote): after processing any transaction sequence, at most one
/// vote record exists for any (election, voter) pair.
pub proof fn lemma_single_vote(s: LedgerView, txs: Seq<TxInstance>, election_id: i64, voter: PublicKey)
    requires
        s.wf(),
        s.elections.len() + txs.len() <= 0x7fff_ffff_ffff_ffff,
        forall|i: int| 0 <= i < txs.len() ==> option_bound(#[trigger] txs[i]),
    ensures
        forall|i: int, j: int|
            0 <= i < run(s, txs).votes.len() && 0 <= j < run(s, txs).votes.len() && (#[trigger] run(
                s,
                txs,
            ).votes[i]).election_id == election_id && run(s, txs).votes[i].voter == voter && (
            #[trigger] run(s, txs).votes[j]).election_id == election_id && run(s, txs).votes[j].voter
                == voter ==> i == j,
{
    lemma_run_preserves_wf(s, txs);
}

/// Law (idempotent rejection): registering a key succeeds once, and a second
/// registration of the same key fails with `ParticipantAlreadyExists`,
/// whatever the two payloads hold.
pub proof fn lemma_idempotent_rejection(
    s: LedgerView,
    tx1: CreateParticipant,
    tx2: CreateParticipant,
    k: PublicKey,
    h1: TxHash,
)
    requires
        !s.has_participant(k),
    ensures
        CreateParticipant::outcome(s, k) == Ok::<(), Error>(()),
        CreateParticipant::outcome(CreateParticipant::applied(s, tx1, k, h1), k) == Err::<
            (),
            Error,
        >(Error::ParticipantAlreadyExists),
{
    let s1 = CreateParticipant::applied(s, tx1, k, h1);
    assert((#[trigger] s1.participants[s1.participants.len() - 1]).pub_key == k);
}

/// Law (temporal validity): issuance by a registered administration fails
/// with `ElectionFinishedEarlierStart` exactly when the window is empty, and
/// succeeds exactly when the finish lies strictly after the start.
pub proof fn lemma_temporal_validity(s: LedgerView, tx: IssueElection, author: PublicKey)
    requires
        s.has_administration(author),
    ensures
        tx.finish_date <= tx.start_date ==> IssueElection::outcome(s, tx, author) == Err::<
            (),
            Error,
        >(Error::ElectionFinishedEarlierStart),
        tx.finish_date > tx.start_date ==> IssueElection::outcome(s, tx, author) == Ok::<
            (),
            Error,
        >(()),
{
}

/// Law (vote precedence): an unregistered voter always gets
/// `ParticipantNotFound`, whatever election id the vote names — the
/// participant check comes before the election lookup.
pub proof fn lemma_vote_precedence(s: LedgerView, tx: Vote, author: PublicKey, now: i64)
    requires
        !s.has_participant(author),
    ensures
        Vote::outcome(s, tx, author, now) == Err::<(), Error>(Error::ParticipantNotFound),
{
}

/// Law (single vote, rejection): once a voter's vote is counted in an
/// election, a second vote in it by the same voter fails `VotedYet` — for
/// any seed and any existing option, at any time the election is active.
pub proof fn lemma_second_vote_rejected(
    s: LedgerView,
    tx1: Vote,
    tx2: Vote,
    author: PublicKey,
    now1: i64,
    now2: i64,
    h1: TxHash,
)
    requires
        Vote::outcome(s, tx1, author, now1) == Ok::<(), Error>(()),
        tx2.election_id == tx1.election_id,
        s.election(tx2.election_id).is_active(now2),
        s.election(tx2.election_id).has_option(tx2.option_id),
    ensures
        Vote::outcome(Vote::applied(s, tx1, author, now1, h1), tx2, author, now2) == Err::<
            (),
            Error,
        >(Error::VotedYet),
{
    let s1 = Vote::applied(s, tx1, author, now1, h1);
    assert(s1.has_participant(author)) by {
        let w = choose|i: int|
            0 <= i < s.participants.len() && (#[trigger] s.participants[i]).pub_key == author;
        assert((#[trigger] s1.participants[w]).pub_key == author);
    }
    assert(s1.election(tx2.election_id) == s.election(tx2.election_id));
    assert((#[trigger] s1.votes[s1.votes.len() - 1]).election_id == tx2.election_id);
    assert(s1.has_vote(tx2.election_id, author));
}

/// Law (lifecycle boundary): over the half-open window `[start, finish)` of
/// an existing election, an otherwise valid vote succeeds at `now == start`,
/// fails `ElectionNotStartedYet` at `now == start - 1`, and fails
/// `ElectionInactive` at `now == finish`.
pub proof fn lemma_lifecycle_boundary(s: LedgerView, tx: Vote, author: PublicKey)
    requires
        s.wf(),
        s.has_participant(author),
        s.has_election(tx.election_id),
        s.election(tx.election_id).has_option(tx.option_id),
        !s.has_vote(tx.election_id, author),
    ensures
        Vote::outcome(s, tx, author, s.election(tx.election_id).start_date) == Ok::<(), Error>(()),
        s.election(tx.election_id).start_date > i64::MIN ==> Vote::outcome(
            s,
            tx,
            author,
            (s.election(tx.election_id).start_date - 1) as i64,
        ) == Err::<(), Error>(Error::ElectionNotStartedYet),
        Vote::outcome(s, tx, author, s.election(tx.election_id).finish_date) == Err::<(), Error>(
            Error::ElectionInactive,
        ),
{
    assert(s.election(tx.election_id).wf_at(tx.election_id as int));
}

} // verus!
