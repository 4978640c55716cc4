//! The ledger schema: typed collections for participants, administrations,
//! elections and vote records, with the committed-state invariants.
//!
//! The schema is a dumb storage accessor: every method's precondition is the
//! caller's obligation (the execution engine checks before it writes), and no
//! validation logic lives here.

use vstd::prelude::*;

use crate::transactions::{PublicKey, TxHash};

verus! {

/// A registered voter. Created once, immutable, never deleted.
pub struct Participant {
    pub pub_key: PublicKey,
    pub name: String,
    pub email: String,
    pub phone_number: String,
    pub pass_code: String,
    pub tx_hash: TxHash,
}

/// A registered election issuer. The principal key is a weak reference that
/// may dangle; it is stored verbatim and never checked for existence.
pub struct Administration {
    pub pub_key: PublicKey,
    pub name: String,
    pub principal_key: Option<PublicKey>,
    pub tx_hash: TxHash,
}

/// One selectable option of an election: options are stored in issuance
/// order with ids 0, 1, ... matching their position.
pub struct ElectionOption {
    pub id: i32,
    pub label: String,
}

/// An issued election, active over the half-open window `[start, finish)`.
pub struct Election {
    pub id: i64,
    pub issuer: PublicKey,
    pub name: String,
    pub start_date: i64,
    pub finish_date: i64,
    pub options: Vec<ElectionOption>,
    pub tx_hash: TxHash,
}

/// One cast vote, keyed by (election id, voter key). Created at most once
/// per pair, immutable, never deleted.
#[derive(Clone, Copy, PartialEq, Eq, Structural, Debug)]
pub struct VoteRecord {
    pub election_id: i64,
    pub voter: PublicKey,
    pub option_id: i32,
    pub tx_hash: TxHash,
}

/// Mathematical value of an election: the option list as a sequence.
pub struct ElectionV {
    pub id: i64,
    pub issuer: PublicKey,
    pub name: String,
    pub start_date: i64,
    pub finish_date: i64,
    pub options: Seq<ElectionOption>,
    pub tx_hash: TxHash,
}

impl View for Election {
    type V = ElectionV;

    open spec fn view(&self) -> ElectionV {
        ElectionV {
            id: self.id,
            issuer: self.issuer,
            name: self.name,
            start_date: self.start_date,
            finish_date: self.finish_date,
            options: self.options@,
            tx_hash: self.tx_hash,
        }
    }
}

impl ElectionV {
    /// The option list holds the asked-for id.
    pub open spec fn has_option(self, option_id: i32) -> bool {
        exists|k: int| 0 <= k < self.options.len() && (#[trigger] self.options[k]).id == option_id
    }

    /// Lifecycle phase *active*: voting is open.
    pub open spec fn is_active(self, now: i64) -> bool {
        self.start_date <= now < self.finish_date
    }

    /// Lifecycle phase *not-started*: the window has not opened yet.
    pub open spec fn not_started_yet(self, now: i64) -> bool {
        now < self.start_date
    }

    /// Internal consistency of an election stored at position `i`: its id is
    /// its position, its window is non-empty, and option ids are exactly the
    /// positions 0..n in order.
    pub open spec fn wf_at(self, i: int) -> bool {
        &&& self.id == i
        &&& self.start_date < self.finish_date
        &&& self.options.len() <= 0x7fff_ffff
        &&& forall|k: int| 0 <= k < self.options.len() ==> (#[trigger] self.options[k]).id == k as i32
    }
}

impl Election {
    /// Voting is open: the trusted timestamp lies in `[start, finish)`.
    pub fn is_active(&self, now: i64) -> (r: bool)
        ensures
            r == self@.is_active(now),
    {
        self.start_date <= now && now < self.finish_date
    }

    /// The window has not opened yet.
    pub fn not_started_yet(&self, now: i64) -> (r: bool)
        ensures
            r == self@.not_started_yet(now),
    {
        now < self.start_date
    }

    /// Some stored option carries the asked-for id.
    pub fn has_option(&self, option_id: i32) -> (r: bool)
        ensures
            r == self@.has_option(option_id),
    {
        let n: usize = self.options.len();
        let mut i: usize = 0;
        while i < n
            invariant
                n == self.options.len(),
                i <= n,
                forall|k: int| 0 <= k < i ==> (#[trigger] self@.options[k]).id != option_id,
            decreases n - i,
        {
            if self.options[i].id == option_id {
                proof {
                    assert((#[trigger] self@.options[i as int]).id == option_id);
                }
                return true;
            }
            i = i + 1;
        }
        false
    }
}

/// Mathematical value of the whole ledger: one sequence per collection, in
/// insertion order.
pub struct LedgerView {
    pub participants: Seq<Participant>,
    pub administrations: Seq<Administration>,
    pub elections: Seq<ElectionV>,
    pub votes: Seq<VoteRecord>,
}

impl LedgerView {
    pub open spec fn has_participant(self, pk: PublicKey) -> bool {
        exists|i: int| 0 <= i < self.participants.len() && (#[trigger] self.participants[i]).pub_key == pk
    }

    pub open spec fn has_administration(self, pk: PublicKey) -> bool {
        exists|i: int|
            0 <= i < self.administrations.len() && (#[trigger] self.administrations[i]).pub_key == pk
    }

    /// Election ids are positions, so an id exists exactly when it indexes
    /// the election sequence.
    pub open spec fn has_election(self, id: i64) -> bool {
        0 <= id < self.elections.len()
    }

    pub open spec fn election(self, id: i64) -> ElectionV {
        self.elections[id as int]
    }

    pub open spec fn has_vote(self, election_id: i64, voter: PublicKey) -> bool {
        exists|i: int|
            0 <= i < self.votes.len() && (#[trigger] self.votes[i]).election_id == election_id
                && self.votes[i].voter == voter
    }

    /// A stored vote names an existing election and one of its options.
    pub open spec fn vote_target_ok(self, v: VoteRecord) -> bool {
        &&& self.has_election(v.election_id)
        &&& self.election(v.election_id).has_option(v.option_id)
    }

    /// The committed-state invariants: at most one participant and one
    /// administration per key, elections indexed by id and internally
    /// consistent, and at most one vote per (election, voter) pair, each
    /// aimed at an existing option.
    pub open spec fn wf(self) -> bool {
        &&& forall|i: int, j: int|
            0 <= i < j < self.participants.len() ==> (#[trigger] self.participants[i]).pub_key != (
            #[trigger] self.participants[j]).pub_key
        &&& forall|i: int, j: int|
            0 <= i < j < self.administrations.len() ==> (#[trigger] self.administrations[i]).pub_key
                != (#[trigger] self.administrations[j]).pub_key
        &&& forall|i: int| 0 <= i < self.elections.len() ==> (#[trigger] self.elections[i]).wf_at(i)
        &&& forall|i: int, j: int|
            0 <= i < j < self.votes.len() ==> !((#[trigger] self.votes[i]).election_id == (
            #[trigger] self.votes[j]).election_id && self.votes[i].voter == self.votes[j].voter)
        &&& forall|i: int| 0 <= i < self.votes.len() ==> self.vote_target_ok(#[trigger] self.votes[i])
    }
}

impl LedgerView {
    /// Registering a fresh participant key keeps the ledger well-formed.
    pub proof fn lemma_wf_create_participant(self, p: Participant)
        requires
            self.wf(),
            !self.has_participant(p.pub_key),
        ensures
            (LedgerView { participants: self.participants.push(p), ..self }).wf(),
    {
        let s1 = LedgerView { participants: self.participants.push(p), ..self };
        assert forall|i: int, j: int| 0 <= i < j < s1.participants.len() implies (
        #[trigger] s1.participants[i]).pub_key != (#[trigger] s1.participants[j]).pub_key by {
            if j == s1.participants.len() - 1 {
                assert((#[trigger] self.participants[i]).pub_key != p.pub_key);
            }
        }
    }

    /// Registering a fresh administration key keeps the ledger well-formed.
    pub proof fn lemma_wf_create_administration(self, a: Administration)
        requires
            self.wf(),
            !self.has_administration(a.pub_key),
        ensures
            (LedgerView { administrations: self.administrations.push(a), ..self }).wf(),
    {
        let s1 = LedgerView { administrations: self.administrations.push(a), ..self };
        assert forall|i: int, j: int| 0 <= i < j < s1.administrations.len() implies (
        #[trigger] s1.administrations[i]).pub_key != (#[trigger] s1.administrations[j]).pub_key by {
            if j == s1.administrations.len() - 1 {
                assert((#[trigger] self.administrations[i]).pub_key != a.pub_key);
            }
        }
    }

    /// Appending an election that is consistent for the next position keeps
    /// the ledger well-formed.
    pub proof fn lemma_wf_issue_election(self, e: ElectionV)
        requires
            self.wf(),
            e.wf_at(self.elections.len() as int),
        ensures
            (LedgerView { elections: self.elections.push(e), ..self }).wf(),
    {
        let s1 = LedgerView { elections: self.elections.push(e), ..self };
        assert forall|i: int| 0 <= i < s1.votes.len() implies s1.vote_target_ok(
            #[trigger] s1.votes[i],
        ) by {
            assert(self.vote_target_ok(self.votes[i]));
            assert(s1.election(s1.votes[i].election_id) == self.election(self.votes[i].election_id));
        }
    }

    /// Recording a first vote of this voter in an existing election, for an
    /// existing option, keeps the ledger well-formed.
    pub proof fn lemma_wf_vote(self, v: VoteRecord)
        requires
            self.wf(),
            !self.has_vote(v.election_id, v.voter),
            self.vote_target_ok(v),
        ensures
            (LedgerView { votes: self.votes.push(v), ..self }).wf(),
    {
        let s1 = LedgerView { votes: self.votes.push(v), ..self };
        assert forall|i: int, j: int| 0 <= i < j < s1.votes.len() implies !((
        #[trigger] s1.votes[i]).election_id == (#[trigger] s1.votes[j]).election_id
            && s1.votes[i].voter == s1.votes[j].voter) by {
            if j == s1.votes.len() - 1 {
                assert(!((#[trigger] self.votes[i]).election_id == v.election_id
                    && self.votes[i].voter == v.voter));
            }
        }
        assert forall|i: int| 0 <= i < s1.votes.len() implies s1.vote_target_ok(
            #[trigger] s1.votes[i],
        ) by {
            if i < s1.votes.len() - 1 {
                assert(self.vote_target_ok(self.votes[i]));
            }
        }
    }
}

/// The ledger schema: an exclusively owned, transactional view over the four
/// collections. One transaction execution owns it for its whole duration.
pub struct ElectionSchema {
    pub participants: Vec<Participant>,
    pub administrations: Vec<Administration>,
    pub elections: Vec<Election>,
    pub votes: Vec<VoteRecord>,
}

impl View for ElectionSchema {
    type V = LedgerView;

    open spec fn view(&self) -> LedgerView {
        LedgerView {
            participants: self.participants@,
            administrations: self.administrations@,
            elections: self.elections@.map_values(|e: Election| e@),
            votes: self.votes@,
        }
    }
}

impl ElectionSchema {
    /// An empty ledger, as every replica starts.
    pub fn new() -> (r: ElectionSchema)
        ensures
            r@.participants =~= Seq::<Participant>::empty(),
            r@.administrations =~= Seq::<Administration>::empty(),
            r@.elections =~= Seq::<ElectionV>::empty(),
            r@.votes =~= Seq::<VoteRecord>::empty(),
            r@.wf(),
    {
        ElectionSchema {
            participants: Vec::new(),
            administrations: Vec::new(),
            elections: Vec::new(),
            votes: Vec::new(),
        }
    }

    /// Looks the author up among registered participants.
    pub fn participant(&self, pub_key: &PublicKey) -> (r: Option<&Participant>)
        ensures
            r is Some <==> self@.has_participant(*pub_key),
            r matches Some(p) ==> p.pub_key == *pub_key && self@.participants.contains(*p),
    {
        let n: usize = self.participants.len();
        let mut i: usize = 0;
        while i < n
            invariant
                n == self.participants.len(),
                i <= n,
                forall|k: int| 0 <= k < i ==> (#[trigger] self@.participants[k]).pub_key != *pub_key,
            decreases n - i,
        {
            if self.participants[i].pub_key == *pub_key {
                proof {
                    assert((#[trigger] self@.participants[i as int]).pub_key == *pub_key);
                }
                return Some(&self.participants[i]);
            }
            i = i + 1;
        }
        None
    }

    /// Looks the author up among registered administrations.
    pub fn administration(&self, pub_key: &PublicKey) -> (r: Option<&Administration>)
        ensures
            r is Some <==> self@.has_administration(*pub_key),
            r matches Some(a) ==> a.pub_key == *pub_key && self@.administrations.contains(*a),
    {
        let n: usize = self.administrations.len();
        let mut i: usize = 0;
        while i < n
            invariant
                n == self.administrations.len(),
                i <= n,
                forall|k: int|
                    0 <= k < i ==> (#[trigger] self@.administrations[k]).pub_key != *pub_key,
            decreases n - i,
        {
            if self.administrations[i].pub_key == *pub_key {
                return Some(&self.administrations[i]);
            }
            i = i + 1;
        }
        None
    }

    /// Looks an election up by id. Ids are assigned by insertion order
    /// starting at 0, so the id, when present, is the position.
    pub fn election(&self, id: i64) -> (r: Option<&Election>)
        requires
            self@.wf(),
        ensures
            r is Some <==> self@.has_election(id),
            r matches Some(e) ==> e@ == self@.election(id),
    {
        if id >= 0 && (id as u64) < (self.elections.len() as u64) {
            let idx: usize = id as usize;
            Some(&self.elections[idx])
        } else {
            None
        }
    }

    /// Looks up the vote one voter cast in one election, if any.
    pub fn election_vote(&self, election_id: i64, voter: &PublicKey) -> (r: Option<&VoteRecord>)
        ensures
            r is Some <==> self@.has_vote(election_id, *voter),
            r matches Some(v) ==> v.election_id == election_id && v.voter == *voter
                && self@.votes.contains(*v),
    {
        let n: usize = self.votes.len();
        let mut i: usize = 0;
        while i < n
            invariant
                n == self.votes.len(),
                i <= n,
                forall|k: int|
                    0 <= k < i ==> !((#[trigger] self@.votes[k]).election_id == election_id
                        && self@.votes[k].voter == *voter),
            decreases n - i,
        {
            if self.votes[i].election_id == election_id && self.votes[i].voter == *voter {
                proof {
                    assert((#[trigger] self@.votes[i as int]).election_id == election_id);
                }
                return Some(&self.votes[i]);
            }
            i = i + 1;
        }
        None
    }

    /// All votes cast in one election, in casting order.
    pub fn election_votes(&self, election_id: i64) -> (r: Vec<VoteRecord>)
        ensures
            r@ =~= self@.votes.filter(|v: VoteRecord| v.election_id == election_id),
    {
        let n: usize = self.votes.len();
        let mut out: Vec<VoteRecord> = Vec::new();
        let mut i: usize = 0;
        while i < n
            invariant
                n == self.votes.len(),
                i <= n,
                out@ =~= self@.votes.take(i as int).filter(
                    |v: VoteRecord| v.election_id == election_id,
                ),
            decreases n - i,
        {
            proof {
                assert(self@.votes.take(i + 1 as int).drop_last() =~= self@.votes.take(i as int));
                assert(self@.votes.take(i + 1 as int).last() == self@.votes[i as int]);
                reveal_with_fuel(Seq::filter, 2);
            }
            if self.votes[i].election_id == election_id {
                out.push(self.votes[i]);
            }
            i = i + 1;
        }
        proof {
            assert(self@.votes.take(n as int) =~= self@.votes);
        }
        out
    }

    /// Records a new participant. The caller has checked that none exists
    /// under this key.
    pub fn create_participant(
        &mut self,
        pub_key: &PublicKey,
        name: String,
        email: String,
        phone_number: String,
        pass_code: String,
        tx_hash: &TxHash,
    )
        requires
            !old(self)@.has_participant(*pub_key),
        ensures
            final(self)@.participants =~= old(self)@.participants.push(
                (Participant {
                    pub_key: *pub_key,
                    name: name,
                    email: email,
                    phone_number: phone_number,
                    pass_code: pass_code,
                    tx_hash: *tx_hash,
                }),
            ),
            final(self)@.administrations == old(self)@.administrations,
            final(self)@.elections == old(self)@.elections,
            final(self)@.votes == old(self)@.votes,
    {
        self.participants.push(
            Participant {
                pub_key: *pub_key,
                name: name,
                email: email,
                phone_number: phone_number,
                pass_code: pass_code,
                tx_hash: *tx_hash,
            },
        );
    }

    /// Records a new administration. The caller has checked that none exists
    /// under this key. The principal key is stored verbatim, dangling or not.
    pub fn create_administration(
        &mut self,
        pub_key: &PublicKey,
        name: String,
        principal_key: Option<PublicKey>,
        tx_hash: &TxHash,
    )
        requires
            !old(self)@.has_administration(*pub_key),
        ensures
            final(self)@.administrations =~= old(self)@.administrations.push(
                (Administration {
                    pub_key: *pub_key,
                    name: name,
                    principal_key: principal_key,
                    tx_hash: *tx_hash,
                }),
            ),
            final(self)@.participants == old(self)@.participants,
            final(self)@.elections == old(self)@.elections,
            final(self)@.votes == old(self)@.votes,
    {
        self.administrations.push(
            Administration {
                pub_key: *pub_key,
                name: name,
                principal_key: principal_key,
                tx_hash: *tx_hash,
            },
        );
    }

    /// The mathematical value of the election a successful issuance appends:
    /// the next id in insertion order, and the labels numbered 0..n in input
    /// order.
    pub open spec fn issued_election(
        self_view: LedgerView,
        name: String,
        issuer: PublicKey,
        start_date: i64,
        finish_date: i64,
        options: Seq<String>,
        tx_hash: TxHash,
    ) -> ElectionV {
        ElectionV {
            id: self_view.elections.len() as i64,
            issuer: issuer,
            name: name,
            start_date: start_date,
            finish_date: finish_date,
            options: Seq::new(
                options.len(),
                |k: int| (ElectionOption { id: k as i32, label: options[k] }),
            ),
            tx_hash: tx_hash,
        }
    }

    /// Appends a new election under the next id. The caller has checked the
    /// window and supplies at most `i32::MAX` options; ids never run out
    /// before memory does, but the bound is stated for the id arithmetic.
    pub fn issue_election(
        &mut self,
        name: String,
        issuer: &PublicKey,
        start_date: i64,
        finish_date: i64,
        options: &Vec<String>,
        tx_hash: &TxHash,
    ) -> (id: i64)
        requires
            start_date < finish_date,
            old(self)@.elections.len() < 0x7fff_ffff_ffff_ffff,
            options@.len() <= 0x7fff_ffff,
        ensures
            id == old(self)@.elections.len() as i64,
            final(self)@.elections =~= old(self)@.elections.push(
                Self::issued_election(
                    old(self)@,
                    name,
                    *issuer,
                    start_date,
                    finish_date,
                    options@,
                    *tx_hash,
                ),
            ),
            final(self)@.participants == old(self)@.participants,
            final(self)@.administrations == old(self)@.administrations,
            final(self)@.votes == old(self)@.votes,
    {
        let n_opts: usize = options.len();
        let mut stored: Vec<ElectionOption> = Vec::new();
        let mut k: usize = 0;
        while k < n_opts
            invariant
                n_opts == options.len(),
                n_opts <= 0x7fff_ffff,
                k <= n_opts,
                stored@ =~= Seq::new(
                    k as nat,
                    |j: int| (ElectionOption { id: j as i32, label: options@[j] }),
                ),
            decreases n_opts - k,
        {
            stored.push(ElectionOption { id: k as i32, label: options[k].clone() });
            k = k + 1;
        }
        let id: i64 = self.elections.len() as i64;
        self.elections.push(
            Election {
                id: id,
                issuer: *issuer,
                name: name,
                start_date: start_date,
                finish_date: finish_date,
                options: stored,
                tx_hash: *tx_hash,
            },
        );
        proof {
            assert(final(self)@.elections =~= old(self)@.elections.push(
                Self::issued_election(
                    old(self)@,
                    name,
                    *issuer,
                    start_date,
                    finish_date,
                    options@,
                    *tx_hash,
                ),
            ));
        }
        id
    }

    /// Records a vote. The caller has checked that the election exists, is
    /// active, holds the option, and that this voter has not voted in it.
    pub fn vote(
        &mut self,
        election_id: i64,
        voter: &PublicKey,
        option_id: i32,
        tx_hash: &TxHash,
    )
        requires
            !old(self)@.has_vote(election_id, *voter),
        ensures
            final(self)@.votes =~= old(self)@.votes.push(
                (VoteRecord {
                    election_id: election_id,
                    voter: *voter,
                    option_id: option_id,
                    tx_hash: *tx_hash,
                }),
            ),
            final(self)@.participants == old(self)@.participants,
            final(self)@.administrations == old(self)@.administrations,
            final(self)@.elections == old(self)@.elections,
    {
        self.votes.push(
            VoteRecord {
                election_id: election_id,
                voter: *voter,
                option_id: option_id,
                tx_hash: *tx_hash,
            },
        );
    }
}

} // verus!
