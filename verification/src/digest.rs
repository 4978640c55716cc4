//! The state digest: a canonical byte encoding of each committed collection
//! and its fixed-size cryptographic summary.
//!
//! The encoding is a pure function of collection contents — integers become
//! eight offset little-endian base-256 digits, strings become length-prefixed
//! UTF-8 bytes, records and lists are concatenated in committed order — so
//! two replicas holding identical contents digest identically, whatever the
//! physical storage layout was.

use vstd::prelude::*;

use crate::schema::{
    Administration, Election, ElectionOption, ElectionSchema, ElectionV, Participant, VoteRecord,
};
use crate::transactions::PublicKey;
use vstd::utf8::encode_utf8;

verus! {

/// A 64-bit value as eight base-256 digits, least significant first.
pub open spec fn enc_u64(x: u64) -> Seq<u8> {
    seq![
        (x % 0x100) as u8,
        ((x / 0x100) % 0x100) as u8,
        ((x / 0x1_0000) % 0x100) as u8,
        ((x / 0x100_0000) % 0x100) as u8,
        ((x / 0x1_0000_0000) % 0x100) as u8,
        ((x / 0x100_0000_0000) % 0x100) as u8,
        ((x / 0x1_0000_0000_0000) % 0x100) as u8,
        ((x / 0x100_0000_0000_0000) % 0x100) as u8,
    ]
}

/// A signed 64-bit value, shifted into the unsigned range so that order is
/// kept and the encoding stays total.
pub open spec fn enc_i64(x: i64) -> Seq<u8> {
    enc_u64((x + 0x8000_0000_0000_0000) as u64)
}

/// A signed 32-bit value, shifted into the unsigned range.
pub open spec fn enc_i32(x: i32) -> Seq<u8> {
    enc_u64((x + 0x8000_0000) as u64)
}

/// A string as its UTF-8 bytes, length-prefixed.
pub open spec fn enc_str(s: Seq<char>) -> Seq<u8> {
    enc_u64(encode_utf8(s).len() as u64) + encode_utf8(s)
}

/// An optional delegation key: a presence tag, then the key if present.
pub open spec fn enc_opt_key(k: Option<PublicKey>) -> Seq<u8> {
    match k {
        None => seq![0u8],
        Some(p) => seq![1u8] + enc_u64(p.value),
    }
}

/// One participant record, fields in declaration order.
pub open spec fn enc_participant(p: Participant) -> Seq<u8> {
    enc_u64(p.pub_key.value) + enc_str(p.name@) + enc_str(p.email@) + enc_str(p.phone_number@)
        + enc_str(p.pass_code@) + enc_u64(p.tx_hash.value)
}

/// One administration record, fields in declaration order.
pub open spec fn enc_administration(a: Administration) -> Seq<u8> {
    enc_u64(a.pub_key.value) + enc_str(a.name@) + enc_opt_key(a.principal_key) + enc_u64(
        a.tx_hash.value,
    )
}

/// One election option: its id, then its label.
pub open spec fn enc_option(o: ElectionOption) -> Seq<u8> {
    enc_i32(o.id) + enc_str(o.label@)
}

/// The options of one election, in stored order.
pub open spec fn enc_option_seq(s: Seq<ElectionOption>) -> Seq<u8>
    decreases s.len(),
{
    if s.len() == 0 {
        Seq::empty()
    } else {
        enc_option_seq(s.drop_last()) + enc_option(s.last())
    }
}

/// One election record: scalar fields, then the length-prefixed option list.
pub open spec fn enc_election(e: ElectionV) -> Seq<u8> {
    enc_i64(e.id) + enc_u64(e.issuer.value) + enc_str(e.name@) + enc_i64(e.start_date) + enc_i64(
        e.finish_date,
    ) + enc_u64(e.options.len() as u64) + enc_option_seq(e.options) + enc_u64(e.tx_hash.value)
}

/// One vote record, fields in declaration order.
pub open spec fn enc_vote(v: VoteRecord) -> Seq<u8> {
    enc_i64(v.election_id) + enc_u64(v.voter.value) + enc_i32(v.option_id) + enc_u64(
        v.tx_hash.value,
    )
}

/// A collection body: its records' encodings, concatenated in stored order.
pub open spec fn enc_participant_seq(s: Seq<Participant>) -> Seq<u8>
    decreases s.len(),
{
    if s.len() == 0 {
        Seq::empty()
    } else {
        enc_participant_seq(s.drop_last()) + enc_participant(s.last())
    }
}

pub open spec fn enc_administration_seq(s: Seq<Administration>) -> Seq<u8>
    decreases s.len(),
{
    if s.len() == 0 {
        Seq::empty()
    } else {
        enc_administration_seq(s.drop_last()) + enc_administration(s.last())
    }
}

pub open spec fn enc_election_seq(s: Seq<ElectionV>) -> Seq<u8>
    decreases s.len(),
{
    if s.len() == 0 {
        Seq::empty()
    } else {
        enc_election_seq(s.drop_last()) + enc_election(s.last())
    }
}

pub open spec fn enc_vote_seq(s: Seq<VoteRecord>) -> Seq<u8>
    decreases s.len(),
{
    if s.len() == 0 {
        Seq::empty()
    } else {
        enc_vote_seq(s.drop_last()) + enc_vote(s.last())
    }
}

/// A whole collection: its length, then its body.
pub open spec fn enc_participants(s: Seq<Participant>) -> Seq<u8> {
    enc_u64(s.len() as u64) + enc_participant_seq(s)
}

pub open spec fn enc_administrations(s: Seq<Administration>) -> Seq<u8> {
    enc_u64(s.len() as u64) + enc_administration_seq(s)
}

pub open spec fn enc_elections(s: Seq<ElectionV>) -> Seq<u8> {
    enc_u64(s.len() as u64) + enc_election_seq(s)
}

pub open spec fn enc_votes(s: Seq<VoteRecord>) -> Seq<u8> {
    enc_u64(s.len() as u64) + enc_vote_seq(s)
}

/// The SHA-256 digest of a byte sequence: a function of the bytes alone.
pub uninterp spec fn sha256_of(data: Seq<u8>) -> Seq<u8>;

/// Relies on sha2::Sha256::digest: a 32-byte digest that depends on the
/// input bytes alone.
#[verifier::external_body]
fn sha256(data: &Vec<u8>) -> (r: Vec<u8>)
    ensures
        r@ == sha256_of(data@),
        r@.len() == 32,
{
    let d = <sha2::Sha256 as sha2::Digest>::digest(data.as_slice());
    d.to_vec()
}

fn push_u64(buf: &mut Vec<u8>, x: u64)
    ensures
        final(buf)@ == old(buf)@ + enc_u64(x),
{
    buf.push((x % 0x100) as u8);
    buf.push(((x / 0x100) % 0x100) as u8);
    buf.push(((x / 0x1_0000) % 0x100) as u8);
    buf.push(((x / 0x100_0000) % 0x100) as u8);
    buf.push(((x / 0x1_0000_0000) % 0x100) as u8);
    buf.push(((x / 0x100_0000_0000) % 0x100) as u8);
    buf.push(((x / 0x1_0000_0000_0000) % 0x100) as u8);
    buf.push(((x / 0x100_0000_0000_0000) % 0x100) as u8);
    proof {
        assert(final(buf)@ =~= old(buf)@ + enc_u64(x));
    }
}

fn push_i64(buf: &mut Vec<u8>, x: i64)
    ensures
        final(buf)@ == old(buf)@ + enc_i64(x),
{
    let off: u64 = if x >= 0 {
        (x as u64) + 0x8000_0000_0000_0000
    } else {
        (x - i64::MIN) as u64
    };
    proof {
        assert(off == (x + 0x8000_0000_0000_0000) as u64);
    }
    push_u64(buf, off);
}

fn push_i32(buf: &mut Vec<u8>, x: i32)
    ensures
        final(buf)@ == old(buf)@ + enc_i32(x),
{
    let off: u64 = ((x as i64) + 0x8000_0000) as u64;
    proof {
        assert(off == (x + 0x8000_0000) as u64);
    }
    push_u64(buf, off);
}

fn push_bytes(buf: &mut Vec<u8>, b: &[u8])
    ensures
        final(buf)@ == old(buf)@ + b@,
{
    let n: usize = b.len();
    let mut i: usize = 0;
    while i < n
        invariant
            n == b@.len(),
            i <= n,
            buf@ == old(buf)@ + b@.take(i as int),
        decreases n - i,
    {
        buf.push(b[i]);
        proof {
            assert(old(buf)@ + b@.take(i + 1 as int) =~= (old(buf)@ + b@.take(i as int)).push(
                b@[i as int],
            ));
        }
        i = i + 1;
    }
    proof {
        assert(b@.take(n as int) =~= b@);
    }
}

fn push_str(buf: &mut Vec<u8>, s: &str)
    ensures
        final(buf)@ == old(buf)@ + enc_str(s@),
{
    let b: &[u8] = s.as_bytes();
    push_u64(buf, b.len() as u64);
    push_bytes(buf, b);
    proof {
        assert(final(buf)@ =~= old(buf)@ + enc_str(s@));
    }
}

fn push_participant(buf: &mut Vec<u8>, p: &Participant)
    ensures
        final(buf)@ == old(buf)@ + enc_participant(*p),
{
    push_u64(buf, p.pub_key.value);
    push_str(buf, p.name.as_str());
    push_str(buf, p.email.as_str());
    push_str(buf, p.phone_number.as_str());
    push_str(buf, p.pass_code.as_str());
    push_u64(buf, p.tx_hash.value);
    proof {
        assert(final(buf)@ =~= old(buf)@ + enc_participant(*p));
    }
}

fn push_administration(buf: &mut Vec<u8>, a: &Administration)
    ensures
        final(buf)@ == old(buf)@ + enc_administration(*a),
{
    push_u64(buf, a.pub_key.value);
    push_str(buf, a.name.as_str());
    match a.principal_key {
        None => {
            buf.push(0u8);
        },
        Some(p) => {
            buf.push(1u8);
            push_u64(buf, p.value);
        },
    }
    push_u64(buf, a.tx_hash.value);
    proof {
        assert(final(buf)@ =~= old(buf)@ + enc_administration(*a));
    }
}

#[verifier::rlimit(60)]
fn push_election(buf: &mut Vec<u8>, e: &Election)
    ensures
        final(buf)@ == old(buf)@ + enc_election(e@),
{
    push_i64(buf, e.id);
    push_u64(buf, e.issuer.value);
    push_str(buf, e.name.as_str());
    push_i64(buf, e.start_date);
    push_i64(buf, e.finish_date);
    push_u64(buf, e.options.len() as u64);
    let ghost mid = buf@;
    let n: usize = e.options.len();
    let mut i: usize = 0;
    while i < n
        invariant
            n == e.options@.len(),
            i <= n,
            buf@ == mid + enc_option_seq(e.options@.take(i as int)),
        decreases n - i,
    {
        push_i32(buf, e.options[i].id);
        push_str(buf, e.options[i].label.as_str());
        proof {
            let t = e.options@.take(i + 1 as int);
            assert(t.drop_last() =~= e.options@.take(i as int));
            assert(t.last() == e.options@[i as int]);
            assert(buf@ =~= mid + enc_option_seq(t));
        }
        i = i + 1;
    }
    push_u64(buf, e.tx_hash.value);
    proof {
        assert(e.options@.take(n as int) =~= e.options@);
        assert(final(buf)@ =~= old(buf)@ + enc_election(e@));
    }
}

fn push_vote(buf: &mut Vec<u8>, v: &VoteRecord)
    ensures
        final(buf)@ == old(buf)@ + enc_vote(*v),
{
    push_i64(buf, v.election_id);
    push_u64(buf, v.voter.value);
    push_i32(buf, v.option_id);
    push_u64(buf, v.tx_hash.value);
    proof {
        assert(final(buf)@ =~= old(buf)@ + enc_vote(*v));
    }
}

impl ElectionSchema {
    /// The canonical bytes of the participant collection.
    pub fn encode_participants(&self) -> (r: Vec<u8>)
        ensures
            r@ == enc_participants(self@.participants),
    {
        let mut buf: Vec<u8> = Vec::new();
        push_u64(&mut buf, self.participants.len() as u64);
        let n: usize = self.participants.len();
        let mut i: usize = 0;
        while i < n
            invariant
                n == self@.participants.len(),
                i <= n,
                buf@ == enc_u64(n as u64) + enc_participant_seq(self@.participants.take(i as int)),
            decreases n - i,
        {
            push_participant(&mut buf, &self.participants[i]);
            proof {
                let t = self@.participants.take(i + 1 as int);
                assert(t.drop_last() =~= self@.participants.take(i as int));
                assert(t.last() == self@.participants[i as int]);
                assert(buf@ =~= enc_u64(n as u64) + enc_participant_seq(t));
            }
            i = i + 1;
        }
        proof {
            assert(self@.participants.take(n as int) =~= self@.participants);
        }
        buf
    }

    /// The canonical bytes of the administration collection.
    pub fn encode_administrations(&self) -> (r: Vec<u8>)
        ensures
            r@ == enc_administrations(self@.administrations),
    {
        let mut buf: Vec<u8> = Vec::new();
        push_u64(&mut buf, self.administrations.len() as u64);
        let n: usize = self.administrations.len();
        let mut i: usize = 0;
        while i < n
            invariant
                n == self@.administrations.len(),
                i <= n,
                buf@ == enc_u64(n as u64) + enc_administration_seq(
                    self@.administrations.take(i as int),
                ),
            decreases n - i,
        {
            push_administration(&mut buf, &self.administrations[i]);
            proof {
                let t = self@.administrations.take(i + 1 as int);
                assert(t.drop_last() =~= self@.administrations.take(i as int));
                assert(t.last() == self@.administrations[i as int]);
                assert(buf@ =~= enc_u64(n as u64) + enc_administration_seq(t));
            }
            i = i + 1;
        }
        proof {
            assert(self@.administrations.take(n as int) =~= self@.administrations);
        }
        buf
    }

    /// The canonical bytes of the election collection.
    pub fn encode_elections(&self) -> (r: Vec<u8>)
        ensures
            r@ == enc_elections(self@.elections),
    {
        let mut buf: Vec<u8> = Vec::new();
        push_u64(&mut buf, self.elections.len() as u64);
        let n: usize = self.elections.len();
        let mut i: usize = 0;
        while i < n
            invariant
                n == self@.elections.len(),
                i <= n,
                buf@ == enc_u64(n as u64) + enc_election_seq(self@.elections.take(i as int)),
            decreases n - i,
        {
            push_election(&mut buf, &self.elections[i]);
            proof {
                let t = self@.elections.take(i + 1 as int);
                assert(t.drop_last() =~= self@.elections.take(i as int));
                assert(t.last() == self@.elections[i as int]);
                assert(buf@ =~= enc_u64(n as u64) + enc_election_seq(t));
            }
            i = i + 1;
        }
        proof {
            assert(self@.elections.take(n as int) =~= self@.elections);
        }
        buf
    }

    /// The canonical bytes of the vote collection.
    pub fn encode_votes(&self) -> (r: Vec<u8>)
        ensures
            r@ == enc_votes(self@.votes),
    {
        let mut buf: Vec<u8> = Vec::new();
        push_u64(&mut buf, self.votes.len() as u64);
        let n: usize = self.votes.len();
        let mut i: usize = 0;
        while i < n
            invariant
                n == self@.votes.len(),
                i <= n,
                buf@ == enc_u64(n as u64) + enc_vote_seq(self@.votes.take(i as int)),
            decreases n - i,
        {
            push_vote(&mut buf, &self.votes[i]);
            proof {
                let t = self@.votes.take(i + 1 as int);
                assert(t.drop_last() =~= self@.votes.take(i as int));
                assert(t.last() == self@.votes[i as int]);
                assert(buf@ =~= enc_u64(n as u64) + enc_vote_seq(t));
            }
            i = i + 1;
        }
        proof {
            assert(self@.votes.take(n as int) =~= self@.votes);
        }
        buf
    }

    /// One fixed-size digest per top-level collection — participants,
    /// administrations, elections, votes, in that order — each a pure
    /// function of that collection's committed contents.
    pub fn state_hash(&self) -> (r: Vec<Vec<u8>>)
        ensures
            r@.len() == 4,
            r@[0]@ == sha256_of(enc_participants(self@.participants)),
            r@[1]@ == sha256_of(enc_administrations(self@.administrations)),
            r@[2]@ == sha256_of(enc_elections(self@.elections)),
            r@[3]@ == sha256_of(enc_votes(self@.votes)),
            forall|i: int| 0 <= i < 4 ==> (#[trigger] r@[i])@.len() == 32,
    {
        let mut out: Vec<Vec<u8>> = Vec::new();
        out.push(sha256(&self.encode_participants()));
        out.push(sha256(&self.encode_administrations()));
        out.push(sha256(&self.encode_elections()));
        out.push(sha256(&self.encode_votes()));
        out
    }
}

} // verus!
