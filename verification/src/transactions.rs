//! Identities and the four immutable transaction payloads.
//!
//! A public key stands for an authenticated identity; signature checking
//! itself happens upstream, so the key is carried as a plain value. Dates are
//! carried as integer timestamps supplied by the external time oracle.

use vstd::prelude::*;

verus! {

/// An author identity: the public half of a signing key pair, carried as a
/// plain value (signature verification is an upstream collaborator's job).
#[derive(Clone, Copy, PartialEq, Eq, Structural, Debug)]
pub struct PublicKey {
    pub value: u64,
}

/// The secret half of a signing key pair. The core never reads it; it is
/// only handed to the signing helpers.
#[derive(Clone, Copy, PartialEq, Eq, Structural, Debug)]
pub struct SecretKey {
    pub value: u64,
}

/// The hash of a signed transaction, recorded with every entity the
/// transaction created.
#[derive(Clone, Copy, PartialEq, Eq, Structural, Debug)]
pub struct TxHash {
    pub value: u64,
}

/// Registers the author as a voter.
pub struct CreateParticipant {
    pub name: String,
    pub email: String,
    pub phone_number: String,
    pub pass_code: String,
}

/// Registers the author as an election-issuing administration. The principal
/// key is a weak delegation reference: it need not name an existing
/// administration and is stored verbatim.
pub struct CreateAdministration {
    pub name: String,
    pub principal_key: Option<PublicKey>,
}

/// Opens a new election over the half-open time window `[start, finish)`
/// with the given option labels, in order.
pub struct IssueElection {
    pub name: String,
    pub start_date: i64,
    pub finish_date: i64,
    pub options: Vec<String>,
}

/// Casts the author's vote for one option of one election. The seed only
/// makes repeated identical votes hash differently; it carries no meaning
/// and is never validated.
pub struct Vote {
    pub election_id: i64,
    pub option_id: i32,
    pub seed: i64,
}

} // verus!
