//! The service face shown to the replication layer: routing identity and
//! the per-collection state digest. Transaction decoding and the HTTP read
//! API stay with their external collaborators.

use vstd::prelude::*;

use crate::constant::{blockchain_service_name, spec_service_name, BLOCKCHAIN_SERVICE_ID};
use crate::digest::{
    enc_administrations, enc_elections, enc_participants, enc_votes, sha256_of,
};
use crate::schema::ElectionSchema;

verus! {

/// The election service's data surface, as offered to read-side consumers.
pub trait ElectionDataService {
    fn create_election();

    fn start_election();

    fn stop_election();

    fn create_participant();

    fn vote();

    fn get_election_list();
}

/// The election service as the replication layer addresses it.
#[derive(Debug)]
pub struct Service;

impl Service {
    /// The routing identifier transactions for this service carry.
    pub fn service_id(&self) -> (r: u16)
        ensures
            r == BLOCKCHAIN_SERVICE_ID,
    {
        BLOCKCHAIN_SERVICE_ID
    }

    /// The service's registered name.
    pub fn service_name(&self) -> (r: &'static str)
        ensures
            r@ == spec_service_name(),
    {
        blockchain_service_name()
    }

    /// One digest per committed collection, for cross-replica agreement on
    /// post-block state.
    pub fn state_hash(&self, snapshot: &ElectionSchema) -> (r: Vec<Vec<u8>>)
        ensures
            r@.len() == 4,
            r@[0]@ == sha256_of(enc_participants(snapshot@.participants)),
            r@[1]@ == sha256_of(enc_administrations(snapshot@.administrations)),
            r@[2]@ == sha256_of(enc_elections(snapshot@.elections)),
            r@[3]@ == sha256_of(enc_votes(snapshot@.votes)),
    {
        snapshot.state_hash()
    }
}

/// Hands fresh service values to the node assembly.
#[derive(Debug)]
pub struct ServiceFactory;

impl ServiceFactory {
    /// The service's registered name.
    pub fn service_name(&self) -> (r: &'static str)
        ensures
            r@ == spec_service_name(),
    {
        blockchain_service_name()
    }

    /// Builds one service value.
    pub fn make_service(&mut self) -> (r: Service) {
        Service
    }
}

} // verus!
