//! Service-wide routing constants.

use vstd::prelude::*;

verus! {

/// Routing identifier under which signed transactions are addressed to this
/// service.
pub const BLOCKCHAIN_SERVICE_ID: u16 = 130;

/// The service's registered name.
pub open spec fn spec_service_name() -> Seq<char> {
    "crypto_election"@
}

/// Returns the service's registered name.
pub fn blockchain_service_name() -> (r: &'static str)
    ensures
        r@ == spec_service_name(),
{
    "crypto_election"
}

} // verus!
