//! Closed error taxonomy of the fulfillment loop.
//!
//! Remote failures are classified into typed variants at the boundary, and
//! every caller matches on the kind, never on message text. The one
//! classification performed here — recognising a credential rejection among a
//! response's error codes — is what triggers the loop-level renewal policy.

use vstd::prelude::*;

use crate::selector::InsufficientFunds;

verus! {

/// A marketplace response that rejected the bearer credential: the server
/// answered with an error whose code is `FORBIDDEN`.
#[derive(Clone, Copy, Debug, PartialEq, Eq, Structural)]
pub struct ForbiddenError;

/// Classified failure of a remote call, as the orchestrator reacts to it.
#[derive(Clone, Copy, Debug, PartialEq, Eq, Structural)]
pub enum CallFailure {
    /// The bearer credential was rejected; processing must stop for this
    /// cycle and the credential be renewed.
    AuthRejected,
    /// A network or remote error; retry on a later cycle.
    Transient,
    /// The queried entity does not exist (for instance a peer with no
    /// advertised addresses).
    NotFound,
}

/// Why one order's workflow stopped without reaching its goal. Every variant
/// is confined to its order: the rest of the cycle continues.
#[derive(Clone, Copy, Debug, PartialEq, Eq, Structural)]
pub enum OrderError {
    /// The wallet cannot fund the channel.
    InsufficientFunds(InsufficientFunds),
    /// The estimated fee exceeds what the seller would be paid.
    Unprofitable { fee_half_sats: u128, seller_invoice_sats: u64 },
    /// The fee oracle could not be read.
    OracleUnavailable,
    /// The buyer's node could not be reached.
    CounterpartyUnreachable,
    /// The node opened the channel but reported no funding transaction id.
    MissingFundingTxid,
    /// A marketplace call failed.
    MarketplaceCall(CallFailure),
    /// A node call (sign, invoice, open) failed.
    NodeCallFailed,
}

/// The error code with which the marketplace rejects a stale credential.
pub open spec fn spec_forbidden_code() -> Seq<char> {
    "FORBIDDEN"@
}

/// Whether some error code of a marketplace response marks the credential as
/// rejected.
pub open spec fn spec_has_forbidden(codes: Seq<String>) -> bool {
    exists|i: int| 0 <= i < codes.len() && #[trigger] codes[i]@ == spec_forbidden_code()
}

/// Classify the error codes of a marketplace response: a `FORBIDDEN` code
/// anywhere among them means the bearer credential was rejected.
pub fn classify_error_codes(codes: &Vec<String>) -> (r: Option<ForbiddenError>)
    ensures
        r is Some <==> spec_has_forbidden(codes@),
{
    let forbidden = "FORBIDDEN".to_owned();
    let n = codes.len();
    let mut i: usize = 0;
    while i < n
        invariant
            n == codes@.len(),
            0 <= i <= n,
            forbidden@ == spec_forbidden_code(),
            forall|j: int| 0 <= j < i ==> #[trigger] codes@[j]@ != spec_forbidden_code(),
        decreases n - i,
    {
        if codes[i] == forbidden {
            return Some(ForbiddenError);
        }
        i = i + 1;
    }
    None
}

} // verus!
