//! Block time and the deadlines that are measured against it.

use vstd::prelude::*;

verus! {

/// A point in time, in nanoseconds since the epoch.
#[derive(Clone, Copy, Debug, PartialEq, Eq, Structural)]
pub struct Timestamp {
    pub nanos: u64,
}

/// The block in which a call runs: the container's notion of "now".
#[derive(Clone, Copy, Debug, PartialEq, Eq, Structural)]
pub struct BlockInfo {
    pub height: u64,
    pub time: Timestamp,
}

/// A deadline, given as a block height or as a block time.
#[derive(Clone, Copy, Debug, PartialEq, Eq, Structural)]
pub enum Expiry {
    AtHeight(u64),
    AtTime(Timestamp),
}

impl Expiry {
    /// A deadline is reached in the block whose height or time equals it, and
    /// stays reached in every later block.
    pub open spec fn reached_at(self, block: BlockInfo) -> bool {
        match self {
            Expiry::AtHeight(height) => block.height >= height,
            Expiry::AtTime(time) => block.time.nanos >= time.nanos,
        }
    }

    /// Whether the deadline is reached in `block`.
    pub fn is_expired(&self, block: &BlockInfo) -> (expired: bool)
        ensures
            expired == self.reached_at(*block),
    {
        expiration_is_expired(*self, *block)
    }
}

/// Calls `cw_utils::Expiration::is_expired`. Trusted: a height deadline is
/// expired when the block's height is at least the deadline, a time deadline
/// when the block's time is at least the deadline; the chain id is not read.
#[verifier::external_body]
fn expiration_is_expired(expiry: Expiry, block: BlockInfo) -> (expired: bool)
    ensures
        expired == expiry.reached_at(block),
{
    let expiration = match expiry {
        Expiry::AtHeight(height) => cw_utils::Expiration::AtHeight(height),
        Expiry::AtTime(time) => cw_utils::Expiration::AtTime(
            cosmwasm_std::Timestamp::from_nanos(time.nanos),
        ),
    };
    expiration.is_expired(
        &cosmwasm_std::BlockInfo {
            height: block.height,
            time: cosmwasm_std::Timestamp::from_nanos(block.time.nanos),
            chain_id: String::new(),
        },
    )
}

} // verus!
