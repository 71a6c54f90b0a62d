//! The rule for the timeout of a packet that is about to be sent.

use crate::error::{ContractError, ErrorView};
use crate::host::Env;
use crate::ibc::Timeout;
use vstd::prelude::*;

verus! {

/// The number of nanoseconds in a second.
pub const NANOS_PER_SECOND: u64 = 1_000_000_000;

/// Whether a packet with the timeout `timeout` may be sent at the time `now`
/// (in nanoseconds since the epoch): the timeout names no block, it names a
/// time, and that time lies after `now`. The error for a time that has come
/// gives both times in whole seconds.
pub open spec fn validate_spec(now: u64, timeout: Timeout) -> Result<(), ErrorView> {
    if timeout.block is Some {
        Err(ErrorView::InvalidTimeoutHeight)
    } else if timeout.timestamp is None {
        Err(ErrorView::EmptyTimestamp)
    } else if now >= timeout.timestamp->0 {
        Err(
            ErrorView::InvalidTimeoutTimestamp {
                current: now / 1_000_000_000,
                timestamp: timeout.timestamp->0 / 1_000_000_000,
            },
        )
    } else {
        Ok(())
    }
}

/// Checks the timeout of a packet that is about to be sent.
pub fn validate(env: &Env, timeout: &Timeout) -> (r: Result<(), ContractError>)
    ensures
        match validate_spec(env.block_time_nanos, *timeout) {
            Ok(_) => r is Ok,
            Err(e) => r is Err && r->Err_0@ == e,
        },
{
    if timeout.block.is_some() {
        return Err(ContractError::InvalidTimeoutHeight);
    }
    match timeout.timestamp {
        None => Err(ContractError::EmptyTimestamp),
        Some(timestamp) => {
            if env.block_time_nanos >= timestamp {
                Err(
                    ContractError::invalid_timeout_timestamp(
                        env.block_time_nanos / NANOS_PER_SECOND,
                        timestamp / NANOS_PER_SECOND,
                    ),
                )
            } else {
                Ok(())
            }
        },
    }
}

} // verus!
