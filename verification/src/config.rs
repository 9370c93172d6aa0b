//! The fixed configuration of the demo: the two well-known ports and the
//! connector's retry interval.

use vstd::prelude::*;

verus! {

/// The port an instance tries to claim first; whoever holds it expects its
/// peer on the secondary port.
pub const PRIMARY_PORT: u16 = 4000;

/// The fallback port, claimed when the primary port is already taken.
pub const SECONDARY_PORT: u16 = 4001;

/// Seconds the connector waits between outbound connection attempts.
pub const RETRY_WAIT_SECS: u64 = 10;

} // verus!
