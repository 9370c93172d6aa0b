//! Port-role assignment: which port this instance listens on and which port
//! it dials, derived from which of the two bind attempts succeeded.

use vstd::prelude::*;
use crate::config::{PRIMARY_PORT, SECONDARY_PORT};

verus! {

/// The local role derived from which bind attempt succeeded: the port this
/// instance listens on and the port where it expects its peer.
#[derive(Clone, Copy, PartialEq, Eq, Structural, Debug)]
pub struct PortAssignment {
    pub listen_port: u16,
    pub peer_port: u16,
}

/// The assignment that follows from claiming the primary port (`true`) or,
/// after the primary bind failed, the secondary port (`false`).
pub open spec fn spec_assignment(bound_primary: bool) -> PortAssignment {
    if bound_primary {
        PortAssignment { listen_port: PRIMARY_PORT, peer_port: SECONDARY_PORT }
    } else {
        PortAssignment { listen_port: SECONDARY_PORT, peer_port: PRIMARY_PORT }
    }
}

/// An assignment is complementary when it listens on one well-known port and
/// dials the other.
pub open spec fn complementary(a: PortAssignment) -> bool {
    &&& a.listen_port == PRIMARY_PORT || a.listen_port == SECONDARY_PORT
    &&& a.peer_port == (if a.listen_port == PRIMARY_PORT {
        SECONDARY_PORT
    } else {
        PRIMARY_PORT
    })
}

/// Decides the ports from the bind outcome: an instance that bound the
/// primary port dials the secondary one, and the other way round. When
/// neither port can be bound the caller has no assignment to ask for and
/// reports the bind error instead.
pub fn assignment_for(bound_primary: bool) -> (a: PortAssignment)
    ensures
        a == spec_assignment(bound_primary),
        complementary(a),
{
    if bound_primary {
        PortAssignment { listen_port: PRIMARY_PORT, peer_port: SECONDARY_PORT }
    } else {
        PortAssignment { listen_port: SECONDARY_PORT, peer_port: PRIMARY_PORT }
    }
}

/// Two instances started together resolve complementary roles: the one that
/// claims the primary port and the one that, finding it taken, claims the
/// secondary port each dial exactly the port the other listens on, and they
/// listen on distinct ports.
pub proof fn lemma_assignments_complementary()
    ensures
        spec_assignment(true).listen_port == spec_assignment(false).peer_port,
        spec_assignment(true).peer_port == spec_assignment(false).listen_port,
        spec_assignment(true).listen_port != spec_assignment(false).listen_port,
{
}

} // verus!
