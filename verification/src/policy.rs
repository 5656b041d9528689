//! Rules of the relay that do not depend on the bytes it carries.

use vstd::prelude::*;

verus! {

/// The IPv6 loopback address `::1`, as a number.
pub const IPV6_LOOPBACK: u128 = 1;

/// The unspecified IPv6 address `::`, as a number. A socket bound to it
/// accepts connections on every interface.
pub const IPV6_UNSPECIFIED: u128 = 0;

/// One of the two directions of a connection.
#[derive(Debug, Clone, Copy, PartialEq, Eq, Structural)]
pub enum Direction {
    /// From the client to the server.
    Forward,
    /// From the server to the client.
    Backward,
}

/// The IPv6 address on which the relay listens: the loopback address where
/// only local clients are to be served, the unspecified address otherwise.
pub fn listen_address(local_only: bool) -> (address: u128)
    ensures
        address == if local_only {
            IPV6_LOOPBACK
        } else {
            IPV6_UNSPECIFIED
        },
{
    if local_only {
        IPV6_LOOPBACK
    } else {
        IPV6_UNSPECIFIED
    }
}

/// Whether a pump goes on to its next round after a write to its destination
/// that succeeded or not.
///
/// The forward pump always goes on: a server that drops the session over a
/// corrupted record is what the relay is after, and the next look at the
/// client will tell whether the connection is gone. The backward pump ends
/// with the first write that fails.
pub fn goes_on_after_write(direction: Direction, written: bool) -> (goes_on: bool)
    ensures
        goes_on == (written || direction == Direction::Forward),
{
    match direction {
        Direction::Forward => true,
        Direction::Backward => written,
    }
}

} // verus!
