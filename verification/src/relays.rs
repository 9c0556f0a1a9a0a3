//! How well the annotator is connected, judged by the number of relays that
//! are open.

use vstd::prelude::*;

verus! {

/// The quality of the connection to the relays.
#[derive(Clone, Copy, Debug, PartialEq, Eq, Structural, Hash)]
pub enum ConnectionQuality {
    /// No relay is known.
    Unknown,
    /// No relay is open.
    Disconnected,
    /// Fewer than half of the relays are open.
    Poor,
    /// At least half of the relays are open, but not all.
    Good,
    /// Every relay is open.
    Excellent,
}

/// The quality of a connection with `open` relays open out of `total`.
pub open spec fn quality_of(open: nat, total: nat) -> ConnectionQuality {
    if total == 0 {
        ConnectionQuality::Unknown
    } else if open == 0 {
        ConnectionQuality::Disconnected
    } else if open < total / 2 {
        ConnectionQuality::Poor
    } else if open < total {
        ConnectionQuality::Good
    } else {
        ConnectionQuality::Excellent
    }
}

/// The quality of a connection with `open` relays open out of `total`.
pub fn connection_quality(open: usize, total: usize) -> (q: ConnectionQuality)
    ensures
        q == quality_of(open as nat, total as nat),
{
    if total == 0 {
        ConnectionQuality::Unknown
    } else if open == 0 {
        ConnectionQuality::Disconnected
    } else if open < total / 2 {
        ConnectionQuality::Poor
    } else if open < total {
        ConnectionQuality::Good
    } else {
        ConnectionQuality::Excellent
    }
}

/// Whether at least one relay is open.
pub fn is_connected(open: usize) -> (b: bool)
    ensures
        b == (open > 0),
{
    open > 0
}

} // verus!
