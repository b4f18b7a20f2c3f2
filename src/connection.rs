//! The states of a connection and the flag that each transition sends.
use vstd::prelude::*;

verus! {

/// Where a connection stands in its life.
#[derive(Debug, Clone, Copy, PartialEq, Eq, Structural)]
pub enum ConnectionState {
    Listen,
    SynReceived,
    SynAckSent,
    Established,
    Closed,
}

/// The label of the flag that goes with each state.
pub open spec fn state_flag(state: ConnectionState) -> Seq<char> {
    match state {
        ConnectionState::Listen => "LISTEN"@,
        ConnectionState::SynReceived => "SYN"@,
        ConnectionState::SynAckSent => "SYN-ACK"@,
        ConnectionState::Established => "ACK"@,
        ConnectionState::Closed => "CLOSED"@,
    }
}

/// The label of the flag that goes with `state`.
pub fn get_flag_for_state(state: &ConnectionState) -> (r: &'static str)
    ensures
        r@ == state_flag(*state),
{
    match state {
        ConnectionState::Listen => "LISTEN",
        ConnectionState::SynReceived => "SYN",
        ConnectionState::SynAckSent => "SYN-ACK",
        ConnectionState::Established => "ACK",
        ConnectionState::Closed => "CLOSED",
    }
}

} // verus!
