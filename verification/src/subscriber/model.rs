//! The wire event model.
//!
//! These are the events the token contract emits, as they arrive from the
//! node: a closed set of tagged variants over addresses and 256-bit values.

use vstd::prelude::*;

use crate::primitives::{Address, U256};

verus! {

/// A raw log notification as it arrives from the node: the indexed topic
/// words and the data blob. The first topic, when present, is the hash of
/// the emitting event's canonical signature.
#[derive(Debug)]
pub struct RawLog {
    pub topics: Vec<Vec<u8>>,
    pub data: Vec<u8>,
}

/// A decoded Ethereum event of the token contract.
#[derive(Clone, Copy, Debug, PartialEq, Eq)]
pub enum Event {
    Approval { from: Address, to: Address, value: U256 },
    Transfer { from: Address, to: Address, value: U256 },
    Deposit { to: Address, value: U256 },
    Withdrawal { from: Address, value: U256 },
}

/// The mathematical shape of an `Event`: addresses as byte strings, the
/// value as the unbounded integer it denotes.
pub enum EventV {
    Approval { from: Seq<u8>, to: Seq<u8>, value: nat },
    Transfer { from: Seq<u8>, to: Seq<u8>, value: nat },
    Deposit { to: Seq<u8>, value: nat },
    Withdrawal { from: Seq<u8>, value: nat },
}

impl View for Event {
    type V = EventV;

    open spec fn view(&self) -> EventV {
        match *self {
            Event::Approval { from, to, value } => EventV::Approval {
                from: from@,
                to: to@,
                value: value.as_nat(),
            },
            Event::Transfer { from, to, value } => EventV::Transfer {
                from: from@,
                to: to@,
                value: value.as_nat(),
            },
            Event::Deposit { to, value } => EventV::Deposit { to: to@, value: value.as_nat() },
            Event::Withdrawal { from, value } => EventV::Withdrawal {
                from: from@,
                value: value.as_nat(),
            },
        }
    }
}

} // verus!
