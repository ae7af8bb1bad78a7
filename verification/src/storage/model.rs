//! The persisted event model.
//!
//! A wire `Event` persists as an `EthEventData` document: the value next to
//! a tagged variant whose tag string is the discriminant by which records
//! can be filtered. Note the canonical on-disk tag of the wire `Approval`
//! variant is the singular `Approve`. A stored row is an `EthEventModel`:
//! the document under a server-assigned, strictly increasing identifier.

use vstd::prelude::*;

use crate::primitives::{Address, U256};
use crate::subscriber::model::Event;

verus! {

/// The tagged variant of a persisted event document.
#[derive(Clone, Copy, Debug, PartialEq, Eq)]
pub enum EthEventType {
    Approve { from: Address, to: Address },
    Transfer { from: Address, to: Address },
    Deposit { to: Address },
    Withdrawal { from: Address },
}

/// The discriminant tags of `EthEventType`, the scalars by which persisted
/// records are filtered.
#[derive(Clone, Copy, Debug, PartialEq, Eq, Structural)]
pub enum EthEventTypeDiscriminants {
    Approve,
    Transfer,
    Deposit,
    Withdrawal,
}

impl EthEventType {
    /// The discriminant tag of this variant.
    pub open spec fn tag(&self) -> EthEventTypeDiscriminants {
        match *self {
            EthEventType::Approve { .. } => EthEventTypeDiscriminants::Approve,
            EthEventType::Transfer { .. } => EthEventTypeDiscriminants::Transfer,
            EthEventType::Deposit { .. } => EthEventTypeDiscriminants::Deposit,
            EthEventType::Withdrawal { .. } => EthEventTypeDiscriminants::Withdrawal,
        }
    }

    /// The discriminant tag of this variant.
    pub fn discriminant(&self) -> (r: EthEventTypeDiscriminants)
        ensures
            r == self.tag(),
    {
        match *self {
            EthEventType::Approve { .. } => EthEventTypeDiscriminants::Approve,
            EthEventType::Transfer { .. } => EthEventTypeDiscriminants::Transfer,
            EthEventType::Deposit { .. } => EthEventTypeDiscriminants::Deposit,
            EthEventType::Withdrawal { .. } => EthEventTypeDiscriminants::Withdrawal,
        }
    }
}

impl EthEventTypeDiscriminants {
    /// The tag string under which this discriminant appears in the
    /// persisted document and in queries.
    pub open spec fn spec_str(&self) -> Seq<char> {
        match *self {
            EthEventTypeDiscriminants::Approve => "Approve"@,
            EthEventTypeDiscriminants::Transfer => "Transfer"@,
            EthEventTypeDiscriminants::Deposit => "Deposit"@,
            EthEventTypeDiscriminants::Withdrawal => "Withdrawal"@,
        }
    }

    /// The tag string under which this discriminant appears in the
    /// persisted document and in queries.
    pub fn as_str(&self) -> (r: &'static str)
        ensures
            r@ == self.spec_str(),
    {
        match *self {
            EthEventTypeDiscriminants::Approve => "Approve",
            EthEventTypeDiscriminants::Transfer => "Transfer",
            EthEventTypeDiscriminants::Deposit => "Deposit",
            EthEventTypeDiscriminants::Withdrawal => "Withdrawal",
        }
    }
}

/// The persisted payload of an event: its value and its tagged variant.
#[derive(Clone, Copy, Debug, PartialEq, Eq)]
pub struct EthEventData {
    pub value: U256,
    pub event_type: EthEventType,
}

impl EthEventData {
    /// The document a wire event persists as.
    pub open spec fn spec_of_event(event: Event) -> EthEventData {
        match event {
            Event::Approval { from, to, value } => EthEventData {
                value,
                event_type: EthEventType::Approve { from, to },
            },
            Event::Transfer { from, to, value } => EthEventData {
                value,
                event_type: EthEventType::Transfer { from, to },
            },
            Event::Deposit { to, value } => EthEventData {
                value,
                event_type: EthEventType::Deposit { to },
            },
            Event::Withdrawal { from, value } => EthEventData {
                value,
                event_type: EthEventType::Withdrawal { from },
            },
        }
    }

    /// Map a wire event to the document it persists as.
    pub fn of_event(event: Event) -> (r: EthEventData)
        ensures
            r == EthEventData::spec_of_event(event),
    {
        match event {
            Event::Approval { from, to, value } => EthEventData {
                value,
                event_type: EthEventType::Approve { from, to },
            },
            Event::Transfer { from, to, value } => EthEventData {
                value,
                event_type: EthEventType::Transfer { from, to },
            },
            Event::Deposit { to, value } => EthEventData {
                value,
                event_type: EthEventType::Deposit { to },
            },
            Event::Withdrawal { from, value } => EthEventData {
                value,
                event_type: EthEventType::Withdrawal { from },
            },
        }
    }
}

/// The wire event a persisted document stands for: the inverse of the
/// ingest mapping.
pub open spec fn spec_event_of_data(data: EthEventData) -> Event {
    match data.event_type {
        EthEventType::Approve { from, to } => Event::Approval { from, to, value: data.value },
        EthEventType::Transfer { from, to } => Event::Transfer { from, to, value: data.value },
        EthEventType::Deposit { to } => Event::Deposit { to, value: data.value },
        EthEventType::Withdrawal { from } => Event::Withdrawal { from, value: data.value },
    }
}

/// The ingest mapping loses nothing: the persisted document determines
/// the wire event it came from.
pub proof fn lemma_ingest_mapping_lossless(event: Event)
    ensures
        spec_event_of_data(EthEventData::spec_of_event(event)) == event,
{
}

/// A stored row: the persisted document under its server-assigned key and
/// bookkeeping columns. Rows are immutable after insert.
#[derive(Clone, Copy, Debug, PartialEq, Eq)]
pub struct EthEventModel {
    /// Strictly increasing, server-assigned on insert.
    pub id: u64,
    /// Optimistic-lock counter; fixed at zero for append-only rows.
    pub version: u64,
    /// Wall-clock stamp assigned by the store at insert.
    pub create_epoch_millis: i64,
    /// Wall-clock stamp assigned by the store at insert; rows are never
    /// updated, so it equals the creation stamp.
    pub update_epoch_millis: i64,
    /// The persisted document.
    pub data: EthEventData,
}

} // verus!
