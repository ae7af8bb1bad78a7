//! The closed set of error kinds the core emits.
//!
//! Each variant carries an opaque, human-readable cause. Equality on error
//! values is defined only up to the kind tag: the causes are not part of it.

use vstd::prelude::*;

verus! {

/// An error surfaced across the library boundary.
#[derive(Debug)]
pub enum CoreError {
    /// Any database-layer failure (connect, query, serialize, commit).
    DatabaseError(String),
    /// A schema migration failed at initialization.
    DatabaseMigrationError(String),
    /// A matched log's payload failed to parse.
    DecodeError(String),
    /// The initial WebSocket connection or subscription call failed.
    SubscriptionError(String),
    /// A channel receiver is gone.
    SendError(String),
}

impl CoreError {
    /// The rank of the kind tag, the basis of the order on errors.
    pub open spec fn kind_rank(&self) -> int {
        match *self {
            CoreError::DatabaseError(_) => 0,
            CoreError::DatabaseMigrationError(_) => 1,
            CoreError::DecodeError(_) => 2,
            CoreError::SubscriptionError(_) => 3,
            CoreError::SendError(_) => 4,
        }
    }

    /// The rank of the kind tag.
    fn rank(&self) -> (r: u8)
        ensures
            r == self.kind_rank(),
    {
        match *self {
            CoreError::DatabaseError(_) => 0,
            CoreError::DatabaseMigrationError(_) => 1,
            CoreError::DecodeError(_) => 2,
            CoreError::SubscriptionError(_) => 3,
            CoreError::SendError(_) => 4,
        }
    }

    /// True when `self` and `other` are the same kind of error, whatever
    /// their causes say.
    pub open spec fn same_kind(&self, other: &CoreError) -> bool {
        match (self, other) {
            (CoreError::DatabaseError(_), CoreError::DatabaseError(_)) => true,
            (CoreError::DatabaseMigrationError(_), CoreError::DatabaseMigrationError(_)) => true,
            (CoreError::DecodeError(_), CoreError::DecodeError(_)) => true,
            (CoreError::SubscriptionError(_), CoreError::SubscriptionError(_)) => true,
            (CoreError::SendError(_), CoreError::SendError(_)) => true,
            _ => false,
        }
    }

    /// The cause carried by the error, as a spec value.
    pub open spec fn spec_cause(&self) -> String {
        match *self {
            CoreError::DatabaseError(ref c) => *c,
            CoreError::DatabaseMigrationError(ref c) => *c,
            CoreError::DecodeError(ref c) => *c,
            CoreError::SubscriptionError(ref c) => *c,
            CoreError::SendError(ref c) => *c,
        }
    }

    /// The cause carried by the error, for display at the boundary.
    pub fn cause(&self) -> (r: &String)
        ensures
            *r == self.spec_cause(),
    {
        match self {
            CoreError::DatabaseError(c) => c,
            CoreError::DatabaseMigrationError(c) => c,
            CoreError::DecodeError(c) => c,
            CoreError::SubscriptionError(c) => c,
            CoreError::SendError(c) => c,
        }
    }
}

impl PartialEq for CoreError {
    /// Errors compare equal exactly when they are of the same kind; the
    /// opaque causes are not part of equality.
    fn eq(&self, other: &CoreError) -> (r: bool)
        ensures
            r == self.same_kind(other),
    {
        match (self, other) {
            (CoreError::DatabaseError(_), CoreError::DatabaseError(_)) => true,
            (CoreError::DatabaseMigrationError(_), CoreError::DatabaseMigrationError(_)) => true,
            (CoreError::DecodeError(_), CoreError::DecodeError(_)) => true,
            (CoreError::SubscriptionError(_), CoreError::SubscriptionError(_)) => true,
            (CoreError::SendError(_), CoreError::SendError(_)) => true,
            _ => false,
        }
    }
}

impl vstd::std_specs::cmp::PartialEqSpecImpl for CoreError {
    open spec fn obeys_eq_spec() -> bool {
        true
    }

    open spec fn eq_spec(&self, other: &CoreError) -> bool {
        self.same_kind(other)
    }
}

impl PartialOrd for CoreError {
    /// Errors order by the rank of their kind tags alone; the opaque
    /// causes are not part of the order.
    fn partial_cmp(&self, other: &CoreError) -> (r: Option<core::cmp::Ordering>) {
        let a = self.rank();
        let b = other.rank();
        if a < b {
            Some(core::cmp::Ordering::Less)
        } else if a == b {
            Some(core::cmp::Ordering::Equal)
        } else {
            Some(core::cmp::Ordering::Greater)
        }
    }
}

impl vstd::std_specs::cmp::PartialOrdSpecImpl for CoreError {
    open spec fn obeys_partial_cmp_spec() -> bool {
        true
    }

    open spec fn partial_cmp_spec(&self, other: &CoreError) -> Option<core::cmp::Ordering> {
        if self.kind_rank() < other.kind_rank() {
            Some(core::cmp::Ordering::Less)
        } else if self.kind_rank() == other.kind_rank() {
            Some(core::cmp::Ordering::Equal)
        } else {
            Some(core::cmp::Ordering::Greater)
        }
    }
}

} // verus!
