//! The two kinds of transaction the engine runs and the settings of each.
use vstd::prelude::*;

verus! {

#[derive(Clone, Copy, Debug, PartialEq, Eq, Structural)]
pub enum TransactionMode {
    /// Aggregates and statements: one consistent snapshot, no writes.
    Read,
    /// Every mutating operation.
    Write,
}

#[derive(Clone, Copy, Debug, PartialEq, Eq, Structural)]
pub enum IsolationLevel {
    Serializable,
    RepeatableRead,
}

#[derive(Clone, Copy, Debug, PartialEq, Eq, Structural)]
pub struct TransactionSettings {
    pub isolation: IsolationLevel,
    pub read_only: bool,
    pub deferrable: bool,
}

impl TransactionMode {
    /// Reads run serializable, read-only and deferrable; writes run
    /// repeatable-read and read-write.
    pub fn settings(&self) -> (r: TransactionSettings)
        ensures
            *self == TransactionMode::Read ==> r == (TransactionSettings {
                isolation: IsolationLevel::Serializable,
                read_only: true,
                deferrable: true,
            }),
            *self == TransactionMode::Write ==> r == (TransactionSettings {
                isolation: IsolationLevel::RepeatableRead,
                read_only: false,
                deferrable: false,
            }),
    {
        match self {
            TransactionMode::Read => TransactionSettings {
                isolation: IsolationLevel::Serializable,
                read_only: true,
                deferrable: true,
            },
            TransactionMode::Write => TransactionSettings {
                isolation: IsolationLevel::RepeatableRead,
                read_only: false,
                deferrable: false,
            },
        }
    }
}

} // verus!
