//! How an operation waits for the engine: the two ways of asking for its
//! lock, and which operation asks in which way.

use crate::types::AppError;
use vstd::prelude::*;

verus! {

/// The operations that the front end can ask of the engine.
#[derive(Debug, Clone, Copy, PartialEq, Eq, Structural)]
pub enum Operation {
    ProfilesInfo,
    ListProfiles,
    GetStatus,
    ReadContent,
    SaveContent,
    CreateProfile,
    DeleteProfile,
    ValidateJson,
}

/// How an operation asks for the engine's lock.
#[derive(Debug, Clone, Copy, PartialEq, Eq, Structural)]
pub enum AccessMode {
    /// Wait for the lock: the operation must see the latest state.
    Consistent,
    /// Give up at once where the lock is held: the operation must not stall.
    BestEffort,
}

/// What is to be done about an operation that asks for the lock.
#[derive(Debug, PartialEq)]
pub enum Admission {
    /// The lock is free: take it and go on.
    Enter,
    /// The lock is held: wait for it.
    Wait,
    /// The lock is held: give up with this error.
    Refuse(AppError),
}

/// The way in which `operation` asks for the lock. Reading a content waits,
/// so that a read right after a switch sees what the switch wrote; every
/// other operation gives up where the lock is held.
pub open spec fn mode_of(operation: Operation) -> AccessMode {
    match operation {
        Operation::ReadContent => AccessMode::Consistent,
        _ => AccessMode::BestEffort,
    }
}

/// The way in which `operation` asks for the lock.
pub fn access_mode(operation: Operation) -> (r: AccessMode)
    ensures
        r == mode_of(operation),
{
    match operation {
        Operation::ReadContent => AccessMode::Consistent,
        _ => AccessMode::BestEffort,
    }
}

/// What is to be done about an operation that asks for the lock in the way
/// `mode`, given whether the lock is free: a free lock is taken; a held one
/// is waited for by a consistent operation and refused to any other as busy.
pub fn admission(lock_is_free: bool, mode: AccessMode) -> (r: Admission)
    ensures
        lock_is_free ==> r is Enter,
        !lock_is_free && mode == AccessMode::Consistent ==> r is Wait,
        !lock_is_free && mode == AccessMode::BestEffort ==> r == Admission::Refuse(AppError::Busy),
{
    if lock_is_free {
        Admission::Enter
    } else {
        match mode {
            AccessMode::Consistent => Admission::Wait,
            AccessMode::BestEffort => Admission::Refuse(AppError::Busy),
        }
    }
}

} // verus!
