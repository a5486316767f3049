//! The status lifecycle state machine.
use vstd::prelude::*;

use crate::models::Status;

verus! {

/// An operation of the status lifecycle.
#[derive(Clone, Copy, Debug, PartialEq, Eq, Structural)]
pub enum Operation {
    Start,
    Close,
    Resolve,
    Open,
}

/// A rejected lifecycle operation: the status it was attempted from, and
/// the operation.
#[derive(Clone, Copy, Debug, PartialEq, Eq, Structural)]
pub struct StatusTransitionError {
    pub from: Status,
    pub operation: Operation,
}

/// The status that `op` leads to from `from`, or `None` where the lifecycle
/// rejects it.
pub open spec fn transition(from: Status, op: Operation) -> Option<Status> {
    let active = from == Status::Open || from == Status::InProgress;
    match op {
        Operation::Start => if active { Some(Status::InProgress) } else { None },
        Operation::Close => if active { Some(Status::Closed) } else { None },
        Operation::Resolve => if active { Some(Status::Resolved) } else { None },
        Operation::Open => if active { None } else { Some(Status::Open) },
    }
}

/// The outcome of `op` applied from `from`.
pub open spec fn transition_result(from: Status, op: Operation) -> Result<Status, StatusTransitionError> {
    match transition(from, op) {
        Some(s) => Ok(s),
        None => Err(StatusTransitionError { from, operation: op }),
    }
}

impl Operation {
    /// The operation whose success leads to `target`.
    pub open spec fn spec_toward(target: Status) -> Operation {
        match target {
            Status::Open => Operation::Open,
            Status::InProgress => Operation::Start,
            Status::Closed => Operation::Close,
            Status::Resolved => Operation::Resolve,
        }
    }

    pub fn toward(target: Status) -> (r: Operation)
        ensures
            r == Operation::spec_toward(target),
    {
        match target {
            Status::Open => Operation::Open,
            Status::InProgress => Operation::Start,
            Status::Closed => Operation::Close,
            Status::Resolved => Operation::Resolve,
        }
    }
}

/// Applies `op` to `from`: the new status, or the rejection.
pub fn apply_operation(from: Status, op: Operation) -> (r: Result<Status, StatusTransitionError>)
    ensures
        r == transition_result(from, op),
{
    let active = match from {
        Status::Open | Status::InProgress => true,
        _ => false,
    };
    match op {
        Operation::Start => if active { Ok(Status::InProgress) } else { Err(StatusTransitionError { from, operation: op }) },
        Operation::Close => if active { Ok(Status::Closed) } else { Err(StatusTransitionError { from, operation: op }) },
        Operation::Resolve => if active { Ok(Status::Resolved) } else { Err(StatusTransitionError { from, operation: op }) },
        Operation::Open => if active { Err(StatusTransitionError { from, operation: op }) } else { Ok(Status::Open) },
    }
}

/// The status of an entity, changed only through the lifecycle operations.
pub struct StatusState {
    status: Status,
}

impl View for StatusState {
    type V = Status;

    closed spec fn view(&self) -> Status {
        self.status
    }
}

impl StatusState {
    pub fn new(status: Status) -> (r: Self)
        ensures
            r@ == status,
    {
        Self { status }
    }

    pub fn get_status(&self) -> (r: Status)
        ensures
            r == self@,
    {
        self.status
    }

    /// Applies `op`; on rejection the status is left as it was.
    pub fn apply(&mut self, op: Operation) -> (r: Result<(), StatusTransitionError>)
        ensures
            match transition_result(old(self)@, op) {
                Ok(s) => r is Ok && final(self)@ == s,
                Err(e) => r == Err::<(), _>(e) && final(self)@ == old(self)@,
            },
    {
        match apply_operation(self.status, op) {
            Ok(s) => {
                self.status = s;
                Ok(())
            },
            Err(e) => Err(e),
        }
    }

    /// Moves an open or in-progress entity to in progress.
    pub fn start(&mut self) -> (r: Result<(), StatusTransitionError>)
        ensures
            match transition_result(old(self)@, Operation::Start) {
                Ok(s) => r is Ok && final(self)@ == s,
                Err(e) => r == Err::<(), _>(e) && final(self)@ == old(self)@,
            },
    {
        self.apply(Operation::Start)
    }

    /// Closes an open or in-progress entity.
    pub fn close(&mut self) -> (r: Result<(), StatusTransitionError>)
        ensures
            match transition_result(old(self)@, Operation::Close) {
                Ok(s) => r is Ok && final(self)@ == s,
                Err(e) => r == Err::<(), _>(e) && final(self)@ == old(self)@,
            },
    {
        self.apply(Operation::Close)
    }

    /// Resolves an open or in-progress entity.
    pub fn resolve(&mut self) -> (r: Result<(), StatusTransitionError>)
        ensures
            match transition_result(old(self)@, Operation::Resolve) {
                Ok(s) => r is Ok && final(self)@ == s,
                Err(e) => r == Err::<(), _>(e) && final(self)@ == old(self)@,
            },
    {
        self.apply(Operation::Resolve)
    }

    /// Reopens a closed or resolved entity.
    pub fn open(&mut self) -> (r: Result<(), StatusTransitionError>)
        ensures
            match transition_result(old(self)@, Operation::Open) {
                Ok(s) => r is Ok && final(self)@ == s,
                Err(e) => r == Err::<(), _>(e) && final(self)@ == old(self)@,
            },
    {
        self.apply(Operation::Open)
    }
}

} // verus!
