use vstd::prelude::*;

use crate::error::BridgeError;

verus! {

/// The abstract state of a one-shot completion cell.
pub enum CellState<T> {
    /// No outcome has been delivered yet.
    Pending,
    /// An outcome has been delivered; it never changes again.
    Done(Result<T, BridgeError>),
}

/// The state after a delivery of `value`: only a pending cell takes it.
pub open spec fn after_complete<T>(s: CellState<T>, value: Result<T, BridgeError>) -> CellState<T> {
    match s {
        CellState::Pending => CellState::Done(value),
        _ => s,
    }
}

/// What a read returns in state `s`; `None` means "not yet available".
pub open spec fn read_outcome<T>(s: CellState<T>) -> Option<Result<T, BridgeError>> {
    match s {
        CellState::Pending => None,
        CellState::Done(v) => Some(v),
    }
}

/// An exact copy of an error.
pub fn copy_error(e: &BridgeError) -> (r: BridgeError)
    ensures
        r == *e,
{
    match e {
        BridgeError::CounterpartCreationFailed => BridgeError::CounterpartCreationFailed,
        BridgeError::MalformedDescription => BridgeError::MalformedDescription,
        BridgeError::DescriptionUnavailable => BridgeError::DescriptionUnavailable,
        BridgeError::OperationFailed { message, code } => BridgeError::OperationFailed {
            message: message.clone(),
            code: *code,
        },
        BridgeError::LockPoisoned => BridgeError::LockPoisoned,
        BridgeError::BridgeFailure => BridgeError::BridgeFailure,
    }
}

/// A one-shot result slot: written at most once, read any number of times.
pub struct CompletionCell<T> {
    outcome: Option<Result<T, BridgeError>>,
}

impl<T> View for CompletionCell<T> {
    type V = CellState<T>;

    closed spec fn view(&self) -> CellState<T> {
        match self.outcome {
            None => CellState::Pending,
            Some(v) => CellState::Done(v),
        }
    }
}

impl<T: Copy> CompletionCell<T> {
    /// A cell with no outcome yet.
    pub fn new() -> (r: Self)
        ensures
            r@ is Pending,
    {
        CompletionCell { outcome: None }
    }

    /// Delivers `value`. Only the first delivery is stored; a later one is
    /// ignored and reported by returning `false`.
    pub fn complete(&mut self, value: Result<T, BridgeError>) -> (stored: bool)
        ensures
            stored == (old(self)@ is Pending),
            final(self)@ == after_complete(old(self)@, value),
    {
        if self.outcome.is_some() {
            false
        } else {
            self.outcome = Some(value);
            true
        }
    }

    /// Whether an outcome has been delivered.
    pub fn is_complete(&self) -> (r: bool)
        ensures
            r == !(self@ is Pending),
    {
        self.outcome.is_some()
    }

    /// Reads the delivered outcome without waiting: `None` while pending,
    /// afterwards a copy of the stored outcome, on every read.
    pub fn read_result(&self) -> (r: Option<Result<T, BridgeError>>)
        ensures
            r == read_outcome(self@),
    {
        match &self.outcome {
            None => None,
            Some(Ok(v)) => Some(Ok(*v)),
            Some(Err(e)) => Some(Err(copy_error(e))),
        }
    }
}

/// A second delivery never overwrites the first: after two deliveries to a
/// pending cell, the cell holds the first value.
pub proof fn lemma_second_complete_ignored<T>(a: Result<T, BridgeError>, b: Result<T, BridgeError>)
    ensures
        after_complete(after_complete(CellState::Pending, a), b) == CellState::<T>::Done(a),
{
}

/// Once a read has returned an outcome, every later read, whatever was
/// delivered in between, returns at once with that same outcome.
pub proof fn lemma_result_read_stable<T>(s: CellState<T>, later: Result<T, BridgeError>)
    requires
        read_outcome(s) is Some,
    ensures
        read_outcome(after_complete(s, later)) == read_outcome(s),
{
}

} // verus!
