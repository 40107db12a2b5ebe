use vstd::prelude::*;

use crate::cell::{after_complete, read_outcome, CellState, CompletionCell};
use crate::dispatch::Bridge;
use crate::error::BridgeError;
use crate::sdp::{RffiSessionDescriptionInterface, SessionDescriptionInterface};

verus! {

/// Opaque reference to the foreign counterpart of a create-description observer.
#[derive(Clone, Copy, Debug, PartialEq, Eq, Structural)]
pub struct RffiCreateSessionDescriptionObserver {
    pub id: u64,
}

/// Opaque reference to the foreign counterpart of a set-description observer.
#[derive(Clone, Copy, Debug, PartialEq, Eq, Structural)]
pub struct RffiSetSessionDescriptionObserver {
    pub id: u64,
}

/// The error stored when the foreign engine reports a failed operation.
pub open spec fn operation_failed<T>(message: String, code: i32) -> Result<T, BridgeError> {
    Err(BridgeError::OperationFailed { message, code })
}

/// Bridge for one create-description operation: its outcome is a foreign
/// description object.
pub struct CreateSessionDescriptionObserver {
    condition: CompletionCell<RffiSessionDescriptionInterface>,
    rffi_csd_observer: Option<RffiCreateSessionDescriptionObserver>,
}

/// Whether `r` is what the create observer's `get_result` returns in state `s`.
pub open spec fn create_result_matches(
    s: CellState<RffiSessionDescriptionInterface>,
    r: Option<Result<SessionDescriptionInterface, BridgeError>>,
) -> bool {
    match read_outcome(s) {
        None => r is None,
        Some(Ok(p)) => r is Some && r->0 is Ok && r->0->Ok_0@ == p,
        Some(Err(e)) => r == Some(Err::<SessionDescriptionInterface, BridgeError>(e)),
    }
}

impl CreateSessionDescriptionObserver {
    /// The state of the operation's result slot.
    pub closed spec fn state(&self) -> CellState<RffiSessionDescriptionInterface> {
        self.condition@
    }

    /// The recorded foreign counterpart, if any.
    pub closed spec fn counterpart(&self) -> Option<RffiCreateSessionDescriptionObserver> {
        self.rffi_csd_observer
    }

    /// A pending observer with no counterpart recorded yet.
    pub fn new() -> (r: Self)
        ensures
            r.state() is Pending,
            r.counterpart() is None,
    {
        CreateSessionDescriptionObserver { condition: CompletionCell::new(), rffi_csd_observer: None }
    }

    /// The foreign engine created the description `desc`.
    pub fn on_create_success(&mut self, desc: RffiSessionDescriptionInterface)
        ensures
            final(self).state() == after_complete(old(self).state(), Ok(desc)),
            final(self).counterpart() == old(self).counterpart(),
    {
        let _ = self.condition.complete(Ok(desc));
    }

    /// The foreign engine reported that creating the description failed.
    pub fn on_create_failure(&mut self, err_message: String, err_type: i32)
        ensures
            final(self).state() == after_complete(
                old(self).state(),
                operation_failed(err_message, err_type),
            ),
            final(self).counterpart() == old(self).counterpart(),
    {
        let _ = self.condition.complete(Err(BridgeError::OperationFailed { message: err_message, code: err_type }));
    }

    /// Whether the outcome has been delivered.
    pub fn is_complete(&self) -> (r: bool)
        ensures
            r == !(self.state() is Pending),
    {
        self.condition.is_complete()
    }

    /// Reads the outcome without waiting: `None` while pending, afterwards
    /// the delivered outcome, on every read.
    pub fn get_result(&self) -> (r: Option<Result<SessionDescriptionInterface, BridgeError>>)
        ensures
            create_result_matches(self.state(), r),
    {
        match self.condition.read_result() {
            None => None,
            Some(Ok(p)) => Some(Ok(SessionDescriptionInterface::new(p))),
            Some(Err(e)) => Some(Err(e)),
        }
    }

    /// Records the foreign counterpart.
    pub fn set_rffi_observer(&mut self, observer: RffiCreateSessionDescriptionObserver)
        ensures
            final(self).counterpart() == Some(observer),
            final(self).state() == old(self).state(),
    {
        self.rffi_csd_observer = Some(observer);
    }

    /// The recorded foreign counterpart, if any.
    pub fn get_rffi_observer(&self) -> (r: Option<RffiCreateSessionDescriptionObserver>)
        ensures
            r == self.counterpart(),
    {
        self.rffi_csd_observer
    }
}

/// Finishes setting up a create-description observer, given the counterpart
/// that the foreign engine built for its token (`None` if it built none).
pub fn create_csd_observer(
    counterpart: Option<RffiCreateSessionDescriptionObserver>,
) -> (r: Result<Box<CreateSessionDescriptionObserver>, BridgeError>)
    ensures
        counterpart is None ==> r == Err::<Box<CreateSessionDescriptionObserver>, BridgeError>(
            BridgeError::CounterpartCreationFailed,
        ),
        counterpart is Some ==> r is Ok && r->Ok_0.state() is Pending && r->Ok_0.counterpart()
            == counterpart,
{
    match counterpart {
        None => Err(BridgeError::CounterpartCreationFailed),
        Some(c) => {
            let mut observer = CreateSessionDescriptionObserver::new();
            observer.set_rffi_observer(c);
            Ok(Box::new(observer))
        },
    }
}

/// Bridge for one set-description operation: its outcome carries no value.
pub struct SetSessionDescriptionObserver {
    condition: CompletionCell<()>,
    rffi_ssd_observer: Option<RffiSetSessionDescriptionObserver>,
}

impl SetSessionDescriptionObserver {
    /// The state of the operation's result slot.
    pub closed spec fn state(&self) -> CellState<()> {
        self.condition@
    }

    /// The recorded foreign counterpart, if any.
    pub closed spec fn counterpart(&self) -> Option<RffiSetSessionDescriptionObserver> {
        self.rffi_ssd_observer
    }

    /// A pending observer with no counterpart recorded yet.
    pub fn new() -> (r: Self)
        ensures
            r.state() is Pending,
            r.counterpart() is None,
    {
        SetSessionDescriptionObserver { condition: CompletionCell::new(), rffi_ssd_observer: None }
    }

    /// The foreign engine applied the description.
    pub fn on_set_success(&mut self)
        ensures
            final(self).state() == after_complete(old(self).state(), Ok(())),
            final(self).counterpart() == old(self).counterpart(),
    {
        let _ = self.condition.complete(Ok(()));
    }

    /// The foreign engine reported that applying the description failed.
    pub fn on_set_failure(&mut self, err_message: String, err_type: i32)
        ensures
            final(self).state() == after_complete(
                old(self).state(),
                operation_failed(err_message, err_type),
            ),
            final(self).counterpart() == old(self).counterpart(),
    {
        let _ = self.condition.complete(Err(BridgeError::OperationFailed { message: err_message, code: err_type }));
    }

    /// Whether the outcome has been delivered.
    pub fn is_complete(&self) -> (r: bool)
        ensures
            r == !(self.state() is Pending),
    {
        self.condition.is_complete()
    }

    /// Reads the outcome without waiting: `None` while pending, afterwards
    /// the delivered outcome, on every read.
    pub fn get_result(&self) -> (r: Option<Result<(), BridgeError>>)
        ensures
            r == read_outcome(self.state()),
    {
        self.condition.read_result()
    }

    /// Records the foreign counterpart.
    pub fn set_rffi_observer(&mut self, observer: RffiSetSessionDescriptionObserver)
        ensures
            final(self).counterpart() == Some(observer),
            final(self).state() == old(self).state(),
    {
        self.rffi_ssd_observer = Some(observer);
    }

    /// The recorded foreign counterpart, if any.
    pub fn get_rffi_observer(&self) -> (r: Option<RffiSetSessionDescriptionObserver>)
        ensures
            r == self.counterpart(),
    {
        self.rffi_ssd_observer
    }
}

impl Bridge for CreateSessionDescriptionObserver {
    type Payload = RffiSessionDescriptionInterface;

    type Counterpart = RffiCreateSessionDescriptionObserver;

    open spec fn bridge_state(&self) -> CellState<RffiSessionDescriptionInterface> {
        self.state()
    }

    open spec fn bridge_counterpart(&self) -> Option<RffiCreateSessionDescriptionObserver> {
        self.counterpart()
    }

    fn fresh() -> (r: Self) {
        Self::new()
    }

    fn deliver(&mut self, value: Result<RffiSessionDescriptionInterface, BridgeError>) -> (stored: bool) {
        self.condition.complete(value)
    }

    fn delivered(&self) -> (r: bool) {
        self.is_complete()
    }

    fn outcome(&self) -> (r: Option<Result<RffiSessionDescriptionInterface, BridgeError>>) {
        self.condition.read_result()
    }

    fn record_counterpart(&mut self, c: RffiCreateSessionDescriptionObserver) {
        self.set_rffi_observer(c)
    }
}

/// Finishes setting up a set-description observer, given the counterpart
/// that the foreign engine built for its token (`None` if it built none).
pub fn create_ssd_observer(
    counterpart: Option<RffiSetSessionDescriptionObserver>,
) -> (r: Result<Box<SetSessionDescriptionObserver>, BridgeError>)
    ensures
        counterpart is None ==> r == Err::<Box<SetSessionDescriptionObserver>, BridgeError>(
            BridgeError::CounterpartCreationFailed,
        ),
        counterpart is Some ==> r is Ok && r->Ok_0.state() is Pending && r->Ok_0.counterpart()
            == counterpart,
{
    match counterpart {
        None => Err(BridgeError::CounterpartCreationFailed),
        Some(c) => {
            let mut observer = SetSessionDescriptionObserver::new();
            observer.set_rffi_observer(c);
            Ok(Box::new(observer))
        },
    }
}

impl Bridge for SetSessionDescriptionObserver {
    type Payload = ();

    type Counterpart = RffiSetSessionDescriptionObserver;

    open spec fn bridge_state(&self) -> CellState<()> {
        self.state()
    }

    open spec fn bridge_counterpart(&self) -> Option<RffiSetSessionDescriptionObserver> {
        self.counterpart()
    }

    fn fresh() -> (r: Self) {
        Self::new()
    }

    fn deliver(&mut self, value: Result<(), BridgeError>) -> (stored: bool) {
        self.condition.complete(value)
    }

    fn delivered(&self) -> (r: bool) {
        self.is_complete()
    }

    fn outcome(&self) -> (r: Option<Result<(), BridgeError>>) {
        self.condition.read_result()
    }

    fn record_counterpart(&mut self, c: RffiSetSessionDescriptionObserver) {
        self.set_rffi_observer(c)
    }
}

} // verus!
