//! `wasi:gpio/digital-async`: the wait state of an input pin a guest waits on.
//!
//! A guest starts a wait for a level or an edge, the host's poll performs
//! the wait on the device, and the guest collects the outcome; one wait at
//! a time per pin.

use vstd::prelude::*;
use crate::gpio::types::{hardware_gpio_error, map_digital_hal_error, ErrorCode, HalGpioError};

verus! {

/// What a guest waits for.
#[derive(Clone, Copy, Debug, PartialEq, Eq, Structural)]
pub enum WaitKind {
    High,
    Low,
    RisingEdge,
    FallingEdge,
    AnyEdge,
}

/// Where a pin is in its wait cycle.
#[derive(Debug, PartialEq, Eq)]
pub enum WaitState {
    Idle,
    Waiting(WaitKind),
    Finished(Result<(), ErrorCode>),
}

/// The mathematical wait state: an error outcome is held by its message.
pub enum WaitStateView {
    Idle,
    Waiting(WaitKind),
    Finished(Result<(), Seq<char>>),
}

impl View for WaitState {
    type V = WaitStateView;

    open spec fn view(&self) -> WaitStateView {
        match self {
            WaitState::Idle => WaitStateView::Idle,
            WaitState::Waiting(k) => WaitStateView::Waiting(*k),
            WaitState::Finished(Ok(())) => WaitStateView::Finished(Ok(())),
            WaitState::Finished(Err(e)) => WaitStateView::Finished(Err(e@)),
        }
    }
}

/// Why collecting a wait's outcome failed.
#[derive(Clone, Debug, PartialEq, Eq)]
pub enum WaitError {
    NotInProgress,
    WouldBlock,
    Other(ErrorCode),
}

/// The mathematical value of a wait error.
pub enum WaitErrorView {
    NotInProgress,
    WouldBlock,
    Other(Seq<char>),
}

impl View for WaitError {
    type V = WaitErrorView;

    open spec fn view(&self) -> WaitErrorView {
        match self {
            WaitError::NotInProgress => WaitErrorView::NotInProgress,
            WaitError::WouldBlock => WaitErrorView::WouldBlock,
            WaitError::Other(e) => WaitErrorView::Other(e@),
        }
    }
}

/// The message returned when a wait is started while another is pending.
pub open spec fn wait_in_progress() -> Seq<char> {
    "Wait already in progress"@
}

/// Starting a wait: only an idle pin starts one.
pub open spec fn spec_start(s: WaitStateView, kind: WaitKind) -> WaitStateView {
    match s {
        WaitStateView::Idle => WaitStateView::Waiting(kind),
        _ => s,
    }
}

/// The state after the device has answered a pending wait.
pub open spec fn spec_complete(s: WaitStateView, outcome: Result<(), Seq<char>>) -> WaitStateView {
    match s {
        WaitStateView::Waiting(_) => WaitStateView::Finished(outcome),
        _ => s,
    }
}

/// The state after a guest has asked for a wait's outcome.
pub open spec fn spec_finish_state(s: WaitStateView) -> WaitStateView {
    match s {
        WaitStateView::Finished(_) => WaitStateView::Idle,
        _ => s,
    }
}

/// What a guest gets when it asks for a wait's outcome.
pub open spec fn spec_finish_result(s: WaitStateView) -> Result<(), WaitErrorView> {
    match s {
        WaitStateView::Idle => Err(WaitErrorView::NotInProgress),
        WaitStateView::Waiting(_) => Err(WaitErrorView::WouldBlock),
        WaitStateView::Finished(Ok(())) => Ok(()),
        WaitStateView::Finished(Err(m)) => Err(WaitErrorView::Other(m)),
    }
}

/// The view of a wait result.
pub open spec fn wait_result_view(r: Result<(), WaitError>) -> Result<(), WaitErrorView> {
    match r {
        Ok(()) => Ok(()),
        Err(e) => Err(e@),
    }
}

fn copy_error(e: &ErrorCode) -> (r: ErrorCode)
    ensures
        r@ == e@,
{
    match e {
        ErrorCode::Other(s) => ErrorCode::Other(s.clone()),
    }
}

/// An input pin a guest can wait on.
pub struct InputWaitPin<D> {
    pub name: String,
    pub erased_pin: D,
    pub wait_state: WaitState,
    pub debug: bool,
}

impl<D> InputWaitPin<D> {
    /// The pin's wait state.
    pub open spec fn state(&self) -> WaitStateView {
        self.wait_state@
    }

    /// Whether device errors of this pin carry the device's own description.
    pub open spec fn debug_mode(&self) -> bool {
        self.debug
    }

    /// A freshly opened pin: idle, in the debug mode of the context it came from.
    pub fn new(name: String, erased_pin: D, debug: bool) -> (r: Self)
        ensures
            r.name == name,
            r.erased_pin == erased_pin,
            r.state() == WaitStateView::Idle,
            r.debug_mode() == debug,
    {
        InputWaitPin { name, erased_pin, wait_state: WaitState::Idle, debug }
    }

    /// Starts a wait; fails with "Wait already in progress" unless the pin is idle.
    pub fn start_wait(&mut self, kind: WaitKind) -> (r: Result<(), ErrorCode>)
        ensures
            r is Ok <==> old(self).state() is Idle,
            r matches Err(e) ==> e@ == wait_in_progress(),
            final(self).state() == spec_start(old(self).state(), kind),
            old(self).state() is Idle ==> final(self).state() == WaitStateView::Waiting(kind),
            !(old(self).state() is Idle) ==> final(self).state() == old(self).state(),
            final(self).debug_mode() == old(self).debug_mode(),
            final(self).name == old(self).name,
            final(self).erased_pin == old(self).erased_pin,
    {
        match self.wait_state {
            WaitState::Idle => {
                self.wait_state = WaitState::Waiting(kind);
                Ok(())
            },
            _ => Err(ErrorCode::Other("Wait already in progress".to_owned())),
        }
    }

    /// The wait the poll has to perform on the device, if one is pending.
    pub fn pending_wait(&self) -> (r: Option<WaitKind>)
        ensures
            r == (match self.state() {
                WaitStateView::Waiting(k) => Some(k),
                _ => None::<WaitKind>,
            }),
    {
        match self.wait_state {
            WaitState::Waiting(kind) => Some(kind),
            _ => None,
        }
    }

    /// Records the device's answer to the pending wait; a device error is
    /// mapped as any other digital pin error.
    pub fn complete_wait(&mut self, outcome: Result<(), HalGpioError>)
        ensures
            final(self).state() == spec_complete(old(self).state(), match outcome {
                Ok(()) => Ok(()),
                Err(e) => Err(if old(self).debug_mode() { e.detail@ } else { hardware_gpio_error() }),
            }),
            final(self).debug_mode() == old(self).debug_mode(),
            final(self).name == old(self).name,
            final(self).erased_pin == old(self).erased_pin,
    {
        if let WaitState::Waiting(_) = self.wait_state {
            let result = match outcome {
                Ok(()) => Ok(()),
                Err(e) => Err(map_digital_hal_error(e, self.debug)),
            };
            self.wait_state = WaitState::Finished(result);
        }
    }

    /// Collects the outcome of a finished wait, making the pin idle again;
    /// a pin that is idle or still waiting is left as it is.
    pub fn finish_wait(&mut self) -> (r: Result<(), WaitError>)
        ensures
            wait_result_view(r) == spec_finish_result(old(self).state()),
            final(self).state() == spec_finish_state(old(self).state()),
            final(self).debug_mode() == old(self).debug_mode(),
            final(self).name == old(self).name,
            final(self).erased_pin == old(self).erased_pin,
    {
        match &self.wait_state {
            WaitState::Idle => Err(WaitError::NotInProgress),
            WaitState::Waiting(_) => Err(WaitError::WouldBlock),
            WaitState::Finished(Ok(())) => {
                self.wait_state = WaitState::Idle;
                Ok(())
            },
            WaitState::Finished(Err(err)) => {
                let err = copy_error(err);
                self.wait_state = WaitState::Idle;
                Err(WaitError::Other(err))
            },
        }
    }
}

/// A full wait cycle on an idle pin: start, the device's answer, collection.
/// The guest gets exactly the device's outcome and the pin is idle again.
pub proof fn law_wait_cycle(kind: WaitKind, outcome: Result<(), Seq<char>>)
    ensures
        ({
            let s = spec_complete(spec_start(WaitStateView::Idle, kind), outcome);
            &&& spec_finish_result(s) == match outcome {
                Ok(()) => Ok::<(), WaitErrorView>(()),
                Err(m) => Err(WaitErrorView::Other(m)),
            }
            &&& spec_finish_state(s) is Idle
        }),
{
}

/// Starting a wait on an idle pin records exactly the wait the guest asked
/// for, and the poll is then asked to perform exactly that wait.
pub proof fn law_start_records_kind(kind: WaitKind)
    ensures
        spec_start(WaitStateView::Idle, kind) == WaitStateView::Waiting(kind),
        spec_start(WaitStateView::Idle, kind) matches WaitStateView::Waiting(k) && k == kind,
{
}

/// One wait at a time: a pin that is waiting or holds an uncollected outcome
/// refuses a new wait, and asking for the outcome of a pending wait neither
/// blocks nor changes it.
pub proof fn law_one_wait_at_a_time(s: WaitStateView, kind: WaitKind)
    ensures
        !(s is Idle) ==> spec_start(s, kind) == s,
        s is Waiting ==> spec_finish_result(s) == Err::<(), WaitErrorView>(WaitErrorView::WouldBlock)
            && spec_finish_state(s) == s,
{
}

} // verus!
