//! The guest's view of `wasi:can` values through embedded-can: a `wasi:can`
//! frame answers embedded-can's frame questions, and nonblocking errors
//! become nb errors.

use vstd::prelude::*;
use crate::can::nonblocking::Error;
use crate::can::types::{
    copy_bytes, extended_id_new, spec_from_hal_id, spec_to_hal_id, standard_id_new, ErrorCode, Frame,
    FrameKind, FrameKindView, HalId, Id,
};

verus! {

/// The `wasi:can` identifier of an embedded-can identifier.
pub fn id_to_wasi(id: HalId) -> (r: Id)
    ensures
        r == spec_from_hal_id(id),
{
    match id {
        HalId::Standard(raw) => Id::Standard(raw),
        HalId::Extended(raw) => Id::Extended(raw),
    }
}

/// The embedded-can identifier of a `wasi:can` identifier the host handed
/// out; such an identifier is always in range.
pub fn id_from_wasi(id: Id) -> (r: HalId)
    requires
        spec_to_hal_id(id) is Some,
    ensures
        Some(r) == spec_to_hal_id(id),
{
    match id {
        Id::Standard(raw) => match standard_id_new(raw) {
            Some(v) => HalId::Standard(v),
            None => HalId::Standard(0),
        },
        Id::Extended(raw) => match extended_id_new(raw) {
            Some(v) => HalId::Extended(v),
            None => HalId::Extended(0),
        },
    }
}

/// An nb error as embedded-can's nonblocking interface reports it.
#[derive(Clone, Debug, PartialEq, Eq)]
pub enum NbError<E> {
    WouldBlock,
    Other(E),
}

/// The nb error a guest reports for a nonblocking `wasi:can` error.
pub fn to_nb_error(e: Error) -> (r: NbError<ErrorCode>)
    ensures
        (r is WouldBlock) <==> (e is WouldBlock),
        e matches Error::Other(c) ==> r == NbError::Other(c),
{
    match e {
        Error::WouldBlock => NbError::WouldBlock,
        Error::Other(c) => NbError::Other(c),
    }
}

/// The data length code a guest reports for a frame.
pub open spec fn spec_guest_dlc(kind: FrameKindView) -> int {
    match kind {
        FrameKindView::Data(d) => d.len() as int,
        FrameKindView::Remote(n) => n as int,
    }
}

/// The payload a guest reports for a frame.
pub open spec fn spec_guest_data(kind: FrameKindView) -> Seq<u8> {
    match kind {
        FrameKindView::Data(d) => d,
        FrameKindView::Remote(_) => Seq::<u8>::empty(),
    }
}

/// What a loop that receives from a nonblocking CAN device does next.
#[derive(Clone, Debug, PartialEq, Eq)]
pub enum ReceiveStep<F, E> {
    /// Nothing has arrived yet: pause, then try again.
    Retry,
    /// A frame has arrived: hand it on and keep receiving.
    Deliver(F),
    /// The device failed: report the error and stop.
    Stop(E),
}

/// One step of a nonblocking receive loop: would-block means pause and
/// retry, a frame is handed on, any other error ends the loop.
pub fn receive_step<F, E>(outcome: Result<F, NbError<E>>) -> (r: ReceiveStep<F, E>)
    ensures
        match outcome {
            Ok(f) => r == ReceiveStep::<F, E>::Deliver(f),
            Err(NbError::WouldBlock) => r is Retry,
            Err(NbError::Other(e)) => r == ReceiveStep::<F, E>::Stop(e),
        },
{
    match outcome {
        Ok(f) => ReceiveStep::Deliver(f),
        Err(NbError::WouldBlock) => ReceiveStep::Retry,
        Err(NbError::Other(e)) => ReceiveStep::Stop(e),
    }
}

impl Frame {
    /// A data frame as a guest builds it; the guest does not limit the payload.
    pub fn new(id: HalId, data: &[u8]) -> (r: Option<Frame>)
        ensures
            r matches Some(f) && f.id == spec_from_hal_id(id) && f@.kind == FrameKindView::Data(data@),
    {
        Some(Frame { id: id_to_wasi(id), kind: FrameKind::Data(copy_bytes(data)) })
    }

    /// A remote frame as a guest builds it; the data length code is kept
    /// modulo 2^32.
    pub fn new_remote(id: HalId, dlc: usize) -> (r: Option<Frame>)
        ensures
            r matches Some(f) && f.id == spec_from_hal_id(id) && f.kind == FrameKind::Remote(dlc as u32),
    {
        Some(Frame { id: id_to_wasi(id), kind: FrameKind::Remote(dlc as u32) })
    }

    /// Whether the frame has an extended identifier.
    pub fn is_extended(&self) -> (r: bool)
        ensures
            r <==> self.id is Extended,
    {
        match self.id {
            Id::Standard(_) => false,
            Id::Extended(_) => true,
        }
    }

    /// Whether the frame is a remote frame.
    pub fn is_remote_frame(&self) -> (r: bool)
        ensures
            r <==> self.kind is Remote,
    {
        match &self.kind {
            FrameKind::Data(_) => false,
            FrameKind::Remote(_) => true,
        }
    }

    /// The frame's embedded-can identifier; the host only hands out frames
    /// whose identifier is in range.
    pub fn id(&self) -> (r: HalId)
        requires
            spec_to_hal_id(self.id) is Some,
        ensures
            Some(r) == spec_to_hal_id(self.id),
    {
        id_from_wasi(self.id)
    }

    /// The data length code: the payload length of a data frame, the
    /// requested length of a remote frame.
    pub fn dlc(&self) -> (r: usize)
        ensures
            r == spec_guest_dlc(self@.kind),
    {
        match &self.kind {
            FrameKind::Data(data) => data.len(),
            FrameKind::Remote(dlc) => *dlc as usize,
        }
    }

    /// The payload: empty for a remote frame.
    pub fn data(&self) -> (r: &[u8])
        ensures
            r@ == spec_guest_data(self@.kind),
    {
        match &self.kind {
            FrameKind::Data(data) => data.as_slice(),
            FrameKind::Remote(_) => &[],
        }
    }
}

/// A frame a guest builds answers embedded-can's questions with what it was
/// built from: its identifier comes back, a data frame reports its payload
/// and its length as the data length code, a remote frame reports no
/// payload and the code it was built with.
pub proof fn law_guest_frame_answers(id: HalId, data: Seq<u8>, dlc: u32)
    requires
        id.wf(),
    ensures
        spec_to_hal_id(spec_from_hal_id(id)) == Some(id),
        spec_guest_dlc(FrameKindView::Data(data)) == data.len(),
        spec_guest_data(FrameKindView::Data(data)) == data,
        spec_guest_dlc(FrameKindView::Remote(dlc)) == dlc,
        spec_guest_data(FrameKindView::Remote(dlc)) == Seq::<u8>::empty(),
{
}

} // verus!
