//! `wasi:can/nonblocking`: an opened CAN device and the decisions around each
//! nonblocking transmit and receive.

use vstd::prelude::*;
use crate::can::blocking::invalid_frame;
use crate::can::types::{
    spec_from_hal, spec_map_hal_error, spec_to_hal, ErrorCode, ErrorCodeView, Frame, HalCanError,
    HalFrame, map_hal_error,
};

verus! {

/// A CAN device that a guest has opened, with the name it was registered under.
pub struct Can<D> {
    pub name: String,
    pub erased_can: D,
}

/// The error of a nonblocking `wasi:can` operation.
#[derive(Clone, Debug, PartialEq, Eq)]
pub enum Error {
    WouldBlock,
    Other(ErrorCode),
}

/// The error of a nonblocking device operation.
#[derive(Clone, Debug, PartialEq, Eq)]
pub enum HalError {
    WouldBlock,
    Other(HalCanError),
}

/// The `wasi:can` error for a device error: `WouldBlock` stays as it is,
/// any other error is mapped as the blocking interface maps it.
pub open spec fn spec_map_nb_error(e: HalError, debug: bool, r: Error) -> bool {
    match e {
        HalError::WouldBlock => r is WouldBlock,
        HalError::Other(h) => r matches Error::Other(c) && c@ == spec_map_hal_error(h.kind, debug, h.detail@),
    }
}

/// Maps a nonblocking device error.
pub fn map_nb_error(e: HalError, debug: bool) -> (r: Error)
    ensures
        spec_map_nb_error(e, debug, r),
{
    match e {
        HalError::WouldBlock => Error::WouldBlock,
        HalError::Other(h) => Error::Other(map_hal_error(h, debug)),
    }
}

/// The frame the device is asked to build for `frame`, or the error
/// returned to the guest when its identifier is out of range.
pub fn prepare_transmit(frame: &Frame) -> (r: Result<HalFrame, Error>)
    ensures
        spec_to_hal(frame@) is None <==> r is Err,
        r matches Ok(h) ==> spec_to_hal(frame@) == Some(h@),
        r matches Err(e) ==> e matches Error::Other(c) && c@ == ErrorCodeView::Other(invalid_frame()),
{
    match frame.to_hal() {
        Some(h) => Ok(h),
        None => Err(Error::Other(ErrorCode::Other("Invalid frame".to_owned()))),
    }
}

/// Why a nonblocking transmit did not happen: the device's frame type
/// refused to build the frame, or the device reported an error.
#[derive(Clone, Debug, PartialEq, Eq)]
pub enum TransmitError {
    InvalidFrame,
    Device(HalError),
}

/// What a guest's transmit returns once the device has answered: the
/// lower-priority frame the device dropped to make room, if any; "Invalid
/// frame" for a frame the device could not build; or the mapped error.
pub fn finish_transmit(outcome: Result<Option<HalFrame>, TransmitError>, debug: bool) -> (r: Result<Option<Frame>, Error>)
    requires
        outcome matches Ok(Some(h)) ==> (h.remote ==> h.dlc <= u32::MAX),
    ensures
        outcome is Ok <==> r is Ok,
        outcome matches Ok(None) ==> r matches Ok(None),
        outcome matches Ok(Some(h)) ==> r matches Ok(Some(f)) && f@ == spec_from_hal(h@),
        outcome matches Err(TransmitError::InvalidFrame) ==> r matches Err(Error::Other(c))
            && c@ == ErrorCodeView::Other(invalid_frame()),
        outcome matches Err(TransmitError::Device(e)) ==> r matches Err(c) && spec_map_nb_error(e, debug, c),
{
    match outcome {
        Ok(Some(h)) => Ok(Some(Frame::from_hal(&h))),
        Ok(None) => Ok(None),
        Err(TransmitError::InvalidFrame) => Err(Error::Other(ErrorCode::Other("Invalid frame".to_owned()))),
        Err(TransmitError::Device(e)) => Err(map_nb_error(e, debug)),
    }
}

/// What a guest's receive returns once the device has answered.
pub fn finish_receive(outcome: Result<HalFrame, HalError>, debug: bool) -> (r: Result<Frame, Error>)
    requires
        outcome matches Ok(h) ==> (h.remote ==> h.dlc <= u32::MAX),
    ensures
        outcome is Ok <==> r is Ok,
        outcome matches Ok(h) ==> r matches Ok(f) && f@ == spec_from_hal(h@),
        outcome matches Err(e) ==> r matches Err(c) && spec_map_nb_error(e, debug, c),
{
    match outcome {
        Ok(h) => Ok(Frame::from_hal(&h)),
        Err(e) => Err(map_nb_error(e, debug)),
    }
}

} // verus!
