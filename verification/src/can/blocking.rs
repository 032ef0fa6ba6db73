//! `wasi:can/blocking`: an opened CAN device and the decisions around each
//! blocking transmit and receive.

use vstd::prelude::*;
use crate::can::types::{
    spec_from_hal, spec_map_hal_error, spec_to_hal, ErrorCode, ErrorCodeView, Frame, HalCanError,
    HalFrame, map_hal_error,
};

verus! {

/// A CAN device that a guest has opened, with the name it was registered under.
pub struct Can<D> {
    pub name: String,
    pub erased_can: D,
}

/// The message returned for a frame that cannot be sent.
pub open spec fn invalid_frame() -> Seq<char> {
    "Invalid frame"@
}

/// The frame the device is asked to build for `frame`, or the error
/// returned to the guest when its identifier is out of range.
pub fn prepare_transmit(frame: &Frame) -> (r: Result<HalFrame, ErrorCode>)
    ensures
        spec_to_hal(frame@) is None <==> r is Err,
        r matches Ok(h) ==> spec_to_hal(frame@) == Some(h@),
        r matches Err(e) ==> e@ == ErrorCodeView::Other(invalid_frame()),
{
    match frame.to_hal() {
        Some(h) => Ok(h),
        None => Err(ErrorCode::Other("Invalid frame".to_owned())),
    }
}

/// Why a transmit did not happen: the device's frame type refused to build
/// the frame, or the device reported an error.
#[derive(Clone, Debug, PartialEq, Eq)]
pub enum TransmitError {
    InvalidFrame,
    Device(HalCanError),
}

/// What a guest's transmit returns once the device has answered: a frame
/// the device could not build is an "Invalid frame", a device error is
/// mapped.
pub fn finish_transmit(outcome: Result<(), TransmitError>, debug: bool) -> (r: Result<(), ErrorCode>)
    ensures
        outcome is Ok <==> r is Ok,
        outcome matches Err(TransmitError::InvalidFrame) ==> r matches Err(c)
            && c@ == ErrorCodeView::Other(invalid_frame()),
        outcome matches Err(TransmitError::Device(e)) ==> r matches Err(c)
            && c@ == spec_map_hal_error(e.kind, debug, e.detail@),
{
    match outcome {
        Ok(()) => Ok(()),
        Err(TransmitError::InvalidFrame) => Err(ErrorCode::Other("Invalid frame".to_owned())),
        Err(TransmitError::Device(e)) => Err(map_hal_error(e, debug)),
    }
}

/// What a guest's receive returns once the device has answered.
pub fn finish_receive(outcome: Result<HalFrame, HalCanError>, debug: bool) -> (r: Result<Frame, ErrorCode>)
    requires
        outcome matches Ok(h) ==> (h.remote ==> h.dlc <= u32::MAX),
    ensures
        outcome is Ok <==> r is Ok,
        outcome matches Ok(h) ==> r matches Ok(f) && f@ == spec_from_hal(h@),
        outcome matches Err(e) ==> r matches Err(c) && c@ == spec_map_hal_error(e.kind, debug, e.detail@),
{
    match outcome {
        Ok(h) => Ok(Frame::from_hal(&h)),
        Err(e) => Err(map_hal_error(e, debug)),
    }
}

} // verus!
