use wasi_devices::can::blocking;
use wasi_devices::can::guest::{id_from_wasi, id_to_wasi, receive_step, to_nb_error, NbError, ReceiveStep};
use wasi_devices::can::nonblocking;
use wasi_devices::can::nonblocking::{Error, HalError};
use wasi_devices::can::types::{
    map_hal_error, new_frame, new_remote_frame, CanErrorKind, ErrorCode, Frame, FrameKind,
    HalCanError, HalFrame, HalId, Id,
};

fn data_frame(id: Id, data: &[u8]) -> Frame {
    Frame { id, kind: FrameKind::Data(data.to_vec()) }
}

#[test]
fn standard_id_in_range_converts() {
    assert_eq!(Id::Standard(0x7FF).to_hal_id(), Some(HalId::Standard(0x7FF)));
    assert_eq!(Id::Standard(0).to_hal_id(), Some(HalId::Standard(0)));
}

#[test]
fn standard_id_out_of_range_is_refused() {
    assert_eq!(Id::Standard(0x800).to_hal_id(), None);
    assert_eq!(Id::Standard(u16::MAX).to_hal_id(), None);
}

#[test]
fn extended_id_bounds() {
    assert_eq!(Id::Extended(0x1FFF_FFFF).to_hal_id(), Some(HalId::Extended(0x1FFF_FFFF)));
    assert_eq!(Id::Extended(0x2000_0000).to_hal_id(), None);
}

#[test]
fn hal_id_comes_back() {
    assert_eq!(Id::from_hal_id(&HalId::Standard(0x123)), Id::Standard(0x123));
    assert_eq!(Id::from_hal_id(&HalId::Extended(0x1234_5678)), Id::Extended(0x1234_5678));
}

#[test]
fn data_frame_to_hal() {
    let f = data_frame(Id::Standard(1), &[0x13, 0x37, 0xc0, 0xd3, 0x12, 0x34, 0x56, 0x78]);
    let h = f.to_hal().unwrap();
    assert_eq!(h.id, HalId::Standard(1));
    assert!(!h.remote);
    assert_eq!(h.dlc, 8);
    assert_eq!(h.data, vec![0x13, 0x37, 0xc0, 0xd3, 0x12, 0x34, 0x56, 0x78]);
}

#[test]
fn long_payload_is_left_to_the_device() {
    let f = data_frame(Id::Standard(1), &[7; 64]);
    let h = f.to_hal().unwrap();
    assert_eq!(h.dlc, 64);
    assert_eq!(h.data, vec![7; 64]);
}

#[test]
fn remote_frame_to_hal() {
    let f = Frame { id: Id::Extended(42), kind: FrameKind::Remote(3) };
    let h = f.to_hal().unwrap();
    assert_eq!(h, HalFrame { id: HalId::Extended(42), remote: true, dlc: 3, data: vec![] });
    let g = Frame { id: Id::Extended(42), kind: FrameKind::Remote(9) };
    assert_eq!(g.to_hal().unwrap().dlc, 9);
}

#[test]
fn bad_id_frame_is_refused() {
    let f = data_frame(Id::Extended(0xFFFF_FFFF), &[1]);
    assert_eq!(f.to_hal(), None);
}

#[test]
fn frame_round_trip() {
    let frames = vec![
        data_frame(Id::Standard(0x7FF), &[]),
        data_frame(Id::Extended(7), &[1, 2, 3]),
        Frame { id: Id::Standard(5), kind: FrameKind::Remote(8) },
        Frame { id: Id::Extended(0), kind: FrameKind::Remote(0) },
    ];
    for f in frames {
        let h = f.to_hal().unwrap();
        assert_eq!(Frame::from_hal(&h), f);
    }
}

#[test]
fn received_frames_convert() {
    let h = HalFrame { id: HalId::Standard(9), remote: false, dlc: 2, data: vec![0xAA, 0xBB] };
    assert_eq!(Frame::from_hal(&h), data_frame(Id::Standard(9), &[0xAA, 0xBB]));
    let r = HalFrame { id: HalId::Extended(9), remote: true, dlc: 4, data: vec![] };
    assert_eq!(Frame::from_hal(&r), Frame { id: Id::Extended(9), kind: FrameKind::Remote(4) });
}

#[test]
fn frame_resources_checks() {
    assert!(new_frame(Id::Standard(1), &[1, 2]).is_some());
    assert!(new_frame(Id::Standard(0x800), &[1, 2]).is_none());
    assert!(new_frame(Id::Standard(1), &[0; 9]).is_none());
    assert_eq!(new_remote_frame(Id::Standard(1), 8).unwrap().dlc, 8);
    assert!(new_remote_frame(Id::Standard(1), 9).is_none());
    assert!(new_remote_frame(Id::Standard(1), u64::MAX).is_none());
}

fn hal_err(kind: CanErrorKind) -> HalCanError {
    HalCanError { kind, detail: "BusOff".to_string() }
}

#[test]
fn error_kinds_keep_their_code() {
    assert_eq!(map_hal_error(hal_err(CanErrorKind::Overrun), false), ErrorCode::Overrun);
    assert_eq!(map_hal_error(hal_err(CanErrorKind::Bit), true), ErrorCode::Bit);
    assert_eq!(map_hal_error(hal_err(CanErrorKind::Stuff), false), ErrorCode::Stuff);
    assert_eq!(map_hal_error(hal_err(CanErrorKind::Crc), false), ErrorCode::Crc);
    assert_eq!(map_hal_error(hal_err(CanErrorKind::Form), false), ErrorCode::Form);
    assert_eq!(map_hal_error(hal_err(CanErrorKind::Acknowledge), true), ErrorCode::Acknowledge);
}

#[test]
fn other_errors_depend_on_debug() {
    assert_eq!(
        map_hal_error(hal_err(CanErrorKind::Other), false),
        ErrorCode::Other("Hardware CAN error".to_string())
    );
    assert_eq!(map_hal_error(hal_err(CanErrorKind::Other), true), ErrorCode::Other("BusOff".to_string()));
}

#[test]
fn error_kind_round_trip_through_guest() {
    for code in [ErrorCode::Overrun, ErrorCode::Bit, ErrorCode::Stuff, ErrorCode::Crc, ErrorCode::Form, ErrorCode::Acknowledge] {
        let back = map_hal_error(HalCanError { kind: code.kind(), detail: String::new() }, false);
        assert_eq!(back, code);
    }
    assert_eq!(ErrorCode::Other("x".to_string()).kind(), CanErrorKind::Other);
}

#[test]
fn blocking_transmit_of_invalid_frame() {
    let f = data_frame(Id::Standard(0x800), &[0; 2]);
    assert_eq!(blocking::prepare_transmit(&f), Err(ErrorCode::Other("Invalid frame".to_string())));
    let long = data_frame(Id::Standard(1), &[0; 12]);
    assert!(blocking::prepare_transmit(&long).is_ok());
    assert_eq!(
        blocking::finish_transmit(Err(blocking::TransmitError::InvalidFrame), false),
        Err(ErrorCode::Other("Invalid frame".to_string()))
    );
}

#[test]
fn blocking_outcomes() {
    assert_eq!(blocking::finish_transmit(Ok(()), false), Ok(()));
    assert_eq!(
        blocking::finish_transmit(Err(blocking::TransmitError::Device(hal_err(CanErrorKind::Crc))), false),
        Err(ErrorCode::Crc)
    );
    let h = HalFrame { id: HalId::Standard(3), remote: false, dlc: 1, data: vec![5] };
    assert_eq!(blocking::finish_receive(Ok(h), false), Ok(data_frame(Id::Standard(3), &[5])));
    assert_eq!(
        blocking::finish_receive(Err(hal_err(CanErrorKind::Other)), false),
        Err(ErrorCode::Other("Hardware CAN error".to_string()))
    );
}

#[test]
fn nonblocking_outcomes() {
    let f = data_frame(Id::Standard(0x900), &[1]);
    assert_eq!(
        nonblocking::prepare_transmit(&f),
        Err(Error::Other(ErrorCode::Other("Invalid frame".to_string())))
    );
    assert_eq!(nonblocking::finish_transmit(Ok(None), false), Ok(None));
    let dropped = HalFrame { id: HalId::Standard(3), remote: true, dlc: 2, data: vec![] };
    assert_eq!(
        nonblocking::finish_transmit(Ok(Some(dropped)), false),
        Ok(Some(Frame { id: Id::Standard(3), kind: FrameKind::Remote(2) }))
    );
    assert_eq!(
        nonblocking::finish_transmit(Err(nonblocking::TransmitError::Device(HalError::WouldBlock)), true),
        Err(Error::WouldBlock)
    );
    assert_eq!(
        nonblocking::finish_transmit(Err(nonblocking::TransmitError::InvalidFrame), true),
        Err(Error::Other(ErrorCode::Other("Invalid frame".to_string())))
    );
    assert_eq!(nonblocking::finish_receive(Err(HalError::WouldBlock), false), Err(Error::WouldBlock));
    assert_eq!(
        nonblocking::finish_receive(Err(HalError::Other(hal_err(CanErrorKind::Form))), false),
        Err(Error::Other(ErrorCode::Form))
    );
}

#[test]
fn guest_frame_answers() {
    let f = Frame::new(HalId::Standard(1), &[0x13, 0x37]).unwrap();
    assert!(!f.is_extended());
    assert!(!f.is_remote_frame());
    assert_eq!(f.id(), HalId::Standard(1));
    assert_eq!(f.dlc(), 2);
    assert_eq!(f.data(), &[0x13, 0x37]);
    let r = Frame::new_remote(HalId::Extended(0x1FFF_FFFF), 5).unwrap();
    assert!(r.is_extended());
    assert!(r.is_remote_frame());
    assert_eq!(r.dlc(), 5);
    assert!(r.data().is_empty());
    assert_eq!(r.id(), HalId::Extended(0x1FFF_FFFF));
}

#[test]
fn guest_frame_does_not_limit_payload() {
    let f = Frame::new(HalId::Standard(1), &[0; 20]).unwrap();
    assert_eq!(f.dlc(), 20);
}

#[test]
fn guest_ids_and_nb_errors() {
    assert_eq!(id_to_wasi(HalId::Extended(77)), Id::Extended(77));
    assert_eq!(id_from_wasi(Id::Standard(0x7FF)), HalId::Standard(0x7FF));
    assert_eq!(to_nb_error(nonblocking::Error::WouldBlock), NbError::WouldBlock);
    assert_eq!(to_nb_error(nonblocking::Error::Other(ErrorCode::Bit)), NbError::Other(ErrorCode::Bit));
}

#[test]
fn receive_loop_steps() {
    let got: Result<u8, NbError<ErrorCode>> = Ok(5);
    assert_eq!(receive_step(got), ReceiveStep::Deliver(5));
    let wait: Result<u8, NbError<ErrorCode>> = Err(NbError::WouldBlock);
    assert_eq!(receive_step(wait), ReceiveStep::Retry);
    let failed: Result<u8, NbError<ErrorCode>> = Err(NbError::Other(ErrorCode::Bit));
    assert_eq!(receive_step(failed), ReceiveStep::Stop(ErrorCode::Bit));
    let guest = to_nb_error(nonblocking::Error::WouldBlock);
    assert_eq!(receive_step::<Frame, ErrorCode>(Err(guest)), ReceiveStep::Retry);
}
