//! The `wasi:can/types` values and their conversion to and from the
//! embedded-can view of identifiers, frames and errors.

use vstd::prelude::*;

verus! {

/// Largest standard (11-bit) CAN identifier.
pub const STANDARD_ID_MAX: u16 = 0x7FF;

/// Largest extended (29-bit) CAN identifier.
pub const EXTENDED_ID_MAX: u32 = 0x1FFF_FFFF;

/// Most payload bytes, and largest data length code, of a classic CAN 2.0
/// frame as socketcan's `CanFrame` builds it.
pub const MAX_FRAME_LEN: usize = 8;

/// A `wasi:can` identifier: its raw value is not checked against the range
/// of its kind.
#[derive(Clone, Copy, Debug, PartialEq, Eq, Structural)]
pub enum Id {
    Standard(u16),
    Extended(u32),
}

/// The payload of a `wasi:can` frame.
#[derive(Clone, Debug, PartialEq, Eq)]
pub enum FrameKind {
    Data(Vec<u8>),
    Remote(u32),
}

/// A `wasi:can` frame.
#[derive(Clone, Debug, PartialEq, Eq)]
pub struct Frame {
    pub id: Id,
    pub kind: FrameKind,
}

/// The mathematical payload of a frame.
pub enum FrameKindView {
    Data(Seq<u8>),
    Remote(u32),
}

/// The mathematical value of a frame.
pub struct FrameView {
    pub id: Id,
    pub kind: FrameKindView,
}

impl View for FrameKind {
    type V = FrameKindView;

    open spec fn view(&self) -> FrameKindView {
        match self {
            FrameKind::Data(d) => FrameKindView::Data(d@),
            FrameKind::Remote(n) => FrameKindView::Remote(*n),
        }
    }
}

impl View for Frame {
    type V = FrameView;

    open spec fn view(&self) -> FrameView {
        FrameView { id: self.id, kind: self.kind@ }
    }
}

/// A `wasi:can` error code.
#[derive(Clone, Debug, PartialEq, Eq)]
pub enum ErrorCode {
    Overrun,
    Bit,
    Stuff,
    Crc,
    Form,
    Acknowledge,
    Other(String),
}

/// The mathematical value of an error code.
pub enum ErrorCodeView {
    Overrun,
    Bit,
    Stuff,
    Crc,
    Form,
    Acknowledge,
    Other(Seq<char>),
}

impl View for ErrorCode {
    type V = ErrorCodeView;

    open spec fn view(&self) -> ErrorCodeView {
        match self {
            ErrorCode::Overrun => ErrorCodeView::Overrun,
            ErrorCode::Bit => ErrorCodeView::Bit,
            ErrorCode::Stuff => ErrorCodeView::Stuff,
            ErrorCode::Crc => ErrorCodeView::Crc,
            ErrorCode::Form => ErrorCodeView::Form,
            ErrorCode::Acknowledge => ErrorCodeView::Acknowledge,
            ErrorCode::Other(s) => ErrorCodeView::Other(s@),
        }
    }
}

/// An embedded-can identifier, held as its raw value.
#[derive(Clone, Copy, Debug, PartialEq, Eq, Structural)]
pub enum HalId {
    Standard(u16),
    Extended(u32),
}

impl HalId {
    /// The raw value lies in the range of its kind.
    pub open spec fn wf(self) -> bool {
        match self {
            HalId::Standard(raw) => raw <= STANDARD_ID_MAX,
            HalId::Extended(raw) => raw <= EXTENDED_ID_MAX,
        }
    }
}

/// A classic CAN frame as embedded-can's frame accessors describe it:
/// identifier, remote flag, data length code and payload.
#[derive(Clone, Debug, PartialEq, Eq)]
pub struct HalFrame {
    pub id: HalId,
    pub remote: bool,
    pub dlc: usize,
    pub data: Vec<u8>,
}

/// The mathematical value of a HAL frame.
pub struct HalFrameView {
    pub id: HalId,
    pub remote: bool,
    pub dlc: nat,
    pub data: Seq<u8>,
}

impl View for HalFrame {
    type V = HalFrameView;

    open spec fn view(&self) -> HalFrameView {
        HalFrameView { id: self.id, remote: self.remote, dlc: self.dlc as nat, data: self.data@ }
    }
}

impl HalFrameView {
    /// A frame as embedded-can describes one: a valid identifier, a data
    /// length code that matches the payload of a data frame, and no payload
    /// (and a code that fits a `wasi:can` remote frame) in a remote frame.
    pub open spec fn wf(self) -> bool {
        &&& self.id.wf()
        &&& if self.remote {
            self.data.len() == 0 && self.dlc <= u32::MAX
        } else {
            self.data.len() == self.dlc
        }
    }
}

/// The identifier of `id` as embedded-can sees it, when its raw value is in range.
pub open spec fn spec_to_hal_id(id: Id) -> Option<HalId> {
    match id {
        Id::Standard(raw) => if raw <= STANDARD_ID_MAX { Some(HalId::Standard(raw)) } else { None },
        Id::Extended(raw) => if raw <= EXTENDED_ID_MAX { Some(HalId::Extended(raw)) } else { None },
    }
}

/// The `wasi:can` identifier of an embedded-can identifier.
pub open spec fn spec_from_hal_id(id: HalId) -> Id {
    match id {
        HalId::Standard(raw) => Id::Standard(raw),
        HalId::Extended(raw) => Id::Extended(raw),
    }
}

/// The data frame socketcan builds from `id` and `data`, if the payload fits.
pub open spec fn spec_hal_data_frame(id: HalId, data: Seq<u8>) -> Option<HalFrameView> {
    if data.len() <= MAX_FRAME_LEN {
        Some(HalFrameView { id, remote: false, dlc: data.len(), data })
    } else {
        None
    }
}

/// The remote frame socketcan builds from `id` and `dlc`, if the code is valid.
pub open spec fn spec_hal_remote_frame(id: HalId, dlc: nat) -> Option<HalFrameView> {
    if dlc <= MAX_FRAME_LEN {
        Some(HalFrameView { id, remote: true, dlc, data: Seq::empty() })
    } else {
        None
    }
}

/// The frame a device is asked to build for identifier `id` and payload
/// `kind`: a data frame with the payload and its length as data length
/// code, or a remote frame with the requested code and no payload.
pub open spec fn spec_frame_request(id: HalId, kind: FrameKindView) -> HalFrameView {
    match kind {
        FrameKindView::Data(d) => HalFrameView { id, remote: false, dlc: d.len(), data: d },
        FrameKindView::Remote(n) => HalFrameView { id, remote: true, dlc: n as nat, data: Seq::empty() },
    }
}

/// The HAL frame a `wasi:can` frame is turned into before it is sent: only
/// the identifier is checked here; whether the payload fits is up to the
/// frame type of the device that sends it.
pub open spec fn spec_to_hal(f: FrameView) -> Option<HalFrameView> {
    match spec_to_hal_id(f.id) {
        None => None,
        Some(id) => Some(spec_frame_request(id, f.kind)),
    }
}

/// The `wasi:can` frame a received HAL frame is turned into.
pub open spec fn spec_from_hal(h: HalFrameView) -> FrameView {
    FrameView {
        id: spec_from_hal_id(h.id),
        kind: if h.remote { FrameKindView::Remote(h.dlc as u32) } else { FrameKindView::Data(h.data) },
    }
}

/// The view of an optional HAL frame.
pub open spec fn opt_hal_view(r: Option<HalFrame>) -> Option<HalFrameView> {
    match r {
        Some(h) => Some(h@),
        None => None,
    }
}

/// `embedded_can::StandardId::new` followed by `as_raw`: a value exists
/// exactly when `raw` is at most `0x7FF`, and it is `raw` itself.
#[verifier::external_body]
pub(crate) fn standard_id_new(raw: u16) -> (r: Option<u16>)
    ensures
        r == (if raw <= STANDARD_ID_MAX { Some(raw) } else { None::<u16> }),
{
    match embedded_can::StandardId::new(raw) {
        Some(id) => Some(id.as_raw()),
        None => None,
    }
}

/// `embedded_can::ExtendedId::new` followed by `as_raw`: a value exists
/// exactly when `raw` is at most `0x1FFF_FFFF`, and it is `raw` itself.
#[verifier::external_body]
pub(crate) fn extended_id_new(raw: u32) -> (r: Option<u32>)
    ensures
        r == (if raw <= EXTENDED_ID_MAX { Some(raw) } else { None::<u32> }),
{
    match embedded_can::ExtendedId::new(raw) {
        Some(id) => Some(id.as_raw()),
        None => None,
    }
}

impl Id {
    /// The embedded-can identifier, or `None` when the raw value is out of range.
    pub fn to_hal_id(&self) -> (r: Option<HalId>)
        ensures
            r == spec_to_hal_id(*self),
            r matches Some(id) ==> id.wf(),
    {
        match self {
            Id::Standard(raw) => match standard_id_new(*raw) {
                Some(v) => Some(HalId::Standard(v)),
                None => None,
            },
            Id::Extended(raw) => match extended_id_new(*raw) {
                Some(v) => Some(HalId::Extended(v)),
                None => None,
            },
        }
    }

    /// The `wasi:can` identifier of an embedded-can identifier.
    pub fn from_hal_id(id: &HalId) -> (r: Id)
        ensures
            r == spec_from_hal_id(*id),
    {
        match id {
            HalId::Standard(raw) => Id::Standard(*raw),
            HalId::Extended(raw) => Id::Extended(*raw),
        }
    }
}

/// A vector holding the bytes of `data`.
pub(crate) fn copy_bytes(data: &[u8]) -> (r: Vec<u8>)
    ensures
        r@ == data@,
{
    let mut r: Vec<u8> = Vec::new();
    let mut i: usize = 0;
    while i < data.len()
        invariant
            i <= data@.len(),
            r@ == data@.subrange(0, i as int),
        decreases data@.len() - i,
    {
        r.push(data[i]);
        i = i + 1;
        assert(r@ == data@.subrange(0, i as int));
    }
    r
}

impl HalFrame {
    /// A frame resource's data frame, as socketcan's `CanFrame::new` builds it: `None` when
    /// the payload is longer than eight bytes.
    pub fn new(id: HalId, data: &[u8]) -> (r: Option<HalFrame>)
        ensures
            opt_hal_view(r) == spec_hal_data_frame(id, data@),
            r is Some <==> data@.len() <= MAX_FRAME_LEN,
            r matches Some(h) ==> h.id == id && !h.remote && h.dlc == data@.len() && h.data@ == data@,
    {
        if data.len() <= MAX_FRAME_LEN {
            Some(HalFrame { id, remote: false, dlc: data.len(), data: copy_bytes(data) })
        } else {
            None
        }
    }

    /// A frame resource's remote frame, as socketcan's `CanFrame::new_remote` builds it:
    /// `None` when the data length code is above eight.
    pub fn new_remote(id: HalId, dlc: usize) -> (r: Option<HalFrame>)
        ensures
            opt_hal_view(r) == spec_hal_remote_frame(id, dlc as nat),
            r is Some <==> dlc <= MAX_FRAME_LEN,
            r matches Some(h) ==> h.id == id && h.remote && h.dlc == dlc && h.data@.len() == 0,
    {
        if dlc <= MAX_FRAME_LEN {
            Some(HalFrame { id, remote: true, dlc, data: Vec::new() })
        } else {
            None
        }
    }
}

impl Frame {
    /// Turns a received HAL frame into a `wasi:can` frame: a data frame
    /// keeps its payload, a remote frame keeps its data length code.
    pub fn from_hal(frame: &HalFrame) -> (r: Frame)
        requires
            frame.remote ==> frame.dlc <= u32::MAX,
        ensures
            r@ == spec_from_hal(frame@),
            r.id == spec_from_hal_id(frame.id),
            !frame.remote ==> r@.kind == FrameKindView::Data(frame.data@),
            frame.remote ==> r.kind == FrameKind::Remote(frame.dlc as u32),
    {
        if !frame.remote {
            Frame { id: Id::from_hal_id(&frame.id), kind: FrameKind::Data(copy_bytes(frame.data.as_slice())) }
        } else {
            Frame { id: Id::from_hal_id(&frame.id), kind: FrameKind::Remote(frame.dlc as u32) }
        }
    }

    /// Turns a `wasi:can` frame into the frame a device is asked to build
    /// and send: `None` when the identifier is out of range. The payload is
    /// not limited here: the device's own frame type accepts or refuses it.
    pub fn to_hal(&self) -> (r: Option<HalFrame>)
        ensures
            opt_hal_view(r) == spec_to_hal(self@),
            r is Some <==> spec_to_hal_id(self.id) is Some,
            r matches Some(h) ==> Some(h.id) == spec_to_hal_id(self.id),
            r matches Some(h) ==> match self@.kind {
                FrameKindView::Data(d) => !h.remote && h.data@ == d && h.dlc == d.len(),
                FrameKindView::Remote(n) => h.remote && h.data@.len() == 0 && h.dlc == n,
            },
    {
        let id = match self.id.to_hal_id() {
            Some(id) => id,
            None => return None,
        };
        match &self.kind {
            FrameKind::Data(data) => {
                Some(HalFrame { id, remote: false, dlc: data.len(), data: copy_bytes(data.as_slice()) })
            },
            FrameKind::Remote(dlc) => Some(HalFrame { id, remote: true, dlc: *dlc as usize, data: Vec::new() }),
        }
    }
}

/// A data frame resource for the given identifier and payload, as a guest
/// asks the host to build one; frame resources hold socketcan `CanFrame`s,
/// so this is `None` when the identifier is out of range or the payload is
/// longer than eight bytes.
pub fn new_frame(id: Id, data: &[u8]) -> (r: Option<HalFrame>)
    ensures
        opt_hal_view(r) == match spec_to_hal_id(id) {
            None => None,
            Some(h) => spec_hal_data_frame(h, data@),
        },
{
    match id.to_hal_id() {
        Some(h) => HalFrame::new(h, data),
        None => None,
    }
}

/// A remote frame resource for the given identifier and data length code,
/// as a guest asks the host to build one; frame resources hold socketcan
/// `CanFrame`s, so this is `None` when the identifier is out of range or
/// the code is above eight.
pub fn new_remote_frame(id: Id, dlc: u64) -> (r: Option<HalFrame>)
    ensures
        opt_hal_view(r) == match spec_to_hal_id(id) {
            None => None,
            Some(h) => spec_hal_remote_frame(h, dlc as nat),
        },
{
    match id.to_hal_id() {
        Some(h) => if dlc <= usize::MAX as u64 {
            HalFrame::new_remote(h, dlc as usize)
        } else {
            None
        },
        None => None,
    }
}

/// The kinds of CAN error that embedded-can distinguishes.
#[derive(Clone, Copy, Debug, PartialEq, Eq, Structural)]
pub enum CanErrorKind {
    Overrun,
    Bit,
    Stuff,
    Crc,
    Form,
    Acknowledge,
    Other,
}

/// An error reported by a CAN device: its kind and its debug rendering.
#[derive(Clone, Debug, PartialEq, Eq)]
pub struct HalCanError {
    pub kind: CanErrorKind,
    pub detail: String,
}

/// The message of an error that has no code of its own, outside debug mode.
pub open spec fn hardware_can_error() -> Seq<char> {
    "Hardware CAN error"@
}

/// The `wasi:can` error code reported for a device error.
pub open spec fn spec_map_hal_error(kind: CanErrorKind, debug: bool, detail: Seq<char>) -> ErrorCodeView {
    match kind {
        CanErrorKind::Overrun => ErrorCodeView::Overrun,
        CanErrorKind::Bit => ErrorCodeView::Bit,
        CanErrorKind::Stuff => ErrorCodeView::Stuff,
        CanErrorKind::Crc => ErrorCodeView::Crc,
        CanErrorKind::Form => ErrorCodeView::Form,
        CanErrorKind::Acknowledge => ErrorCodeView::Acknowledge,
        CanErrorKind::Other => if debug {
            ErrorCodeView::Other(detail)
        } else {
            ErrorCodeView::Other(hardware_can_error())
        },
    }
}

/// Maps a device error to a `wasi:can` error code: each kind with a code
/// of its own keeps it; any other error becomes `Other`, carrying the
/// device's own description in debug mode and a fixed message otherwise.
pub fn map_hal_error(err: HalCanError, debug: bool) -> (r: ErrorCode)
    ensures
        r@ == spec_map_hal_error(err.kind, debug, err.detail@),
{
    match err.kind {
        CanErrorKind::Overrun => ErrorCode::Overrun,
        CanErrorKind::Bit => ErrorCode::Bit,
        CanErrorKind::Stuff => ErrorCode::Stuff,
        CanErrorKind::Crc => ErrorCode::Crc,
        CanErrorKind::Form => ErrorCode::Form,
        CanErrorKind::Acknowledge => ErrorCode::Acknowledge,
        CanErrorKind::Other => if debug {
            ErrorCode::Other(err.detail)
        } else {
            ErrorCode::Other("Hardware CAN error".to_owned())
        },
    }
}

/// The embedded-can kind of a `wasi:can` error code.
pub open spec fn spec_error_kind(code: ErrorCodeView) -> CanErrorKind {
    match code {
        ErrorCodeView::Overrun => CanErrorKind::Overrun,
        ErrorCodeView::Bit => CanErrorKind::Bit,
        ErrorCodeView::Stuff => CanErrorKind::Stuff,
        ErrorCodeView::Crc => CanErrorKind::Crc,
        ErrorCodeView::Form => CanErrorKind::Form,
        ErrorCodeView::Acknowledge => CanErrorKind::Acknowledge,
        ErrorCodeView::Other(_) => CanErrorKind::Other,
    }
}

impl ErrorCode {
    /// The embedded-can kind of this error code, as a guest sees it.
    pub fn kind(&self) -> (r: CanErrorKind)
        ensures
            r == spec_error_kind(self@),
    {
        match self {
            ErrorCode::Overrun => CanErrorKind::Overrun,
            ErrorCode::Bit => CanErrorKind::Bit,
            ErrorCode::Stuff => CanErrorKind::Stuff,
            ErrorCode::Crc => CanErrorKind::Crc,
            ErrorCode::Form => CanErrorKind::Form,
            ErrorCode::Acknowledge => CanErrorKind::Acknowledge,
            ErrorCode::Other(_) => CanErrorKind::Other,
        }
    }
}

/// Identifiers survive the trip to embedded-can and back: an identifier in
/// range converts and comes back unchanged, one out of range is refused,
/// and every valid embedded-can identifier is reached.
pub proof fn law_id_round_trip(id: Id, hal: HalId)
    ensures
        spec_to_hal_id(id) matches Some(h) ==> h.wf() && spec_from_hal_id(h) == id,
        spec_to_hal_id(id) is None <==> match id {
            Id::Standard(raw) => raw > STANDARD_ID_MAX,
            Id::Extended(raw) => raw > EXTENDED_ID_MAX,
        },
        hal.wf() ==> spec_to_hal_id(spec_from_hal_id(hal)) == Some(hal),
{
}

/// A frame that can be sent comes back unchanged when it is received, and a
/// well-formed received frame is sent as itself.
pub proof fn law_frame_round_trip(f: FrameView, h: HalFrameView)
    ensures
        spec_to_hal(f) matches Some(g) ==> g.wf() && spec_from_hal(g) == f,
        h.wf() ==> spec_to_hal(spec_from_hal(h)) == Some(h),
{
    if h.wf() {
        if h.remote {
            assert(h.data =~= Seq::<u8>::empty());
        }
    }
}

/// A frame is handed to a device exactly when its identifier is in range,
/// whatever its payload.
pub proof fn law_frame_sendable(f: FrameView)
    ensures
        spec_to_hal(f) is Some <==> spec_to_hal_id(f.id) is Some,
{
}

/// Sending keeps the frame's content as it is: a data frame with an
/// identifier in range is handed to the device with exactly its payload
/// bytes, in order, and their count as data length code; a remote frame with
/// its requested code and no payload; and the identifier unchanged.
pub proof fn law_transmit_keeps_content(f: FrameView)
    ensures
        spec_to_hal(f) matches Some(g) ==> {
            &&& spec_from_hal_id(g.id) == f.id
            &&& match f.kind {
                FrameKindView::Data(d) => !g.remote && g.data == d && g.dlc == d.len(),
                FrameKindView::Remote(n) => g.remote && g.data.len() == 0 && g.dlc == n,
            }
        },
{
}

/// Receiving keeps the frame's content as it is: a received data frame is
/// delivered with exactly the device's payload bytes, in order; a remote
/// frame with the device's data length code; and the identifier unchanged.
pub proof fn law_receive_keeps_content(h: HalFrameView)
    ensures
        spec_from_hal(h).id == spec_from_hal_id(h.id),
        !h.remote ==> spec_from_hal(h).kind == FrameKindView::Data(h.data),
        h.remote && h.dlc <= u32::MAX ==> spec_from_hal(h).kind == FrameKindView::Remote(h.dlc as u32),
{
}

/// A frame resource holds what it was built from: a data frame resource
/// exists exactly for payloads of at most eight bytes and then carries the
/// identifier, exactly those bytes in order and their count; a remote frame
/// resource exists exactly for codes of at most eight and then carries the
/// identifier, that code and no payload.
pub proof fn law_frame_resources_keep_content(id: HalId, data: Seq<u8>, dlc: nat)
    ensures
        spec_hal_data_frame(id, data) is Some <==> data.len() <= MAX_FRAME_LEN,
        spec_hal_data_frame(id, data) matches Some(h)
            ==> h.id == id && !h.remote && h.data == data && h.dlc == data.len(),
        spec_hal_remote_frame(id, dlc) is Some <==> dlc <= MAX_FRAME_LEN,
        spec_hal_remote_frame(id, dlc) matches Some(h)
            ==> h.id == id && h.remote && h.data.len() == 0 && h.dlc == dlc,
        data.len() <= MAX_FRAME_LEN ==> spec_hal_data_frame(id, data) == Some(
            spec_frame_request(id, FrameKindView::Data(data)),
        ),
        dlc <= MAX_FRAME_LEN ==> spec_hal_remote_frame(id, dlc) == Some(
            spec_frame_request(id, FrameKindView::Remote(dlc as u32)),
        ),
{
}

/// A guest that turns a host error code back into an embedded-can kind and
/// the host that maps that kind again agree on every code but `Other`.
pub proof fn law_error_kind_round_trip(code: ErrorCodeView, debug: bool, detail: Seq<char>)
    ensures
        !(code is Other) ==> spec_map_hal_error(spec_error_kind(code), debug, detail) == code,
        spec_map_hal_error(spec_error_kind(code), debug, detail) is Other <==> code is Other,
{
}

} // verus!
