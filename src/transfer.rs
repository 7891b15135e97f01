use vstd::prelude::*;

use crate::error::{from_libusb, kind_of_code, Error};

verus! {

/// Native completion status: the transfer completed without error.
pub const LIBUSB_TRANSFER_COMPLETED: i32 = 0;
/// Native completion status: the transfer failed.
pub const LIBUSB_TRANSFER_ERROR: i32 = 1;
/// Native completion status: the transfer timed out.
pub const LIBUSB_TRANSFER_TIMED_OUT: i32 = 2;
/// Native completion status: the transfer was cancelled.
pub const LIBUSB_TRANSFER_CANCELLED: i32 = 3;
/// Native completion status: the endpoint stalled.
pub const LIBUSB_TRANSFER_STALL: i32 = 4;
/// Native completion status: the device was disconnected.
pub const LIBUSB_TRANSFER_NO_DEVICE: i32 = 5;
/// Native completion status: the device sent more data than requested.
pub const LIBUSB_TRANSFER_OVERFLOW: i32 = 6;

/// Largest buffer length that a native transfer descriptor can record.
pub const MAX_TRANSFER_LENGTH: usize = 0x7fff_ffff;

/// Largest payload whose length fits the setup header.
pub const MAX_CONTROL_PAYLOAD: usize = 0xffff;

/// How a submission of a transfer ended.
#[derive(Debug, Clone, Copy, PartialEq, Eq, Structural)]
pub enum TransferStatus {
    Completed,
    Error,
    Timeout,
    Cancelled,
    Stall,
    NoDevice,
    Overflow,
    Unknown,
}

/// The status that a native completion code stands for.
pub open spec fn status_of_code(code: int) -> TransferStatus {
    if code == LIBUSB_TRANSFER_COMPLETED {
        TransferStatus::Completed
    } else if code == LIBUSB_TRANSFER_ERROR {
        TransferStatus::Error
    } else if code == LIBUSB_TRANSFER_TIMED_OUT {
        TransferStatus::Timeout
    } else if code == LIBUSB_TRANSFER_CANCELLED {
        TransferStatus::Cancelled
    } else if code == LIBUSB_TRANSFER_STALL {
        TransferStatus::Stall
    } else if code == LIBUSB_TRANSFER_NO_DEVICE {
        TransferStatus::NoDevice
    } else if code == LIBUSB_TRANSFER_OVERFLOW {
        TransferStatus::Overflow
    } else {
        TransferStatus::Unknown
    }
}

/// The outcome of a status as a result: success only for `Completed`.
pub open spec fn result_of_status(s: TransferStatus) -> Result<(), Error> {
    match s {
        TransferStatus::Completed => Ok(()),
        TransferStatus::Timeout => Err(Error::Timeout),
        TransferStatus::Stall => Err(Error::Pipe),
        TransferStatus::NoDevice => Err(Error::NoDevice),
        TransferStatus::Overflow => Err(Error::Overflow),
        TransferStatus::Error => Err(Error::Io),
        TransferStatus::Cancelled => Err(Error::Io),
        TransferStatus::Unknown => Err(Error::Other),
    }
}

impl TransferStatus {
    /// The status as a result: `Ok` for `Completed`, else the matching error.
    pub fn to_libusb_result(&self) -> (r: Result<(), Error>)
        ensures
            r == result_of_status(*self),
    {
        match self {
            TransferStatus::Completed => Ok(()),
            TransferStatus::Timeout => Err(Error::Timeout),
            TransferStatus::Stall => Err(Error::Pipe),
            TransferStatus::NoDevice => Err(Error::NoDevice),
            TransferStatus::Overflow => Err(Error::Overflow),
            TransferStatus::Error => Err(Error::Io),
            TransferStatus::Cancelled => Err(Error::Io),
            TransferStatus::Unknown => Err(Error::Other),
        }
    }

    /// Translates a native completion code; codes out of the documented
    /// range are `Unknown`.
    pub fn from_libusb(code: i32) -> (r: TransferStatus)
        ensures
            r == status_of_code(code as int),
    {
        match code {
            LIBUSB_TRANSFER_COMPLETED => TransferStatus::Completed,
            LIBUSB_TRANSFER_ERROR => TransferStatus::Error,
            LIBUSB_TRANSFER_TIMED_OUT => TransferStatus::Timeout,
            LIBUSB_TRANSFER_CANCELLED => TransferStatus::Cancelled,
            LIBUSB_TRANSFER_STALL => TransferStatus::Stall,
            LIBUSB_TRANSFER_NO_DEVICE => TransferStatus::NoDevice,
            LIBUSB_TRANSFER_OVERFLOW => TransferStatus::Overflow,
            _ => TransferStatus::Unknown,
        }
    }
}

/// Where a transfer stands in its life.
#[derive(Debug, Clone, Copy, PartialEq, Eq, Structural)]
pub enum TransferState {
    /// Never submitted.
    Idle,
    /// Handed to the native layer; its completion has not arrived yet.
    Submitted,
    /// The last submission completed with the given status.
    Finished(TransferStatus),
}

/// The fields of a native transfer descriptor, with the state of the
/// transfer that owns it.
#[derive(Debug, Clone, Copy, PartialEq, Eq, Structural)]
pub struct Descriptor {
    pub iso_packets: i32,
    pub flags: u8,
    pub endpoint: u8,
    pub transfer_type: u8,
    pub status: i32,
    pub timeout: u32,
    pub length: i32,
    pub actual_length: i32,
    pub state: TransferState,
    pub cancel_requested: bool,
}

/// A fresh descriptor for `iso_packets` isochronous packets.
pub open spec fn fresh_descriptor(iso_packets: i32) -> Descriptor {
    Descriptor {
        iso_packets,
        flags: 0,
        endpoint: 0,
        transfer_type: 0,
        status: 0,
        timeout: 0,
        length: 0,
        actual_length: 0,
        state: TransferState::Idle,
        cancel_requested: false,
    }
}

/// A change of configuration from `d` to `changed`: refused, with `d` kept,
/// while a submission is outstanding.
pub open spec fn configure(d: Descriptor, changed: Descriptor) -> (Descriptor, Result<(), Error>) {
    if d.state is Submitted {
        (d, Err(Error::InvalidState))
    } else {
        (changed, Ok(()))
    }
}

/// The step of submitting a buffer of `length` bytes, where the native layer
/// answered `code`.
pub open spec fn submit_step(d: Descriptor, length: int, code: int) -> (Descriptor, Result<(), Error>) {
    if d.state is Submitted {
        (d, Err(Error::InvalidState))
    } else if length > MAX_TRANSFER_LENGTH {
        (d, Err(Error::InvalidParam))
    } else if code < 0 {
        (Descriptor { length: length as i32, state: TransferState::Idle, ..d }, Err(kind_of_code(code)))
    } else {
        (
            Descriptor {
                length: length as i32,
                actual_length: 0,
                state: TransferState::Submitted,
                cancel_requested: false,
                ..d
            },
            Ok(()),
        )
    }
}

/// The step of asking for cancellation, where the native layer answered
/// `code`. Only an outstanding submission can be cancelled.
pub open spec fn cancel_step(d: Descriptor, code: int) -> (Descriptor, Result<(), Error>) {
    if !(d.state is Submitted) {
        (d, Err(Error::NotFound))
    } else if code < 0 {
        (d, Err(kind_of_code(code)))
    } else {
        (Descriptor { cancel_requested: true, ..d }, Ok(()))
    }
}

/// The step of a completion reported by the native layer with status code
/// `code` and `actual` bytes moved: it finishes an outstanding submission
/// and yields what the completion callback receives; any other completion
/// is dropped.
pub open spec fn complete_step(d: Descriptor, code: int, actual: i32) -> (
    Descriptor,
    Option<(TransferStatus, i32)>,
) {
    if d.state is Submitted {
        (
            Descriptor {
                status: code as i32,
                actual_length: actual,
                state: TransferState::Finished(status_of_code(code)),
                cancel_requested: false,
                ..d
            },
            Some((status_of_code(code), actual)),
        )
    } else {
        (d, None)
    }
}

/// The eight bytes of a control setup header.
pub open spec fn setup_bytes(
    bm_request_type: u8,
    b_request: u8,
    w_value: u16,
    w_index: u16,
    data_size: u16,
) -> Seq<u8> {
    seq![
        bm_request_type,
        b_request,
        (w_value % 256) as u8,
        (w_value / 256) as u8,
        (w_index % 256) as u8,
        (w_index / 256) as u8,
        (data_size % 256) as u8,
        (data_size / 256) as u8,
    ]
}

fn push_le(v: &mut Vec<u8>, x: u16)
    ensures
        final(v)@ == old(v)@.push((x % 256) as u8).push((x / 256) as u8),
{
    v.push((x % 256) as u8);
    v.push((x / 256) as u8);
}

/// One asynchronous I/O operation: its native descriptor's fields and the
/// state of its submissions.
pub struct Transfer {
    d: Descriptor,
}

impl View for Transfer {
    type V = Descriptor;

    closed spec fn view(&self) -> Descriptor {
        self.d
    }
}

impl Transfer {
    /// A transfer for `iso_packets` isochronous packets, in state `Idle`;
    /// `InvalidParam` for a negative count.
    pub fn new(iso_packets: i32) -> (r: Result<Transfer, Error>)
        ensures
            iso_packets >= 0 ==> (r matches Ok(t) && t@ == fresh_descriptor(iso_packets)),
            iso_packets < 0 ==> r == Err::<Transfer, Error>(Error::InvalidParam),
    {
        if iso_packets < 0 {
            Err(Error::InvalidParam)
        } else {
            Ok(
                Transfer {
                    d: Descriptor {
                        iso_packets,
                        flags: 0,
                        endpoint: 0,
                        transfer_type: 0,
                        status: 0,
                        timeout: 0,
                        length: 0,
                        actual_length: 0,
                        state: TransferState::Idle,
                        cancel_requested: false,
                    },
                },
            )
        }
    }

    /// The descriptor's fields and the transfer's state.
    pub fn descriptor(&self) -> (r: Descriptor)
        ensures
            r == self@,
    {
        self.d
    }

    /// The transfer's state.
    pub fn state(&self) -> (r: TransferState)
        ensures
            r == self@.state,
    {
        self.d.state
    }

    /// The endpoint that the transfer addresses.
    pub fn endpoint(&self) -> (r: u8)
        ensures
            r == self@.endpoint,
    {
        self.d.endpoint
    }

    /// Whether a submission is outstanding, so that the native descriptor
    /// must not be released before its completion arrives.
    pub fn is_in_flight(&self) -> (r: bool)
        ensures
            r == (self@.state is Submitted),
    {
        match self.d.state {
            TransferState::Submitted => true,
            _ => false,
        }
    }

    /// Sets the descriptor's flags; `InvalidState` while submitted.
    pub fn set_flags(&mut self, flags: u8) -> (r: Result<(), Error>)
        ensures
            (final(self)@, r) == configure(old(self)@, (Descriptor { flags, ..old(self)@ })),
    {
        if self.is_in_flight() {
            return Err(Error::InvalidState);
        }
        self.d.flags = flags;
        Ok(())
    }

    /// Sets the endpoint; `InvalidState`, with the endpoint unchanged, while
    /// submitted.
    pub fn set_endpoint(&mut self, endpoint: u8) -> (r: Result<(), Error>)
        ensures
            (final(self)@, r) == configure(old(self)@, (Descriptor { endpoint, ..old(self)@ })),
            old(self)@.state is Submitted ==> r == Err::<(), Error>(Error::InvalidState)
                && final(self)@.endpoint == old(self)@.endpoint,
    {
        if self.is_in_flight() {
            return Err(Error::InvalidState);
        }
        self.d.endpoint = endpoint;
        Ok(())
    }

    /// Sets the transfer type; `InvalidState` while submitted.
    pub fn set_transfer_type(&mut self, transfer_type: u8) -> (r: Result<(), Error>)
        ensures
            (final(self)@, r) == configure(
                old(self)@,
                (Descriptor { transfer_type, ..old(self)@ }),
            ),
    {
        if self.is_in_flight() {
            return Err(Error::InvalidState);
        }
        self.d.transfer_type = transfer_type;
        Ok(())
    }

    /// Sets the raw status field; `InvalidState` while submitted.
    pub fn set_status(&mut self, status: i32) -> (r: Result<(), Error>)
        ensures
            (final(self)@, r) == configure(old(self)@, (Descriptor { status, ..old(self)@ })),
    {
        if self.is_in_flight() {
            return Err(Error::InvalidState);
        }
        self.d.status = status;
        Ok(())
    }

    /// Sets the timeout in milliseconds; `InvalidState` while submitted.
    pub fn set_timeout(&mut self, timeout: u32) -> (r: Result<(), Error>)
        ensures
            (final(self)@, r) == configure(old(self)@, (Descriptor { timeout, ..old(self)@ })),
    {
        if self.is_in_flight() {
            return Err(Error::InvalidState);
        }
        self.d.timeout = timeout;
        Ok(())
    }

    /// Whether a buffer of `length` bytes may be handed to the native layer
    /// now.
    pub fn can_submit(&self, length: usize) -> (r: bool)
        ensures
            r == (!(self@.state is Submitted) && length <= MAX_TRANSFER_LENGTH),
    {
        !self.is_in_flight() && length <= MAX_TRANSFER_LENGTH
    }

    /// Records the submission of a buffer of `length` bytes, to which the
    /// native layer answered `code`: `Submitted` on success, `Idle` with the
    /// error of the code on failure. A transfer that is already submitted,
    /// or a buffer too long for the descriptor, is refused unchanged.
    pub fn submit_transfer(&mut self, length: usize, code: i32) -> (r: Result<(), Error>)
        ensures
            (final(self)@, r) == submit_step(old(self)@, length as int, code as int),
    {
        if !self.can_submit(length) {
            if self.is_in_flight() {
                return Err(Error::InvalidState);
            }
            return Err(Error::InvalidParam);
        }
        self.d.length = length as i32;
        if code < 0 {
            self.d.state = TransferState::Idle;
            return Err(from_libusb(code));
        }
        self.d.actual_length = 0;
        self.d.state = TransferState::Submitted;
        self.d.cancel_requested = false;
        Ok(())
    }

    /// Records a request to cancel, to which the native layer answered
    /// `code`. The transfer stays submitted: its completion, with status
    /// `Cancelled`, arrives later. `NotFound` if nothing is outstanding.
    pub fn cancel_transfer(&mut self, code: i32) -> (r: Result<(), Error>)
        ensures
            (final(self)@, r) == cancel_step(old(self)@, code as int),
    {
        if !self.is_in_flight() {
            return Err(Error::NotFound);
        }
        if code < 0 {
            return Err(from_libusb(code));
        }
        self.d.cancel_requested = true;
        Ok(())
    }

    /// Records a completion reported by the native layer and returns what
    /// the completion callback is to receive: the status and the number of
    /// bytes moved. A completion with nothing outstanding yields `None`, so
    /// that a callback fires at most once per submission.
    pub fn complete(&mut self, code: i32, actual_length: i32) -> (r: Option<(TransferStatus, i32)>)
        ensures
            (final(self)@, r) == complete_step(old(self)@, code as int, actual_length),
    {
        if !self.is_in_flight() {
            return None;
        }
        let status = TransferStatus::from_libusb(code);
        self.d.status = code;
        self.d.actual_length = actual_length;
        self.d.state = TransferState::Finished(status);
        self.d.cancel_requested = false;
        Some((status, actual_length))
    }

    /// The eight-byte control setup header: request type, request, then
    /// value, index and payload length, each in little-endian order.
    pub fn create_setup_packet(
        bm_request_type: u8,
        b_request: u8,
        w_value: u16,
        w_index: u16,
        data_size: u16,
    ) -> (r: Result<Vec<u8>, Error>)
        ensures
            r matches Ok(v) && v@ == setup_bytes(
                bm_request_type,
                b_request,
                w_value,
                w_index,
                data_size,
            ),
    {
        let mut setup_packet: Vec<u8> = Vec::new();
        setup_packet.push(bm_request_type);
        setup_packet.push(b_request);
        push_le(&mut setup_packet, w_value);
        push_le(&mut setup_packet, w_index);
        push_le(&mut setup_packet, data_size);
        assert(setup_packet@ =~= setup_bytes(bm_request_type, b_request, w_value, w_index, data_size));
        Ok(setup_packet)
    }

    /// The setup header for `data`, followed by `data`, as one buffer;
    /// `Overflow` if the payload's length does not fit the header.
    pub fn append_setup_packet(
        data: &[u8],
        bm_request_type: u8,
        b_request: u8,
        w_value: u16,
        w_index: u16,
    ) -> (r: Result<Vec<u8>, Error>)
        ensures
            data@.len() <= MAX_CONTROL_PAYLOAD ==> (r matches Ok(v) && v@ == setup_bytes(
                bm_request_type,
                b_request,
                w_value,
                w_index,
                data@.len() as u16,
            ) + data@),
            data@.len() > MAX_CONTROL_PAYLOAD ==> r == Err::<Vec<u8>, Error>(Error::Overflow),
    {
        if data.len() > MAX_CONTROL_PAYLOAD {
            return Err(Error::Overflow);
        }
        let header = Self::create_setup_packet(
            bm_request_type,
            b_request,
            w_value,
            w_index,
            data.len() as u16,
        );
        let mut buffer = match header {
            Ok(h) => h,
            Err(e) => return Err(e),
        };
        let ghost head = buffer@;
        let mut k: usize = 0;
        while k < data.len()
            invariant
                k <= data@.len(),
                buffer@ == head + data@.subrange(0, k as int),
            decreases data@.len() - k,
        {
            buffer.push(data[k]);
            k = k + 1;
            assert(buffer@ =~= head + data@.subrange(0, k as int));
        }
        assert(data@.subrange(0, data@.len() as int) =~= data@);
        Ok(buffer)
    }
}

/// A submission that is cancelled at once completes exactly once, with
/// status `Cancelled`; a second completion for the same submission is
/// dropped and reaches no callback.
pub proof fn lemma_cancel_completes_once(
    d: Descriptor,
    length: int,
    actual: i32,
    late_code: int,
    late_actual: i32,
)
    requires
        !(d.state is Submitted),
        0 <= length <= MAX_TRANSFER_LENGTH,
    ensures
        submit_step(d, length, 0).1 == Ok::<(), Error>(()),
        cancel_step(submit_step(d, length, 0).0, 0).1 == Ok::<(), Error>(()),
        complete_step(cancel_step(submit_step(d, length, 0).0, 0).0, LIBUSB_TRANSFER_CANCELLED as int, actual).1
            == Some((TransferStatus::Cancelled, actual)),
        complete_step(
            complete_step(cancel_step(submit_step(d, length, 0).0, 0).0, LIBUSB_TRANSFER_CANCELLED as int, actual).0,
            late_code,
            late_actual,
        ).1 is None,
{
}

/// While a submission is outstanding no setter changes the descriptor: each
/// fails with `InvalidState`.
pub proof fn lemma_submitted_is_frozen(d: Descriptor, changed: Descriptor)
    requires
        d.state is Submitted,
    ensures
        configure(d, changed) == (d, Err::<(), Error>(Error::InvalidState)),
{
}

} // verus!
