//! One display's protocol session: the start-up handshake, the strict
//! request/response alternation over the bulk channel, and what failures do
//! to the session.
//!
//! The session performs no I/O itself. Each step hands back an [`Action`]
//! (bytes to write, a number of bytes to read, or the end of the exchange);
//! whoever owns the transport performs it and reports the outcome as an
//! [`Event`].
use vstd::prelude::*;
use crate::codec::{decoded, ControlPacket, Request, CONTROL_PACKET_LEN, MAX_RESPONSE_PAYLOAD};
use crate::handles::GUID;
use crate::FRAMEBUFFER_LEN;

verus! {

/// Why a bulk transfer did not complete.
#[derive(Clone, Copy, Debug, PartialEq, Eq, Structural)]
pub enum TransportFailure {
    Timeout,
    /// Fewer bytes moved than the frame or payload needs.
    ShortTransfer,
    /// The device is gone.
    NoDevice,
    Other,
}

#[derive(Clone, Copy, Debug, PartialEq, Eq, Structural)]
pub enum DeviceError {
    Transport(TransportFailure),
    /// The response frame carries an error flag.
    Protocol,
    /// The device could not be opened or described, or is not initialized
    /// yet.
    Initialization,
    /// The device answered the start-up probe without error: it is in
    /// factory mode and refuses normal operation.
    FactoryModeRejection,
    /// A response announced a payload too large to be real.
    Desynchronized,
    /// Another exchange is still open on this session.
    Busy,
    /// An event came that the open exchange does not wait for.
    OutOfSequence,
    /// A payload whose length the operation does not accept.
    BadPayloadSize,
}

#[derive(Clone, Copy, Debug, PartialEq, Eq, Structural)]
pub enum SessionState {
    Uninitialized,
    Ready,
    /// Terminal: the session never becomes ready again.
    Invalid(DeviceError),
}

/// A device's answer: the response frame and the payload it announced
/// (empty when its `data_size` is 0).
#[derive(Debug, PartialEq, Eq)]
pub struct Response {
    pub packet: ControlPacket,
    pub payload: Vec<u8>,
}

/// What the owner of the transport is asked to do next.
#[derive(Debug, PartialEq, Eq)]
pub enum Action {
    Write(Vec<u8>),
    Read(usize),
    /// The exchange is over: the response, or why there is none.
    Done(Result<Response, DeviceError>),
}

/// What came of the last `Write` or `Read`: the number of bytes written, or
/// the bytes read.
#[derive(Debug, PartialEq, Eq)]
pub enum Event {
    Written(Result<usize, TransportFailure>),
    Received(Result<Vec<u8>, TransportFailure>),
}

impl Action {
    pub open spec fn writes(self, bytes: Seq<u8>) -> bool {
        match self {
            Action::Write(b) => b@ == bytes,
            _ => false,
        }
    }

    pub open spec fn reads(self, n: nat) -> bool {
        match self {
            Action::Read(m) => m == n,
            _ => false,
        }
    }

    /// The exchange is over without a response, for reason `e`.
    pub open spec fn fails_with(self, e: DeviceError) -> bool {
        match self {
            Action::Done(Err(f)) => f == e,
            _ => false,
        }
    }

    /// The exchange is over with response frame `packet`, followed by
    /// `payload`.
    pub open spec fn answers(self, packet: ControlPacket, payload: Seq<u8>) -> bool {
        match self {
            Action::Done(Ok(r)) => r.packet == packet && r.payload@ == payload,
            _ => false,
        }
    }
}

impl Event {
    pub open spec fn wrote(self, n: nat) -> bool {
        match self {
            Event::Written(Ok(m)) => m == n,
            _ => false,
        }
    }

    pub open spec fn received(self, bytes: Seq<u8>) -> bool {
        match self {
            Event::Received(Ok(b)) => b@ == bytes,
            _ => false,
        }
    }

    /// The transfer that the event reports failed with `e`.
    pub open spec fn failed(self, e: TransportFailure) -> bool {
        match self {
            Event::Written(Err(f)) => f == e,
            Event::Received(Err(f)) => f == e,
            _ => false,
        }
    }

    /// A write that went through, of any length.
    pub open spec fn wrote_any(self) -> bool {
        self matches Event::Written(Ok(_))
    }

    /// A read that went through, of any length.
    pub open spec fn received_any(self) -> bool {
        self matches Event::Received(Ok(_))
    }
}

/// Where the open exchange stands.
enum Phase {
    Idle,
    /// The request frame was handed out; `payload` follows it.
    WritingHeader { payload: Vec<u8> },
    /// The payload of `len` bytes was handed out.
    WritingPayload { len: usize },
    /// The response frame was asked for.
    ReadingHeader,
    /// The response's payload was asked for.
    ReadingPayload { response: ControlPacket },
}

/// The error that an operation meets on a session in `state`, when that
/// state is not `Ready`.
pub open spec fn refusal(state: SessionState) -> DeviceError {
    match state {
        SessionState::Invalid(e) => e,
        _ => DeviceError::Initialization,
    }
}

/// A failed transfer, a timeout included, ends a ready session for good.
pub open spec fn after_failure(state: SessionState, e: TransportFailure) -> SessionState {
    if state == SessionState::Ready {
        SessionState::Invalid(DeviceError::Transport(e))
    } else {
        state
    }
}

/// The identifier of the display type, fixed for every device of it.
pub open spec fn fip_type_guid() -> GUID {
    GUID {
        data1: 0x3E083CD8,
        data2: 0x6A37,
        data3: 0x4A58,
        data4: [0x80, 0xA8, 0x3D, 0x6A, 0x2C, 0x07, 0x51, 0x3E],
    }
}

pub struct Session {
    state: SessionState,
    serial_number: String,
    phase: Phase,
}

impl Session {
    pub closed spec fn spec_state(&self) -> SessionState {
        self.state
    }

    pub closed spec fn spec_serial(&self) -> Seq<char> {
        self.serial_number@
    }

    /// No exchange is open.
    pub closed spec fn is_idle(&self) -> bool {
        self.phase is Idle
    }

    /// The request frame is being written; this payload follows it.
    pub closed spec fn writing_header(&self) -> Option<Seq<u8>> {
        match self.phase {
            Phase::WritingHeader { payload } => Some(payload@),
            _ => None,
        }
    }

    /// The request's payload, of this length, is being written.
    pub closed spec fn writing_payload(&self) -> Option<nat> {
        match self.phase {
            Phase::WritingPayload { len } => Some(len as nat),
            _ => None,
        }
    }

    /// The response frame is awaited.
    pub closed spec fn reading_header(&self) -> bool {
        self.phase is ReadingHeader
    }

    /// The payload of this response frame is awaited.
    pub closed spec fn reading_payload(&self) -> Option<ControlPacket> {
        match self.phase {
            Phase::ReadingPayload { response } => Some(response),
            _ => None,
        }
    }

    /// Same state and serial number as `other`.
    pub open spec fn same_record(&self, other: &Session) -> bool {
        self.spec_state() == other.spec_state() && self.spec_serial() == other.spec_serial()
    }

    /// A new session, before its device has been opened.
    pub fn new() -> (r: Session)
        ensures
            r.spec_state() == SessionState::Uninitialized,
            r.is_idle(),
            r.spec_serial() == Seq::<char>::empty(),
    {
        Session { state: SessionState::Uninitialized, serial_number: String::new(), phase: Phase::Idle }
    }

    pub fn state(&self) -> (r: SessionState)
        ensures
            r == self.spec_state(),
    {
        self.state
    }

    pub fn ready(&self) -> (r: bool)
        ensures
            r == (self.spec_state() == SessionState::Ready),
    {
        match self.state {
            SessionState::Ready => true,
            _ => false,
        }
    }

    pub fn is_busy(&self) -> (r: bool)
        ensures
            r == !self.is_idle(),
    {
        match self.phase {
            Phase::Idle => false,
            _ => true,
        }
    }

    fn refusal_error(&self) -> (r: DeviceError)
        ensures
            r == refusal(self.spec_state()),
    {
        match self.state {
            SessionState::Invalid(e) => e,
            _ => DeviceError::Initialization,
        }
    }

    /// The device's serial number, once the session is ready.
    pub fn serial_number(&self) -> (r: Result<String, DeviceError>)
        ensures
            self.spec_state() == SessionState::Ready ==> r is Ok && r->Ok_0@ == self.spec_serial(),
            self.spec_state() != SessionState::Ready ==> r == Err::<String, DeviceError>(
                refusal(self.spec_state()),
            ),
    {
        if self.ready() {
            Ok(self.serial_number.clone())
        } else {
            Err(self.refusal_error())
        }
    }

    /// The identifier of the device's type, once the session is ready.
    pub fn device_type_uuid(&self) -> (r: Result<GUID, DeviceError>)
        ensures
            self.spec_state() == SessionState::Ready ==> r == Ok::<GUID, DeviceError>(fip_type_guid()),
            self.spec_state() != SessionState::Ready ==> r == Err::<GUID, DeviceError>(
                refusal(self.spec_state()),
            ),
    {
        if self.ready() {
            Ok(
                GUID {
                    data1: 0x3E083CD8,
                    data2: 0x6A37,
                    data3: 0x4A58,
                    data4: [0x80, 0xA8, 0x3D, 0x6A, 0x2C, 0x07, 0x51, 0x3E],
                },
            )
        } else {
            Err(self.refusal_error())
        }
    }

    fn open_exchange(&mut self, packet: ControlPacket, payload: Vec<u8>) -> (a: Action)
        requires
            old(self).is_idle(),
        ensures
            a.writes(packet.encoded()),
            final(self).writing_header() == Some(payload@),
            final(self).same_record(old(self)),
    {
        let bytes = packet.encode();
        self.phase = Phase::WritingHeader { payload };
        Action::Write(bytes)
    }

    /// Opens the exchange for `packet` followed by `payload`, on a ready
    /// session with no exchange open. Otherwise nothing is sent: the
    /// exchange ends at once with `Busy`, or with the error that keeps the
    /// session from being ready.
    pub fn begin(&mut self, packet: ControlPacket, payload: Vec<u8>) -> (a: Action)
        requires
            payload@.len() == packet.data_size,
        ensures
            old(self).is_idle() && old(self).spec_state() == SessionState::Ready ==> {
                &&& a.writes(packet.encoded())
                &&& final(self).writing_header() == Some(payload@)
                &&& final(self).same_record(old(self))
            },
            !old(self).is_idle() ==> a.fails_with(DeviceError::Busy) && *final(self) == *old(self),
            old(self).is_idle() && old(self).spec_state() != SessionState::Ready ==> a.fails_with(refusal(old(self).spec_state())) && *final(self) == *old(self),
    {
        if self.is_busy() {
            return Action::Done(Err(DeviceError::Busy));
        }
        if !self.ready() {
            return Action::Done(Err(self.refusal_error()));
        }
        self.open_exchange(packet, payload)
    }

    /// Opens the start-up probe exchange on a session not yet initialized.
    pub fn begin_probe(&mut self) -> (a: Action)
        ensures
            old(self).is_idle() && old(self).spec_state() == SessionState::Uninitialized ==> {
                &&& a.writes(ControlPacket::spec_new(Request::SomeFactoryModeRequest).encoded())
                &&& final(self).writing_header() == Some(Seq::<u8>::empty())
                &&& final(self).same_record(old(self))
            },
            !old(self).is_idle() ==> a.fails_with(DeviceError::Busy) && *final(self) == *old(self),
            old(self).is_idle() && old(self).spec_state() != SessionState::Uninitialized
                ==> a.fails_with(DeviceError::Initialization) && *final(self) == *old(self),
    {
        if self.is_busy() {
            return Action::Done(Err(DeviceError::Busy));
        }
        match self.state {
            SessionState::Uninitialized => {},
            _ => return Action::Done(Err(DeviceError::Initialization)),
        }
        let packet = probe_request();
        self.open_exchange(packet, Vec::new())
    }

    fn fail(&mut self, e: TransportFailure) -> (a: Action)
        ensures
            a.fails_with(DeviceError::Transport(e)),
            final(self).is_idle(),
            final(self).spec_state() == after_failure(old(self).spec_state(), e),
            final(self).spec_serial() == old(self).spec_serial(),
    {
        self.phase = Phase::Idle;
        match self.state {
            SessionState::Ready => {
                self.state = SessionState::Invalid(DeviceError::Transport(e));
            },
            _ => {},
        }
        Action::Done(Err(DeviceError::Transport(e)))
    }

    fn out_of_sequence(&mut self) -> (a: Action)
        ensures
            a.fails_with(DeviceError::OutOfSequence),
            final(self).is_idle(),
            final(self).same_record(old(self)),
    {
        self.phase = Phase::Idle;
        Action::Done(Err(DeviceError::OutOfSequence))
    }

    /// Takes the outcome of the last action and says what to do next.
    ///
    /// The request frame, then its payload if there is one, must be written
    /// in full; then exactly one response frame is read, then exactly the
    /// payload it announces. Only after that is the exchange over with the
    /// response, and only then can another one begin. A failed or short
    /// transfer ends the exchange with a transport error, which also ends a
    /// ready session for good. A response announcing an
    /// oversize payload ends the session. An event of the wrong kind, or one
    /// with no exchange open, ends the exchange with `OutOfSequence`.
    pub fn on_event(&mut self, ev: Event) -> (a: Action)
        ensures
            final(self).spec_serial() == old(self).spec_serial(),
            a matches Action::Done(Ok(_)) ==> ev.received_any() && (old(self).reading_header()
                || old(self).reading_payload() is Some),
            old(self).is_idle() ==> a.fails_with(DeviceError::OutOfSequence) && final(self).is_idle() && final(self).same_record(old(self)),
            forall|e: TransportFailure|
                #[trigger] ev.failed(e) && !old(self).is_idle() ==> {
                    &&& a.fails_with(DeviceError::Transport(e))
                    &&& final(self).is_idle()
                    &&& final(self).spec_state() == after_failure(old(self).spec_state(), e)
                },
            (old(self).writing_header() is Some || old(self).writing_payload() is Some)
                && ev.received_any() ==> a.fails_with(DeviceError::OutOfSequence) && final(self).is_idle() && final(self).same_record(old(self)),
            (old(self).reading_header() || old(self).reading_payload() is Some) && ev.wrote_any()
                ==> a.fails_with(DeviceError::OutOfSequence) && final(self).is_idle() && final(self).same_record(old(self)),
            old(self).writing_header() matches Some(p) ==> {
                &&& ev.wrote(CONTROL_PACKET_LEN as nat) && p.len() > 0 ==> a.writes(p) && final(self).writing_payload() == Some(p.len()) && final(self).same_record(old(self))
                &&& ev.wrote(CONTROL_PACKET_LEN as nat) && p.len() == 0 ==> a.reads(
                    CONTROL_PACKET_LEN as nat,
                ) && final(self).reading_header() && final(self).same_record(old(self))
                &&& forall|n: nat|
                    #[trigger] ev.wrote(n) && n != CONTROL_PACKET_LEN ==> a.fails_with(DeviceError::Transport(TransportFailure::ShortTransfer)) && final(self).is_idle() && final(self).spec_state() == after_failure(
                        old(self).spec_state(),
                        TransportFailure::ShortTransfer,
                    )
            },
            old(self).writing_payload() matches Some(len) ==> {
                &&& ev.wrote(len) ==> a.reads(CONTROL_PACKET_LEN as nat) && final(self).reading_header() && final(self).same_record(old(self))
                &&& forall|n: nat|
                    #[trigger] ev.wrote(n) && n != len ==> a.fails_with(DeviceError::Transport(TransportFailure::ShortTransfer)) && final(self).is_idle() && final(self).spec_state() == after_failure(
                        old(self).spec_state(),
                        TransportFailure::ShortTransfer,
                    )
            },
            old(self).reading_header() ==> forall|b: Seq<u8>|
                #[trigger] ev.received(b) ==> {
                    let p = decoded(b);
                    &&& b.len() != CONTROL_PACKET_LEN ==> a.fails_with(DeviceError::Transport(TransportFailure::ShortTransfer)) && final(self).is_idle() && final(self).spec_state() == after_failure(
                        old(self).spec_state(),
                        TransportFailure::ShortTransfer,
                    )
                    &&& b.len() == CONTROL_PACKET_LEN && p.data_size == 0 ==> a.answers(p, Seq::<u8>::empty())
                        && final(self).is_idle() && final(self).same_record(old(self))
                    &&& b.len() == CONTROL_PACKET_LEN && 0 < p.data_size < MAX_RESPONSE_PAYLOAD
                        ==> a.reads(p.data_size as nat) && final(self).reading_payload() == Some(p)
                        && final(self).same_record(old(self))
                    &&& b.len() == CONTROL_PACKET_LEN && p.data_size >= MAX_RESPONSE_PAYLOAD
                        ==> a.fails_with(DeviceError::Desynchronized) && final(self).is_idle()
                        && final(self).spec_state() == SessionState::Invalid(
                        DeviceError::Desynchronized,
                    )
                },
            old(self).reading_payload() matches Some(p) ==> forall|b: Seq<u8>|
                #[trigger] ev.received(b) ==> {
                    &&& b.len() == p.data_size ==> a.answers(p, b) && final(self).is_idle()
                        && final(self).same_record(old(self))
                    &&& b.len() != p.data_size ==> a.fails_with(DeviceError::Transport(TransportFailure::ShortTransfer)) && final(self).is_idle() && final(self).spec_state() == after_failure(
                        old(self).spec_state(),
                        TransportFailure::ShortTransfer,
                    )
                },
    {
        let mut phase = Phase::Idle;
        std::mem::swap(&mut self.phase, &mut phase);
        match phase {
            Phase::Idle => Action::Done(Err(DeviceError::OutOfSequence)),
            Phase::WritingHeader { payload } => match ev {
                Event::Written(Ok(n)) => {
                    if n != CONTROL_PACKET_LEN {
                        self.fail(TransportFailure::ShortTransfer)
                    } else if payload.len() > 0 {
                        self.phase = Phase::WritingPayload { len: payload.len() };
                        Action::Write(payload)
                    } else {
                        self.phase = Phase::ReadingHeader;
                        Action::Read(CONTROL_PACKET_LEN)
                    }
                },
                Event::Written(Err(e)) => self.fail(e),
                Event::Received(Err(e)) => self.fail(e),
                Event::Received(Ok(_)) => self.out_of_sequence(),
            },
            Phase::WritingPayload { len } => match ev {
                Event::Written(Ok(n)) => {
                    if n != len {
                        self.fail(TransportFailure::ShortTransfer)
                    } else {
                        self.phase = Phase::ReadingHeader;
                        Action::Read(CONTROL_PACKET_LEN)
                    }
                },
                Event::Written(Err(e)) => self.fail(e),
                Event::Received(Err(e)) => self.fail(e),
                Event::Received(Ok(_)) => self.out_of_sequence(),
            },
            Phase::ReadingHeader => match ev {
                Event::Received(Ok(bytes)) => match ControlPacket::decode(bytes.as_slice()) {
                    None => self.fail(TransportFailure::ShortTransfer),
                    Some(response) => {
                        let size = response.data_size();
                        if size == 0 {
                            Action::Done(Ok(Response { packet: response, payload: Vec::new() }))
                        } else if size >= MAX_RESPONSE_PAYLOAD {
                            self.state = SessionState::Invalid(DeviceError::Desynchronized);
                            Action::Done(Err(DeviceError::Desynchronized))
                        } else {
                            self.phase = Phase::ReadingPayload { response };
                            Action::Read(size)
                        }
                    },
                },
                Event::Received(Err(e)) => self.fail(e),
                Event::Written(Err(e)) => self.fail(e),
                Event::Written(Ok(_)) => self.out_of_sequence(),
            },
            Phase::ReadingPayload { response } => match ev {
                Event::Received(Ok(bytes)) => {
                    if bytes.len() == response.data_size() {
                        Action::Done(Ok(Response { packet: response, payload: bytes }))
                    } else {
                        self.fail(TransportFailure::ShortTransfer)
                    }
                },
                Event::Received(Err(e)) => self.fail(e),
                Event::Written(Err(e)) => self.fail(e),
                Event::Written(Ok(_)) => self.out_of_sequence(),
            },
        }
    }
}

impl Session {
    /// Settles the handshake of a session not yet initialized, from the
    /// serial number read from the device and the answer to the start-up
    /// probe. The session becomes ready only on a probe answer that carries
    /// an error flag; an error-free answer means factory mode, and no answer
    /// an initialization failure. A session that became ready opens at once
    /// the exchange that blanks page 0, whose outcome does not matter; one
    /// that did not ends there with the error that keeps it from being
    /// ready. On a session past its handshake nothing changes and the result
    /// is `OutOfSequence`.
    pub fn finish_handshake(&mut self, serial_number: String, probe: Result<Response, DeviceError>) -> (a: Action)
        ensures
            old(self).spec_state() != SessionState::Uninitialized ==> *final(self) == *old(self)
                && a.fails_with(DeviceError::OutOfSequence),
            old(self).spec_state() == SessionState::Uninitialized ==> {
                &&& (final(self).spec_state() == SessionState::Ready) == (probe is Ok
                    && probe->Ok_0.packet.spec_has_error())
                &&& probe is Ok && probe->Ok_0.packet.spec_has_error() ==> final(self).spec_serial()
                    == serial_number@
                &&& probe is Ok && !probe->Ok_0.packet.spec_has_error() ==> final(self).spec_state()
                    == SessionState::Invalid(DeviceError::FactoryModeRejection)
                &&& probe is Err ==> final(self).spec_state() == SessionState::Invalid(
                    DeviceError::Initialization,
                )
                &&& final(self).spec_state() == SessionState::Ready && old(self).is_idle() ==> a.writes(
                    clear_image_frame(0).encoded(),
                ) && final(self).writing_header() == Some(Seq::<u8>::empty())
                &&& final(self).spec_state() == SessionState::Ready && !old(self).is_idle() ==> a.fails_with(DeviceError::Busy) && final(self).is_idle() == old(self).is_idle()
                &&& final(self).spec_state() != SessionState::Ready ==> a.fails_with(refusal(final(self).spec_state())) && final(self).is_idle() == old(self).is_idle()
            },
    {
        match self.state {
            SessionState::Uninitialized => {},
            _ => return Action::Done(Err(DeviceError::OutOfSequence)),
        }
        match probe {
            Ok(response) => {
                if response.packet.has_error() {
                    self.serial_number = serial_number;
                    self.state = SessionState::Ready;
                } else {
                    self.state = SessionState::Invalid(DeviceError::FactoryModeRejection);
                }
            },
            Err(_) => {
                self.state = SessionState::Invalid(DeviceError::Initialization);
            },
        }
        if !self.ready() {
            return Action::Done(Err(self.refusal_error()));
        }
        if self.is_busy() {
            return Action::Done(Err(DeviceError::Busy));
        }
        self.open_exchange(clear_image_request(0), Vec::new())
    }

    /// The device could not be opened, claimed or described: a session not
    /// yet initialized becomes invalid for good. Nothing changes on a
    /// session past its handshake.
    pub fn fail_initialization(&mut self)
        ensures
            final(self).is_idle() == old(self).is_idle(),
            old(self).spec_state() != SessionState::Uninitialized ==> *final(self) == *old(self),
            old(self).spec_state() == SessionState::Uninitialized ==> final(self).spec_state()
                == SessionState::Invalid(DeviceError::Initialization) && final(self).spec_serial()
                == old(self).spec_serial(),
    {
        match self.state {
            SessionState::Uninitialized => {
                self.state = SessionState::Invalid(DeviceError::Initialization);
            },
            _ => {},
        }
    }

    /// Uploads a framebuffer to `page`. Anything but exactly
    /// `FRAMEBUFFER_LEN` bytes is refused before anything is sent.
    pub fn set_image_data(&mut self, page: u8, data: Vec<u8>) -> (a: Action)
        ensures
            data@.len() != FRAMEBUFFER_LEN ==> a.fails_with(DeviceError::BadPayloadSize)
                && *final(self) == *old(self),
            data@.len() == FRAMEBUFFER_LEN ==> opens(
                *old(self),
                *final(self),
                a,
                set_image_frame(page, data@.len() as u32),
                data@,
            ),
    {
        if data.len() != FRAMEBUFFER_LEN {
            return Action::Done(Err(DeviceError::BadPayloadSize));
        }
        let packet = set_image_request(page, data.len());
        self.begin(packet, data)
    }

    pub fn set_led(&mut self, page: u8, index: u8, value: bool) -> (a: Action)
        ensures
            opens(*old(self), *final(self), a, set_led_frame(page, index, value), Seq::empty()),
    {
        self.begin(set_led_request(page, index, value), Vec::new())
    }

    pub fn clear_image(&mut self, page: u8) -> (a: Action)
        ensures
            opens(*old(self), *final(self), a, clear_image_frame(page), Seq::empty()),
    {
        self.begin(clear_image_request(page), Vec::new())
    }

    /// Stores `data` in flash file `file` of `page`. A payload too long for
    /// the frame's size field is refused before anything is sent.
    pub fn save_file(&mut self, page: u8, file: u8, data: Vec<u8>) -> (a: Action)
        ensures
            data@.len() > u32::MAX ==> a.fails_with(DeviceError::BadPayloadSize) && *final(self)
                == *old(self),
            data@.len() <= u32::MAX ==> opens(
                *old(self),
                *final(self),
                a,
                save_file_frame(page, file, data@.len() as u32),
                data@,
            ),
    {
        if data.len() > 0xffff_ffff {
            return Action::Done(Err(DeviceError::BadPayloadSize));
        }
        let packet = save_file_request(page, file, data.len());
        self.begin(packet, data)
    }

    pub fn display_file(&mut self, page: u8, index: u8, file: u8) -> (a: Action)
        ensures
            opens(*old(self), *final(self), a, display_file_frame(page, index, file), Seq::empty()),
    {
        self.begin(display_file_request(page, index, file), Vec::new())
    }

    pub fn delete_file(&mut self, page: u8, file: u8) -> (a: Action)
        ensures
            opens(*old(self), *final(self), a, delete_file_frame(page, file), Seq::empty()),
    {
        self.begin(delete_file_request(page, file), Vec::new())
    }
}

/// What `begin` does with `packet` and `payload`: open the exchange on an
/// idle ready session, and otherwise end at once, sending nothing and
/// changing nothing.
pub open spec fn opens(before: Session, after: Session, a: Action, packet: ControlPacket, payload: Seq<u8>) -> bool {
    &&& before.is_idle() && before.spec_state() == SessionState::Ready ==> {
        &&& a.writes(packet.encoded())
        &&& after.writing_header() == Some(payload)
        &&& after.same_record(&before)
    }
    &&& !before.is_idle() ==> a.fails_with(DeviceError::Busy) && after == before
    &&& before.is_idle() && before.spec_state() != SessionState::Ready ==> a.fails_with(refusal(before.spec_state())) && after == before
}

/// A session in the middle of an exchange, at any of its steps, is not idle.
pub proof fn lemma_open_exchange_not_idle(s: Session)
    ensures
        s.writing_header() is Some || s.writing_payload() is Some || s.reading_header()
            || s.reading_payload() is Some ==> !s.is_idle(),
{
}

/// On an idle session that is not ready (one whose device failed, left or
/// was never usable), every operation ends at once with the error that ended
/// the session: nothing is written and the session stays as it is.
pub proof fn lemma_not_ready_refuses(
    before: Session,
    after: Session,
    a: Action,
    packet: ControlPacket,
    payload: Seq<u8>,
)
    requires
        before.is_idle(),
        before.spec_state() != SessionState::Ready,
        opens(before, after, a, packet, payload),
    ensures
        after.spec_state() != SessionState::Ready,
        a.fails_with(refusal(before.spec_state())),
        !(a is Write),
        after == before,
{
}

/// A session whose start-up probe was answered without an error flag is not
/// ready, and every operation begun on it ends at once with
/// `FactoryModeRejection`: nothing is written and the session stays as it is.
pub proof fn lemma_factory_mode_refuses(
    before: Session,
    after: Session,
    a: Action,
    packet: ControlPacket,
    payload: Seq<u8>,
)
    requires
        before.is_idle(),
        before.spec_state() == SessionState::Invalid(DeviceError::FactoryModeRejection),
        opens(before, after, a, packet, payload),
    ensures
        after.spec_state() != SessionState::Ready,
        a.fails_with(DeviceError::FactoryModeRejection),
        !(a is Write),
        after == before,
{
}

/// The frame that sets LED `index` of `page` on or off.
pub open spec fn set_led_frame(page: u8, index: u8, value: bool) -> ControlPacket {
    ControlPacket {
        param_1: page as u32,
        param_2: index as u32,
        param_3: if value { 1u32 } else { 0u32 },
        ..ControlPacket::spec_new(Request::SetLed)
    }
}

/// The frame that blanks `page`.
pub open spec fn clear_image_frame(page: u8) -> ControlPacket {
    ControlPacket { page: page as u32, ..ControlPacket::spec_new(Request::ClearImage) }
}

/// The frame that shows a framebuffer of `len` bytes, sent after it, on
/// `page`.
pub open spec fn set_image_frame(page: u8, len: u32) -> ControlPacket {
    ControlPacket { page: page as u32, data_size: len, ..ControlPacket::spec_new(Request::SetImage) }
}

/// The frame that stores `len` bytes, sent after it, in flash file `file` of
/// `page`.
pub open spec fn save_file_frame(page: u8, file: u8, len: u32) -> ControlPacket {
    ControlPacket {
        data_size: len,
        param_1: page as u32,
        param_3: file as u32,
        ..ControlPacket::spec_new(Request::SaveFile)
    }
}

/// The frame that shows flash file `file` as image `index` of `page`.
pub open spec fn display_file_frame(page: u8, index: u8, file: u8) -> ControlPacket {
    ControlPacket {
        param_1: page as u32,
        param_2: index as u32,
        param_3: file as u32,
        ..ControlPacket::spec_new(Request::SetImageFile)
    }
}

/// The frame that deletes flash file `file` of `page`.
pub open spec fn delete_file_frame(page: u8, file: u8) -> ControlPacket {
    ControlPacket {
        param_1: page as u32,
        param_3: file as u32,
        ..ControlPacket::spec_new(Request::DeleteFile)
    }
}

/// The request sent once at start-up to tell a usable device from one in
/// factory mode.
pub fn probe_request() -> (r: ControlPacket)
    ensures
        r == ControlPacket::spec_new(Request::SomeFactoryModeRequest),
{
    ControlPacket::new(Request::SomeFactoryModeRequest)
}

pub fn set_led_request(page: u8, index: u8, value: bool) -> (r: ControlPacket)
    ensures
        r == set_led_frame(page, index, value),
{
    let mut packet = ControlPacket::new(Request::SetLed);
    packet.param_1 = page as u32;
    packet.param_2 = index as u32;
    packet.param_3 = if value { 1 } else { 0 };
    packet
}

pub fn clear_image_request(page: u8) -> (r: ControlPacket)
    ensures
        r == clear_image_frame(page),
{
    let mut packet = ControlPacket::new(Request::ClearImage);
    packet.set_page(page);
    packet
}

pub fn set_image_request(page: u8, len: usize) -> (r: ControlPacket)
    requires
        len <= u32::MAX,
    ensures
        r == set_image_frame(page, len as u32),
{
    let mut packet = ControlPacket::new(Request::SetImage);
    packet.set_page(page);
    packet.set_data_size(len);
    packet
}

pub fn save_file_request(page: u8, file: u8, len: usize) -> (r: ControlPacket)
    requires
        len <= u32::MAX,
    ensures
        r == save_file_frame(page, file, len as u32),
{
    let mut packet = ControlPacket::new(Request::SaveFile);
    packet.param_1 = page as u32;
    packet.param_3 = file as u32;
    packet.set_data_size(len);
    packet
}

pub fn display_file_request(page: u8, index: u8, file: u8) -> (r: ControlPacket)
    ensures
        r == display_file_frame(page, index, file),
{
    let mut packet = ControlPacket::new(Request::SetImageFile);
    packet.param_1 = page as u32;
    packet.param_2 = index as u32;
    packet.param_3 = file as u32;
    packet
}

pub fn delete_file_request(page: u8, file: u8) -> (r: ControlPacket)
    ensures
        r == delete_file_frame(page, file),
{
    let mut packet = ControlPacket::new(Request::DeleteFile);
    packet.param_1 = page as u32;
    packet.param_3 = file as u32;
    packet
}

/// What a finished exchange means for an operation: success on a response
/// without error flags, `Protocol` on one with, and the exchange's own error
/// when there was no response.
pub fn operation_outcome(result: &Result<Response, DeviceError>) -> (r: Result<(), DeviceError>)
    ensures
        result is Ok && !result->Ok_0.packet.spec_has_error() ==> r == Ok::<(), DeviceError>(()),
        result is Ok && result->Ok_0.packet.spec_has_error() ==> r == Err::<(), DeviceError>(
            DeviceError::Protocol,
        ),
        result is Err ==> r == Err::<(), DeviceError>(result->Err_0),
{
    match result {
        Ok(response) => {
            if response.packet.has_error() {
                Err(DeviceError::Protocol)
            } else {
                Ok(())
            }
        },
        Err(e) => Err(*e),
    }
}

} // verus!
