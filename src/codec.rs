//! The fixed-layout control frame exchanged with the display over bulk
//! transfers: eleven big-endian 32-bit fields, 44 bytes, no padding.
use vstd::prelude::*;

verus! {

/// Length in bytes of an encoded control packet.
pub const CONTROL_PACKET_LEN: usize = 44;

/// A response announcing a payload of this many bytes or more means the byte
/// stream is out of step with the protocol.
pub const MAX_RESPONSE_PAYLOAD: usize = 0x80000;

/// Opcodes of the command protocol.
#[derive(Clone, Copy, Debug, PartialEq, Eq, Structural)]
pub enum Request {
    /// Meaning not confirmed.
    FolderRemoved,
    SaveFile,
    /// Shows an image stored in a flash file.
    SetImageFile,
    SetImage,
    DeleteFile,
    StartServer,
    /// Sent once at start-up; an error-free answer means the device is in
    /// factory mode.
    SomeFactoryModeRequest,
    ClearImage,
    SetLed,
}

/// The request for an opcode value, if the value is one.
pub open spec fn request_of(v: u32) -> Option<Request> {
    if v == 0x02 {
        Some(Request::FolderRemoved)
    } else if v == 0x03 {
        Some(Request::SaveFile)
    } else if v == 0x04 {
        Some(Request::SetImageFile)
    } else if v == 0x06 {
        Some(Request::SetImage)
    } else if v == 0x07 {
        Some(Request::DeleteFile)
    } else if v == 0x09 {
        Some(Request::StartServer)
    } else if v == 0x0a {
        Some(Request::SomeFactoryModeRequest)
    } else if v == 0x13 {
        Some(Request::ClearImage)
    } else if v == 0x18 {
        Some(Request::SetLed)
    } else {
        None
    }
}

impl Request {
    pub open spec fn spec_code(self) -> u32 {
        match self {
            Request::FolderRemoved => 0x02,
            Request::SaveFile => 0x03,
            Request::SetImageFile => 0x04,
            Request::SetImage => 0x06,
            Request::DeleteFile => 0x07,
            Request::StartServer => 0x09,
            Request::SomeFactoryModeRequest => 0x0a,
            Request::ClearImage => 0x13,
            Request::SetLed => 0x18,
        }
    }

    /// The opcode value sent on the wire.
    pub fn code(&self) -> (r: u32)
        ensures
            r == self.spec_code(),
    {
        match self {
            Request::FolderRemoved => 0x02,
            Request::SaveFile => 0x03,
            Request::SetImageFile => 0x04,
            Request::SetImage => 0x06,
            Request::DeleteFile => 0x07,
            Request::StartServer => 0x09,
            Request::SomeFactoryModeRequest => 0x0a,
            Request::ClearImage => 0x13,
            Request::SetLed => 0x18,
        }
    }

    /// The request named by an opcode value; `None` for an unknown value.
    pub fn from_code(v: u32) -> (r: Option<Request>)
        ensures
            r == request_of(v),
    {
        match v {
            0x02 => Some(Request::FolderRemoved),
            0x03 => Some(Request::SaveFile),
            0x04 => Some(Request::SetImageFile),
            0x06 => Some(Request::SetImage),
            0x07 => Some(Request::DeleteFile),
            0x09 => Some(Request::StartServer),
            0x0a => Some(Request::SomeFactoryModeRequest),
            0x13 => Some(Request::ClearImage),
            0x18 => Some(Request::SetLed),
            _ => None,
        }
    }
}

/// Reading back the code of a request gives that request, and only codes of
/// requests are read as one.
pub proof fn lemma_request_code_round_trip(q: Request, v: u32)
    ensures
        request_of(q.spec_code()) == Some(q),
        request_of(v) == Some(q) ==> q.spec_code() == v,
{
}

/// The four bytes of `v`, most significant first.
pub open spec fn be32(v: u32) -> Seq<u8> {
    seq![(v >> 24u32) as u8, ((v >> 16u32) & 0xff) as u8, ((v >> 8u32) & 0xff) as u8, (v & 0xff) as u8]
}

/// The big-endian value of four bytes.
pub open spec fn be32_value(b0: u8, b1: u8, b2: u8, b3: u8) -> u32 {
    ((b0 as u32) << 24u32) | ((b1 as u32) << 16u32) | ((b2 as u32) << 8u32) | (b3 as u32)
}

/// The big-endian value of the four bytes of `s` starting at `i`.
pub open spec fn be32_at(s: Seq<u8>, i: int) -> u32 {
    be32_value(s[i], s[i + 1], s[i + 2], s[i + 3])
}

pub proof fn lemma_be32_round_trip(v: u32)
    ensures
        be32_at(be32(v), 0) == v,
{
    let b0 = (v >> 24u32) as u8;
    let b1 = ((v >> 16u32) & 0xff) as u8;
    let b2 = ((v >> 8u32) & 0xff) as u8;
    let b3 = (v & 0xff) as u8;
    assert(((b0 as u32) << 24u32) | ((b1 as u32) << 16u32) | ((b2 as u32) << 8u32) | (b3 as u32)
        == v) by (bit_vector)
        requires
            b0 == (v >> 24u32) as u8,
            b1 == ((v >> 16u32) & 0xff) as u8,
            b2 == ((v >> 8u32) & 0xff) as u8,
            b3 == (v & 0xff) as u8,
    ;
}

/// One control frame. `param_1` to `param_3` mean different things for each
/// opcode; a payload of `data_size` bytes follows the frame when it is not 0.
#[derive(Clone, Copy, Debug, PartialEq, Eq, Structural)]
pub struct ControlPacket {
    pub server_id: u32,
    pub page: u32,
    pub data_size: u32,
    pub header_error: u32,
    pub header_info: u32,
    pub request: u32,
    pub param_1: u32,
    pub param_2: u32,
    pub param_3: u32,
    pub request_error: u32,
    pub request_info: u32,
}

/// The packet held by 44 bytes, field by field in wire order.
pub open spec fn decoded(s: Seq<u8>) -> ControlPacket {
    ControlPacket {
        server_id: be32_at(s, 0),
        page: be32_at(s, 4),
        data_size: be32_at(s, 8),
        header_error: be32_at(s, 12),
        header_info: be32_at(s, 16),
        request: be32_at(s, 20),
        param_1: be32_at(s, 24),
        param_2: be32_at(s, 28),
        param_3: be32_at(s, 32),
        request_error: be32_at(s, 36),
        request_info: be32_at(s, 40),
    }
}

impl ControlPacket {
    /// The wire form: each field's four bytes, most significant first, in
    /// declaration order.
    pub open spec fn encoded(self) -> Seq<u8> {
        be32(self.server_id) + be32(self.page) + be32(self.data_size) + be32(self.header_error)
            + be32(self.header_info) + be32(self.request) + be32(self.param_1) + be32(
            self.param_2,
        ) + be32(self.param_3) + be32(self.request_error) + be32(self.request_info)
    }

    /// Either status channel, of the header or of the request, reports a
    /// failure.
    pub open spec fn spec_has_error(self) -> bool {
        self.header_error != 0 || self.request_error != 0
    }

    /// A zeroed packet carrying only the opcode.
    pub open spec fn spec_new(request: Request) -> ControlPacket {
        ControlPacket {
            server_id: 0,
            page: 0,
            data_size: 0,
            header_error: 0,
            header_info: 0,
            request: request.spec_code(),
            param_1: 0,
            param_2: 0,
            param_3: 0,
            request_error: 0,
            request_info: 0,
        }
    }

    pub fn new(request: Request) -> (r: ControlPacket)
        ensures
            r == ControlPacket::spec_new(request),
    {
        ControlPacket {
            server_id: 0,
            page: 0,
            data_size: 0,
            header_error: 0,
            header_info: 0,
            request: request.code(),
            param_1: 0,
            param_2: 0,
            param_3: 0,
            request_error: 0,
            request_info: 0,
        }
    }

    pub fn has_error(&self) -> (r: bool)
        ensures
            r == self.spec_has_error(),
    {
        self.header_error != 0 || self.request_error != 0
    }

    /// The opcode of the packet, if it is a known one.
    pub fn request(&self) -> (r: Option<Request>)
        ensures
            r == request_of(self.request),
    {
        Request::from_code(self.request)
    }

    pub fn set_request(&mut self, value: Request)
        ensures
            *final(self) == (ControlPacket { request: value.spec_code(), ..*old(self) }),
    {
        self.request = value.code();
    }

    /// The page field, when it fits a page number.
    pub fn page(&self) -> (r: Option<u8>)
        ensures
            r == (if self.page <= 0xff { Some(self.page as u8) } else { None::<u8> }),
    {
        if self.page <= 0xff {
            Some(self.page as u8)
        } else {
            None
        }
    }

    pub fn set_page(&mut self, value: u8)
        ensures
            *final(self) == (ControlPacket { page: value as u32, ..*old(self) }),
    {
        self.page = value as u32;
    }

    pub fn data_size(&self) -> (r: usize)
        ensures
            r == self.data_size,
    {
        self.data_size as usize
    }

    pub fn set_data_size(&mut self, value: usize)
        requires
            value <= u32::MAX,
        ensures
            *final(self) == (ControlPacket { data_size: value as u32, ..*old(self) }),
    {
        self.data_size = value as u32;
    }

    /// The 44 bytes that go on the wire.
    pub fn encode(&self) -> (r: Vec<u8>)
        ensures
            r@ == self.encoded(),
            r@.len() == CONTROL_PACKET_LEN,
    {
        let mut out: Vec<u8> = Vec::with_capacity(CONTROL_PACKET_LEN);
        push_be32(&mut out, self.server_id);
        push_be32(&mut out, self.page);
        push_be32(&mut out, self.data_size);
        push_be32(&mut out, self.header_error);
        push_be32(&mut out, self.header_info);
        push_be32(&mut out, self.request);
        push_be32(&mut out, self.param_1);
        push_be32(&mut out, self.param_2);
        push_be32(&mut out, self.param_3);
        push_be32(&mut out, self.request_error);
        push_be32(&mut out, self.request_info);
        assert(out@ =~= self.encoded());
        out
    }

    /// The packet held by `bytes`; `None` unless there are exactly 44 of them.
    pub fn decode(bytes: &[u8]) -> (r: Option<ControlPacket>)
        ensures
            bytes@.len() == CONTROL_PACKET_LEN ==> r == Some(decoded(bytes@)),
            bytes@.len() != CONTROL_PACKET_LEN ==> r is None,
    {
        if bytes.len() != CONTROL_PACKET_LEN {
            return None;
        }
        Some(
            ControlPacket {
                server_id: read_be32(bytes, 0),
                page: read_be32(bytes, 4),
                data_size: read_be32(bytes, 8),
                header_error: read_be32(bytes, 12),
                header_info: read_be32(bytes, 16),
                request: read_be32(bytes, 20),
                param_1: read_be32(bytes, 24),
                param_2: read_be32(bytes, 28),
                param_3: read_be32(bytes, 32),
                request_error: read_be32(bytes, 36),
                request_info: read_be32(bytes, 40),
            },
        )
    }
}

fn push_be32(out: &mut Vec<u8>, v: u32)
    ensures
        final(out)@ == old(out)@ + be32(v),
{
    out.push((v >> 24u32) as u8);
    out.push(((v >> 16u32) & 0xff) as u8);
    out.push(((v >> 8u32) & 0xff) as u8);
    out.push((v & 0xff) as u8);
    assert(out@ =~= old(out)@ + be32(v));
}

fn read_be32(b: &[u8], i: usize) -> (r: u32)
    requires
        i + 4 <= b@.len(),
    ensures
        r == be32_at(b@, i as int),
{
    ((b[i] as u32) << 24u32) | ((b[i + 1] as u32) << 16u32) | ((b[i + 2] as u32) << 8u32) | (b[i
        + 3] as u32)
}

/// Decoding the encoding of a packet gives back every field of it.
pub proof fn lemma_decode_encode(p: ControlPacket)
    ensures
        p.encoded().len() == CONTROL_PACKET_LEN,
        decoded(p.encoded()) == p,
{
    let s = p.encoded();
    let fields = seq![
        p.server_id,
        p.page,
        p.data_size,
        p.header_error,
        p.header_info,
        p.request,
        p.param_1,
        p.param_2,
        p.param_3,
        p.request_error,
        p.request_info,
    ];
    assert forall|k: int| 0 <= k < 11 implies be32_at(s, 4 * k) == fields[k] by {
        lemma_be32_round_trip(fields[k]);
        assert(s.subrange(4 * k, 4 * k + 4) =~= be32(fields[k]));
    }
    assert(be32_at(s, 0) == fields[0]);
    assert(be32_at(s, 4) == fields[1]);
    assert(be32_at(s, 8) == fields[2]);
    assert(be32_at(s, 12) == fields[3]);
    assert(be32_at(s, 16) == fields[4]);
    assert(be32_at(s, 20) == fields[5]);
    assert(be32_at(s, 24) == fields[6]);
    assert(be32_at(s, 28) == fields[7]);
    assert(be32_at(s, 32) == fields[8]);
    assert(be32_at(s, 36) == fields[9]);
    assert(be32_at(s, 40) == fields[10]);
}

} // verus!
