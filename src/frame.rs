use vstd::prelude::*;

verus! {

/// Start delimiter of every API frame.
pub const START_DELIMITER: u8 = 0x7E;

/// Frame type of a local AT command request.
pub const AT_COMMAND: u8 = 0x08;

/// Frame type of a local AT command response.
pub const AT_COMMAND_RESPONSE: u8 = 0x88;

/// Frame type of a remote AT command response.
pub const REMOTE_AT_COMMAND_RESPONSE: u8 = 0x97;

/// Frame type of a transmit status.
pub const TRANSMIT_STATUS: u8 = 0x8B;

/// Errors of the binary frame layer.
#[derive(Debug, Clone, PartialEq, Eq)]
pub enum ApiError {
    /// The frame does not start with the start delimiter.
    BadDelimiter,
    /// The length field disagrees with the bytes received.
    BadLength,
    /// The checksum byte does not match the frame data.
    BadChecksum,
    /// The frame is not of the type that the request calls for.
    DerefError,
    /// The request does not fit in one frame.
    TooLong,
}

impl ApiError {
    /// A one-line description of the error.
    pub fn message(&self) -> String {
        match self {
            ApiError::BadDelimiter => "frame does not start with 0x7e".to_string(),
            ApiError::BadLength => "frame length does not match".to_string(),
            ApiError::BadChecksum => "frame checksum does not match".to_string(),
            ApiError::DerefError => "unexpected response frame type".to_string(),
            ApiError::TooLong => "request too long for one frame".to_string(),
        }
    }
}

/// What a request is, as far as the choice of reply and read timeout goes.
#[derive(Debug, Clone, Copy, PartialEq, Eq)]
pub enum FrameId {
    AtCommand,
    RemoteAtCommand,
    TransmitRequest,
    Other,
}

/// The shape of reply that a request is answered with.
#[derive(Debug, Clone, Copy, PartialEq, Eq)]
pub enum ResponseKind {
    AtCommandResponse,
    RemoteAtCommandResponse,
    TransmitStatus,
    NullRecieve,
}

/// The reply shape for each request discriminant.
pub open spec fn spec_response_kind(id: FrameId) -> ResponseKind {
    match id {
        FrameId::AtCommand => ResponseKind::AtCommandResponse,
        FrameId::RemoteAtCommand => ResponseKind::RemoteAtCommandResponse,
        FrameId::TransmitRequest => ResponseKind::TransmitStatus,
        FrameId::Other => ResponseKind::NullRecieve,
    }
}

/// The read timeout, in milliseconds, that a request sets while its reply is
/// awaited; `None` keeps the current one.
pub open spec fn spec_timeout_override(id: FrameId) -> Option<u64> {
    match id {
        FrameId::AtCommand => Some(100),
        FrameId::RemoteAtCommand => Some(3000),
        _ => None,
    }
}

pub fn response_kind(id: FrameId) -> (r: ResponseKind)
    ensures
        r == spec_response_kind(id),
{
    match id {
        FrameId::AtCommand => ResponseKind::AtCommandResponse,
        FrameId::RemoteAtCommand => ResponseKind::RemoteAtCommandResponse,
        FrameId::TransmitRequest => ResponseKind::TransmitStatus,
        FrameId::Other => ResponseKind::NullRecieve,
    }
}

pub fn timeout_override(id: FrameId) -> (r: Option<u64>)
    ensures
        r == spec_timeout_override(id),
{
    match id {
        FrameId::AtCommand => Some(100),
        FrameId::RemoteAtCommand => Some(3000),
        _ => None,
    }
}

/// A local AT command: two command letters and an optional parameter.
#[derive(Debug, Clone)]
pub struct AtCommandFrame {
    pub command: [u8; 2],
    pub parameter: Option<Vec<u8>>,
}

/// The reply to a local AT command.
#[derive(Debug, Clone)]
pub struct AtCommandResponse {
    pub frame_id: u8,
    pub command: [u8; 2],
    pub status: u8,
    pub command_data: Option<Vec<u8>>,
}

/// A decoded reply, one variant per reply shape.
#[derive(Debug, Clone)]
pub enum Response {
    AtCommand(AtCommandResponse),
    /// A remote AT command response, frame data after the type byte.
    RemoteAtCommand(Vec<u8>),
    /// A transmit status, frame data after the type byte.
    TransmitStatus(Vec<u8>),
    /// An acknowledgment whose content is not read.
    Null,
}

/// Sum of the bytes, as an integer.
pub open spec fn byte_sum(s: Seq<u8>) -> nat
    decreases s.len(),
{
    if s.len() == 0 {
        0
    } else {
        byte_sum(s.drop_last()) + s.last() as nat
    }
}

/// The checksum byte of frame data: 0xFF minus the low byte of its sum.
pub open spec fn checksum_of(data: Seq<u8>) -> u8 {
    (255 - byte_sum(data) % 256) as u8
}

/// The API frame that carries `data`: delimiter, big-endian length, the data
/// and its checksum.
pub open spec fn api_frame(data: Seq<u8>) -> Seq<u8> {
    seq![START_DELIMITER, (data.len() / 256) as u8, (data.len() % 256) as u8] + data + seq![
        checksum_of(data),
    ]
}

/// The frame data of a local AT command request.
pub open spec fn at_command_data(frame_id: u8, command: Seq<u8>, parameter: Option<Seq<u8>>) -> Seq<u8> {
    seq![AT_COMMAND, frame_id] + command + match parameter {
        Some(p) => p,
        None => Seq::empty(),
    }
}

impl AtCommandFrame {
    pub open spec fn spec_parameter(&self) -> Option<Seq<u8>> {
        match self.parameter {
            Some(p) => Some(p@),
            None => None,
        }
    }

    /// The request's frame data with the given frame id.
    pub open spec fn spec_data(&self, frame_id: u8) -> Seq<u8> {
        at_command_data(frame_id, self.command@, self.spec_parameter())
    }

    /// The request discriminant of a local AT command.
    pub fn id(&self) -> (r: FrameId)
        ensures
            r == FrameId::AtCommand,
    {
        FrameId::AtCommand
    }

    /// Encodes the request as one API frame with frame id 1; fails when the
    /// parameter is too long for the 16-bit length field.
    pub fn gen(&self) -> (r: Result<Vec<u8>, ApiError>)
        ensures
            self.spec_data(1).len() <= 0xFFFF ==> r is Ok && r->Ok_0@ == api_frame(self.spec_data(1)),
            self.spec_data(1).len() > 0xFFFF ==> r == Err::<Vec<u8>, ApiError>(ApiError::TooLong),
    {
        let mut data: Vec<u8> = Vec::new();
        data.push(AT_COMMAND);
        data.push(1u8);
        data.push(self.command[0]);
        data.push(self.command[1]);
        match &self.parameter {
            Some(p) => {
                if p.len() > 0xFFFF - 4 {
                    return Err(ApiError::TooLong);
                }
                let mut i: usize = 0;
                while i < p.len()
                    invariant
                        i <= p@.len(),
                        data@ == seq![AT_COMMAND, 1u8] + self.command@ + p@.subrange(0, i as int),
                    decreases p@.len() - i,
                {
                    data.push(p[i]);
                    i = i + 1;
                }
            },
            None => {},
        }
        assert(data@ =~= self.spec_data(1));
        Ok(encode_frame(&data))
    }
}

/// The checksum byte of `data`.
pub fn checksum(data: &Vec<u8>) -> (r: u8)
    ensures
        r == checksum_of(data@),
{
    let mut sum: u8 = 0;
    let mut i: usize = 0;
    while i < data.len()
        invariant
            i <= data@.len(),
            sum as nat == byte_sum(data@.subrange(0, i as int)) % 256,
        decreases data@.len() - i,
    {
        assert(data@.subrange(0, i + 1).drop_last() =~= data@.subrange(0, i as int));
        sum = sum.wrapping_add(data[i]);
        i = i + 1;
    }
    assert(data@.subrange(0, data@.len() as int) =~= data@);
    255 - sum
}

/// Wraps frame data into an API frame.
pub fn encode_frame(data: &Vec<u8>) -> (r: Vec<u8>)
    requires
        data@.len() <= 0xFFFF,
    ensures
        r@ == api_frame(data@),
{
    let len = data.len();
    let mut out: Vec<u8> = Vec::new();
    out.push(START_DELIMITER);
    out.push((len / 256) as u8);
    out.push((len % 256) as u8);
    let mut i: usize = 0;
    while i < len
        invariant
            len == data@.len(),
            i <= len,
            out@ == seq![START_DELIMITER, (len / 256) as u8, (len % 256) as u8] + data@.subrange(0, i as int),
        decreases len - i,
    {
        out.push(data[i]);
        i = i + 1;
    }
    out.push(checksum(data));
    assert(out@ =~= api_frame(data@));
    out
}

/// What a received API frame checks out to: its frame data, or the first
/// defect found.
pub open spec fn spec_decode_frame(raw: Seq<u8>) -> Result<Seq<u8>, ApiError> {
    if raw.len() == 0 || raw[0] != START_DELIMITER {
        Err(ApiError::BadDelimiter)
    } else if raw.len() < 4 || raw[1] as int * 256 + raw[2] as int != raw.len() - 4 {
        Err(ApiError::BadLength)
    } else if raw.last() != checksum_of(raw.subrange(3, raw.len() - 1)) {
        Err(ApiError::BadChecksum)
    } else {
        Ok(raw.subrange(3, raw.len() - 1))
    }
}

/// A frame built from data decodes back to that data.
pub proof fn lemma_decode_encoded(data: Seq<u8>)
    requires
        data.len() <= 0xFFFF,
    ensures
        spec_decode_frame(api_frame(data)) == Ok::<Seq<u8>, ApiError>(data),
{
    let raw = api_frame(data);
    assert(raw.subrange(3, raw.len() - 1) =~= data);
}

/// The payload of a received frame read as a local AT command reply:
/// `None` when the frame is malformed or of another type.
pub open spec fn spec_reply_payload(raw: Seq<u8>) -> Option<Option<Seq<u8>>> {
    match spec_decode_frame(raw) {
        Err(_) => None,
        Ok(data) => if data.len() >= 5 && data[0] == AT_COMMAND_RESPONSE {
            Some(
                if data.len() > 5 {
                    Some(data.subrange(5, data.len() as int))
                } else {
                    None
                },
            )
        } else {
            None
        },
    }
}

/// The bytes an optional vector holds.
pub open spec fn opt_bytes(o: Option<Vec<u8>>) -> Option<Seq<u8>> {
    match o {
        Some(v) => Some(v@),
        None => None,
    }
}

/// Checks one received API frame and returns its frame data.
pub fn decode_frame(raw: &Vec<u8>) -> (r: Result<Vec<u8>, ApiError>)
    ensures
        r is Err ==> r == Err::<Vec<u8>, ApiError>(spec_decode_frame(raw@)->Err_0),
        r is Ok <==> spec_decode_frame(raw@) is Ok,
        r is Ok ==> r->Ok_0@ == spec_decode_frame(raw@)->Ok_0,
{
    if raw.len() == 0 || raw[0] != START_DELIMITER {
        return Err(ApiError::BadDelimiter);
    }
    if raw.len() < 4 || raw[1] as usize * 256 + raw[2] as usize != raw.len() - 4 {
        return Err(ApiError::BadLength);
    }
    let mut data: Vec<u8> = Vec::new();
    let mut i: usize = 3;
    while i < raw.len() - 1
        invariant
            4 <= raw@.len(),
            3 <= i <= raw@.len() - 1,
            data@ == raw@.subrange(3, i as int),
        decreases raw@.len() - i,
    {
        data.push(raw[i]);
        i = i + 1;
    }
    if raw[raw.len() - 1] != checksum(&data) {
        return Err(ApiError::BadChecksum);
    }
    Ok(data)
}

/// The number of bytes that follow a three-byte frame header (the frame data
/// and the checksum), or `None` when the header does not open a frame.
pub fn remaining_after_header(header: &[u8]) -> (r: Option<usize>)
    ensures
        (header@.len() == 3 && header@[0] == START_DELIMITER) <==> r is Some,
        r is Some ==> r->Some_0 == header@[1] as int * 256 + header@[2] as int + 1,
{
    if header.len() != 3 || header[0] != START_DELIMITER {
        return None;
    }
    Some(header[1] as usize * 256 + header[2] as usize + 1)
}

/// Reads frame data as a reply of the expected shape.
pub fn decode_response(kind: ResponseKind, data: &Vec<u8>) -> (r: Result<Response, ApiError>)
    ensures
        kind == ResponseKind::AtCommandResponse ==> {
            &&& (r is Ok <==> (data@.len() >= 5 && data@[0] == AT_COMMAND_RESPONSE))
            &&& r is Ok ==> {
                &&& r->Ok_0 is AtCommand
                &&& r->Ok_0->AtCommand_0.frame_id == data@[1]
                &&& r->Ok_0->AtCommand_0.command@ == data@.subrange(2, 4)
                &&& r->Ok_0->AtCommand_0.status == data@[4]
                &&& (data@.len() == 5 ==> r->Ok_0->AtCommand_0.command_data is None)
                &&& (data@.len() > 5 ==> r->Ok_0->AtCommand_0.command_data is Some
                    && r->Ok_0->AtCommand_0.command_data->Some_0@ == data@.subrange(5, data@.len() as int))
            }
        },
        kind == ResponseKind::RemoteAtCommandResponse ==> {
            &&& (r is Ok <==> (data@.len() >= 1 && data@[0] == REMOTE_AT_COMMAND_RESPONSE))
            &&& r is Ok ==> r->Ok_0 is RemoteAtCommand
                && r->Ok_0->RemoteAtCommand_0@ == data@.subrange(1, data@.len() as int)
        },
        kind == ResponseKind::TransmitStatus ==> {
            &&& (r is Ok <==> (data@.len() >= 1 && data@[0] == TRANSMIT_STATUS))
            &&& r is Ok ==> r->Ok_0 is TransmitStatus
                && r->Ok_0->TransmitStatus_0@ == data@.subrange(1, data@.len() as int)
        },
        kind == ResponseKind::NullRecieve ==> r == Ok::<Response, ApiError>(Response::Null),
        r is Err ==> r == Err::<Response, ApiError>(ApiError::DerefError),
{
    match kind {
        ResponseKind::AtCommandResponse => {
            if data.len() < 5 || data[0] != AT_COMMAND_RESPONSE {
                return Err(ApiError::DerefError);
            }
            let command_data = if data.len() > 5 {
                Some(tail_from(data, 5))
            } else {
                None
            };
            let command: [u8; 2] = [data[2], data[3]];
            assert(command@ =~= data@.subrange(2, 4));
            Ok(
                Response::AtCommand(
                    AtCommandResponse { frame_id: data[1], command, status: data[4], command_data },
                ),
            )
        },
        ResponseKind::RemoteAtCommandResponse => {
            if data.len() < 1 || data[0] != REMOTE_AT_COMMAND_RESPONSE {
                return Err(ApiError::DerefError);
            }
            Ok(Response::RemoteAtCommand(tail_from(data, 1)))
        },
        ResponseKind::TransmitStatus => {
            if data.len() < 1 || data[0] != TRANSMIT_STATUS {
                return Err(ApiError::DerefError);
            }
            Ok(Response::TransmitStatus(tail_from(data, 1)))
        },
        ResponseKind::NullRecieve => Ok(Response::Null),
    }
}

/// The bytes of `data` from index `from` on.
fn tail_from(data: &Vec<u8>, from: usize) -> (r: Vec<u8>)
    requires
        from <= data@.len(),
    ensures
        r@ == data@.subrange(from as int, data@.len() as int),
{
    let mut out: Vec<u8> = Vec::new();
    let mut i: usize = from;
    while i < data.len()
        invariant
            from <= i <= data@.len(),
            out@ == data@.subrange(from as int, i as int),
        decreases data@.len() - i,
    {
        out.push(data[i]);
        i = i + 1;
    }
    out
}

} // verus!
