use bytes::BytesMut;
use vstd::prelude::*;

use crate::buffer::{buf_clear, buf_contents, buf_len, buf_put_slice, buf_put_u8, buf_to_vec, buf_with_capacity};
use crate::error::Error;
use crate::frame::{
    decode_frame, decode_response, response_kind, spec_response_kind, spec_timeout_override,
    timeout_override, AtCommandFrame, FrameId, Response, ResponseKind,
};
use crate::peer::{be_value, read_be};

verus! {

/// Read timeout, in milliseconds, of a freshly opened transport: long enough
/// for the slowest identity lookup.
pub const DEFAULT_TIMEOUT_MS: u64 = 20000;

/// Size the transmit and receive buffers start with.
pub const BUFFER_CAPACITY: usize = 128;

/// One of the local device's identity fields.
#[derive(Debug, Clone, Copy, PartialEq, Eq)]
pub enum IdentityField {
    Address,
    NodeId,
    HardwareVersion,
    FirmwareVersion,
}

/// The read timeout while an exchange with request discriminant `id` awaits
/// its reply, when it was `current` before.
pub open spec fn spec_timeout_during(id: FrameId, current: u64) -> u64 {
    match spec_timeout_override(id) {
        Some(t) => t,
        None => current,
    }
}

/// An exchange under way: the bytes to write, the reply it waits for, and the
/// read timeout that it puts back when it ends.
pub struct PendingExchange {
    pub packet: Vec<u8>,
    pub expect: ResponseKind,
    pub restore_ms: u64,
}

/// A cached field and a fetched value give the field after a lookup and what
/// the lookup returns: a cached value wins and stays; otherwise a fetched
/// value is cached and returned, and an error leaves the field unset.
pub open spec fn spec_cache<T>(cached: Option<T>, fetched: Result<T, Error>) -> (Option<T>, Result<T, Error>) {
    match cached {
        Some(v) => (Some(v), Ok(v)),
        None => match fetched {
            Ok(v) => (Some(v), Ok(v)),
            Err(e) => (None, Err(e)),
        },
    }
}

/// A text-mode command: its letters, an optional parameter, and the number
/// of carriage returns that end its reply.
#[derive(Debug, Clone)]
pub struct AtCommand {
    pub command: Vec<u8>,
    pub parameter: Option<Vec<u8>>,
    pub rcr_len: u64,
}

/// The escape sequence that enters text command mode.
pub open spec fn escape_sequence() -> Seq<u8> {
    seq![0x2Bu8, 0x2Bu8, 0x2Bu8]
}

/// The bytes written for a text-mode command: the escape sequence as it is,
/// anything else as `AT`, the letters, the parameter and a carriage return.
pub open spec fn text_command_bytes(command: Seq<u8>, parameter: Option<Seq<u8>>) -> Seq<u8> {
    if command == escape_sequence() {
        command
    } else {
        seq![0x41u8, 0x54u8] + command + match parameter {
            Some(p) => p,
            None => Seq::empty(),
        } + seq![0x0Du8]
    }
}

impl AtCommand {
    pub open spec fn spec_parameter(&self) -> Option<Seq<u8>> {
        match self.parameter {
            Some(p) => Some(p@),
            None => None,
        }
    }

    /// The escape sequence, answered by one line.
    pub fn escape() -> (r: AtCommand)
        ensures
            r.command@ == escape_sequence(),
            r.parameter is None,
            r.rcr_len == 1,
    {
        let command: Vec<u8> = vec![0x2B, 0x2B, 0x2B];
        assert(command@ =~= escape_sequence());
        AtCommand { command, parameter: None, rcr_len: 1 }
    }

    /// The command that leaves text command mode (`CN`), answered by one line.
    pub fn exit_command_mode() -> (r: AtCommand)
        ensures
            r.command@ == seq![0x43u8, 0x4Eu8],
            r.parameter is None,
            r.rcr_len == 1,
    {
        let command: Vec<u8> = vec![0x43, 0x4E];
        assert(command@ =~= seq![0x43u8, 0x4Eu8]);
        AtCommand { command, parameter: None, rcr_len: 1 }
    }
}

/// One step of a mode switch.
#[derive(Debug, Clone)]
pub enum ModeStep {
    /// Wait this many milliseconds, reading nothing.
    Pause(u64),
    /// Run a text-mode command: write it, then read its reply.
    Command(AtCommand),
}

/// Guard time, in milliseconds, before and after the escape sequence.
pub const GUARD_TIME_MS: u64 = 1000;

/// A local AT command frame with no parameter.
pub fn local_command(c0: u8, c1: u8) -> (r: AtCommandFrame)
    ensures
        r.command@ == seq![c0, c1],
        r.parameter is None,
{
    let command: [u8; 2] = [c0, c1];
    assert(command@ =~= seq![c0, c1]);
    AtCommandFrame { command, parameter: None }
}

/// The two command letters that fetch each identity field; the address takes
/// two commands, for its high and low halves.
pub open spec fn spec_identity_commands(field: IdentityField) -> Seq<Seq<u8>> {
    match field {
        IdentityField::Address => seq![seq![0x53u8, 0x48u8], seq![0x53u8, 0x4Cu8]],
        IdentityField::NodeId => seq![seq![0x4Eu8, 0x49u8]],
        IdentityField::HardwareVersion => seq![seq![0x48u8, 0x56u8]],
        IdentityField::FirmwareVersion => seq![seq![0x56u8, 0x52u8]],
    }
}

/// A version code from a reply: two bytes, big-endian.
pub open spec fn spec_version(resp: Response) -> Result<u16, Error> {
    match resp {
        Response::AtCommand(a) => match a.command_data {
            Some(d) => if d@.len() == 2 {
                Ok(be_value(d@) as u16)
            } else {
                Err(Error::DecodeError)
            },
            None => Err(Error::DecodeError),
        },
        _ => Err(Error::ApiError(crate::frame::ApiError::DerefError)),
    }
}

/// One half of the address from a reply: four bytes, big-endian.
pub open spec fn spec_half(resp: Response) -> Result<nat, Error> {
    match resp {
        Response::AtCommand(a) => match a.command_data {
            Some(d) => if d@.len() == 4 {
                Ok(be_value(d@))
            } else {
                Err(Error::DecodeError)
            },
            None => Err(Error::DecodeError),
        },
        _ => Err(Error::ApiError(crate::frame::ApiError::DerefError)),
    }
}

/// The address from the replies for its high and low halves.
pub open spec fn spec_address(sh: Response, sl: Response) -> Result<u64, Error> {
    match spec_half(sh) {
        Err(e) => Err(e),
        Ok(hi) => match spec_half(sl) {
            Err(e) => Err(e),
            Ok(lo) => Ok((hi * 0x1_0000_0000 + lo) as u64),
        },
    }
}

/// The payload of an AT command reply, or why there is none.
fn reply_payload(resp: &Response) -> (r: Result<&Vec<u8>, Error>)
    ensures
        resp is AtCommand && resp->AtCommand_0.command_data is Some ==> r is Ok
            && r->Ok_0@ == resp->AtCommand_0.command_data->Some_0@,
        resp is AtCommand && resp->AtCommand_0.command_data is None ==> r == Err::<&Vec<u8>, Error>(Error::DecodeError),
        !(resp is AtCommand) ==> r == Err::<&Vec<u8>, Error>(Error::ApiError(crate::frame::ApiError::DerefError)),
{
    match resp {
        Response::AtCommand(a) => match &a.command_data {
            Some(d) => Ok(d),
            None => Err(Error::DecodeError),
        },
        _ => Err(Error::ApiError(crate::frame::ApiError::DerefError)),
    }
}

fn decode_version(resp: &Response) -> (r: Result<u16, Error>)
    ensures
        r == spec_version(*resp),
{
    let d = reply_payload(resp)?;
    if d.len() != 2 {
        return Err(Error::DecodeError);
    }
    let v = read_be(d.as_slice(), 0, 2);
    proof {
        reveal_with_fuel(crate::peer::pow256, 3);
        assert(d@.subrange(0, 2) =~= d@);
    }
    Ok(v as u16)
}

fn decode_half(resp: &Response) -> (r: Result<u32, Error>)
    ensures
        r is Ok <==> spec_half(*resp) is Ok,
        r is Ok ==> r->Ok_0 as nat == spec_half(*resp)->Ok_0,
        r is Err ==> r->Err_0 == spec_half(*resp)->Err_0,
{
    let d = reply_payload(resp)?;
    if d.len() != 4 {
        return Err(Error::DecodeError);
    }
    let v = read_be(d.as_slice(), 0, 4);
    proof {
        reveal_with_fuel(crate::peer::pow256, 5);
        assert(d@.subrange(0, 4) =~= d@);
    }
    Ok(v as u32)
}

/// A node name from a reply: the payload read as UTF-8.
fn node_name(resp: &Response) -> (r: Result<String, Error>)
    ensures
        resp is AtCommand && resp->AtCommand_0.command_data is Some ==> {
            let d = resp->AtCommand_0.command_data->Some_0@;
            &&& (r is Ok <==> vstd::utf8::valid_utf8(d))
            &&& (r is Ok ==> r->Ok_0@ == vstd::utf8::decode_utf8(d))
            &&& (r is Err ==> r->Err_0 == Error::DecodeError)
        },
        resp is AtCommand && resp->AtCommand_0.command_data is None ==> r == Err::<String, Error>(Error::DecodeError),
        !(resp is AtCommand) ==> r == Err::<String, Error>(Error::ApiError(crate::frame::ApiError::DerefError)),
{
    let d = reply_payload(resp)?;
    match crate::peer::utf8_string(d.clone()) {
        Some(s) => Ok(s),
        None => Err(Error::DecodeError),
    }
}

/// The buffers of a text-mode command and the carriage returns seen so far.
pub struct TextBuffers {
    rx_buf: BytesMut,
    tx_buf: BytesMut,
    cr_count: u64,
    cr_expected: u64,
}

impl TextBuffers {
    /// The bytes of the last text-mode command.
    pub closed spec fn tx_bytes(&self) -> Seq<u8> {
        buf_contents(self.tx_buf)
    }

    /// The bytes received for the last text-mode command.
    pub closed spec fn rx_bytes(&self) -> Seq<u8> {
        buf_contents(self.rx_buf)
    }

    /// Carriage returns received for the last text-mode command.
    pub closed spec fn cr_count(&self) -> nat {
        self.cr_count as nat
    }

    /// Carriage returns that end the reply to the last text-mode command.
    pub closed spec fn cr_expected(&self) -> nat {
        self.cr_expected as nat
    }
}

/// State of a session with one modem: its identity, once resolved, the
/// transport's read timeout, and the buffers of text-mode commands.
pub struct DigiMeshDevice {
    pub addr_64bit: Option<u64>,
    pub node_id: Option<String>,
    pub firmware_version: Option<u16>,
    pub hardware_version: Option<u16>,
    /// The read timeout, in milliseconds, that the transport should have.
    pub timeout_ms: u64,
    pub text: TextBuffers,
}

impl DigiMeshDevice {
    /// The number of exchanges still needed to know an identity field: none
    /// once it is cached.
    pub open spec fn exchanges_needed(&self, field: IdentityField) -> nat {
        let cached = match field {
            IdentityField::Address => self.addr_64bit is Some,
            IdentityField::NodeId => self.node_id is Some,
            IdentityField::HardwareVersion => self.hardware_version is Some,
            IdentityField::FirmwareVersion => self.firmware_version is Some,
        };
        if cached {
            0
        } else {
            spec_identity_commands(field).len()
        }
    }

    /// A session with nothing resolved yet, over a transport whose read
    /// timeout is the default.
    pub fn new() -> (r: DigiMeshDevice)
        ensures
            r.addr_64bit is None,
            r.node_id is None,
            r.firmware_version is None,
            r.hardware_version is None,
            r.timeout_ms == DEFAULT_TIMEOUT_MS,
            r.text.tx_bytes() == Seq::<u8>::empty(),
            r.text.rx_bytes() == Seq::<u8>::empty(),
    {
        DigiMeshDevice {
            addr_64bit: None,
            node_id: None,
            firmware_version: None,
            hardware_version: None,
            timeout_ms: DEFAULT_TIMEOUT_MS,
            text: TextBuffers {
                rx_buf: buf_with_capacity(BUFFER_CAPACITY),
                tx_buf: buf_with_capacity(BUFFER_CAPACITY),
                cr_count: 0,
                cr_expected: 0,
            },
        }
    }

    /// The commands to exchange to learn `field`: none when it is cached.
    pub fn identity_requests(&self, field: IdentityField) -> (r: Vec<AtCommandFrame>)
        ensures
            r@.len() == self.exchanges_needed(field),
            r@.len() > 0 ==> forall|i: int|
                0 <= i < r@.len() ==> (#[trigger] r@[i]).command@ == spec_identity_commands(field)[i]
                    && r@[i].parameter is None,
    {
        let cached = match field {
            IdentityField::Address => self.addr_64bit.is_some(),
            IdentityField::NodeId => self.node_id.is_some(),
            IdentityField::HardwareVersion => self.hardware_version.is_some(),
            IdentityField::FirmwareVersion => self.firmware_version.is_some(),
        };
        let mut r: Vec<AtCommandFrame> = Vec::new();
        if cached {
            return r;
        }
        match field {
            IdentityField::Address => {
                r.push(local_command(0x53, 0x48));
                r.push(local_command(0x53, 0x4C));
            },
            IdentityField::NodeId => r.push(local_command(0x4E, 0x49)),
            IdentityField::HardwareVersion => r.push(local_command(0x48, 0x56)),
            IdentityField::FirmwareVersion => r.push(local_command(0x56, 0x52)),
        }
        r
    }
}


impl DigiMeshDevice {
    /// The cached address, if resolved.
    pub fn get_64bit_addr(&self) -> (r: Option<u64>)
        ensures
            r == self.addr_64bit,
    {
        self.addr_64bit
    }

    /// The cached node name, if resolved.
    pub fn get_node_id(&self) -> (r: Option<String>)
        ensures
            r is Some <==> self.node_id is Some,
            r is Some ==> r->Some_0@ == self.node_id->Some_0@,
    {
        match &self.node_id {
            Some(n) => Some(n.clone()),
            None => None,
        }
    }

    /// The cached firmware version, if resolved.
    pub fn get_firmware_version(&self) -> (r: Option<u16>)
        ensures
            r == self.firmware_version,
    {
        self.firmware_version
    }

    /// The cached hardware version, if resolved.
    pub fn get_hardware_version(&self) -> (r: Option<u16>)
        ensures
            r == self.hardware_version,
    {
        self.hardware_version
    }

    /// Takes the reply to the firmware version command; a cached value is
    /// kept and returned.
    pub fn resolve_firmware_version(&mut self, resp: &Response) -> (r: Result<u16, Error>)
        ensures
            (final(self).firmware_version, r) == spec_cache(old(self).firmware_version, spec_version(*resp)),
            final(self).addr_64bit == old(self).addr_64bit,
            final(self).node_id == old(self).node_id,
            final(self).hardware_version == old(self).hardware_version,
            final(self).timeout_ms == old(self).timeout_ms,
            final(self).text == old(self).text,
    {
        if let Some(v) = self.firmware_version {
            return Ok(v);
        }
        let v = decode_version(resp)?;
        self.firmware_version = Some(v);
        Ok(v)
    }

    /// Takes the reply to the hardware version command; a cached value is
    /// kept and returned.
    pub fn resolve_hardware_version(&mut self, resp: &Response) -> (r: Result<u16, Error>)
        ensures
            (final(self).hardware_version, r) == spec_cache(old(self).hardware_version, spec_version(*resp)),
            final(self).addr_64bit == old(self).addr_64bit,
            final(self).node_id == old(self).node_id,
            final(self).firmware_version == old(self).firmware_version,
            final(self).timeout_ms == old(self).timeout_ms,
            final(self).text == old(self).text,
    {
        if let Some(v) = self.hardware_version {
            return Ok(v);
        }
        let v = decode_version(resp)?;
        self.hardware_version = Some(v);
        Ok(v)
    }

    /// Takes the replies to the high and low address commands; the address is
    /// the high half followed by the low half. A cached value is kept and
    /// returned.
    pub fn resolve_64bit_addr(&mut self, sh: &Response, sl: &Response) -> (r: Result<u64, Error>)
        ensures
            (final(self).addr_64bit, r) == spec_cache(old(self).addr_64bit, spec_address(*sh, *sl)),
            final(self).node_id == old(self).node_id,
            final(self).firmware_version == old(self).firmware_version,
            final(self).hardware_version == old(self).hardware_version,
            final(self).timeout_ms == old(self).timeout_ms,
            final(self).text == old(self).text,
    {
        if let Some(v) = self.addr_64bit {
            return Ok(v);
        }
        let upper = decode_half(sh)?;
        let lower = decode_half(sl)?;
        let addr: u64 = (upper as u64) * 0x1_0000_0000 + lower as u64;
        self.addr_64bit = Some(addr);
        Ok(addr)
    }

    /// Takes the reply to the node name command; a cached value is kept and
    /// returned.
    pub fn resolve_node_id(&mut self, resp: &Response) -> (r: Result<String, Error>)
        ensures
            old(self).node_id is Some ==> r is Ok && r->Ok_0@ == old(self).node_id->Some_0@
                && final(self).node_id == old(self).node_id,
            old(self).node_id is None && r is Ok ==> final(self).node_id is Some
                && final(self).node_id->Some_0@ == r->Ok_0@,
            old(self).node_id is None && r is Err ==> final(self).node_id is None,
            old(self).node_id is None && resp is AtCommand && resp->AtCommand_0.command_data is Some ==> {
                let d = resp->AtCommand_0.command_data->Some_0@;
                &&& (r is Ok <==> vstd::utf8::valid_utf8(d))
                &&& (r is Ok ==> r->Ok_0@ == vstd::utf8::decode_utf8(d))
                &&& (r is Err ==> r->Err_0 == Error::DecodeError)
            },
            old(self).node_id is None && resp is AtCommand && resp->AtCommand_0.command_data is None
                ==> r == Err::<String, Error>(Error::DecodeError),
            old(self).node_id is None && !(resp is AtCommand)
                ==> r == Err::<String, Error>(Error::ApiError(crate::frame::ApiError::DerefError)),
            final(self).addr_64bit == old(self).addr_64bit,
            final(self).firmware_version == old(self).firmware_version,
            final(self).hardware_version == old(self).hardware_version,
            final(self).timeout_ms == old(self).timeout_ms,
            final(self).text == old(self).text,
    {
        if let Some(n) = &self.node_id {
            return Ok(n.clone());
        }
        let n = node_name(resp)?;
        self.node_id = Some(n.clone());
        Ok(n)
    }

    /// Starts an exchange whose request has discriminant `id`: the read
    /// timeout becomes the request's own, when it has one, until the
    /// exchange ends.
    pub fn begin_exchange(&mut self, id: FrameId, packet: Vec<u8>) -> (r: PendingExchange)
        ensures
            r.packet == packet,
            r.expect == spec_response_kind(id),
            r.restore_ms == old(self).timeout_ms,
            final(self).timeout_ms == spec_timeout_during(id, old(self).timeout_ms),
            final(self).addr_64bit == old(self).addr_64bit,
            final(self).node_id == old(self).node_id,
            final(self).firmware_version == old(self).firmware_version,
            final(self).hardware_version == old(self).hardware_version,
            final(self).text == old(self).text,
    {
        let restore_ms = self.timeout_ms;
        if let Some(t) = timeout_override(id) {
            self.timeout_ms = t;
        }
        PendingExchange { packet, expect: response_kind(id), restore_ms }
    }

    /// Encodes a local AT command and starts its exchange.
    pub fn send_frame(&mut self, frame: &AtCommandFrame) -> (r: Result<PendingExchange, Error>)
        ensures
            r is Ok <==> frame.spec_data(1).len() <= 0xFFFF,
            r is Ok ==> {
                &&& r->Ok_0.packet@ == crate::frame::api_frame(frame.spec_data(1))
                &&& r->Ok_0.expect == ResponseKind::AtCommandResponse
                &&& r->Ok_0.restore_ms == old(self).timeout_ms
                &&& final(self).timeout_ms == spec_timeout_during(FrameId::AtCommand, old(self).timeout_ms)
            },
            r is Err ==> r == Err::<PendingExchange, Error>(Error::ApiError(crate::frame::ApiError::TooLong))
                && final(self).timeout_ms == old(self).timeout_ms,
            final(self).addr_64bit == old(self).addr_64bit,
            final(self).node_id == old(self).node_id,
            final(self).firmware_version == old(self).firmware_version,
            final(self).hardware_version == old(self).hardware_version,
            final(self).text == old(self).text,
    {
        match frame.gen() {
            Ok(packet) => Ok(self.begin_exchange(frame.id(), packet)),
            Err(e) => Err(Error::ApiError(e)),
        }
    }

    /// Ends an exchange with what the transport read, or its failure: the
    /// read timeout goes back to what it was before the exchange on every
    /// path, and the frame is decoded as the reply the request expects.
    pub fn finish_exchange(&mut self, pending: PendingExchange, received: Result<Vec<u8>, Error>) -> (r: Result<Response, Error>)
        ensures
            final(self).timeout_ms == pending.restore_ms,
            received is Err ==> r == Err::<Response, Error>(received->Err_0),
            received is Ok && crate::frame::spec_decode_frame(received->Ok_0@) is Err
                ==> r == Err::<Response, Error>(Error::ApiError(crate::frame::spec_decode_frame(received->Ok_0@)->Err_0)),
            r is Ok ==> received is Ok && crate::frame::spec_decode_frame(received->Ok_0@) is Ok,
            pending.expect == ResponseKind::NullRecieve && received is Ok
                && crate::frame::spec_decode_frame(received->Ok_0@) is Ok ==> r == Ok::<Response, Error>(Response::Null),
            pending.expect == ResponseKind::AtCommandResponse && received is Ok ==> {
                &&& (r is Ok <==> crate::frame::spec_reply_payload(received->Ok_0@) is Some)
                &&& (r is Ok ==> r->Ok_0 is AtCommand && crate::frame::opt_bytes(r->Ok_0->AtCommand_0.command_data)
                    == crate::frame::spec_reply_payload(received->Ok_0@)->Some_0)
            },
            received is Ok && crate::frame::spec_decode_frame(received->Ok_0@) is Ok && r is Err
                ==> r == Err::<Response, Error>(Error::ApiError(crate::frame::ApiError::DerefError)),
            pending.expect == ResponseKind::RemoteAtCommandResponse && r is Ok ==> r->Ok_0 is RemoteAtCommand,
            pending.expect == ResponseKind::TransmitStatus && r is Ok ==> r->Ok_0 is TransmitStatus,
            final(self).addr_64bit == old(self).addr_64bit,
            final(self).node_id == old(self).node_id,
            final(self).firmware_version == old(self).firmware_version,
            final(self).hardware_version == old(self).hardware_version,
            final(self).text == old(self).text,
    {
        self.timeout_ms = pending.restore_ms;
        let raw = received?;
        let data = match decode_frame(&raw) {
            Ok(d) => d,
            Err(e) => {
                return Err(Error::ApiError(e));
            },
        };
        match decode_response(pending.expect, &data) {
            Ok(resp) => Ok(resp),
            Err(e) => Err(Error::ApiError(e)),
        }
    }

    /// Starts a text-mode command: clears both buffers, fills the transmit
    /// buffer and returns its bytes, to be written as they are.
    pub fn atcmd(&mut self, cmd: &AtCommand) -> (r: Vec<u8>)
        requires
            cmd.command@.len() + match cmd.parameter {
                Some(p) => p@.len(),
                None => 0,
            } + 3 <= isize::MAX,
        ensures
            r@ == text_command_bytes(cmd.command@, cmd.spec_parameter()),
            final(self).text.tx_bytes() == r@,
            final(self).text.rx_bytes() == Seq::<u8>::empty(),
            final(self).text.cr_count() == 0,
            final(self).text.cr_expected() == cmd.rcr_len,
            final(self).addr_64bit == old(self).addr_64bit,
            final(self).node_id == old(self).node_id,
            final(self).firmware_version == old(self).firmware_version,
            final(self).hardware_version == old(self).hardware_version,
            final(self).timeout_ms == old(self).timeout_ms,
    {
        buf_clear(&mut self.text.tx_buf);
        buf_clear(&mut self.text.rx_buf);
        self.text.cr_count = 0;
        self.text.cr_expected = cmd.rcr_len;
        let is_escape = cmd.command.len() == 3 && cmd.command[0] == 0x2B && cmd.command[1] == 0x2B
            && cmd.command[2] == 0x2B;
        proof {
            if cmd.command@.len() == 3 && cmd.command@[0] == 0x2B && cmd.command@[1] == 0x2B
                && cmd.command@[2] == 0x2B {
                assert(cmd.command@ =~= escape_sequence());
            }
        }
        if is_escape {
            buf_put_slice(&mut self.text.tx_buf, cmd.command.as_slice());
        } else {
            buf_put_u8(&mut self.text.tx_buf, 0x41);
            buf_put_u8(&mut self.text.tx_buf, 0x54);
            buf_put_slice(&mut self.text.tx_buf, cmd.command.as_slice());
            if let Some(data) = &cmd.parameter {
                buf_put_slice(&mut self.text.tx_buf, data.as_slice());
            }
            buf_put_u8(&mut self.text.tx_buf, 0x0D);
        }
        let r = buf_to_vec(&self.text.tx_buf);
        assert(r@ =~= text_command_bytes(cmd.command@, cmd.spec_parameter()));
        r
    }

    /// Whether the reply to the current text-mode command is complete: as
    /// many carriage returns as it expects have been read.
    pub fn atcmd_done(&self) -> (r: bool)
        ensures
            r == (self.text.cr_count() >= self.text.cr_expected()),
    {
        self.text.cr_count >= self.text.cr_expected
    }

    /// Takes one byte of the reply to the current text-mode command.
    pub fn atcmd_receive(&mut self, b: u8)
        requires
            old(self).text.rx_bytes().len() + 1 <= isize::MAX,
        ensures
            final(self).text.rx_bytes() == old(self).text.rx_bytes().push(b),
            final(self).text.tx_bytes() == old(self).text.tx_bytes(),
            final(self).text.cr_expected() == old(self).text.cr_expected(),
            final(self).text.cr_count() == if b == 0x0D && old(self).text.cr_count() < old(self).text.cr_expected() {
                old(self).text.cr_count() + 1
            } else {
                old(self).text.cr_count()
            },
            final(self).addr_64bit == old(self).addr_64bit,
            final(self).node_id == old(self).node_id,
            final(self).firmware_version == old(self).firmware_version,
            final(self).hardware_version == old(self).hardware_version,
            final(self).timeout_ms == old(self).timeout_ms,
    {
        buf_put_u8(&mut self.text.rx_buf, b);
        if b == 0x0D && self.text.cr_count < self.text.cr_expected {
            self.text.cr_count = self.text.cr_count + 1;
        }
    }

    /// Ends a text-mode command: its reply, which fails when nothing came.
    pub fn atcmd_finish(&self) -> (r: Result<Vec<u8>, Error>)
        ensures
            r is Ok <==> self.text.rx_bytes().len() > 0,
            r is Ok ==> r->Ok_0@ == self.text.rx_bytes(),
            r is Err ==> r->Err_0 is IOError,
    {
        if buf_len(&self.text.rx_buf) < 1 {
            return Err(Error::IOError("RX buf empty".to_string()));
        }
        Ok(buf_to_vec(&self.text.rx_buf))
    }

    /// The steps of a mode switch: entering text command mode is a guard
    /// pause, the escape sequence and another guard pause; leaving it is the
    /// exit command alone.
    pub fn command_mode(&self, mode: bool) -> (r: Vec<ModeStep>)
        ensures
            mode ==> {
                &&& r@.len() == 3
                &&& r@[0] is Pause && r@[0]->Pause_0 >= GUARD_TIME_MS
                &&& r@[1] is Command && r@[1]->Command_0.command@ == escape_sequence()
                    && r@[1]->Command_0.parameter is None
                &&& r@[2] is Pause && r@[2]->Pause_0 >= GUARD_TIME_MS
            },
            !mode ==> {
                &&& r@.len() == 1
                &&& r@[0] is Command && r@[0]->Command_0.command@ == seq![0x43u8, 0x4Eu8]
                    && r@[0]->Command_0.parameter is None
            },
    {
        let mut steps: Vec<ModeStep> = Vec::new();
        if mode {
            steps.push(ModeStep::Pause(GUARD_TIME_MS));
            steps.push(ModeStep::Command(AtCommand::escape()));
            steps.push(ModeStep::Pause(GUARD_TIME_MS));
        } else {
            steps.push(ModeStep::Command(AtCommand::exit_command_mode()));
        }
        steps
    }
}

/// An identity lookup on a fresh session needs one exchange; once it has
/// returned a value, the field needs none, and a second lookup returns the
/// same value whatever reply it is handed.
pub proof fn lemma_identity_fetched_once(
    s0: DigiMeshDevice,
    s1: DigiMeshDevice,
    s2: DigiMeshDevice,
    first: Response,
    second: Response,
    r1: Result<u16, Error>,
    r2: Result<u16, Error>,
)
    requires
        s0.firmware_version is None,
        (s1.firmware_version, r1) == spec_cache(s0.firmware_version, spec_version(first)),
        r1 is Ok,
        (s2.firmware_version, r2) == spec_cache(s1.firmware_version, spec_version(second)),
    ensures
        s0.exchanges_needed(IdentityField::FirmwareVersion) == 1,
        s1.exchanges_needed(IdentityField::FirmwareVersion) == 0,
        s1.firmware_version == Some(r1->Ok_0),
        r2 == r1,
        s2.firmware_version == s1.firmware_version,
{
}

/// A cached identity field needs no exchange.
pub proof fn lemma_cached_field_needs_no_exchange(s: DigiMeshDevice, field: IdentityField)
    requires
        match field {
            IdentityField::Address => s.addr_64bit is Some,
            IdentityField::NodeId => s.node_id is Some,
            IdentityField::HardwareVersion => s.hardware_version is Some,
            IdentityField::FirmwareVersion => s.firmware_version is Some,
        },
    ensures
        s.exchanges_needed(field) == 0,
{
}

/// An exchange puts back the read timeout that was in force before it
/// began, for every request discriminant and whatever came back.
pub proof fn lemma_exchange_restores_timeout(
    before: DigiMeshDevice,
    id: FrameId,
    pending: PendingExchange,
    during: DigiMeshDevice,
    after: DigiMeshDevice,
)
    requires
        pending.restore_ms == before.timeout_ms,
        during.timeout_ms == spec_timeout_during(id, before.timeout_ms),
        after.timeout_ms == pending.restore_ms,
    ensures
        after.timeout_ms == before.timeout_ms,
{
}

} // verus!
