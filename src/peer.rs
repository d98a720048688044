use vstd::prelude::*;
use vstd::utf8::{decode_utf8, valid_utf8};

use crate::frame::AtCommandResponse;

verus! {

/// Offset of the address in a discovery payload, after a two-byte prefix.
pub const ADDR_OFFSET: usize = 2;

/// Offset of the node name in a discovery payload.
pub const NAME_OFFSET: usize = 10;

/// A peer radio seen on the mesh.
#[derive(Debug, Clone)]
pub struct RemoteDigiMeshDevice {
    pub addr_64bit: u64,
    pub node_id: String,
    pub firmware_version: Option<u16>,
    pub hardware_version: Option<u16>,
    /// One `(start, end)` pair, in milliseconds, per cycle that saw the peer.
    pub durations: Vec<(u64, u64)>,
}

/// The content of a peer record.
pub struct PeerView {
    pub addr: u64,
    pub name: Seq<char>,
    pub firmware_version: Option<u16>,
    pub hardware_version: Option<u16>,
    pub sightings: Seq<(u64, u64)>,
}

impl View for RemoteDigiMeshDevice {
    type V = PeerView;

    open spec fn view(&self) -> PeerView {
        PeerView {
            addr: self.addr_64bit,
            name: self.node_id@,
            firmware_version: self.firmware_version,
            hardware_version: self.hardware_version,
            sightings: self.durations@,
        }
    }
}

/// The unsigned integer that bytes spell, most significant first.
pub open spec fn be_value(s: Seq<u8>) -> nat
    decreases s.len(),
{
    if s.len() == 0 {
        0
    } else {
        be_value(s.drop_last()) * 256 + s.last() as nat
    }
}

pub open spec fn pow256(n: nat) -> nat
    decreases n,
{
    if n == 0 {
        1
    } else {
        256 * pow256((n - 1) as nat)
    }
}

/// The first index at or after `i` that holds a zero byte, or the length.
pub open spec fn name_end(s: Seq<u8>, i: int) -> int
    decreases s.len() - i,
{
    if i >= s.len() {
        s.len() as int
    } else if s[i] == 0 {
        i
    } else {
        name_end(s, i + 1)
    }
}

/// The bytes of the node name in a discovery payload.
pub open spec fn name_field(data: Seq<u8>) -> Seq<u8> {
    data.subrange(NAME_OFFSET as int, name_end(data, NAME_OFFSET as int))
}

/// The peer that a discovery payload describes, if it is well formed.
pub open spec fn spec_parse(data: Seq<u8>) -> Option<PeerView> {
    if data.len() < 10 || !valid_utf8(name_field(data)) {
        None
    } else {
        Some(
            PeerView {
                addr: be_value(data.subrange(2, 10)) as u64,
                name: decode_utf8(name_field(data)),
                firmware_version: None,
                hardware_version: None,
                sightings: Seq::empty(),
            },
        )
    }
}

pub open spec fn peer_view_of(r: Option<RemoteDigiMeshDevice>) -> Option<PeerView> {
    match r {
        Some(d) => Some(d@),
        None => None,
    }
}

proof fn lemma_pow256_mono(a: nat, b: nat)
    requires
        a <= b,
    ensures
        pow256(a) <= pow256(b),
    decreases b,
{
    if a < b {
        lemma_pow256_mono(a, (b - 1) as nat);
    }
}

proof fn lemma_be_bound(s: Seq<u8>)
    ensures
        be_value(s) < pow256(s.len()),
    decreases s.len(),
{
    if s.len() > 0 {
        let t = s.drop_last();
        lemma_be_bound(t);
        let v = be_value(t);
        let p = pow256(t.len());
        assert(v * 256 + s.last() < 256 * p) by (nonlinear_arith)
            requires
                v < p,
                s.last() < 256,
        ;
    }
}

/// Reads `s[lo..hi]` as a big-endian integer of at most eight bytes.
pub fn read_be(s: &[u8], lo: usize, hi: usize) -> (r: u64)
    requires
        lo <= hi <= s@.len(),
        hi - lo <= 8,
    ensures
        r as nat == be_value(s@.subrange(lo as int, hi as int)),
        (r as nat) < pow256((hi - lo) as nat),
{
    proof {
        lemma_pow256_mono((hi - lo) as nat, 8);
        reveal_with_fuel(pow256, 9);
    }
    let mut acc: u64 = 0;
    let mut i: usize = lo;
    while i < hi
        invariant
            lo <= i <= hi <= s@.len(),
            hi - lo <= 8,
            pow256((hi - lo) as nat) <= 0x1_0000_0000_0000_0000,
            acc as nat == be_value(s@.subrange(lo as int, i as int)),
        decreases hi - i,
    {
        let ghost part = s@.subrange(lo as int, i as int);
        proof {
            lemma_be_bound(part);
            lemma_pow256_mono(part.len() + 1, (hi - lo) as nat);
            assert(part.len() + 1 == (i - lo) + 1);
            assert(pow256(part.len() + 1) == 256 * pow256(part.len()));
            let p = pow256(part.len());
            assert((acc as nat) * 256 + 255 < 256 * p) by (nonlinear_arith)
                requires
                    (acc as nat) < p,
            ;
            assert(s@.subrange(lo as int, i + 1).drop_last() =~= part);
        }
        acc = acc * 256 + s[i] as u64;
        i = i + 1;
    }
    proof {
        lemma_be_bound(s@.subrange(lo as int, hi as int));
    }
    acc
}

/// Relies on `String::from_utf8`: it succeeds exactly on valid UTF-8, and the
/// string then holds the characters that the bytes encode.
#[verifier::external_body]
pub(crate) fn utf8_string(v: Vec<u8>) -> (r: Option<String>)
    ensures
        r is Some <==> valid_utf8(v@),
        r is Some ==> r->Some_0@ == decode_utf8(v@),
{
    String::from_utf8(v).ok()
}

/// Turns the payload of a discovery reply into a peer record: the address is
/// the eight bytes after a two-byte prefix, the name runs from offset ten to
/// the first zero byte or the end. Short payloads and names that are not
/// UTF-8 give `None`.
pub fn parse_remote_device(rd: &AtCommandResponse) -> (r: Option<RemoteDigiMeshDevice>)
    ensures
        rd.command_data is None ==> r is None,
        rd.command_data is Some ==> peer_view_of(r) == spec_parse(rd.command_data->Some_0@),
{
    match &rd.command_data {
        None => None,
        Some(buf) => {
            if buf.len() < NAME_OFFSET {
                return None;
            }
            let addr = read_be(buf.as_slice(), ADDR_OFFSET, NAME_OFFSET);
            let mut end: usize = NAME_OFFSET;
            while end < buf.len() && buf[end] != 0
                invariant
                    NAME_OFFSET <= end <= buf@.len(),
                    name_end(buf@, NAME_OFFSET as int) == name_end(buf@, end as int),
                decreases buf@.len() - end,
            {
                end = end + 1;
            }
            let mut name_bytes: Vec<u8> = Vec::new();
            let mut i: usize = NAME_OFFSET;
            while i < end
                invariant
                    NAME_OFFSET <= i <= end <= buf@.len(),
                    name_bytes@ == buf@.subrange(NAME_OFFSET as int, i as int),
                decreases end - i,
            {
                name_bytes.push(buf[i]);
                i = i + 1;
            }
            let ghost field = name_bytes@;
            assert(field == name_field(buf@));
            match utf8_string(name_bytes) {
                None => None,
                Some(node_id) => Some(
                    RemoteDigiMeshDevice {
                        addr_64bit: addr,
                        node_id,
                        firmware_version: None,
                        hardware_version: None,
                        durations: Vec::new(),
                    },
                ),
            }
        },
    }
}

} // verus!
