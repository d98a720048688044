use vstd::prelude::*;

use crate::error::Error;
use crate::frame::{decode_frame, decode_response, AtCommandFrame, Response, ResponseKind};
use crate::peer::{parse_remote_device, peer_view_of, spec_parse, PeerView, RemoteDigiMeshDevice};
use crate::session::{local_command, DigiMeshDevice};

verus! {

/// Read timeout, in milliseconds, of a one-shot discovery when the caller
/// gives none.
pub const DEFAULT_DISCOVERY_TIMEOUT_MS: u64 = 15000;

/// Read timeout, in milliseconds, of each cycle of a scheduled scan.
pub const CYCLE_TIMEOUT_MS: u64 = 5000;

/// Quiet period, in milliseconds, between two cycles of a scheduled scan.
pub const CYCLE_PAUSE_MS: u64 = 1000;

/// The node discovery command (`ND`).
pub fn discovery_request() -> (r: AtCommandFrame)
    ensures
        r.command@ == seq![0x4Eu8, 0x44u8],
        r.parameter is None,
{
    local_command(0x4E, 0x44)
}

/// The frame data of the discovery command.
pub open spec fn discovery_data() -> Seq<u8> {
    crate::frame::at_command_data(1, seq![0x4Eu8, 0x44u8], None)
}

/// The peer, if any, that a received frame announces, or `Err` when the frame
/// itself could not be read.
fn receive_peer(received: Result<Vec<u8>, Error>) -> (r: Result<Option<RemoteDigiMeshDevice>, ()>)
    ensures
        received is Err ==> r is Err,
        received is Ok ==> match crate::frame::spec_reply_payload(received->Ok_0@) {
            None => r is Err,
            Some(None) => r == Ok::<Option<RemoteDigiMeshDevice>, ()>(None),
            Some(Some(d)) => r is Ok && peer_view_of(r->Ok_0) == spec_parse(d),
        },
{
    let raw = match received {
        Ok(raw) => raw,
        Err(_) => {
            return Err(());
        },
    };
    let data = match decode_frame(&raw) {
        Ok(d) => d,
        Err(_) => {
            return Err(());
        },
    };
    match decode_response(ResponseKind::AtCommandResponse, &data) {
        Ok(Response::AtCommand(a)) => Ok(parse_remote_device(&a)),
        _ => Err(()),
    }
}

/// A one-shot discovery under way: the peers heard so far, in the order
/// their replies came.
pub struct Discovery {
    /// The discovery command, as written to the transport.
    pub packet: Vec<u8>,
    pub nodes: Vec<RemoteDigiMeshDevice>,
    /// The read timeout to put back when the discovery ends.
    pub restore_ms: u64,
}

/// The views of a list of peer records.
pub open spec fn views(s: Seq<RemoteDigiMeshDevice>) -> Seq<PeerView> {
    s.map_values(|d: RemoteDigiMeshDevice| d@)
}

impl Discovery {
    /// Takes what one read gave; returns whether to keep listening. A reply
    /// that names a peer adds it, even one already heard; a read that failed
    /// or a frame that could not be read ends the window.
    pub fn on_frame(&mut self, received: Result<Vec<u8>, Error>) -> (r: bool)
        ensures
            final(self).packet == old(self).packet,
            final(self).restore_ms == old(self).restore_ms,
            received is Err ==> !r && final(self).nodes == old(self).nodes,
            received is Ok ==> match crate::frame::spec_reply_payload(received->Ok_0@) {
                None => !r && final(self).nodes == old(self).nodes,
                Some(payload) => r && match peer_view_of_payload(payload) {
                    None => views(final(self).nodes@) == views(old(self).nodes@),
                    Some(p) => views(final(self).nodes@) == views(old(self).nodes@).push(p),
                },
            },
    {
        match receive_peer(received) {
            Err(_) => false,
            Ok(None) => {
                assert(views(self.nodes@) =~= views(old(self).nodes@));
                true
            },
            Ok(Some(d)) => {
                self.nodes.push(d);
                assert(views(self.nodes@) =~= views(old(self).nodes@).push(d@));
                true
            },
        }
    }
}

/// The peer that a reply payload announces.
pub open spec fn peer_view_of_payload(payload: Option<Seq<u8>>) -> Option<PeerView> {
    match payload {
        None => None,
        Some(d) => spec_parse(d),
    }
}

impl DigiMeshDevice {
    /// Starts a one-shot discovery: the discovery command to write, and a read
    /// timeout of `timeout_ms`, or the default, until it ends.
    pub fn discover_nodes(&mut self, timeout_ms: Option<u64>) -> (r: Discovery)
        ensures
            r.packet@ == crate::frame::api_frame(discovery_data()),
            r.nodes@.len() == 0,
            r.restore_ms == old(self).timeout_ms,
            final(self).timeout_ms == match timeout_ms {
                Some(t) => t,
                None => DEFAULT_DISCOVERY_TIMEOUT_MS,
            },
            final(self).addr_64bit == old(self).addr_64bit,
            final(self).node_id == old(self).node_id,
            final(self).firmware_version == old(self).firmware_version,
            final(self).hardware_version == old(self).hardware_version,
            final(self).text == old(self).text,
    {
        let packet = discovery_packet();
        let restore_ms = self.timeout_ms;
        self.timeout_ms = match timeout_ms {
            Some(t) => t,
            None => DEFAULT_DISCOVERY_TIMEOUT_MS,
        };
        Discovery { packet, nodes: Vec::new(), restore_ms }
    }

    /// Ends a one-shot discovery: the read timeout goes back to what it was,
    /// and the peers heard are returned.
    pub fn finish_discovery(&mut self, d: Discovery) -> (r: Vec<RemoteDigiMeshDevice>)
        ensures
            r == d.nodes,
            final(self).timeout_ms == d.restore_ms,
            final(self).addr_64bit == old(self).addr_64bit,
            final(self).node_id == old(self).node_id,
            final(self).firmware_version == old(self).firmware_version,
            final(self).hardware_version == old(self).hardware_version,
            final(self).text == old(self).text,
    {
        self.timeout_ms = d.restore_ms;
        d.nodes
    }
}

/// The encoded discovery command.
fn discovery_packet() -> (r: Vec<u8>)
    ensures
        r@ == crate::frame::api_frame(discovery_data()),
{
    let req = discovery_request();
    assert(req.spec_data(1) =~= discovery_data());
    match req.gen() {
        Ok(p) => p,
        Err(_) => {
            // the command has no parameter, so it always fits in a frame
            assert(false);
            Vec::new()
        },
    }
}

/// The index of the first record at or after `i` with address `addr`, or -1.
pub open spec fn find_from(reg: Seq<PeerView>, addr: u64, i: int) -> int
    decreases reg.len() - i,
{
    if i < 0 || i >= reg.len() {
        -1
    } else if reg[i].addr == addr {
        i
    } else {
        find_from(reg, addr, i + 1)
    }
}

/// The index of the record with address `addr`, or -1.
pub open spec fn find_peer(reg: Seq<PeerView>, addr: u64) -> int {
    find_from(reg, addr, 0)
}

/// No two records share an address.
pub open spec fn unique_addrs(reg: Seq<PeerView>) -> bool {
    forall|i: int, j: int| 0 <= i < j < reg.len() ==> reg[i].addr != reg[j].addr
}

/// The registry after a sighting of `peer` from `start` to `end`: a known
/// address gets the pair appended to its sightings; a new one is added with
/// that pair as its only sighting.
pub open spec fn spec_record(reg: Seq<PeerView>, peer: PeerView, start: u64, end: u64) -> Seq<PeerView> {
    let i = find_peer(reg, peer.addr);
    if i >= 0 {
        reg.update(
            i,
            PeerView {
                addr: reg[i].addr,
                name: reg[i].name,
                firmware_version: reg[i].firmware_version,
                hardware_version: reg[i].hardware_version,
                sightings: reg[i].sightings.push((start, end)),
            },
        )
    } else {
        reg.push(
            PeerView {
                addr: peer.addr,
                name: peer.name,
                firmware_version: peer.firmware_version,
                hardware_version: peer.hardware_version,
                sightings: seq![(start, end)],
            },
        )
    }
}

proof fn lemma_find_from(reg: Seq<PeerView>, addr: u64, i: int)
    requires
        0 <= i,
    ensures
        find_from(reg, addr, i) == -1 || (i <= find_from(reg, addr, i) < reg.len()
            && reg[find_from(reg, addr, i)].addr == addr),
        find_from(reg, addr, i) == -1 ==> forall|k: int| i <= k < reg.len() ==> reg[k].addr != addr,
    decreases reg.len() - i,
{
    if i < reg.len() && reg[i].addr != addr {
        lemma_find_from(reg, addr, i + 1);
    }
}

/// A sighting keeps addresses unique.
pub proof fn lemma_record_unique(reg: Seq<PeerView>, peer: PeerView, start: u64, end: u64)
    requires
        unique_addrs(reg),
    ensures
        unique_addrs(spec_record(reg, peer, start, end)),
        spec_record(reg, peer, start, end).len() == reg.len() + if find_peer(reg, peer.addr) >= 0 {
            0int
        } else {
            1int
        },
{
    lemma_find_from(reg, peer.addr, 0);
}

/// A peer seen in two cycles, and in no earlier one, has exactly one record,
/// holding the two sightings in the order of the cycles; a peer seen once has
/// one record with one sighting.
pub proof fn lemma_scheduled_merge(
    reg: Seq<PeerView>,
    first: PeerView,
    second: PeerView,
    s1: u64,
    e1: u64,
    s2: u64,
    e2: u64,
)
    requires
        unique_addrs(reg),
        find_peer(reg, first.addr) == -1,
        second.addr == first.addr,
    ensures
        ({
            let once = spec_record(reg, first, s1, e1);
            let twice = spec_record(once, second, s2, e2);
            &&& once.len() == reg.len() + 1
            &&& once.last().addr == first.addr
            &&& once.last().sightings == seq![(s1, e1)]
            &&& twice.len() == reg.len() + 1
            &&& unique_addrs(twice)
            &&& twice.last().addr == first.addr
            &&& twice.last().sightings == seq![(s1, e1), (s2, e2)]
            &&& forall|k: int| 0 <= k < reg.len() ==> twice[k] == reg[k]
        }),
{
    let once = spec_record(reg, first, s1, e1);
    lemma_find_from(reg, first.addr, 0);
    lemma_record_unique(reg, first, s1, e1);
    lemma_find_from(once, first.addr, 0);
    let i = find_peer(once, first.addr);
    assert(once[reg.len() as int].addr == first.addr);
    assert(i == reg.len()) by {
        if i != reg.len() {
            assert(0 <= i < reg.len());
            assert(once[i] == reg[i]);
        }
    }
    lemma_record_unique(once, second, s2, e2);
    let twice = spec_record(once, second, s2, e2);
    assert(twice.last().sightings =~= seq![(s1, e1), (s2, e2)]);
}

/// A scheduled scan under way: the registry of peers seen, keyed by address,
/// and the timing of the scan and of its current cycle, in milliseconds.
pub struct ScheduledScan {
    pub start_ms: u64,
    pub scan_duration_ms: u64,
    pub cycle_start_ms: u64,
    pub nodes: Vec<RemoteDigiMeshDevice>,
}

impl ScheduledScan {
    /// The registry's records are keyed by address.
    pub open spec fn wf(&self) -> bool {
        unique_addrs(views(self.nodes@))
    }

    /// Whether another cycle starts at `now_ms`: the time since the scan began
    /// is under its duration.
    pub fn cycle_due(&self, now_ms: u64) -> (r: bool)
        ensures
            r == (now_ms < self.start_ms || now_ms - self.start_ms < self.scan_duration_ms),
    {
        now_ms < self.start_ms || now_ms - self.start_ms < self.scan_duration_ms
    }

    /// Starts a cycle at `now_ms`: the discovery command to write, with the
    /// transport's read timeout set to the cycle timeout.
    pub fn begin_cycle(&mut self, dev: &mut DigiMeshDevice, now_ms: u64) -> (r: Vec<u8>)
        ensures
            r@ == crate::frame::api_frame(discovery_data()),
            final(self).cycle_start_ms == now_ms,
            final(self).start_ms == old(self).start_ms,
            final(self).scan_duration_ms == old(self).scan_duration_ms,
            final(self).nodes == old(self).nodes,
            final(dev).timeout_ms == CYCLE_TIMEOUT_MS,
            final(dev).addr_64bit == old(dev).addr_64bit,
            final(dev).node_id == old(dev).node_id,
            final(dev).firmware_version == old(dev).firmware_version,
            final(dev).hardware_version == old(dev).hardware_version,
            final(dev).text == old(dev).text,
    {
        self.cycle_start_ms = now_ms;
        dev.timeout_ms = CYCLE_TIMEOUT_MS;
        discovery_packet()
    }

    /// Records that `peer` was seen from `start_ms` to `end_ms`.
    pub fn record_sighting(&mut self, peer: RemoteDigiMeshDevice, start_ms: u64, end_ms: u64)
        requires
            old(self).wf(),
        ensures
            final(self).wf(),
            views(final(self).nodes@) == spec_record(views(old(self).nodes@), peer@, start_ms, end_ms),
            final(self).start_ms == old(self).start_ms,
            final(self).scan_duration_ms == old(self).scan_duration_ms,
            final(self).cycle_start_ms == old(self).cycle_start_ms,
    {
        let ghost reg = views(self.nodes@);
        proof {
            lemma_find_from(reg, peer.addr_64bit, 0);
            lemma_record_unique(reg, peer@, start_ms, end_ms);
        }
        let mut i: usize = 0;
        while i < self.nodes.len() && self.nodes[i].addr_64bit != peer.addr_64bit
            invariant
                i <= self.nodes@.len(),
                reg == views(self.nodes@),
                find_peer(reg, peer.addr_64bit) == find_from(reg, peer.addr_64bit, i as int),
            decreases self.nodes@.len() - i,
        {
            i = i + 1;
        }
        if i < self.nodes.len() {
            assert(find_peer(reg, peer.addr_64bit) == i);
            let mut entry = self.nodes.remove(i);
            entry.durations.push((start_ms, end_ms));
            self.nodes.insert(i, entry);
            assert(views(self.nodes@) =~= spec_record(reg, peer@, start_ms, end_ms));
        } else {
            assert(find_peer(reg, peer.addr_64bit) == -1);
            let mut fresh = peer;
            fresh.durations = Vec::new();
            fresh.durations.push((start_ms, end_ms));
            self.nodes.push(fresh);
            assert(fresh.durations@ =~= seq![(start_ms, end_ms)]);
            assert(views(self.nodes@) =~= spec_record(reg, peer@, start_ms, end_ms));
        }
    }

    /// Takes what one read of the current cycle gave, at `now_ms`; returns
    /// whether to keep listening. A reply that names a peer records a
    /// sighting from the cycle's start to `now_ms`; any failed read, a
    /// time-out or another, ends the cycle.
    pub fn on_frame(&mut self, received: Result<Vec<u8>, Error>, now_ms: u64) -> (r: bool)
        requires
            old(self).wf(),
        ensures
            final(self).wf(),
            final(self).start_ms == old(self).start_ms,
            final(self).scan_duration_ms == old(self).scan_duration_ms,
            final(self).cycle_start_ms == old(self).cycle_start_ms,
            received is Err ==> !r && final(self).nodes == old(self).nodes,
            received is Ok ==> match crate::frame::spec_reply_payload(received->Ok_0@) {
                None => !r && final(self).nodes == old(self).nodes,
                Some(payload) => r && match peer_view_of_payload(payload) {
                    None => final(self).nodes == old(self).nodes,
                    Some(p) => views(final(self).nodes@) == spec_record(
                        views(old(self).nodes@),
                        p,
                        old(self).cycle_start_ms,
                        now_ms,
                    ),
                },
            },
    {
        match receive_peer(received) {
            Err(_) => false,
            Ok(None) => true,
            Ok(Some(d)) => {
                let start = self.cycle_start_ms;
                self.record_sighting(d, start, now_ms);
                true
            },
        }
    }

    /// Ends the scan: the registry when it holds a peer, else the
    /// discovery-exhausted error.
    pub fn finish(self) -> (r: Result<Vec<RemoteDigiMeshDevice>, Error>)
        ensures
            self.nodes@.len() > 0 ==> r == Ok::<Vec<RemoteDigiMeshDevice>, Error>(self.nodes),
            self.nodes@.len() == 0 ==> r == Err::<Vec<RemoteDigiMeshDevice>, Error>(Error::DiscoveryError),
    {
        if self.nodes.len() > 0 {
            Ok(self.nodes)
        } else {
            Err(Error::DiscoveryError)
        }
    }
}

impl DigiMeshDevice {
    /// Starts a scheduled scan at `now_ms` that lasts `scan_duration_ms`, with
    /// an empty registry.
    pub fn scheduled_discover_nodes(&self, now_ms: u64, scan_duration_ms: u64) -> (r: ScheduledScan)
        ensures
            r.start_ms == now_ms,
            r.cycle_start_ms == now_ms,
            r.scan_duration_ms == scan_duration_ms,
            r.nodes@.len() == 0,
            r.wf(),
    {
        ScheduledScan { start_ms: now_ms, scan_duration_ms, cycle_start_ms: now_ms, nodes: Vec::new() }
    }
}

/// The registry after a series of sightings, each a peer and the start and
/// end of the cycle that saw it, in the order they came.
pub open spec fn spec_run(reg: Seq<PeerView>, sightings: Seq<(PeerView, u64, u64)>) -> Seq<PeerView>
    decreases sightings.len(),
{
    if sightings.len() == 0 {
        reg
    } else {
        let (p, start, end) = sightings.last();
        spec_record(spec_run(reg, sightings.drop_last()), p, start, end)
    }
}

/// The registry never shrinks, and a scan that starts empty ends empty
/// exactly when no cycle parsed a single peer; only then does it end in the
/// discovery-exhausted error.
pub proof fn lemma_registry_empty_iff_no_sighting(reg: Seq<PeerView>, sightings: Seq<(PeerView, u64, u64)>)
    ensures
        spec_run(reg, sightings).len() >= reg.len(),
        sightings.len() > 0 ==> spec_run(reg, sightings).len() > 0,
        (spec_run(Seq::<PeerView>::empty(), sightings).len() == 0) <==> sightings.len() == 0,
    decreases sightings.len(),
{
    if sightings.len() > 0 {
        let prev = spec_run(reg, sightings.drop_last());
        lemma_registry_empty_iff_no_sighting(reg, sightings.drop_last());
        lemma_registry_empty_iff_no_sighting(Seq::<PeerView>::empty(), sightings.drop_last());
        let (p, start, end) = sightings.last();
        lemma_find_from(prev, p.addr, 0);
        let prev0 = spec_run(Seq::<PeerView>::empty(), sightings.drop_last());
        lemma_find_from(prev0, p.addr, 0);
    }
}

} // verus!
