//! Discovery of peers on the local network through mDNS.
//!
//! Publishing builds the service record that the mDNS daemon announces: the
//! record is stated exactly as plain values, and is handed to mdns-sd field
//! for field.
//! Browsing is a scan of a fixed number of rounds: in each round the caller
//! waits for one event from the daemon, hands it to the scan, and then
//! pauses for [`POLL_INTERVAL_MS`]. The scan collects the socket address of
//! every address of every resolved service, in the order they arrive.

use vstd::prelude::*;
use vstd::string::StringExecFns;

verus! {

#[verifier::external_type_specification]
#[verifier::external_body]
pub struct ExServiceInfo(mdns_sd::ServiceInfo);

#[verifier::external_type_specification]
#[verifier::external_body]
pub struct ExMdnsError(mdns_sd::Error);

/// The mDNS service type (with its domain) under which nodes announce themselves.
pub const SERVICE_TYPE: &'static str = "_ring_ring._udp.local.";

/// Pause between two rounds of a scan, in milliseconds.
pub const POLL_INTERVAL_MS: u64 = 500;

/// Number of scan rounds per second of timeout.
pub const ROUNDS_PER_SECOND: u64 = 2;

/// The service record a node publishes over mDNS, as plain values.
pub struct ServiceRecord {
    /// Service type with its domain.
    pub service_type: String,
    /// Instance name, without the service type.
    pub instance_name: String,
    /// Host name the address records are published under; mDNS requires it
    /// to end in `.local.`.
    pub host_name: String,
    /// Fixed addresses, comma separated; empty for none.
    pub addresses: String,
    /// Port of the service.
    pub port: u16,
    /// TXT properties, as key and value.
    pub properties: Vec<(String, String)>,
    /// Whether the daemon fills in, and keeps up to date, the host's own
    /// addresses.
    pub auto_addresses: bool,
}

/// The domain suffix every mDNS host name ends in.
pub const LOCAL_DOMAIN: &'static str = ".local.";

/// The record a node publishes: service type [`SERVICE_TYPE`], the given
/// instance name, host name `<instance_name>.local.`, no fixed address (the
/// daemon fills in the host's addresses), the given port and no TXT
/// properties.
pub fn service_record(instance_name: &str, port: u16) -> (r: ServiceRecord)
    ensures
        r.service_type@ == SERVICE_TYPE@,
        r.instance_name@ == instance_name@,
        r.host_name@ == instance_name@ + LOCAL_DOMAIN@,
        r.addresses@.len() == 0,
        r.port == port,
        r.properties@.len() == 0,
        r.auto_addresses,
{
    let mut host_name = instance_name.to_owned();
    host_name.append(LOCAL_DOMAIN);
    let addresses = String::new();
    ServiceRecord {
        service_type: SERVICE_TYPE.to_owned(),
        instance_name: instance_name.to_owned(),
        host_name,
        addresses,
        port,
        properties: Vec::new(),
        auto_addresses: true,
    }
}

/// The fields of an mDNS service record as mdns-sd holds them: service
/// type, full name, host name, port, whether the host's addresses are filled
/// in automatically, the number of TXT properties and the number of fixed
/// addresses.
pub uninterp spec fn service_info_fields(info: mdns_sd::ServiceInfo) -> (
    Seq<char>,
    Seq<char>,
    Seq<char>,
    u16,
    bool,
    nat,
    nat,
);

/// The marker of a sub-type in a service type.
pub const SUB_TYPE_MARK: &'static str = "._sub.";

/// Whether a service type names a sub-type (holds `._sub.`).
pub open spec fn has_sub_type(ty: Seq<char>) -> bool {
    exists|i: int| 0 <= i && i + 6 <= ty.len() && #[trigger] ty.subrange(i, i + 6) == SUB_TYPE_MARK@
}

/// Whether `s` ends in `suffix`.
pub open spec fn ends_with(s: Seq<char>, suffix: Seq<char>) -> bool {
    s.len() >= suffix.len() && s.subrange(s.len() - suffix.len(), s.len() as int) == suffix
}

/// The host name mdns-sd keeps: a name ending in `.local.local.` loses one
/// `local.`; any other name is kept.
pub open spec fn normalized_host(host: Seq<char>) -> Seq<char> {
    if ends_with(host, ".local.local."@) {
        host.subrange(0, host.len() - 6)
    } else {
        host
    }
}

/// `mdns_sd::ServiceInfo::new` on the record's fields, one for one. The
/// crate fails only on an address list it cannot parse or on a TXT key that
/// is not ASCII or holds `=`, so with no addresses and no properties it
/// succeeds. The record it makes keeps the type (for a type without a
/// sub-type), the full name `<instance>.<type>`, the host name normalized,
/// the port, no automatic addresses, and as many properties and addresses as
/// it was given, none for none.
#[verifier::external_body]
fn record_service_info(record: &ServiceRecord) -> (r: Result<mdns_sd::ServiceInfo, mdns_sd::Error>)
    ensures
        record.addresses@.len() == 0 && record.properties@.len() == 0 ==> r is Ok,
        r matches Ok(info) ==> ({
            let f = service_info_fields(info);
            &&& !has_sub_type(record.service_type@) ==> f.0 == record.service_type@
                && f.1 == record.instance_name@ + "."@ + record.service_type@
            &&& f.2 == normalized_host(record.host_name@)
            &&& f.3 == record.port
            &&& !f.4
            &&& record.properties@.len() == 0 ==> f.5 == 0
            &&& record.addresses@.len() == 0 ==> f.6 == 0
        }),
{
    mdns_sd::ServiceInfo::new(
        record.service_type.as_str(),
        record.instance_name.as_str(),
        record.host_name.as_str(),
        record.addresses.as_str(),
        record.port,
        record.properties.as_slice(),
    )
}

/// `mdns_sd::ServiceInfo::enable_addr_auto`: the daemon adds the host's
/// addresses when it registers the service and keeps them up to date. Only
/// that flag changes.
#[verifier::external_body]
fn enable_addr_auto(info: mdns_sd::ServiceInfo) -> (r: mdns_sd::ServiceInfo)
    ensures
        ({
            let f = service_info_fields(info);
            service_info_fields(r) == (f.0, f.1, f.2, f.3, true, f.5, f.6)
        }),
{
    info.enable_addr_auto()
}

/// The mDNS form of [`service_record`]`(instance_name, port)`, ready to be
/// registered with the daemon: type [`SERVICE_TYPE`], full name
/// `<instance_name>.<SERVICE_TYPE>`, host `<instance_name>.local.` (as
/// mdns-sd normalizes it), the port, automatic addresses, no TXT properties
/// and no fixed address.
pub fn service_info(instance_name: &str, port: u16) -> (info: mdns_sd::ServiceInfo)
    ensures
        service_info_fields(info) == (
            SERVICE_TYPE@,
            instance_name@ + "."@ + SERVICE_TYPE@,
            normalized_host(instance_name@ + LOCAL_DOMAIN@),
            port,
            true,
            0nat,
            0nat,
        ),
{
    let record = service_record(instance_name, port);
    let info = record_service_info(&record).unwrap();
    proof {
        lemma_service_type_has_no_sub_type();
    }
    if record.auto_addresses {
        enable_addr_auto(info)
    } else {
        info
    }
}

/// [`SERVICE_TYPE`] names no sub-type.
proof fn lemma_service_type_has_no_sub_type()
    ensures
        !has_sub_type(SERVICE_TYPE@),
{
    reveal_strlit("_ring_ring._udp.local.");
    reveal_strlit("._sub.");
    assert(forall|k: int| 0 <= k < SERVICE_TYPE@.len() ==> SERVICE_TYPE@[k] != 's');
    if has_sub_type(SERVICE_TYPE@) {
        let i = choose|i: int|
            0 <= i && i + 6 <= SERVICE_TYPE@.len() && #[trigger] SERVICE_TYPE@.subrange(i, i + 6)
                == SUB_TYPE_MARK@;
        assert(SERVICE_TYPE@.subrange(i, i + 6)[2] == 's');
        assert(SERVICE_TYPE@[i + 2] == 's');
    }
}

/// A socket address: an IP address of any representation and a port.
#[derive(Clone, Copy, Debug, PartialEq, Eq)]
pub struct PeerAddress<A> {
    pub ip: A,
    pub port: u16,
}

/// What the mDNS daemon delivered in one round of a scan.
pub enum DiscoveryEvent<A> {
    /// A service was resolved at the given addresses and port.
    Resolved { addresses: Vec<A>, port: u16 },
    /// Any other event, or no event because the receive failed.
    Other,
}

/// The peer addresses one event contributes: each of a resolved service's
/// addresses with the service's port, in order.
pub open spec fn resolved_peers<A>(event: DiscoveryEvent<A>) -> Seq<PeerAddress<A>> {
    match event {
        DiscoveryEvent::Resolved { addresses, port } => addresses@.map_values(
            |ip: A| PeerAddress { ip, port },
        ),
        DiscoveryEvent::Other => Seq::empty(),
    }
}

/// The peer addresses a sequence of events contributes, in order.
pub open spec fn scan_peers<A>(events: Seq<DiscoveryEvent<A>>) -> Seq<PeerAddress<A>>
    decreases events.len(),
{
    if events.len() == 0 {
        Seq::empty()
    } else {
        scan_peers(events.drop_last()) + resolved_peers(events.last())
    }
}

/// A scan of the local network in progress.
pub struct PeerScan<A> {
    total_rounds: u64,
    rounds_left: u64,
    peers: Vec<PeerAddress<A>>,
    events: Ghost<Seq<DiscoveryEvent<A>>>,
}

impl<A: Copy> PeerScan<A> {
    /// Rounds the scan runs in all.
    pub closed spec fn total_rounds(&self) -> nat {
        self.total_rounds as nat
    }

    /// Rounds still to run.
    pub closed spec fn rounds_left(&self) -> nat {
        self.rounds_left as nat
    }

    /// The events delivered so far, one per round that has run.
    pub closed spec fn events(&self) -> Seq<DiscoveryEvent<A>> {
        self.events@
    }

    /// Addresses collected so far.
    pub closed spec fn peers(&self) -> Seq<PeerAddress<A>> {
        self.peers@
    }

    /// Every round that has run delivered one event, and the addresses
    /// collected are those the events contribute.
    pub closed spec fn wf(&self) -> bool {
        &&& self.events@.len() + self.rounds_left == self.total_rounds
        &&& self.peers@ == scan_peers(self.events@)
    }

    /// A scan that runs two rounds per second of `timeout_secs`.
    pub fn new(timeout_secs: u64) -> (scan: Self)
        requires
            timeout_secs * ROUNDS_PER_SECOND <= u64::MAX,
        ensures
            scan.wf(),
            scan.total_rounds() == timeout_secs * ROUNDS_PER_SECOND,
            scan.rounds_left() == scan.total_rounds(),
            scan.events() == Seq::<DiscoveryEvent<A>>::empty(),
            scan.peers() == Seq::<PeerAddress<A>>::empty(),
    {
        let total: u64 = timeout_secs * ROUNDS_PER_SECOND;
        PeerScan { total_rounds: total, rounds_left: total, peers: Vec::new(), events: Ghost(Seq::empty()) }
    }

    /// Whether every round has run.
    pub fn is_finished(&self) -> (r: bool)
        ensures
            r == (self.rounds_left() == 0),
    {
        self.rounds_left == 0
    }

    /// Runs one round on the event it delivered: the event's addresses are
    /// appended and one round fewer is left.
    pub fn record(&mut self, event: DiscoveryEvent<A>)
        requires
            old(self).wf(),
            old(self).rounds_left() > 0,
        ensures
            final(self).wf(),
            final(self).total_rounds() == old(self).total_rounds(),
            final(self).rounds_left() == old(self).rounds_left() - 1,
            final(self).events() == old(self).events().push(event),
            final(self).peers() == old(self).peers() + resolved_peers(event),
    {
        let ghost delivered = event;
        self.rounds_left = self.rounds_left - 1;
        match event {
            DiscoveryEvent::Resolved { addresses, port } => {
                let ghost start = self.peers@;
                let n: usize = addresses.len();
                let mut i: usize = 0;
                while i < n
                    invariant
                        n == addresses@.len(),
                        i <= n,
                        self.rounds_left == old(self).rounds_left - 1,
                        self.total_rounds == old(self).total_rounds,
                        self.events == old(self).events,
                        self.peers@ == start + addresses@.subrange(0, i as int).map_values(
                            |ip: A| PeerAddress { ip, port },
                        ),
                    decreases n - i,
                {
                    let ip = addresses[i];
                    self.peers.push(PeerAddress { ip, port });
                    i = i + 1;
                    assert(addresses@.subrange(0, i as int) == addresses@.subrange(
                        0,
                        i - 1,
                    ).push(ip));
                }
                assert(addresses@.subrange(0, n as int) == addresses@);
            },
            DiscoveryEvent::Other => {},
        }
        let ghost before = self.events@;
        assert(before == old(self).events@);
        self.events = Ghost(before.push(delivered));
        assert(before.push(delivered).drop_last() =~= before);
    }

    /// The addresses the scan collected.
    pub fn into_peers(self) -> (peers: Vec<PeerAddress<A>>)
        requires
            self.wf(),
        ensures
            peers@ == self.peers(),
            peers@ == scan_peers(self.events()),
    {
        self.peers
    }
}

} // verus!
