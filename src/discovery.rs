//! The bookkeeping of a discovery pass.
//!
//! A pass sends [`DISCOVERY_REQUEST_BODY`] to [`MULTICAST_ADDRESS`] and
//! [`BROADCAST_ADDRESS`], then reads replies until the collection window has
//! passed. A reply from an address that is not yet known is answered by a
//! description fetch; each record fetched is kept, one per address, in the
//! order the fetches completed. A failed fetch is skipped.
use vstd::prelude::*;
use crate::speaker::{BasicSpeakerInfo, BasicSpeakerInfoView, Ipv4Addr};

verus! {

/// The SSDP search request, with CRLF line ends.
pub const DISCOVERY_REQUEST_BODY: &'static str = "M-SEARCH * HTTP/1.1\r\nHOST: 239.255.255.250:1900\r\nMAN: ssdp:discover\r\nMX: 1\r\nST: urn:schemas-upnp-org:device:ZonePlayer:1\r\n\r\n";

/// The UPnP multicast discovery address.
pub const MULTICAST_ADDRESS: &'static str = "239.255.255.250:1900";

/// The link-local broadcast address.
pub const BROADCAST_ADDRESS: &'static str = "255.255.255.255:1900";

/// Whether some record of `speakers` has address `ip`.
pub open spec fn has_address(speakers: Seq<BasicSpeakerInfoView>, ip: Ipv4Addr) -> bool {
    exists|i: int| 0 <= i < speakers.len() && (#[trigger] speakers[i]).ip_addr == ip
}

/// Whether no two records of `speakers` share an address.
pub open spec fn distinct_addresses(speakers: Seq<BasicSpeakerInfoView>) -> bool {
    forall|i: int, j: int|
        0 <= i < j < speakers.len() ==> (#[trigger] speakers[i]).ip_addr != (
        #[trigger] speakers[j]).ip_addr
}

/// The records after `info` has been fetched: it is appended unless its address is known.
pub open spec fn record_spec(speakers: Seq<BasicSpeakerInfoView>, info: BasicSpeakerInfoView) -> Seq<
    BasicSpeakerInfoView,
> {
    if has_address(speakers, info.ip_addr) {
        speakers
    } else {
        speakers.push(info)
    }
}

/// The number of records of `speakers` with address `ip`.
pub open spec fn address_count(speakers: Seq<BasicSpeakerInfoView>, ip: Ipv4Addr) -> nat
    decreases speakers.len(),
{
    if speakers.len() == 0 {
        0
    } else {
        address_count(speakers.drop_last(), ip) + if speakers.last().ip_addr == ip {
            1nat
        } else {
            0nat
        }
    }
}

/// Recording a fetched record keeps the addresses distinct.
pub proof fn lemma_record_keeps_distinct(speakers: Seq<BasicSpeakerInfoView>, info: BasicSpeakerInfoView)
    requires
        distinct_addresses(speakers),
    ensures
        distinct_addresses(record_spec(speakers, info)),
        has_address(record_spec(speakers, info), info.ip_addr),
{
    let after = record_spec(speakers, info);
    if !has_address(speakers, info.ip_addr) {
        assert(after[speakers.len() as int] == info);
        assert forall|i: int, j: int| 0 <= i < j < after.len() implies (
        #[trigger] after[i]).ip_addr != (#[trigger] after[j]).ip_addr by {
            if j == speakers.len() {
                assert(speakers[i] == after[i]);
            } else {
                assert(speakers[i] == after[i] && speakers[j] == after[j]);
            }
        }
    } else {
        let k = choose|k: int| 0 <= k < speakers.len() && (#[trigger] speakers[k]).ip_addr == info.ip_addr;
        assert(after[k].ip_addr == info.ip_addr);
    }
}

proof fn lemma_count_absent(speakers: Seq<BasicSpeakerInfoView>, ip: Ipv4Addr)
    requires
        !has_address(speakers, ip),
    ensures
        address_count(speakers, ip) == 0,
    decreases speakers.len(),
{
    if speakers.len() > 0 {
        let front = speakers.drop_last();
        assert(speakers[speakers.len() - 1] == speakers.last());
        assert(!has_address(front, ip)) by {
            if has_address(front, ip) {
                let k = choose|k: int| 0 <= k < front.len() && (#[trigger] front[k]).ip_addr == ip;
                assert(speakers[k] == front[k]);
            }
        }
        lemma_count_absent(front, ip);
    }
}

/// Two replies from one address within a pass yield exactly one record for
/// it: the second reply is not fetched (the address is known by then), and
/// even a second fetched record for that address adds nothing.
pub proof fn lemma_one_record_per_address(
    speakers: Seq<BasicSpeakerInfoView>,
    first: BasicSpeakerInfoView,
    second: BasicSpeakerInfoView,
)
    requires
        distinct_addresses(speakers),
        !has_address(speakers, first.ip_addr),
        second.ip_addr == first.ip_addr,
    ensures
        has_address(record_spec(speakers, first), second.ip_addr),
        record_spec(record_spec(speakers, first), second) == record_spec(speakers, first),
        record_spec(speakers, first).len() == speakers.len() + 1,
        address_count(record_spec(speakers, first), first.ip_addr) == 1,
        distinct_addresses(record_spec(speakers, first)),
{
    lemma_record_keeps_distinct(speakers, first);
    lemma_count_absent(speakers, first.ip_addr);
    let after = record_spec(speakers, first);
    assert(after.drop_last() =~= speakers);
}

/// The state of one discovery pass: the records kept so far and the length
/// of the collection window.
pub struct Discovery {
    speakers: Vec<BasicSpeakerInfo>,
    search_secs: u64,
}

impl View for Discovery {
    type V = Seq<BasicSpeakerInfoView>;

    closed spec fn view(&self) -> Seq<BasicSpeakerInfoView> {
        self.speakers@.map_values(|s: BasicSpeakerInfo| s@)
    }
}

impl Discovery {
    /// Well-formed: no two records share an address.
    pub open spec fn wf(&self) -> bool {
        distinct_addresses(self@)
    }

    /// The length of the collection window, in seconds.
    pub closed spec fn window(&self) -> u64 {
        self.search_secs
    }

    /// A pass with no records yet and a window of `search_secs` seconds.
    pub fn new(search_secs: u64) -> (r: Self)
        ensures
            r.wf(),
            r@ == Seq::<BasicSpeakerInfoView>::empty(),
            r.window() == search_secs,
    {
        let r = Discovery { speakers: Vec::new(), search_secs };
        assert(r@ =~= Seq::<BasicSpeakerInfoView>::empty());
        r
    }

    /// Whether replies are still collected `elapsed_secs` whole seconds after
    /// the first send: until the window has been exceeded.
    pub fn is_collecting(&self, elapsed_secs: u64) -> (r: bool)
        ensures
            r == (elapsed_secs <= self.window()),
    {
        elapsed_secs <= self.search_secs
    }

    /// Whether a reply from `ip` calls for a description fetch: only where no
    /// record for that address is kept yet.
    pub fn should_fetch(&self, ip: Ipv4Addr) -> (r: bool)
        ensures
            r == !has_address(self@, ip),
    {
        let mut i: usize = 0;
        while i < self.speakers.len()
            invariant
                i <= self.speakers@.len(),
                forall|k: int| 0 <= k < i ==> (#[trigger] self@[k]).ip_addr != ip,
            decreases self.speakers.len() - i,
        {
            assert(self@[i as int] == self.speakers@[i as int]@);
            if self.speakers[i].ip_addr == ip {
                return false;
            }
            i += 1;
        }
        true
    }

    /// Keeps a fetched record, unless one for its address is kept already.
    pub fn record(&mut self, info: BasicSpeakerInfo)
        requires
            old(self).wf(),
        ensures
            final(self).wf(),
            final(self)@ == record_spec(old(self)@, info@),
            final(self).window() == old(self).window(),
    {
        proof {
            lemma_record_keeps_distinct(self@, info@);
        }
        if self.should_fetch(info.ip_addr) {
            let ghost before = self@;
            self.speakers.push(info);
            assert(self@ =~= before.push(info@));
        }
    }

    /// The records kept, in the order their fetches completed.
    pub fn into_speakers(self) -> (r: Vec<BasicSpeakerInfo>)
        ensures
            r@.map_values(|s: BasicSpeakerInfo| s@) == self@,
    {
        self.speakers
    }
}

} // verus!
