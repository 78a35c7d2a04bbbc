//! Speaker identity: addresses and the record that a description document yields.
use vstd::prelude::*;
use crate::text::{decimal, u8_text};

verus! {

/// An IPv4 address, as its four octets from the most significant.
#[derive(Debug, Clone, Copy, PartialEq, Eq, Structural)]
pub struct Ipv4Addr(pub u8, pub u8, pub u8, pub u8);

/// The dotted-decimal form of an address.
pub open spec fn ipv4_text(ip: Ipv4Addr) -> Seq<char> {
    decimal(ip.0 as nat) + "."@ + decimal(ip.1 as nat) + "."@ + decimal(ip.2 as nat) + "."@
        + decimal(ip.3 as nat)
}

impl Ipv4Addr {
    /// The address with the given octets.
    pub fn new(a: u8, b: u8, c: u8, d: u8) -> (r: Self)
        ensures
            r == Ipv4Addr(a, b, c, d),
    {
        Ipv4Addr(a, b, c, d)
    }

    /// The address in dotted-decimal form, such as `192.168.1.20`.
    pub fn to_string(&self) -> (r: String)
        ensures
            r@ == ipv4_text(*self),
    {
        u8_text(self.0).concat(".").concat(u8_text(self.1).as_str()).concat(".").concat(
            u8_text(self.2).as_str(),
        ).concat(".").concat(u8_text(self.3).as_str())
    }
}

/// What a speaker's description document says of it.
#[derive(Debug)]
pub struct BasicSpeakerInfo {
    /// The address of the speaker; two records are equal when their addresses are.
    pub ip_addr: Ipv4Addr,
    /// Readable speaker name, usually of the form `IP - Model`.
    pub friendly_name: String,
    /// The name of the room that holds the speaker.
    pub room_name: String,
    /// The unique ID of the speaker.
    pub uuid: String,
}

/// What a [`BasicSpeakerInfo`] holds.
pub struct BasicSpeakerInfoView {
    pub ip_addr: Ipv4Addr,
    pub friendly_name: Seq<char>,
    pub room_name: Seq<char>,
    pub uuid: Seq<char>,
}

impl View for BasicSpeakerInfo {
    type V = BasicSpeakerInfoView;

    open spec fn view(&self) -> BasicSpeakerInfoView {
        BasicSpeakerInfoView {
            ip_addr: self.ip_addr,
            friendly_name: self.friendly_name@,
            room_name: self.room_name@,
            uuid: self.uuid@,
        }
    }
}

impl PartialEq for BasicSpeakerInfo {
    fn eq(&self, other: &Self) -> (r: bool) {
        self.ip_addr == other.ip_addr
    }
}

impl vstd::std_specs::cmp::PartialEqSpecImpl for BasicSpeakerInfo {
    open spec fn obeys_eq_spec() -> bool {
        true
    }

    open spec fn eq_spec(&self, other: &BasicSpeakerInfo) -> bool {
        self.ip_addr == other.ip_addr
    }
}

} // verus!
