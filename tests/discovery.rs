use rusty_sonos::discovery::{Discovery, DISCOVERY_REQUEST_BODY};
use rusty_sonos::speaker::{BasicSpeakerInfo, Ipv4Addr};

fn info(ip: Ipv4Addr, name: &str) -> BasicSpeakerInfo {
    BasicSpeakerInfo {
        ip_addr: ip,
        friendly_name: name.to_string(),
        room_name: "Room".to_string(),
        uuid: format!("RINCON_{name}"),
    }
}

#[test]
fn two_replies_from_one_address_give_one_record() {
    let ip = Ipv4Addr::new(192, 168, 1, 20);
    let mut pass = Discovery::new(2);
    assert!(pass.should_fetch(ip));
    pass.record(info(ip, "first"));
    assert!(!pass.should_fetch(ip));
    pass.record(info(ip, "second"));
    let speakers = pass.into_speakers();
    assert_eq!(speakers.len(), 1);
    assert_eq!(speakers[0].friendly_name, "first");
}

#[test]
fn records_keep_fetch_order() {
    let a = Ipv4Addr::new(10, 0, 0, 2);
    let b = Ipv4Addr::new(10, 0, 0, 1);
    let mut pass = Discovery::new(1);
    pass.record(info(a, "a"));
    pass.record(info(b, "b"));
    assert!(pass.should_fetch(Ipv4Addr::new(10, 0, 0, 3)));
    let speakers = pass.into_speakers();
    assert_eq!(speakers.len(), 2);
    assert_eq!(speakers[0].ip_addr, a);
    assert_eq!(speakers[1].ip_addr, b);
}

#[test]
fn records_are_equal_by_address() {
    let ip = Ipv4Addr::new(10, 0, 0, 7);
    assert!(info(ip, "x") == info(ip, "y"));
    assert!(info(ip, "x") != info(Ipv4Addr::new(10, 0, 0, 8), "x"));
}

#[test]
fn collection_window() {
    let pass = Discovery::new(2);
    assert!(pass.is_collecting(0));
    assert!(pass.is_collecting(2));
    assert!(!pass.is_collecting(3));
}

#[test]
fn search_request_text() {
    assert!(DISCOVERY_REQUEST_BODY.starts_with("M-SEARCH * HTTP/1.1\r\nHOST: 239.255.255.250:1900\r\n"));
    assert!(DISCOVERY_REQUEST_BODY.contains("MAN: ssdp:discover\r\nMX: 1\r\n"));
    assert!(DISCOVERY_REQUEST_BODY.contains("ST: urn:schemas-upnp-org:device:ZonePlayer:1\r\n"));
}
