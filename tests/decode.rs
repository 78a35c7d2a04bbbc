use rusty_sonos::decode::{
    get_error_code, parse_current_track_xml, parse_description_xml, parse_getvolume_xml,
    parse_playback_status_xml, parse_queue_xml,
};
use rusty_sonos::errors::XMLError;
use rusty_sonos::responses::PlaybackState;
use rusty_sonos::speaker::Ipv4Addr;

fn wrap(inner: &str) -> String {
    format!(
        "<s:Envelope xmlns:s=\"http://schemas.xmlsoap.org/soap/envelope/\" s:encodingStyle=\"http://schemas.xmlsoap.org/soap/encoding/\"><s:Body>{inner}</s:Body></s:Envelope>"
    )
}

fn volume_response(value: &str) -> String {
    wrap(&format!(
        "<u:GetVolumeResponse xmlns:u=\"urn:schemas-upnp-org:service:RenderingControl:1\"><CurrentVolume>{value}</CurrentVolume></u:GetVolumeResponse>"
    ))
}

#[test]
fn volume_decodes() {
    assert_eq!(parse_getvolume_xml(volume_response("37")).unwrap(), 37);
    assert_eq!(parse_getvolume_xml("<CurrentVolume>37</CurrentVolume>".to_string()).unwrap(), 37);
    assert_eq!(parse_getvolume_xml(volume_response("0")).unwrap(), 0);
    assert_eq!(parse_getvolume_xml(volume_response("255")).unwrap(), 255);
    assert_eq!(parse_getvolume_xml(volume_response("+5")).unwrap(), 5);
}

#[test]
fn volume_out_of_range_fails() {
    match parse_getvolume_xml(volume_response("256")) {
        Err(XMLError::UnexpectedValue(s)) => assert_eq!(s, "invalid volume: 256"),
        other => panic!("unexpected {:?}", other),
    }
}

#[test]
fn volume_not_a_number_fails() {
    match parse_getvolume_xml(volume_response("abc")) {
        Err(XMLError::UnexpectedValue(s)) => assert_eq!(s, "invalid volume: abc"),
        other => panic!("unexpected {:?}", other),
    }
    assert!(matches!(parse_getvolume_xml(volume_response("-1")), Err(XMLError::UnexpectedValue(_))));
    assert!(matches!(parse_getvolume_xml(volume_response("+")), Err(XMLError::UnexpectedValue(_))));
}

#[test]
fn volume_missing_or_empty_tag_fails() {
    match parse_getvolume_xml(wrap("<Other>1</Other>")) {
        Err(XMLError::ElementNotFound(s)) => assert_eq!(s, "CurrentVolume"),
        other => panic!("unexpected {:?}", other),
    }
    match parse_getvolume_xml(volume_response("")) {
        Err(XMLError::EmptyElement(s)) => assert_eq!(s, "CurrentVolume"),
        other => panic!("unexpected {:?}", other),
    }
}

#[test]
fn malformed_xml_is_a_parse_error() {
    assert!(matches!(parse_getvolume_xml("<a><b></a>".to_string()), Err(XMLError::ParseError(_))));
}

fn transport_response(state: &str) -> String {
    wrap(&format!(
        "<u:GetTransportInfoResponse xmlns:u=\"urn:schemas-upnp-org:service:AVTransport:1\"><CurrentTransportState>{state}</CurrentTransportState><CurrentTransportStatus>OK</CurrentTransportStatus><CurrentSpeed>1</CurrentSpeed></u:GetTransportInfoResponse>"
    ))
}

#[test]
fn playback_state_strings() {
    assert_eq!(PlaybackState::new("PLAYING").unwrap(), PlaybackState::Playing);
    assert_eq!(PlaybackState::new("PAUSED_PLAYBACK").unwrap(), PlaybackState::Paused);
    assert_eq!(PlaybackState::new("STOPPED").unwrap(), PlaybackState::Stopped);
    assert_eq!(PlaybackState::new("TRANSITIONING").unwrap(), PlaybackState::Transitioning);
    assert_eq!(PlaybackState::new("WEIRD_STATE").unwrap_err(), "Invalid state");
    assert_eq!(PlaybackState::Paused.to_string(), "Paused");
}

#[test]
fn playback_status_decodes() {
    let status = parse_playback_status_xml(transport_response("PLAYING")).unwrap();
    assert_eq!(status.playback_state, PlaybackState::Playing);
    assert_eq!(status.status, "OK");
    let status = parse_playback_status_xml(transport_response("PAUSED_PLAYBACK")).unwrap();
    assert_eq!(status.playback_state, PlaybackState::Paused);
}

#[test]
fn unknown_playback_state_fails() {
    match parse_playback_status_xml(transport_response("WEIRD_STATE")) {
        Err(XMLError::UnexpectedValue(s)) => assert_eq!(s, "invalid playback state: WEIRD_STATE"),
        other => panic!("unexpected {:?}", other),
    }
}

const POSITION_INFO: &str = "<u:GetPositionInfoResponse xmlns:u=\"urn:schemas-upnp-org:service:AVTransport:1\"><Track>1</Track><TrackDuration>0:03:25</TrackDuration><TrackMetaData>&lt;DIDL-Lite xmlns:dc=&quot;http://purl.org/dc/elements/1.1/&quot; xmlns:upnp=&quot;urn:schemas-upnp-org:metadata-1-0/upnp/&quot; xmlns:r=&quot;urn:schemas-rinconnetworks-com:metadata-1-0/&quot; xmlns=&quot;urn:schemas-upnp-org:metadata-1-0/DIDL-Lite/&quot;&gt;&lt;item id=&quot;-1&quot;&gt;&lt;dc:title&gt;Song&lt;/dc:title&gt;&lt;dc:creator&gt;Band&lt;/dc:creator&gt;&lt;/item&gt;&lt;/DIDL-Lite&gt;</TrackMetaData><TrackURI>x-file-cifs://server/song.mp3</TrackURI><RelTime>0:01:02</RelTime></u:GetPositionInfoResponse>";

#[test]
fn current_track_decodes() {
    let track = parse_current_track_xml(wrap(POSITION_INFO)).unwrap();
    assert_eq!(track.position, "0:01:02");
    assert_eq!(track.duration, "0:03:25");
    assert_eq!(track.uri, "x-file-cifs://server/song.mp3");
    assert_eq!(track.title.as_deref(), Some("Song"));
    assert_eq!(track.artist.as_deref(), Some("Band"));
}

#[test]
fn current_track_without_metadata_has_no_title() {
    let body = "<u:GetPositionInfoResponse xmlns:u=\"urn:schemas-upnp-org:service:AVTransport:1\"><TrackDuration>0:00:00</TrackDuration><TrackMetaData></TrackMetaData><TrackURI>x-rincon:1</TrackURI><RelTime>0:00:00</RelTime></u:GetPositionInfoResponse>";
    let track = parse_current_track_xml(wrap(body)).unwrap();
    assert_eq!(track.title, None);
    assert_eq!(track.artist, None);
}

#[test]
fn current_track_requires_position() {
    let body = "<u:GetPositionInfoResponse xmlns:u=\"urn:schemas-upnp-org:service:AVTransport:1\"><TrackDuration>0:00:10</TrackDuration><TrackURI>x-rincon:1</TrackURI></u:GetPositionInfoResponse>";
    match parse_current_track_xml(wrap(body)) {
        Err(XMLError::ElementNotFound(s)) => assert_eq!(s, "RelTime"),
        other => panic!("unexpected {:?}", other),
    }
}

fn queue_response(items: &str) -> String {
    let escaped = items.replace('<', "&lt;").replace('>', "&gt;").replace('"', "&quot;");
    wrap(&format!(
        "<u:BrowseResponse xmlns:u=\"urn:schemas-upnp-org:service:ContentDirectory:1\"><Result>&lt;DIDL-Lite xmlns:dc=&quot;http://purl.org/dc/elements/1.1/&quot; xmlns:upnp=&quot;urn:schemas-upnp-org:metadata-1-0/upnp/&quot; xmlns:r=&quot;urn:schemas-rinconnetworks-com:metadata-1-0/&quot; xmlns=&quot;urn:schemas-upnp-org:metadata-1-0/DIDL-Lite/&quot;&gt;{escaped}&lt;/DIDL-Lite&gt;</Result><NumberReturned>2</NumberReturned></u:BrowseResponse>"
    ))
}

#[test]
fn queue_entries_keep_their_own_titles() {
    let items = "<item id=\"Q:0/1\"><res duration=\"0:02:00\">uri-one</res><dc:title>First</dc:title><upnp:artist>A</upnp:artist></item><item id=\"Q:0/2\"><res duration=\"0:03:00\">uri-two</res><dc:title>Second</dc:title></item>";
    let queue = parse_queue_xml(queue_response(items)).unwrap();
    assert_eq!(queue.len(), 2);
    assert_eq!(queue[0].title.as_deref(), Some("First"));
    assert_eq!(queue[1].title.as_deref(), Some("Second"));
    assert_eq!(queue[0].artist.as_deref(), Some("A"));
    assert_eq!(queue[1].artist, None);
    assert_eq!(queue[0].uri, "uri-one");
    assert_eq!(queue[1].uri, "uri-two");
    assert_eq!(queue[0].duration.as_deref(), Some("0:02:00"));
    assert_eq!(queue[1].duration.as_deref(), Some("0:03:00"));
}

#[test]
fn queue_entry_without_title_does_not_borrow_the_next() {
    let items = "<item><res>uri-one</res></item><item><res>uri-two</res><dc:title>Second</dc:title></item>";
    let queue = parse_queue_xml(queue_response(items)).unwrap();
    assert_eq!(queue.len(), 2);
    assert_eq!(queue[0].title, None);
    assert_eq!(queue[0].duration, None);
    assert_eq!(queue[1].title.as_deref(), Some("Second"));
}

#[test]
fn queue_entry_with_empty_resource_fails() {
    let items = "<item><res duration=\"0:01:00\"></res></item>";
    match parse_queue_xml(queue_response(items)) {
        Err(XMLError::EmptyElement(s)) => assert_eq!(s, "res"),
        other => panic!("unexpected {:?}", other),
    }
}

#[test]
fn empty_queue_decodes_to_no_entries() {
    assert_eq!(parse_queue_xml(queue_response("")).unwrap().len(), 0);
}

#[test]
fn queue_entry_without_uri_fails() {
    let items = "<item><res>uri-one</res></item><item><dc:title>No resource</dc:title></item>";
    match parse_queue_xml(queue_response(items)) {
        Err(XMLError::ElementNotFound(s)) => assert_eq!(s, "res"),
        other => panic!("unexpected {:?}", other),
    }
}

#[test]
fn error_code_is_read() {
    let fault = wrap("<s:Fault><faultcode>s:Client</faultcode><faultstring>UPnPError</faultstring><detail><UPnPError xmlns=\"urn:schemas-upnp-org:control-1-0\"><errorCode>701</errorCode></UPnPError></detail></s:Fault>");
    assert_eq!(get_error_code(fault).unwrap(), "701");
    match get_error_code(wrap("<s:Fault></s:Fault>")) {
        Err(XMLError::ElementNotFound(s)) => assert_eq!(s, "errorCode"),
        other => panic!("unexpected {:?}", other),
    }
}

const DESCRIPTION: &str = "<?xml version=\"1.0\" encoding=\"utf-8\"?><root xmlns=\"urn:schemas-upnp-org:device-1-0\"><device><deviceType>urn:schemas-upnp-org:device:ZonePlayer:1</deviceType><friendlyName>192.168.1.20 - Sonos One</friendlyName><roomName>Kitchen</roomName><UDN>uuid:RINCON_000E58A0123401400</UDN></device></root>";

#[test]
fn description_decodes() {
    let ip = Ipv4Addr::new(192, 168, 1, 20);
    let info = parse_description_xml(DESCRIPTION.to_string(), ip).unwrap();
    assert_eq!(info.ip_addr, ip);
    assert_eq!(info.friendly_name, "192.168.1.20 - Sonos One");
    assert_eq!(info.room_name, "Kitchen");
    assert_eq!(info.uuid, "RINCON_000E58A0123401400");
}

#[test]
fn description_requires_room_name() {
    let doc = "<root><device><friendlyName>x</friendlyName><UDN>uuid:1</UDN></device></root>";
    match parse_description_xml(doc.to_string(), Ipv4Addr::new(10, 0, 0, 1)) {
        Err(XMLError::ElementNotFound(s)) => assert_eq!(s, "roomName"),
        other => panic!("unexpected {:?}", other),
    }
}
