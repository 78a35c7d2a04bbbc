use rusty_sonos::sanitize::clean_response_xml;

const ENVELOPE: &str = r#"<s:Envelope xmlns:s="http://schemas.xmlsoap.org/soap/envelope/" s:encodingStyle="http://schemas.xmlsoap.org/soap/encoding/"><s:Body><u:GetVolumeResponse xmlns:u="urn:schemas-upnp-org:service:RenderingControl:1"><CurrentVolume>37</CurrentVolume></u:GetVolumeResponse></s:Body></s:Envelope>"#;

#[test]
fn strips_envelope_and_action_prefixes() {
    let cleaned = clean_response_xml(ENVELOPE.to_string());
    assert_eq!(
        cleaned,
        r#"<Envelope><Body><GetVolumeResponse xmlns:u="urn:schemas-upnp-org:service:RenderingControl:1"><CurrentVolume>37</CurrentVolume></GetVolumeResponse></Body></Envelope>"#
    );
}

#[test]
fn unescapes_embedded_metadata() {
    let raw = r#"<TrackMetaData>&lt;DIDL-Lite xmlns:dc=&quot;http://purl.org/dc/elements/1.1/&quot; xmlns:upnp=&quot;urn:schemas-upnp-org:metadata-1-0/upnp/&quot; xmlns:r=&quot;urn:schemas-rinconnetworks-com:metadata-1-0/&quot; xmlns=&quot;urn:schemas-upnp-org:metadata-1-0/DIDL-Lite/&quot;&gt;&lt;item&gt;&lt;dc:title&gt;Song&lt;/dc:title&gt;&lt;dc:creator&gt;Band&lt;/dc:creator&gt;&lt;/item&gt;&lt;/DIDL-Lite&gt;</TrackMetaData>"#;
    let cleaned = clean_response_xml(raw.to_string());
    assert_eq!(
        cleaned,
        "<TrackMetaData><DIDL-Lite ><item><title>Song</title><creator>Band</creator></item></DIDL-Lite></TrackMetaData>"
    );
}

#[test]
fn sanitizing_twice_changes_nothing() {
    for raw in [
        ENVELOPE,
        "<s:s:Body>&lt;u:Play&gt;</s:s:Body>",
        "&lt;dc:title&gt;x&lt;/dc:title&gt;",
        "<plain>text &amp; more</plain>",
        "",
    ] {
        let once = clean_response_xml(raw.to_string());
        let twice = clean_response_xml(once.clone());
        assert_eq!(once, twice);
    }
}

#[test]
fn nested_prefixes_are_stripped_to_a_fixed_point() {
    assert_eq!(clean_response_xml("<s:s:Body/>".to_string()), "<Body/>");
    assert_eq!(clean_response_xml("&lt;s:Body&gt;".to_string()), "<Body>");
}

#[test]
fn text_without_prefixes_is_unchanged() {
    let raw = "<a><b x=\"1\">text</b></a>";
    assert_eq!(clean_response_xml(raw.to_string()), raw);
}
