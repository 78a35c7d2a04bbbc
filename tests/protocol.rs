use rusty_sonos::actions::{action_call, prepare_request, queue_uri, SpeakerAction};
use rusty_sonos::errors::{SonosError, SpeakerError, XMLError};
use rusty_sonos::protocol::{build_request, build_sonos_url, description_url, handle_description, handle_response};
use rusty_sonos::services::Service;
use rusty_sonos::speaker::{BasicSpeakerInfo, Ipv4Addr};

fn fault(code: &str) -> String {
    format!(
        "<s:Envelope xmlns:s=\"http://schemas.xmlsoap.org/soap/envelope/\"><s:Body><s:Fault><detail><UPnPError><errorCode>{code}</errorCode></UPnPError></detail></s:Fault></s:Body></s:Envelope>"
    )
}

#[test]
fn error_codes_map_to_device_errors() {
    assert!(matches!(SonosError::from_err_code("701", "HTTP status code: 500"), SonosError::TransitionUnavailable));
    assert!(matches!(SonosError::from_err_code("711", "HTTP status code: 500"), SonosError::InvalidSeekTarget));
    match SonosError::from_err_code("402", "HTTP status code: 500 Internal Server Error") {
        SonosError::Unknown(s) => {
            assert_eq!(s, "error code 402, HTTP status code: 500 Internal Server Error");
        }
        other => panic!("unexpected {:?}", other),
    }
}

#[test]
fn failure_answers_carry_the_device_error() {
    match handle_response(500, "500 Internal Server Error", fault("701")) {
        Err(SpeakerError::SonosError(SonosError::TransitionUnavailable)) => {}
        other => panic!("unexpected {:?}", other),
    }
    match handle_response(500, "500 Internal Server Error", fault("714")) {
        Err(SpeakerError::SonosError(SonosError::Unknown(s))) => {
            assert!(s.contains("714"));
            assert!(s.contains("500 Internal Server Error"));
        }
        other => panic!("unexpected {:?}", other),
    }
}

#[test]
fn failure_without_error_code_keeps_the_status() {
    match handle_response(404, "404 Not Found", "<html>missing</html>".to_string()) {
        Err(SpeakerError::UnreadableError(status, XMLError::ElementNotFound(tag))) => {
            assert_eq!(status, "404 Not Found");
            assert_eq!(tag, "errorCode");
        }
        other => panic!("unexpected {:?}", other),
    }
    assert!(matches!(
        handle_response(502, "502 Bad Gateway", "not xml".to_string()),
        Err(SpeakerError::UnreadableError(_, XMLError::ParseError(_)))
    ));
}

#[test]
fn success_answer_is_the_body() {
    assert_eq!(handle_response(200, "200 OK", "<ok/>".to_string()).unwrap(), "<ok/>");
}

#[test]
fn urls_and_headers() {
    let ip = Ipv4Addr::new(192, 168, 1, 20);
    assert_eq!(ip.to_string(), "192.168.1.20");
    assert_eq!(Ipv4Addr::new(0, 9, 10, 255).to_string(), "0.9.10.255");
    assert_eq!(build_sonos_url(ip, "/x"), "http://192.168.1.20:1400/x");
    assert_eq!(description_url(ip), "http://192.168.1.20:1400/xml/device_description.xml");
    let req = build_request(ip, Service::RenderingControl, "GetVolume", &vec![("InstanceID".to_string(), "0".to_string())]).unwrap();
    assert_eq!(req.url, "http://192.168.1.20:1400/MediaRenderer/RenderingControl/Control");
    assert_eq!(
        req.headers,
        vec![
            ("Content-Type".to_string(), "text/xml".to_string()),
            ("SOAPACTION".to_string(), "urn:schemas-upnp-org:service:RenderingControl:1#GetVolume".to_string()),
        ]
    );
    assert!(String::from_utf8(req.body).unwrap().contains("<InstanceID>0</InstanceID>"));
}

#[test]
fn volume_above_one_hundred_is_rejected_before_sending() {
    match action_call(&SpeakerAction::SetVolume(101)) {
        Err(SpeakerError::InvalidInput(s)) => assert_eq!(s, "invalid volume: 101"),
        other => panic!("unexpected {:?}", other),
    }
    assert!(matches!(
        prepare_request(Ipv4Addr::new(10, 0, 0, 2), &SpeakerAction::SetVolume(255)),
        Err(SpeakerError::InvalidInput(_))
    ));
}

#[test]
fn volume_up_to_one_hundred_passes_validation() {
    let call = action_call(&SpeakerAction::SetVolume(100)).unwrap();
    assert_eq!(call.service, Service::RenderingControl);
    assert_eq!(call.action, "SetVolume");
    assert_eq!(
        call.arguments,
        vec![
            ("InstanceID".to_string(), "0".to_string()),
            ("Channel".to_string(), "Master".to_string()),
            ("DesiredVolume".to_string(), "100".to_string()),
        ]
    );
    let call = action_call(&SpeakerAction::SetVolume(0)).unwrap();
    assert_eq!(call.arguments[2].1, "0");
    let req = prepare_request(Ipv4Addr::new(10, 0, 0, 2), &SpeakerAction::SetVolume(0)).unwrap();
    assert_eq!(req.headers[1].1, "urn:schemas-upnp-org:service:RenderingControl:1#SetVolume");
}

#[test]
fn play_call_table() {
    let call = action_call(&SpeakerAction::Play).unwrap();
    assert_eq!(call.service, Service::AVTransport);
    assert_eq!(call.action, "Play");
    assert_eq!(
        call.arguments,
        vec![("InstanceID".to_string(), "0".to_string()), ("Speed".to_string(), "1".to_string())]
    );
    let queue = action_call(&SpeakerAction::GetQueue).unwrap();
    assert_eq!(queue.service, Service::ContentDirectory);
    assert_eq!(queue.action, "Browse");
    assert_eq!(queue.arguments.len(), 6);
    let seek = action_call(&SpeakerAction::Seek("0:01:00".to_string())).unwrap();
    assert_eq!(seek.arguments[2], ("Target".to_string(), "0:01:00".to_string()));
}

#[test]
fn queue_uri_names_the_speaker() {
    assert_eq!(queue_uri("RINCON_1"), "x-rincon-queue:RINCON_1#0");
}

#[test]
fn description_answer_decodes_or_fails() {
    let ip = Ipv4Addr::new(192, 168, 1, 30);
    let doc = "<root><device><friendlyName>f</friendlyName><roomName>Den</roomName><UDN>uuid:RINCON_9</UDN></device></root>";
    let info: BasicSpeakerInfo = handle_description(ip, 200, "200 OK", doc.to_string()).unwrap();
    assert_eq!(info.uuid, "RINCON_9");
    assert_eq!(info.room_name, "Den");
    assert!(matches!(
        handle_description(ip, 200, "200 OK", "<root/>".to_string()),
        Err(SpeakerError::XMLError(XMLError::ElementNotFound(_)))
    ));
    assert!(matches!(
        handle_description(ip, 500, "500 Internal Server Error", fault("711")),
        Err(SpeakerError::SonosError(SonosError::InvalidSeekTarget))
    ));
}
