use rusty_sonos::envelope::generate_xml;
use rusty_sonos::services::Service;
use rusty_sonos::xml::{get_tag_by_name, get_tag_by_name_node, get_text, parse_xml, subtree_end_of};

fn args(pairs: &[(&str, &str)]) -> Vec<(String, String)> {
    pairs.iter().map(|(k, v)| (k.to_string(), v.to_string())).collect()
}

#[test]
fn play_request_document() {
    let bytes = generate_xml("Play", &Service::AVTransport, &args(&[("InstanceID", "0"), ("Speed", "1")]))
        .unwrap();
    let text = String::from_utf8(bytes).unwrap();
    assert_eq!(
        text,
        "<?xml version=\"1.1\" encoding=\"UTF-8\"?>\n\
         <s:Envelope xmlns:s=\"http://schemas.xmlsoap.org/soap/envelope/\" s:encodingStyle=\"http://schemas.xmlsoap.org/soap/encoding/\">\n\
         \t<s:Body>\n\
         \t\t<u:Play xmlns:u=\"urn:schemas-upnp-org:service:AVTransport:1\">\n\
         \t\t\t<InstanceID>0</InstanceID>\n\
         \t\t\t<Speed>1</Speed>\n\
         \t\t</u:Play>\n\
         \t</s:Body>\n\
         </s:Envelope>\n"
    );
}

#[test]
fn play_request_round_trip() {
    let bytes = generate_xml("Play", &Service::AVTransport, &args(&[("InstanceID", "0"), ("Speed", "1")]))
        .unwrap();
    let text = String::from_utf8(bytes).unwrap();
    let nodes = parse_xml(&text).unwrap();
    let envelope = get_tag_by_name(&nodes, "Envelope").unwrap();
    assert!(nodes[envelope].is_element);
    let action = get_tag_by_name(&nodes, "Play").unwrap();
    assert_eq!(nodes[action].name, "Play");
    let end = subtree_end_of(&nodes, action);
    let children: Vec<&str> = (action + 1..end)
        .filter(|&i| nodes[i].is_element)
        .map(|i| nodes[i].name.as_str())
        .collect();
    assert_eq!(children, vec!["InstanceID", "Speed"]);
    let instance = get_tag_by_name_node(&nodes, action, "InstanceID").unwrap();
    assert_eq!(get_text(&nodes, instance).unwrap(), "0");
    let speed = get_tag_by_name_node(&nodes, action, "Speed").unwrap();
    assert_eq!(get_text(&nodes, speed).unwrap(), "1");
}

#[test]
fn action_without_arguments_is_empty_element() {
    let bytes = generate_xml("Pause", &Service::RenderingControl, &Vec::new()).unwrap();
    let text = String::from_utf8(bytes).unwrap();
    assert!(text.contains("<u:Pause xmlns:u=\"urn:schemas-upnp-org:service:RenderingControl:1\" />"));
}

#[test]
fn arguments_keep_their_order() {
    let bytes = generate_xml(
        "Browse",
        &Service::ContentDirectory,
        &args(&[("ObjectID", "Q:0"), ("BrowseFlag", "BrowseDirectChildren"), ("SortCriteria", "")]),
    )
    .unwrap();
    let text = String::from_utf8(bytes).unwrap();
    let a = text.find("<ObjectID>Q:0</ObjectID>").unwrap();
    let b = text.find("<BrowseFlag>BrowseDirectChildren</BrowseFlag>").unwrap();
    let c = text.find("<SortCriteria></SortCriteria>").unwrap();
    assert!(a < b && b < c);
    assert!(text.contains("urn:schemas-upnp-org:service:ContentDirectory:1"));
}

#[test]
fn service_names_and_endpoints() {
    assert_eq!(Service::AVTransport.get_name(), "AVTransport:1");
    assert_eq!(Service::ContentDirectory.get_name(), "ContentDirectory:1");
    assert_eq!(Service::RenderingControl.get_name(), "RenderingControl:1");
    assert_eq!(Service::AVTransport.get_endpoint(), "/MediaRenderer/AVTransport/Control");
    assert_eq!(Service::ContentDirectory.get_endpoint(), "/MediaServer/ContentDirectory/Control");
    assert_eq!(Service::RenderingControl.get_endpoint(), "/MediaRenderer/RenderingControl/Control");
}
