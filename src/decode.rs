//! Decoding of response bodies into typed values.
//!
//! A response is sanitized, parsed, and the required tags are looked up by
//! local name, the first in document order. A missing required tag, or one
//! without text, is an error that names it (two distinct errors); the optional fields (title,
//! artist, duration of a queue entry) are `None` when absent.
use vstd::prelude::*;
use crate::errors::{XMLError, XMLErrorView};
use crate::responses::{
    playback_state_of, CurrentTrack, CurrentTrackView, PlaybackState, PlaybackStatus,
    PlaybackStatusView, QueueItem, QueueItemView,
};
use crate::sanitize::{clean_response_xml, sanitized};
use crate::speaker::{BasicSpeakerInfo, BasicSpeakerInfoView, Ipv4Addr};
use crate::text::{parse_u8, parse_u8_spec, strip_prefix, strip_prefix_spec};
use crate::xml::{
    first_tag, is_tag, nodes_view, optional_tag_text, optional_tag_text_in, parse_xml,
    parsed_nodes, subtree_end, subtree_end_of, tag_text, tag_text_in, XmlNode, XmlNodeView,
};

verus! {

/// The nodes of a response body once it is sanitized; `None` where it is not XML.
pub open spec fn response_nodes(xml: Seq<char>) -> Option<Seq<XmlNodeView>> {
    parsed_nodes(sanitized(xml))
}

/// The text of the first element named `tag` in the whole document.
pub open spec fn doc_text(nodes: Seq<XmlNodeView>, tag: Seq<char>) -> Result<Seq<char>, XMLErrorView> {
    tag_text(nodes, 0, nodes.len() as int, tag)
}

/// What the nodes of a volume response decode to.
pub open spec fn volume_of_nodes(nodes: Seq<XmlNodeView>) -> Result<u8, XMLErrorView> {
    match doc_text(nodes, "CurrentVolume"@) {
        Err(e) => Err(e),
        Ok(t) => match parse_u8_spec(t) {
            Some(v) => Ok(v),
            None => Err(XMLErrorView::UnexpectedValue("invalid volume: "@ + t)),
        },
    }
}

/// What a volume response decodes to.
pub open spec fn volume_decoding(xml: Seq<char>) -> Result<u8, XMLErrorView> {
    match response_nodes(xml) {
        None => Err(XMLErrorView::ParseError),
        Some(nodes) => volume_of_nodes(nodes),
    }
}

/// What the nodes of a position-info response decode to.
pub open spec fn current_track_of_nodes(nodes: Seq<XmlNodeView>) -> Result<CurrentTrackView, XMLErrorView> {
    match doc_text(nodes, "TrackDuration"@) {
        Err(e) => Err(e),
        Ok(duration) => match doc_text(nodes, "TrackURI"@) {
            Err(e) => Err(e),
            Ok(uri) => match doc_text(nodes, "RelTime"@) {
                Err(e) => Err(e),
                Ok(position) => Ok(
                    CurrentTrackView {
                        position,
                        duration,
                        uri,
                        title: optional_tag_text(nodes, 0, nodes.len() as int, "title"@),
                        artist: optional_tag_text(nodes, 0, nodes.len() as int, "creator"@),
                    },
                ),
            },
        },
    }
}

/// What a position-info response decodes to.
pub open spec fn current_track_decoding(xml: Seq<char>) -> Result<CurrentTrackView, XMLErrorView> {
    match response_nodes(xml) {
        None => Err(XMLErrorView::ParseError),
        Some(nodes) => current_track_of_nodes(nodes),
    }
}

/// What the nodes of a transport-info response decode to.
pub open spec fn playback_status_of_nodes(nodes: Seq<XmlNodeView>) -> Result<PlaybackStatusView, XMLErrorView> {
    match doc_text(nodes, "CurrentTransportState"@) {
        Err(e) => Err(e),
        Ok(state) => match playback_state_of(state) {
            None => Err(XMLErrorView::UnexpectedValue("invalid playback state: "@ + state)),
            Some(playback_state) => match doc_text(nodes, "CurrentTransportStatus"@) {
                Err(e) => Err(e),
                Ok(status) => Ok(PlaybackStatusView { playback_state, status }),
            },
        },
    }
}

/// What a transport-info response decodes to.
pub open spec fn playback_status_decoding(xml: Seq<char>) -> Result<PlaybackStatusView, XMLErrorView> {
    match response_nodes(xml) {
        None => Err(XMLErrorView::ParseError),
        Some(nodes) => playback_status_of_nodes(nodes),
    }
}

/// The error code that an error response carries.
pub open spec fn error_code_decoding(xml: Seq<char>) -> Result<Seq<char>, XMLErrorView> {
    match response_nodes(xml) {
        None => Err(XMLErrorView::ParseError),
        Some(nodes) => doc_text(nodes, "errorCode"@),
    }
}

/// What the nodes of a device description decode to, for the speaker at `ip`.
pub open spec fn description_of_nodes(nodes: Seq<XmlNodeView>, ip: Ipv4Addr) -> Result<
    BasicSpeakerInfoView,
    XMLErrorView,
> {
    match doc_text(nodes, "friendlyName"@) {
        Err(e) => Err(e),
        Ok(friendly_name) => match doc_text(nodes, "roomName"@) {
            Err(e) => Err(e),
            Ok(room_name) => match doc_text(nodes, "UDN"@) {
                Err(e) => Err(e),
                Ok(udn) => Ok(
                    BasicSpeakerInfoView {
                        ip_addr: ip,
                        friendly_name,
                        room_name,
                        uuid: strip_prefix_spec(udn, "uuid:"@),
                    },
                ),
            },
        },
    }
}

/// What a device description document decodes to, for the speaker at `ip`.
/// The document is not sanitized: it has no SOAP envelope.
pub open spec fn description_decoding(xml: Seq<char>, ip: Ipv4Addr) -> Result<
    BasicSpeakerInfoView,
    XMLErrorView,
> {
    match parsed_nodes(xml) {
        None => Err(XMLErrorView::ParseError),
        Some(nodes) => description_of_nodes(nodes, ip),
    }
}

/// The value of the first attribute named `name`.
pub open spec fn attribute_value(attributes: Seq<(Seq<char>, Seq<char>)>, name: Seq<char>) -> Option<
    Seq<char>,
>
    decreases attributes.len(),
{
    if attributes.len() == 0 {
        None
    } else if attributes[0].0 == name {
        Some(attributes[0].1)
    } else {
        attribute_value(attributes.drop_first(), name)
    }
}

/// What the queue entry at `item` decodes to. Every lookup is confined to
/// the entry's own subtree.
pub open spec fn queue_item_decoding(nodes: Seq<XmlNodeView>, item: int) -> Result<
    QueueItemView,
    XMLErrorView,
> {
    let end = subtree_end(nodes, item);
    match first_tag(nodes, item, end, "res"@) {
        None => Err(XMLErrorView::ElementNotFound("res"@)),
        Some(res) => match nodes[res].text {
            None => Err(XMLErrorView::EmptyElement("res"@)),
            Some(uri) => Ok(
                QueueItemView {
                    duration: attribute_value(nodes[res].attributes, "duration"@),
                    uri,
                    title: optional_tag_text(nodes, item, end, "title"@),
                    artist: optional_tag_text(nodes, item, end, "artist"@),
                },
            ),
        },
    }
}

/// The queue entries at or after position `lo`, each `item` element decoded
/// in document order; the first entry that fails gives the error.
pub open spec fn queue_scan(nodes: Seq<XmlNodeView>, lo: int) -> Result<Seq<QueueItemView>, XMLErrorView>
    decreases nodes.len() - lo,
{
    if lo < 0 || lo >= nodes.len() {
        Ok(Seq::empty())
    } else if is_tag(nodes[lo], "item"@) {
        match queue_item_decoding(nodes, lo) {
            Err(e) => Err(e),
            Ok(entry) => match queue_scan(nodes, lo + 1) {
                Err(e) => Err(e),
                Ok(rest) => Ok(seq![entry] + rest),
            },
        }
    } else {
        queue_scan(nodes, lo + 1)
    }
}

/// What a browse response for the queue decodes to.
pub open spec fn queue_decoding(xml: Seq<char>) -> Result<Seq<QueueItemView>, XMLErrorView> {
    match response_nodes(xml) {
        None => Err(XMLErrorView::ParseError),
        Some(nodes) => queue_scan(nodes, 0),
    }
}

/// The positions of the elements named `name` at or after `lo`, in document order.
pub open spec fn tag_positions(nodes: Seq<XmlNodeView>, lo: int, name: Seq<char>) -> Seq<int>
    decreases nodes.len() - lo,
{
    if lo < 0 || lo >= nodes.len() {
        Seq::empty()
    } else if is_tag(nodes[lo], name) {
        seq![lo] + tag_positions(nodes, lo + 1, name)
    } else {
        tag_positions(nodes, lo + 1, name)
    }
}

/// Queue entries do not take fields from one another: where a queue decodes,
/// it has one entry per `item` element, and the title, artist and URI of each
/// are those found within that element's own subtree.
pub proof fn lemma_queue_entries_scoped(nodes: Seq<XmlNodeView>, lo: int)
    requires
        0 <= lo,
        queue_scan(nodes, lo) is Ok,
    ensures
        ({
            let entries = queue_scan(nodes, lo)->Ok_0;
            let items = tag_positions(nodes, lo, "item"@);
            &&& entries.len() == items.len()
            &&& forall|k: int|
                0 <= k < entries.len() ==> {
                    let end = subtree_end(nodes, #[trigger] items[k]);
                    &&& entries[k].title == optional_tag_text(nodes, items[k], end, "title"@)
                    &&& entries[k].artist == optional_tag_text(nodes, items[k], end, "artist"@)
                    &&& queue_item_decoding(nodes, items[k]) == Ok::<QueueItemView, XMLErrorView>(
                        entries[k],
                    )
                }
        }),
    decreases nodes.len() - lo,
{
    if lo < nodes.len() {
        lemma_queue_entries_scoped(nodes, lo + 1);
        if is_tag(nodes[lo], "item"@) {
            let entries = queue_scan(nodes, lo)->Ok_0;
            let rest = queue_scan(nodes, lo + 1)->Ok_0;
            let items = tag_positions(nodes, lo, "item"@);
            let later = tag_positions(nodes, lo + 1, "item"@);
            assert forall|k: int| 0 < k < entries.len() implies entries[k] == rest[k - 1]
                && items[k] == later[k - 1] by {}
        }
    }
}

/// Decodes the nodes of a volume response: the text of `CurrentVolume`,
/// which must be a `u8`.
pub fn decode_volume(nodes: &Vec<XmlNode>) -> (r: Result<u8, XMLError>)
    ensures
        match r {
            Ok(v) => volume_of_nodes(nodes_view(nodes@)) == Ok::<u8, XMLErrorView>(v),
            Err(e) => volume_of_nodes(nodes_view(nodes@)) == Err::<u8, XMLErrorView>(e@),
        },
{
    let volume = tag_text_in(nodes, 0, nodes.len(), "CurrentVolume")?;
    match parse_u8(volume.as_str()) {
        Some(v) => Ok(v),
        None => Err(XMLError::UnexpectedValue(String::from_str("invalid volume: ").concat(volume.as_str()))),
    }
}

/// Decodes a volume response.
pub fn parse_getvolume_xml(xml: String) -> (r: Result<u8, XMLError>)
    ensures
        match r {
            Ok(v) => volume_decoding(xml@) == Ok::<u8, XMLErrorView>(v),
            Err(e) => volume_decoding(xml@) == Err::<u8, XMLErrorView>(e@),
        },
{
    let xml = clean_response_xml(xml);
    let nodes = parse_xml(xml.as_str())?;
    decode_volume(&nodes)
}

/// Decodes the nodes of a position-info response into the current track.
pub fn decode_current_track(nodes: &Vec<XmlNode>) -> (r: Result<CurrentTrack, XMLError>)
    ensures
        match r {
            Ok(t) => current_track_of_nodes(nodes_view(nodes@)) == Ok::<CurrentTrackView, XMLErrorView>(t@),
            Err(e) => current_track_of_nodes(nodes_view(nodes@)) == Err::<CurrentTrackView, XMLErrorView>(e@),
        },
{
    let n = nodes.len();
    let duration = tag_text_in(nodes, 0, n, "TrackDuration")?;
    let uri = tag_text_in(nodes, 0, n, "TrackURI")?;
    let position = tag_text_in(nodes, 0, n, "RelTime")?;
    let title = optional_tag_text_in(nodes, 0, n, "title");
    let artist = optional_tag_text_in(nodes, 0, n, "creator");
    Ok(CurrentTrack { position, duration, uri, title, artist })
}

/// Decodes a position-info response into the current track.
pub fn parse_current_track_xml(xml: String) -> (r: Result<CurrentTrack, XMLError>)
    ensures
        match r {
            Ok(t) => current_track_decoding(xml@) == Ok::<CurrentTrackView, XMLErrorView>(t@),
            Err(e) => current_track_decoding(xml@) == Err::<CurrentTrackView, XMLErrorView>(e@),
        },
{
    let xml = clean_response_xml(xml);
    let nodes = parse_xml(xml.as_str())?;
    decode_current_track(&nodes)
}

/// Decodes the nodes of a transport-info response into the playback status.
pub fn decode_playback_status(nodes: &Vec<XmlNode>) -> (r: Result<PlaybackStatus, XMLError>)
    ensures
        match r {
            Ok(s) => playback_status_of_nodes(nodes_view(nodes@)) == Ok::<PlaybackStatusView, XMLErrorView>(s@),
            Err(e) => playback_status_of_nodes(nodes_view(nodes@)) == Err::<PlaybackStatusView, XMLErrorView>(e@),
        },
{
    let n = nodes.len();
    let state = tag_text_in(nodes, 0, n, "CurrentTransportState")?;
    let playback_state = match PlaybackState::new(state.as_str()) {
        Ok(p) => p,
        Err(_) => {
            return Err(
                XMLError::UnexpectedValue(
                    String::from_str("invalid playback state: ").concat(state.as_str()),
                ),
            );
        },
    };
    let status = tag_text_in(nodes, 0, n, "CurrentTransportStatus")?;
    Ok(PlaybackStatus { playback_state, status })
}

/// Decodes a transport-info response into the playback status.
pub fn parse_playback_status_xml(xml: String) -> (r: Result<PlaybackStatus, XMLError>)
    ensures
        match r {
            Ok(s) => playback_status_decoding(xml@) == Ok::<PlaybackStatusView, XMLErrorView>(s@),
            Err(e) => playback_status_decoding(xml@) == Err::<PlaybackStatusView, XMLErrorView>(e@),
        },
{
    let xml = clean_response_xml(xml);
    let nodes = parse_xml(xml.as_str())?;
    decode_playback_status(&nodes)
}

/// Reads the error code from the nodes of an error response.
pub fn decode_error_code(nodes: &Vec<XmlNode>) -> (r: Result<String, XMLError>)
    ensures
        match r {
            Ok(c) => doc_text(nodes_view(nodes@), "errorCode"@) == Ok::<Seq<char>, XMLErrorView>(c@),
            Err(e) => doc_text(nodes_view(nodes@), "errorCode"@) == Err::<Seq<char>, XMLErrorView>(e@),
        },
{
    tag_text_in(nodes, 0, nodes.len(), "errorCode")
}

/// Reads the error code of an error response.
pub fn get_error_code(xml: String) -> (r: Result<String, XMLError>)
    ensures
        match r {
            Ok(c) => error_code_decoding(xml@) == Ok::<Seq<char>, XMLErrorView>(c@),
            Err(e) => error_code_decoding(xml@) == Err::<Seq<char>, XMLErrorView>(e@),
        },
{
    let xml = clean_response_xml(xml);
    let nodes = parse_xml(xml.as_str())?;
    decode_error_code(&nodes)
}

/// Decodes the nodes of the description document of the speaker at `ip_addr`.
pub fn decode_description(nodes: &Vec<XmlNode>, ip_addr: Ipv4Addr) -> (r: Result<BasicSpeakerInfo, XMLError>)
    ensures
        match r {
            Ok(info) => description_of_nodes(nodes_view(nodes@), ip_addr) == Ok::<
                BasicSpeakerInfoView,
                XMLErrorView,
            >(info@),
            Err(e) => description_of_nodes(nodes_view(nodes@), ip_addr) == Err::<
                BasicSpeakerInfoView,
                XMLErrorView,
            >(e@),
        },
{
    let n = nodes.len();
    let friendly_name = tag_text_in(nodes, 0, n, "friendlyName")?;
    let room_name = tag_text_in(nodes, 0, n, "roomName")?;
    let udn = tag_text_in(nodes, 0, n, "UDN")?;
    let uuid = strip_prefix(udn.as_str(), "uuid:");
    Ok(BasicSpeakerInfo { ip_addr, friendly_name, room_name, uuid })
}

/// Decodes the description document of the speaker at `ip_addr`.
pub fn parse_description_xml(xml: String, ip_addr: Ipv4Addr) -> (r: Result<BasicSpeakerInfo, XMLError>)
    ensures
        match r {
            Ok(info) => description_decoding(xml@, ip_addr) == Ok::<
                BasicSpeakerInfoView,
                XMLErrorView,
            >(info@),
            Err(e) => description_decoding(xml@, ip_addr) == Err::<BasicSpeakerInfoView, XMLErrorView>(
                e@,
            ),
        },
{
    let nodes = parse_xml(xml.as_str())?;
    decode_description(&nodes, ip_addr)
}

/// The value of the first attribute named `name`.
pub fn find_attribute(attributes: &Vec<(String, String)>, name: &str) -> (r: Option<String>)
    ensures
        crate::xml::opt_view(r) == attribute_value(
            attributes@.map_values(|a: (String, String)| (a.0@, a.1@)),
            name@,
        ),
{
    let ghost v = attributes@.map_values(|a: (String, String)| (a.0@, a.1@));
    let wanted = name.to_owned();
    let mut i: usize = 0;
    assert(v.subrange(0, v.len() as int) =~= v);
    while i < attributes.len()
        invariant
            i <= attributes@.len(),
            v == attributes@.map_values(|a: (String, String)| (a.0@, a.1@)),
            wanted@ == name@,
            attribute_value(v, name@) == attribute_value(v.subrange(i as int, v.len() as int), name@),
        decreases attributes.len() - i,
    {
        let ghost rest = v.subrange(i as int, v.len() as int);
        assert(rest.drop_first() =~= v.subrange(i + 1, v.len() as int));
        assert(rest[0] == (attributes@[i as int].0@, attributes@[i as int].1@));
        if attributes[i].0 == wanted {
            return Some(attributes[i].1.clone());
        }
        i += 1;
    }
    None
}

/// Decodes the queue entry at position `item`, looking only within its subtree.
pub fn parse_queue_item(nodes: &Vec<XmlNode>, item: usize) -> (r: Result<QueueItem, XMLError>)
    requires
        item < nodes@.len(),
    ensures
        match r {
            Ok(q) => queue_item_decoding(nodes_view(nodes@), item as int) == Ok::<
                QueueItemView,
                XMLErrorView,
            >(q@),
            Err(e) => queue_item_decoding(nodes_view(nodes@), item as int) == Err::<
                QueueItemView,
                XMLErrorView,
            >(e@),
        },
{
    let end = subtree_end_of(nodes, item);
    let res = match crate::xml::find_tag(nodes, item, end, "res") {
        Some(j) => j,
        None => {
            return Err(XMLError::ElementNotFound("res".to_owned()));
        },
    };
    proof {
        crate::xml::lemma_first_tag_in_range(nodes_view(nodes@), item as int, end as int, "res"@);
    }
    assert(nodes_view(nodes@)[res as int] == nodes@[res as int]@);
    let uri = match &nodes[res].text {
        Some(t) => t.clone(),
        None => {
            return Err(XMLError::EmptyElement("res".to_owned()));
        },
    };
    let duration = find_attribute(&nodes[res].attributes, "duration");
    let title = optional_tag_text_in(nodes, item, end, "title");
    let artist = optional_tag_text_in(nodes, item, end, "artist");
    Ok(QueueItem { duration, uri, title, artist })
}

/// Decodes the nodes of a browse response into the queue: one entry per
/// `item` element, in document order, each decoded within its own subtree.
pub fn decode_queue(nodes: &Vec<XmlNode>) -> (r: Result<Vec<QueueItem>, XMLError>)
    ensures
        match r {
            Ok(items) => queue_scan(nodes_view(nodes@), 0) == Ok::<Seq<QueueItemView>, XMLErrorView>(
                items@.map_values(|q: QueueItem| q@),
            ),
            Err(e) => queue_scan(nodes_view(nodes@), 0) == Err::<Seq<QueueItemView>, XMLErrorView>(e@),
        },
{
    let ghost v = nodes_view(nodes@);
    let mut items: Vec<QueueItem> = Vec::new();
    let mut i: usize = 0;
    while i < nodes.len()
        invariant
            i <= nodes@.len(),
            v == nodes_view(nodes@),
            queue_scan(v, 0) == match queue_scan(v, i as int) {
                Ok(rest) => Ok(items@.map_values(|q: QueueItem| q@) + rest),
                Err(e) => Err::<Seq<QueueItemView>, XMLErrorView>(e),
            },
        decreases nodes.len() - i,
    {
        assert(v[i as int] == nodes@[i as int]@);
        if nodes[i].is_element && nodes[i].name == "item".to_owned() {
            let entry = parse_queue_item(nodes, i)?;
            let ghost before = items@.map_values(|q: QueueItem| q@);
            items.push(entry);
            assert(items@.map_values(|q: QueueItem| q@) =~= before.push(entry@));
            proof {
                match queue_scan(v, i + 1) {
                    Ok(rest) => {
                        assert(before + (seq![entry@] + rest) =~= before.push(entry@) + rest);
                    },
                    Err(_) => {},
                }
            }
        }
        i += 1;
    }
    assert(queue_scan(v, i as int) == Ok::<Seq<QueueItemView>, XMLErrorView>(Seq::empty()));
    assert(items@.map_values(|q: QueueItem| q@) + Seq::<QueueItemView>::empty() =~= items@.map_values(
        |q: QueueItem| q@,
    ));
    Ok(items)
}

/// Decodes a browse response into the queue.
pub fn parse_queue_xml(xml: String) -> (r: Result<Vec<QueueItem>, XMLError>)
    ensures
        match r {
            Ok(items) => queue_decoding(xml@) == Ok::<Seq<QueueItemView>, XMLErrorView>(
                items@.map_values(|q: QueueItem| q@),
            ),
            Err(e) => queue_decoding(xml@) == Err::<Seq<QueueItemView>, XMLErrorView>(e@),
        },
{
    let xml = clean_response_xml(xml);
    let nodes = parse_xml(xml.as_str())?;
    decode_queue(&nodes)
}

} // verus!
