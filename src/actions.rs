//! The actions that a speaker is asked to perform, each as the service,
//! action name and ordered arguments of its SOAP call.
use vstd::prelude::*;
use crate::envelope::{arguments_view, rendered_document, soap_envelope};
use crate::errors::{SpeakerError, SpeakerErrorView};
use crate::protocol::{build_request, request_headers, speaker_url, SoapRequest};
use crate::services::{service_endpoint, service_name, Service};
use crate::speaker::Ipv4Addr;
use crate::text::{decimal, u8_text};

verus! {

/// An action of a speaker.
#[derive(Debug)]
pub enum SpeakerAction {
    /// Start playback of the current track.
    Play,
    /// Pause playback.
    Pause,
    /// Ask for the current track and position.
    GetCurrentTrack,
    /// Make the given URI the current track source.
    SetCurrentUri(String),
    /// Ask for the volume.
    GetVolume,
    /// Set the volume, which must be at most 100.
    SetVolume(u8),
    /// Ask for the playback status.
    GetPlaybackStatus,
    /// Play from the given position of the current track, as hh:mm:ss.
    Seek(String),
    /// Ask for the tracks of the queue.
    GetQueue,
    /// Add the track with the given URI at the end of the queue.
    AddTrackToQueue(String),
    /// Skip to the next track of the queue.
    MoveToNextTrack,
    /// Go back to the previous track of the queue.
    MoveToPreviousTrack,
    /// Remove every track from the queue.
    ClearQueue,
    /// End the control of the speaker by other services.
    EndExternalControl,
}

/// A SOAP call: the service, the action name, and the arguments in order.
#[derive(Debug)]
pub struct ActionCall {
    pub service: Service,
    pub action: String,
    pub arguments: Vec<(String, String)>,
}

/// What an [`ActionCall`] holds.
pub struct ActionCallView {
    pub service: Service,
    pub action: Seq<char>,
    pub arguments: Seq<(Seq<char>, Seq<char>)>,
}

impl View for ActionCall {
    type V = ActionCallView;

    open spec fn view(&self) -> ActionCallView {
        ActionCallView {
            service: self.service,
            action: self.action@,
            arguments: arguments_view(self.arguments@),
        }
    }
}

/// The argument that names the transport instance.
pub open spec fn instance_arg() -> (Seq<char>, Seq<char>) {
    ("InstanceID"@, "0"@)
}

/// The call that performs `a`.
pub open spec fn action_call_of(a: SpeakerAction) -> ActionCallView {
    match a {
        SpeakerAction::Play => ActionCallView {
            service: Service::AVTransport,
            action: "Play"@,
            arguments: seq![instance_arg(), ("Speed"@, "1"@)],
        },
        SpeakerAction::Pause => ActionCallView {
            service: Service::AVTransport,
            action: "Pause"@,
            arguments: seq![instance_arg()],
        },
        SpeakerAction::GetCurrentTrack => ActionCallView {
            service: Service::AVTransport,
            action: "GetPositionInfo"@,
            arguments: seq![instance_arg()],
        },
        SpeakerAction::SetCurrentUri(uri) => ActionCallView {
            service: Service::AVTransport,
            action: "SetAVTransportURI"@,
            arguments: seq![instance_arg(), ("CurrentURI"@, uri@), ("CurrentURIMetaData"@, ""@)],
        },
        SpeakerAction::GetVolume => ActionCallView {
            service: Service::RenderingControl,
            action: "GetVolume"@,
            arguments: seq![instance_arg(), ("Channel"@, "Master"@)],
        },
        SpeakerAction::SetVolume(v) => ActionCallView {
            service: Service::RenderingControl,
            action: "SetVolume"@,
            arguments: seq![
                instance_arg(),
                ("Channel"@, "Master"@),
                ("DesiredVolume"@, decimal(v as nat)),
            ],
        },
        SpeakerAction::GetPlaybackStatus => ActionCallView {
            service: Service::AVTransport,
            action: "GetTransportInfo"@,
            arguments: seq![instance_arg()],
        },
        SpeakerAction::Seek(position) => ActionCallView {
            service: Service::AVTransport,
            action: "Seek"@,
            arguments: seq![instance_arg(), ("Unit"@, "REL_TIME"@), ("Target"@, position@)],
        },
        SpeakerAction::GetQueue => ActionCallView {
            service: Service::ContentDirectory,
            action: "Browse"@,
            arguments: seq![
                ("ObjectID"@, "Q:0"@),
                ("BrowseFlag"@, "BrowseDirectChildren"@),
                ("Filter"@, "*"@),
                ("StartingIndex"@, "0"@),
                ("RequestedCount"@, "100"@),
                ("SortCriteria"@, ""@),
            ],
        },
        SpeakerAction::AddTrackToQueue(uri) => ActionCallView {
            service: Service::AVTransport,
            action: "AddURIToQueue"@,
            arguments: seq![
                instance_arg(),
                ("EnqueuedURI"@, uri@),
                ("EnqueuedURIMetaData"@, ""@),
                ("DesiredFirstTrackNumberEnqueued"@, "0"@),
                ("EnqueueAsNext"@, "0"@),
            ],
        },
        SpeakerAction::MoveToNextTrack => ActionCallView {
            service: Service::AVTransport,
            action: "Next"@,
            arguments: seq![instance_arg()],
        },
        SpeakerAction::MoveToPreviousTrack => ActionCallView {
            service: Service::AVTransport,
            action: "Previous"@,
            arguments: seq![instance_arg()],
        },
        SpeakerAction::ClearQueue => ActionCallView {
            service: Service::AVTransport,
            action: "RemoveAllTracksFromQueue"@,
            arguments: seq![instance_arg()],
        },
        SpeakerAction::EndExternalControl => ActionCallView {
            service: Service::AVTransport,
            action: "EndDirectControlSession"@,
            arguments: seq![instance_arg()],
        },
    }
}

/// Whether the caller's input to `a` is rejected: a volume above 100.
pub open spec fn rejected_input(a: SpeakerAction) -> bool {
    a matches SpeakerAction::SetVolume(v) && v > 100
}

/// The error that a rejected volume gives.
pub open spec fn invalid_volume_error(v: u8) -> SpeakerErrorView {
    SpeakerErrorView::InvalidInput("invalid volume: "@ + decimal(v as nat))
}

fn pair(key: &str, value: &str) -> (r: (String, String))
    ensures
        r.0@ == key@,
        r.1@ == value@,
{
    (key.to_owned(), value.to_owned())
}

/// The call that performs `action`, or the error for input that is rejected
/// before anything is sent.
pub fn action_call(action: &SpeakerAction) -> (r: Result<ActionCall, SpeakerError>)
    ensures
        rejected_input(*action) ==> (r matches Err(e) && *action matches SpeakerAction::SetVolume(v)
            && e@ == invalid_volume_error(v)),
        !rejected_input(*action) ==> (r matches Ok(c) && c@ == action_call_of(*action)),
{
    let mut args: Vec<(String, String)> = Vec::new();
    let (service, name) = match action {
        SpeakerAction::Play => {
            args.push(pair("InstanceID", "0"));
            args.push(pair("Speed", "1"));
            (Service::AVTransport, "Play")
        },
        SpeakerAction::Pause => {
            args.push(pair("InstanceID", "0"));
            (Service::AVTransport, "Pause")
        },
        SpeakerAction::GetCurrentTrack => {
            args.push(pair("InstanceID", "0"));
            (Service::AVTransport, "GetPositionInfo")
        },
        SpeakerAction::SetCurrentUri(uri) => {
            args.push(pair("InstanceID", "0"));
            args.push(pair("CurrentURI", uri.as_str()));
            args.push(pair("CurrentURIMetaData", ""));
            (Service::AVTransport, "SetAVTransportURI")
        },
        SpeakerAction::GetVolume => {
            args.push(pair("InstanceID", "0"));
            args.push(pair("Channel", "Master"));
            (Service::RenderingControl, "GetVolume")
        },
        SpeakerAction::SetVolume(v) => {
            let volume = u8_text(*v);
            if *v > 100 {
                return Err(
                    SpeakerError::InvalidInput(
                        String::from_str("invalid volume: ").concat(volume.as_str()),
                    ),
                );
            }
            args.push(pair("InstanceID", "0"));
            args.push(pair("Channel", "Master"));
            args.push(pair("DesiredVolume", volume.as_str()));
            (Service::RenderingControl, "SetVolume")
        },
        SpeakerAction::GetPlaybackStatus => {
            args.push(pair("InstanceID", "0"));
            (Service::AVTransport, "GetTransportInfo")
        },
        SpeakerAction::Seek(position) => {
            args.push(pair("InstanceID", "0"));
            args.push(pair("Unit", "REL_TIME"));
            args.push(pair("Target", position.as_str()));
            (Service::AVTransport, "Seek")
        },
        SpeakerAction::GetQueue => {
            args.push(pair("ObjectID", "Q:0"));
            args.push(pair("BrowseFlag", "BrowseDirectChildren"));
            args.push(pair("Filter", "*"));
            args.push(pair("StartingIndex", "0"));
            args.push(pair("RequestedCount", "100"));
            args.push(pair("SortCriteria", ""));
            (Service::ContentDirectory, "Browse")
        },
        SpeakerAction::AddTrackToQueue(uri) => {
            args.push(pair("InstanceID", "0"));
            args.push(pair("EnqueuedURI", uri.as_str()));
            args.push(pair("EnqueuedURIMetaData", ""));
            args.push(pair("DesiredFirstTrackNumberEnqueued", "0"));
            args.push(pair("EnqueueAsNext", "0"));
            (Service::AVTransport, "AddURIToQueue")
        },
        SpeakerAction::MoveToNextTrack => {
            args.push(pair("InstanceID", "0"));
            (Service::AVTransport, "Next")
        },
        SpeakerAction::MoveToPreviousTrack => {
            args.push(pair("InstanceID", "0"));
            (Service::AVTransport, "Previous")
        },
        SpeakerAction::ClearQueue => {
            args.push(pair("InstanceID", "0"));
            (Service::AVTransport, "RemoveAllTracksFromQueue")
        },
        SpeakerAction::EndExternalControl => {
            args.push(pair("InstanceID", "0"));
            (Service::AVTransport, "EndDirectControlSession")
        },
    };
    let call = ActionCall { service, action: name.to_owned(), arguments: args };
    assert(call@.arguments =~= action_call_of(*action).arguments);
    Ok(call)
}

/// The request that performs `action` on the speaker at `ip`. Rejected input
/// gives its error and no request; any other input gives the request.
pub fn prepare_request(ip: Ipv4Addr, action: &SpeakerAction) -> (r: Result<SoapRequest, SpeakerError>)
    ensures
        rejected_input(*action) ==> (r matches Err(e) && *action matches SpeakerAction::SetVolume(v)
            && e@ == invalid_volume_error(v)),
        !rejected_input(*action) ==> match r {
            Ok(req) => {
                let c = action_call_of(*action);
                &&& req.url@ == speaker_url(ip, service_endpoint(c.service))
                &&& arguments_view(req.headers@) == request_headers(c.service, c.action)
                &&& req.body@ == rendered_document(
                    soap_envelope(c.action, service_name(c.service), c.arguments),
                    true,
                    "UTF-8"@,
                )
            },
            Err(_) => false,
        },
        r is Ok || rejected_input(*action),
{
    let call = action_call(action)?;
    match build_request(ip, call.service, call.action.as_str(), &call.arguments) {
        Ok(req) => Ok(req),
        Err(e) => Err(SpeakerError::XMLError(e)),
    }
}

/// The URI that makes the queue of the speaker with ID `uuid` the current source.
pub fn queue_uri(uuid: &str) -> (r: String)
    ensures
        r@ == "x-rincon-queue:"@ + uuid@ + "#0"@,
{
    String::from_str("x-rincon-queue:").concat(uuid).concat("#0")
}

} // verus!
