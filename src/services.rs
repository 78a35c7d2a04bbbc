//! The services that a speaker offers, each with its type name and control endpoint.
use vstd::prelude::*;

verus! {

/// A UPnP service of a speaker.
#[derive(Debug, Clone, Copy, PartialEq, Eq, Structural)]
pub enum Service {
    /// Playback and queue transport.
    AVTransport,
    /// Browsing of content, such as the queue.
    ContentDirectory,
    /// Volume and other rendering settings.
    RenderingControl,
}

/// The service type name, as it stands after `urn:schemas-upnp-org:service:`.
pub open spec fn service_name(s: Service) -> Seq<char> {
    match s {
        Service::AVTransport => "AVTransport:1"@,
        Service::ContentDirectory => "ContentDirectory:1"@,
        Service::RenderingControl => "RenderingControl:1"@,
    }
}

/// The path of the service's control endpoint.
pub open spec fn service_endpoint(s: Service) -> Seq<char> {
    match s {
        Service::AVTransport => "/MediaRenderer/AVTransport/Control"@,
        Service::ContentDirectory => "/MediaServer/ContentDirectory/Control"@,
        Service::RenderingControl => "/MediaRenderer/RenderingControl/Control"@,
    }
}

impl Service {
    /// The service type name, such as `AVTransport:1`.
    pub fn get_name(&self) -> (r: &'static str)
        ensures
            r@ == service_name(*self),
    {
        match self {
            Service::AVTransport => "AVTransport:1",
            Service::ContentDirectory => "ContentDirectory:1",
            Service::RenderingControl => "RenderingControl:1",
        }
    }

    /// The path of the control endpoint, such as `/MediaRenderer/AVTransport/Control`.
    pub fn get_endpoint(&self) -> (r: &'static str)
        ensures
            r@ == service_endpoint(*self),
    {
        match self {
            Service::AVTransport => "/MediaRenderer/AVTransport/Control",
            Service::ContentDirectory => "/MediaServer/ContentDirectory/Control",
            Service::RenderingControl => "/MediaRenderer/RenderingControl/Control",
        }
    }
}

} // verus!
