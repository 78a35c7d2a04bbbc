//! The requests sent to a speaker and the handling of its answers.
//!
//! Nothing here touches the network: these functions say what to send, and
//! what an answer means, for a caller that does the sending.
use vstd::prelude::*;
use crate::decode::{description_decoding, error_code_decoding, get_error_code, parse_description_xml};
use crate::envelope::{arguments_view, generate_xml, rendered_document, soap_envelope};
use crate::errors::{
    sonos_error_of, SonosError, SpeakerError, SpeakerErrorView, XMLError,
};
use crate::services::{service_endpoint, service_name, Service};
use crate::speaker::{ipv4_text, BasicSpeakerInfo, BasicSpeakerInfoView, Ipv4Addr};

verus! {

/// The URL of `endpoint` on the speaker at `ip`.
pub open spec fn speaker_url(ip: Ipv4Addr, endpoint: Seq<char>) -> Seq<char> {
    "http://"@ + ipv4_text(ip) + ":1400"@ + endpoint
}

/// The URL of `endpoint` on the speaker at `ip`, such as
/// `http://192.168.1.20:1400/xml/device_description.xml`.
pub fn build_sonos_url(ip: Ipv4Addr, endpoint: &str) -> (r: String)
    ensures
        r@ == speaker_url(ip, endpoint@),
{
    String::from_str("http://").concat(ip.to_string().as_str()).concat(":1400").concat(endpoint)
}

/// The URL of the description document of the speaker at `ip`.
pub fn description_url(ip: Ipv4Addr) -> (r: String)
    ensures
        r@ == speaker_url(ip, "/xml/device_description.xml"@),
{
    build_sonos_url(ip, "/xml/device_description.xml")
}

/// The value of the `SOAPACTION` header for `action` on `service`.
pub open spec fn soap_action_text(service: Service, action: Seq<char>) -> Seq<char> {
    "urn:schemas-upnp-org:service:"@ + service_name(service) + "#"@ + action
}

/// The headers of a call of `action` on `service`: the content type, then the SOAP action.
pub open spec fn request_headers(service: Service, action: Seq<char>) -> Seq<(Seq<char>, Seq<char>)> {
    seq![("Content-Type"@, "text/xml"@), ("SOAPACTION"@, soap_action_text(service, action))]
}

/// A SOAP request, ready to be posted.
#[derive(Debug)]
pub struct SoapRequest {
    /// Where the request is posted.
    pub url: String,
    /// The headers to send, as names and values, in order.
    pub headers: Vec<(String, String)>,
    /// The envelope, as the request body.
    pub body: Vec<u8>,
}

/// The request that calls `action` on `service` of the speaker at `ip`. It always succeeds.
pub fn build_request(ip: Ipv4Addr, service: Service, action: &str, arguments: &Vec<(String, String)>) -> (r: Result<
    SoapRequest,
    XMLError,
>)
    ensures
        match r {
            Ok(req) => {
                &&& req.url@ == speaker_url(ip, service_endpoint(service))
                &&& arguments_view(req.headers@) == request_headers(service, action@)
                &&& req.body@ == rendered_document(
                    soap_envelope(action@, service_name(service), arguments_view(arguments@)),
                    true,
                    "UTF-8"@,
                )
            },
            Err(_) => false,
        },
        r is Ok,
{
    let body = generate_xml(action, &service, arguments)?;
    let url = build_sonos_url(ip, service.get_endpoint());
    let soap_action = String::from_str("urn:schemas-upnp-org:service:").concat(
        service.get_name(),
    ).concat("#").concat(action);
    let mut headers: Vec<(String, String)> = Vec::new();
    headers.push(("Content-Type".to_owned(), "text/xml".to_owned()));
    headers.push(("SOAPACTION".to_owned(), soap_action));
    assert(arguments_view(headers@) =~= request_headers(service, action@));
    Ok(SoapRequest { url, headers, body })
}

/// The details that a device error carries: the HTTP status.
pub open spec fn status_details(status_text: Seq<char>) -> Seq<char> {
    "HTTP status code: "@ + status_text
}

/// What an answer with HTTP status `status` (shown as `status_text`) and body
/// `body` means: the body where the status is 200; otherwise the device error
/// that its error code maps to, or, where no error code can be read, an error
/// that keeps the status.
pub open spec fn answer_outcome(status: u16, status_text: Seq<char>, body: Seq<char>) -> Result<
    Seq<char>,
    SpeakerErrorView,
> {
    if status == 200 {
        Ok(body)
    } else {
        match error_code_decoding(body) {
            Ok(code) => Err(
                SpeakerErrorView::SonosError(sonos_error_of(code, status_details(status_text))),
            ),
            Err(e) => Err(SpeakerErrorView::UnreadableError(status_text, e)),
        }
    }
}

/// Turns an answer into the response body or the error it reports.
pub fn handle_response(status: u16, status_text: &str, body: String) -> (r: Result<String, SpeakerError>)
    ensures
        match r {
            Ok(b) => answer_outcome(status, status_text@, body@) == Ok::<
                Seq<char>,
                SpeakerErrorView,
            >(b@),
            Err(e) => answer_outcome(status, status_text@, body@) == Err::<
                Seq<char>,
                SpeakerErrorView,
            >(e@),
        },
{
    if status == 200 {
        return Ok(body);
    }
    match get_error_code(body) {
        Ok(code) => {
            let details = String::from_str("HTTP status code: ").concat(status_text);
            Err(SpeakerError::SonosError(SonosError::from_err_code(code.as_str(), details.as_str())))
        },
        Err(e) => Err(SpeakerError::UnreadableError(status_text.to_owned(), e)),
    }
}

/// What a description answer for the speaker at `ip` means.
pub open spec fn description_outcome(ip: Ipv4Addr, status: u16, status_text: Seq<char>, body: Seq<char>) -> Result<
    BasicSpeakerInfoView,
    SpeakerErrorView,
> {
    match answer_outcome(status, status_text, body) {
        Err(e) => Err(e),
        Ok(b) => match description_decoding(b, ip) {
            Ok(info) => Ok(info),
            Err(e) => Err(SpeakerErrorView::XMLError(e)),
        },
    }
}

/// Turns the answer to a description request into the speaker's record.
pub fn handle_description(ip: Ipv4Addr, status: u16, status_text: &str, body: String) -> (r: Result<
    BasicSpeakerInfo,
    SpeakerError,
>)
    ensures
        match r {
            Ok(info) => description_outcome(ip, status, status_text@, body@) == Ok::<
                BasicSpeakerInfoView,
                SpeakerErrorView,
            >(info@),
            Err(e) => description_outcome(ip, status, status_text@, body@) == Err::<
                BasicSpeakerInfoView,
                SpeakerErrorView,
            >(e@),
        },
{
    let xml = handle_response(status, status_text, body)?;
    match parse_description_xml(xml, ip) {
        Ok(info) => Ok(info),
        Err(e) => Err(SpeakerError::XMLError(e)),
    }
}

} // verus!
