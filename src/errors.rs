//! Error types of the library, one per layer: XML decoding, device-reported
//! errors, and the errors of a call to a speaker.
use vstd::prelude::*;
use xml_builder::XMLError as XmlBuildError;

verus! {

/// The error that `roxmltree` reports for a text it cannot parse.
#[verifier::external_type_specification]
#[verifier::external_body]
pub struct ExXmlParseError(roxmltree::Error);

/// The error that `xml_builder` reports while building or writing a document.
#[verifier::external_type_specification]
#[verifier::external_body]
pub struct ExXmlBuildError(XmlBuildError);

/// The error that `reqwest` reports for a failed HTTP exchange.
#[verifier::external_type_specification]
#[verifier::external_body]
pub struct ExHttpError(reqwest::Error);

/// An XML-related error.
#[derive(Debug)]
pub enum XMLError {
    /// The text is not well-formed XML.
    ParseError(roxmltree::Error),
    /// A required element is absent; holds the tag name.
    ElementNotFound(String),
    /// A required element is present but holds no text; holds the tag name.
    EmptyElement(String),
    /// An element holds a value that cannot be decoded; holds the label and the value.
    UnexpectedValue(String),
    /// An error occurred while building XML.
    XMLBuilderError(XmlBuildError),
}

/// What an [`XMLError`] says, with the outside errors' details left out.
pub enum XMLErrorView {
    ParseError,
    ElementNotFound(Seq<char>),
    EmptyElement(Seq<char>),
    UnexpectedValue(Seq<char>),
    XMLBuilderError,
}

impl View for XMLError {
    type V = XMLErrorView;

    open spec fn view(&self) -> XMLErrorView {
        match self {
            XMLError::ParseError(_) => XMLErrorView::ParseError,
            XMLError::ElementNotFound(s) => XMLErrorView::ElementNotFound(s@),
            XMLError::EmptyElement(s) => XMLErrorView::EmptyElement(s@),
            XMLError::UnexpectedValue(s) => XMLErrorView::UnexpectedValue(s@),
            XMLError::XMLBuilderError(_) => XMLErrorView::XMLBuilderError,
        }
    }
}

/// An error reported by the speaker itself.
#[derive(Debug)]
pub enum SonosError {
    /// The requested transition is not possible now, e.g. pausing playback that is already paused.
    TransitionUnavailable,
    /// The target of a seek or a move in the queue is invalid.
    InvalidSeekTarget,
    /// Any other error code; holds the code and the HTTP status.
    Unknown(String),
}

/// What a [`SonosError`] says.
pub enum SonosErrorView {
    TransitionUnavailable,
    InvalidSeekTarget,
    Unknown(Seq<char>),
}

impl View for SonosError {
    type V = SonosErrorView;

    open spec fn view(&self) -> SonosErrorView {
        match self {
            SonosError::TransitionUnavailable => SonosErrorView::TransitionUnavailable,
            SonosError::InvalidSeekTarget => SonosErrorView::InvalidSeekTarget,
            SonosError::Unknown(s) => SonosErrorView::Unknown(s@),
        }
    }
}

/// The text that an unknown error code is reported with: the code, then the
/// details (the HTTP status).
pub open spec fn unknown_error_text(code: Seq<char>, details: Seq<char>) -> Seq<char> {
    "error code "@ + code + ", "@ + details
}

/// The device error for an error code.
pub open spec fn sonos_error_of(code: Seq<char>, details: Seq<char>) -> SonosErrorView {
    if code == "701"@ {
        SonosErrorView::TransitionUnavailable
    } else if code == "711"@ {
        SonosErrorView::InvalidSeekTarget
    } else {
        SonosErrorView::Unknown(unknown_error_text(code, details))
    }
}

/// Error codes map onto the closed taxonomy: `701` is an unavailable
/// transition, `711` an invalid seek target, and any other code is unknown,
/// its text holding the code and then the details (the HTTP status) whole.
pub proof fn lemma_error_code_mapping(code: Seq<char>, details: Seq<char>)
    ensures
        code == "701"@ ==> sonos_error_of(code, details) == SonosErrorView::TransitionUnavailable,
        code == "711"@ ==> sonos_error_of(code, details) == SonosErrorView::InvalidSeekTarget,
        code != "701"@ && code != "711"@ ==> (sonos_error_of(code, details) matches SonosErrorView::Unknown(t)
            && t.subrange(11, 11 + code.len() as int) == code
            && t.subrange(t.len() - details.len(), t.len() as int) == details),
{
    reveal_strlit("701");
    reveal_strlit("711");
    reveal_strlit("error code ");
    reveal_strlit(", ");
    assert("701"@[1] != "711"@[1]);
    let t = unknown_error_text(code, details);
    assert(t.subrange(11, 11 + code.len() as int) =~= code);
    assert(t.subrange(t.len() - details.len(), t.len() as int) =~= details);
}

impl SonosError {
    /// Maps a UPnP error code to a device error; `additional_details` (the HTTP
    /// status) is kept, with the code, in an error of an unknown code.
    pub fn from_err_code(err_code: &str, additional_details: &str) -> (r: Self)
        ensures
            r@ == sonos_error_of(err_code@, additional_details@),
    {
        let code = err_code.to_owned();
        if code == "701".to_owned() {
            SonosError::TransitionUnavailable
        } else if code == "711".to_owned() {
            SonosError::InvalidSeekTarget
        } else {
            let text = String::from_str("error code ").concat(err_code).concat(", ").concat(
                additional_details,
            );
            SonosError::Unknown(text)
        }
    }
}

/// An error of a call to a speaker.
#[derive(Debug)]
pub enum SpeakerError {
    /// The request could not be sent.
    RequestError(reqwest::Error),
    /// The response could not be received.
    ResponseError(reqwest::Error),
    /// The response could not be decoded.
    XMLError(XMLError),
    /// The caller's input was rejected before any request was made; holds the details.
    InvalidInput(String),
    /// The speaker reported an error.
    SonosError(SonosError),
    /// The speaker answered with a failure status and a body whose error code
    /// could not be read; holds the status and what went wrong.
    UnreadableError(String, XMLError),
}

/// What a [`SpeakerError`] says, with the transport errors' details left out.
pub enum SpeakerErrorView {
    RequestError,
    ResponseError,
    XMLError(XMLErrorView),
    InvalidInput(Seq<char>),
    SonosError(SonosErrorView),
    UnreadableError(Seq<char>, XMLErrorView),
}

impl View for SpeakerError {
    type V = SpeakerErrorView;

    open spec fn view(&self) -> SpeakerErrorView {
        match self {
            SpeakerError::RequestError(_) => SpeakerErrorView::RequestError,
            SpeakerError::ResponseError(_) => SpeakerErrorView::ResponseError,
            SpeakerError::XMLError(e) => SpeakerErrorView::XMLError(e@),
            SpeakerError::InvalidInput(s) => SpeakerErrorView::InvalidInput(s@),
            SpeakerError::SonosError(e) => SpeakerErrorView::SonosError(e@),
            SpeakerError::UnreadableError(s, e) => SpeakerErrorView::UnreadableError(s@, e@),
        }
    }
}

} // verus!
