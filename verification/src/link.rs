//! Link validation: is a string a well-formed URL, and did it answer?
//!
//! A validation is well-formedness first and then one GET request. The
//! request is the caller's to make: `validate_link` takes what has happened
//! and says what the caller does next.

use vstd::prelude::*;

verus! {

/// Why a link is not valid.
#[derive(Clone, Debug, PartialEq, Eq)]
pub enum LinkError {
    /// The candidate is not an absolute URL; the parser's message.
    MalformedUrl(String),
    /// The request could not be completed; the transport's message.
    Network(String),
}

/// Where a validation stands.
#[derive(Clone, Copy, Debug, PartialEq, Eq, Structural)]
pub enum LinkState {
    /// No candidate has been submitted.
    Idle,
    /// The candidate is well-formed and its request is under way.
    Processing,
    /// The link answered.
    Success,
    /// The link is malformed, or did not answer.
    Failure,
}

/// What has happened.
#[derive(Clone, Debug, PartialEq, Eq)]
pub enum LinkEvent {
    /// A candidate was handed in.
    Submitted(String),
    /// The request was answered, with this status code.
    Responded(u16),
    /// The request could not be completed; the transport's message.
    Unreachable(String),
}

/// What the caller does next.
#[derive(Clone, Debug, PartialEq, Eq)]
pub enum LinkAction {
    /// Send one GET request to this URL and report how it ended.
    Get(String),
    /// Report the link as valid.
    Succeed,
    /// Report the link as not valid.
    Fail(LinkError),
    /// Nothing: the event does not belong to the state.
    Ignore,
}

/// What `url::Url::parse` makes of a text: the serialisation of the absolute
/// URL that it reads, or the message of the error that it reports.
pub uninterp spec fn url_parse(text: Seq<char>) -> Result<Seq<char>, Seq<char>>;

/// `url::Url::parse`, the URL handed out as its serialisation (`String::from`)
/// and the error as its message (`to_string`). The result depends on `text`
/// alone.
#[verifier::external_body]
pub(crate) fn parse_url(text: &str) -> (parsed: Result<String, String>)
    ensures
        match parsed {
            Ok(url) => url_parse(text@) == Ok::<Seq<char>, Seq<char>>(url@),
            Err(reason) => url_parse(text@) == Err::<Seq<char>, Seq<char>>(reason@),
        },
{
    match url::Url::parse(text) {
        Ok(url) => Ok(String::from(url)),
        Err(e) => Err(e.to_string()),
    }
}

impl LinkError {
    /// The message of the parser or of the transport.
    pub open spec fn reason(&self) -> Seq<char> {
        match self {
            LinkError::MalformedUrl(reason) => reason@,
            LinkError::Network(reason) => reason@,
        }
    }

    /// The message to show for this error: the parser's or the transport's,
    /// word for word.
    pub fn message(&self) -> (message: String)
        ensures
            message@ == self.reason(),
    {
        match self {
            LinkError::MalformedUrl(reason) => reason.clone(),
            LinkError::Network(reason) => reason.clone(),
        }
    }
}

/// One step of a validation.
///
/// A candidate submitted in `Idle` is parsed. A well-formed one starts the
/// request: the action is a GET of the parsed URL. A malformed one fails with
/// the parser's message, and no request is made. In `Processing` any
/// response is success, whatever its status code, and a request that could
/// not be completed fails with the transport's message. Every other event
/// leaves the state as it is.
pub fn validate_link(state: LinkState, event: LinkEvent) -> (next: (LinkState, LinkAction))
    ensures
        match (state, event) {
            (LinkState::Idle, LinkEvent::Submitted(candidate)) => match url_parse(candidate@) {
                Ok(url) => next.0 == LinkState::Processing && (next.1 matches LinkAction::Get(
                    target,
                ) && target@ == url),
                Err(reason) => next.0 == LinkState::Failure && (next.1 matches LinkAction::Fail(
                    LinkError::MalformedUrl(told),
                ) && told@ == reason),
            },
            (LinkState::Processing, LinkEvent::Responded(_)) => next.0 == LinkState::Success
                && next.1 == LinkAction::Succeed,
            (LinkState::Processing, LinkEvent::Unreachable(reason)) => next.0 == LinkState::Failure
                && (next.1 matches LinkAction::Fail(LinkError::Network(told)) && told@ == reason@),
            _ => next.0 == state && next.1 == LinkAction::Ignore,
        },
{
    match (state, event) {
        (LinkState::Idle, LinkEvent::Submitted(candidate)) => match parse_url(candidate.as_str()) {
            Ok(url) => (LinkState::Processing, LinkAction::Get(url)),
            Err(reason) => (LinkState::Failure, LinkAction::Fail(LinkError::MalformedUrl(reason))),
        },
        (LinkState::Processing, LinkEvent::Responded(_)) => (
            LinkState::Success,
            LinkAction::Succeed,
        ),
        (LinkState::Processing, LinkEvent::Unreachable(reason)) => (
            LinkState::Failure,
            LinkAction::Fail(LinkError::Network(reason)),
        ),
        (state, _) => (state, LinkAction::Ignore),
    }
}

} // verus!
