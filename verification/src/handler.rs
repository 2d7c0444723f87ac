//! One request for a preview, in two steps around the fetch. [`prepare`]
//! checks the request and says what to fetch; the host fetches it; then
//! [`complete`] turns what came back into the answer. The library itself
//! never touches the network.

use crate::document::{fits_parser, ParsedDocument};
use crate::pipeline::{extract, extracted, Metadata, MetadataResult};
use crate::resolver::{url_parses, AbsoluteUrl};
use vstd::prelude::*;
use vstd::slice::slice_to_vec;
use vstd::string::*;

verus! {

/// The user agent that a fetch carries when the caller names none.
pub const DEFAULT_USER_AGENT: &'static str =
    "Mozilla/5.0 (X11; Linux i686; rv:112.0) Gecko/20100101 Firefox/112.0";

/// Why a fetch did not deliver a page. It is reported with the failure and
/// plays no part in what happens next.
#[derive(Debug, PartialEq, Eq)]
pub enum FetchFault {
    /// The request did not get as far as a response.
    Transport(String),
    /// The target answered with a status outside the 2xx range.
    Status(u16),
}

/// The ways in which a request for a preview can end without one.
#[derive(Debug, PartialEq, Eq)]
pub enum PreviewError {
    /// The address asked for is missing or is not an absolute URL.
    InvalidInput,
    /// The page could not be fetched.
    FetchFailure(FetchFault),
    /// The body that was fetched cannot be parsed as markup at all.
    ParseFailure,
}

/// What the host is to fetch, and as whom. The user agent is held as the
/// bytes of the header value, so that any value can be passed on unchanged.
#[derive(Debug, PartialEq, Eq)]
pub struct FetchRequest {
    pub target: AbsoluteUrl,
    pub user_agent: Vec<u8>,
}

/// What became of a fetch, as the host reports it.
#[derive(Debug, PartialEq, Eq)]
pub enum FetchOutcome {
    /// A response arrived, with this status and this body.
    Response { status: u16, body: String },
    /// No response arrived, or its body could not be read.
    Failed { detail: String },
}

/// The user agent of a fetch: the caller's own, byte for byte, where the
/// caller sent one, else the bytes of [`DEFAULT_USER_AGENT`].
pub open spec fn user_agent_for(caller: Option<&[u8]>) -> Seq<u8> {
    match caller {
        Some(user_agent) => user_agent@,
        None => vstd::utf8::encode_utf8(DEFAULT_USER_AGENT@),
    }
}

/// Whether `status` is one of the 2xx codes.
pub open spec fn is_success(status: u16) -> bool {
    200 <= status <= 299
}

/// The answer to a request for the page at `address`, given what the fetch
/// came to.
pub open spec fn completed(address: Seq<char>, outcome: FetchOutcome) -> Result<
    Metadata,
    PreviewError,
> {
    match outcome {
        FetchOutcome::Failed { detail } => Err(
            PreviewError::FetchFailure(FetchFault::Transport(detail)),
        ),
        FetchOutcome::Response { status, body } => if !is_success(status) {
            Err(PreviewError::FetchFailure(FetchFault::Status(status)))
        } else if !fits_parser(body@) {
            Err(PreviewError::ParseFailure)
        } else {
            Ok(extracted(body@, address))
        },
    }
}

impl PreviewError {
    /// The HTTP status under which the failure is reported.
    pub open spec fn status(self) -> u16 {
        match self {
            PreviewError::InvalidInput => 400,
            PreviewError::FetchFailure(_) => 502,
            PreviewError::ParseFailure => 422,
        }
    }

    /// The HTTP status under which the failure is reported: a bad request
    /// for invalid input, a bad gateway for a failed fetch, unprocessable
    /// content for a body that is no markup.
    pub fn status_code(&self) -> (code: u16)
        ensures
            code == self.status(),
    {
        match self {
            PreviewError::InvalidInput => 400,
            PreviewError::FetchFailure(_) => 502,
            PreviewError::ParseFailure => 422,
        }
    }
}

/// Whether `answer` is a failure of the fetch, whatever its cause.
pub open spec fn failed_as_fetch(answer: Result<Metadata, PreviewError>) -> bool {
    answer is Err && answer->Err_0 is FetchFailure
}

/// The three kinds of failure are reported under three different statuses,
/// none of them a success and none the server's own fault.
pub proof fn lemma_statuses_tell_failures_apart(one: PreviewError, other: PreviewError)
    ensures
        !is_success(one.status()),
        400 <= one.status() < 600 && one.status() != 500,
        one.status() == other.status() <==> {
            ||| one is InvalidInput && other is InvalidInput
            ||| one is FetchFailure && other is FetchFailure
            ||| one is ParseFailure && other is ParseFailure
        },
{
}

/// A fetch that fails never gives a preview, and a failure after the fetch
/// is never blamed on the request. A page that arrived and can be parsed
/// always gives one: what it lacks shows as empty fields.
pub proof fn lemma_only_the_fetch_and_the_parse_can_fail(
    address: Seq<char>,
    outcome: FetchOutcome,
)
    ensures
        outcome is Failed ==> failed_as_fetch(completed(address, outcome)),
        outcome is Response && !is_success(outcome->status) ==> failed_as_fetch(
            completed(address, outcome),
        ),
        outcome is Response && is_success(outcome->status) && !fits_parser(outcome->body@)
            ==> completed(address, outcome) == Err::<Metadata, PreviewError>(
            PreviewError::ParseFailure,
        ),
        outcome is Response && is_success(outcome->status) && fits_parser(outcome->body@)
            ==> completed(address, outcome) == Ok::<Metadata, PreviewError>(
            extracted(outcome->body@, address),
        ),
        completed(address, outcome) != Err::<Metadata, PreviewError>(PreviewError::InvalidInput),
{
}

/// The user agent of a fetch: the caller's own, byte for byte, where the
/// caller sent one, else [`DEFAULT_USER_AGENT`]. Whatever the caller sent is
/// passed on, text or not.
pub fn user_agent_or_default(caller_user_agent: Option<&[u8]>) -> (user_agent: Vec<u8>)
    ensures
        user_agent@ == user_agent_for(caller_user_agent),
{
    match caller_user_agent {
        Some(user_agent) => slice_to_vec(user_agent),
        None => DEFAULT_USER_AGENT.as_bytes_vec(),
    }
}

/// Checks a request before anything is fetched. `requested_url` is the
/// address asked for, if one was given; `caller_user_agent` is the value of
/// the caller's own user agent header, if it sent one. An address that is
/// missing or is not an absolute URL is refused here, so that no fetch is
/// ever made for it. The user agent is never a reason to refuse.
pub fn prepare(requested_url: Option<&str>, caller_user_agent: Option<&[u8]>) -> (request: Result<
    FetchRequest,
    PreviewError,
>)
    ensures
        match request {
            Ok(request) => {
                &&& requested_url matches Some(address)
                &&& url_parses(address@)
                &&& request.target@ == address@
                &&& request.user_agent@ == user_agent_for(caller_user_agent)
            },
            Err(error) => {
                &&& error == PreviewError::InvalidInput
                &&& requested_url matches Some(address) ==> !url_parses(address@)
            },
        },
{
    let target = match requested_url {
        Some(address) => AbsoluteUrl::parse(address),
        None => None,
    };
    match target {
        Some(target) => Ok(
            FetchRequest { target, user_agent: user_agent_or_default(caller_user_agent) },
        ),
        None => Err(PreviewError::InvalidInput),
    }
}

/// Turns the outcome of the fetch that `request` asked for into the answer.
/// A fetch that failed, and a response outside the 2xx range, end in
/// `FetchFailure`. A body is parsed and searched; one that has every tag
/// missing still gives a preview, in which whatever the page was to supply
/// is empty.
pub fn complete(request: &FetchRequest, outcome: FetchOutcome) -> (answer: Result<
    MetadataResult,
    PreviewError,
>)
    ensures
        match answer {
            Ok(result) => completed(request.target@, outcome) == Ok::<Metadata, PreviewError>(
                result@,
            ),
            Err(error) => completed(request.target@, outcome) == Err::<Metadata, PreviewError>(
                error,
            ),
        },
{
    match outcome {
        FetchOutcome::Failed { detail } => Err(
            PreviewError::FetchFailure(FetchFault::Transport(detail)),
        ),
        FetchOutcome::Response { status, body } => {
            if status < 200 || status > 299 {
                Err(PreviewError::FetchFailure(FetchFault::Status(status)))
            } else {
                match ParsedDocument::parse(body.as_str()) {
                    Some(dom) => Ok(extract(&dom, &request.target)),
                    None => Err(PreviewError::ParseFailure),
                }
            }
        },
    }
}

} // verus!
