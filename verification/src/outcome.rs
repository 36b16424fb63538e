//! What a probe produces and what is recorded of a run.

use libafl::executors::{DiffExitKind, ExitKind};
use reqwest::blocking::Response;
use vstd::prelude::*;

verus! {

/// `libafl::executors::ExitKind`, the verdict of one run. The declaration
/// hides nothing and claims nothing: the verifier takes the variants `Ok`,
/// `Crash`, `Oom`, `Timeout` and `Diff` from the definition in libafl, so
/// that a verdict can be built and told apart here as it is there.
#[verifier::external_type_specification]
pub struct ExExitKind(ExitKind);

/// `libafl::executors::DiffExitKind`, which the `Diff` variant of `ExitKind`
/// holds. Its variants too are taken from the definition in libafl.
#[verifier::external_type_specification]
pub struct ExDiffExitKind(DiffExitKind);

/// `reqwest::blocking::Response`, the answer of a target to one request.
/// Nothing is known of what it holds but what [`response_status`] says.
#[verifier::external_type_specification]
#[verifier::external_body]
pub struct ExResponse(Response);

/// The status of a response: `reqwest::blocking::Response::status`, as the
/// number that `http::StatusCode::as_u16` gives. A `StatusCode` holds a
/// value from 100 to 999, so that is all that is claimed of the number.
#[verifier::external_body]
fn response_status(response: &Response) -> (code: u16)
    ensures
        100 <= code <= 999,
{
    response.status().as_u16()
}

/// The request methods a probe can issue.
#[derive(Debug, Clone, Copy, PartialEq, Eq, Structural)]
pub enum HTTPVerb {
    GET,
    POST,
    DELETE,
    HEAD,
    OPTIONS,
    TRACE,
    PUT,
    PATCH,
    CONNECT,
}

/// What one probe of the target brought back: the request that was sent and
/// the status the target answered with.
#[derive(Debug)]
pub struct RawResult {
    pub method: HTTPVerb,
    pub body: String,
    pub host: Option<String>,
    pub useragent: Option<String>,
    pub content_type: Option<String>,
    pub response_code: u16,
}

/// The mathematical content of a [`RawResult`].
pub struct RawResultView {
    pub method: HTTPVerb,
    pub body: Seq<char>,
    pub host: Option<Seq<char>>,
    pub useragent: Option<Seq<char>>,
    pub content_type: Option<Seq<char>>,
    pub response_code: u16,
}

/// The characters of an optional text.
pub open spec fn text_view(text: Option<String>) -> Option<Seq<char>> {
    match text {
        Some(s) => Some(s@),
        None => None,
    }
}

impl View for RawResult {
    type V = RawResultView;

    open spec fn view(&self) -> RawResultView {
        RawResultView {
            method: self.method,
            body: self.body@,
            host: text_view(self.host),
            useragent: text_view(self.useragent),
            content_type: text_view(self.content_type),
            response_code: self.response_code,
        }
    }
}

/// The content of what a probe brought back, if it brought anything.
pub open spec fn response_view(response: Option<RawResult>) -> Option<RawResultView> {
    match response {
        Some(r) => Some(r@),
        None => None,
    }
}

/// The record of one run: the verdict together with the request and the
/// status it was reached on.
#[derive(Debug)]
pub struct HTTPExitKind {
    pub exitkind: ExitKind,
    pub method: HTTPVerb,
    pub body: String,
    pub host: Option<String>,
    pub useragent: Option<String>,
    pub content_type: Option<String>,
    pub response_code: u16,
}

/// The mathematical content of an [`HTTPExitKind`].
pub struct HTTPExitKindView {
    pub exitkind: ExitKind,
    pub method: HTTPVerb,
    pub body: Seq<char>,
    pub host: Option<Seq<char>>,
    pub useragent: Option<Seq<char>>,
    pub content_type: Option<Seq<char>>,
    pub response_code: u16,
}

impl View for HTTPExitKind {
    type V = HTTPExitKindView;

    open spec fn view(&self) -> HTTPExitKindView {
        HTTPExitKindView {
            exitkind: self.exitkind,
            method: self.method,
            body: self.body@,
            host: text_view(self.host),
            useragent: text_view(self.useragent),
            content_type: text_view(self.content_type),
            response_code: self.response_code,
        }
    }
}

/// The record of a run that ended with `exitkind`. A probe that brought a
/// result is recorded with the request and status of that result. A probe
/// that brought nothing is recorded as a `GET` with an empty body, no
/// headers and the status 0, which no target answers with.
pub open spec fn run_record(response: Option<RawResultView>, exitkind: ExitKind) -> HTTPExitKindView {
    match response {
        Some(r) => HTTPExitKindView {
            exitkind,
            method: r.method,
            body: r.body,
            host: r.host,
            useragent: r.useragent,
            content_type: r.content_type,
            response_code: r.response_code,
        },
        None => HTTPExitKindView {
            exitkind,
            method: HTTPVerb::GET,
            body: Seq::empty(),
            host: None,
            useragent: None,
            content_type: None,
            response_code: 0,
        },
    }
}

/// A copy of an optional text.
fn copy_text(text: &Option<String>) -> (copy: Option<String>)
    ensures
        text_view(copy) == text_view(*text),
{
    match text {
        Some(s) => Some(s.clone()),
        None => None,
    }
}

impl RawResult {
    /// What a probe brought back that sent the request described by the
    /// first five arguments and was answered with `response`. The status is
    /// that of the response, which is never 0.
    pub fn from_response(
        method: HTTPVerb,
        body: String,
        host: Option<String>,
        useragent: Option<String>,
        content_type: Option<String>,
        response: &Response,
    ) -> (raw: RawResult)
        ensures
            raw.method == method,
            raw.body == body,
            raw.host == host,
            raw.useragent == useragent,
            raw.content_type == content_type,
            100 <= raw.response_code <= 999,
    {
        RawResult {
            method,
            body,
            host,
            useragent,
            content_type,
            response_code: response_status(response),
        }
    }
}

impl Clone for RawResult {
    /// A copy with the same content.
    fn clone(&self) -> (copy: Self)
        ensures
            copy@ == self@,
    {
        RawResult {
            method: self.method,
            body: self.body.clone(),
            host: copy_text(&self.host),
            useragent: copy_text(&self.useragent),
            content_type: copy_text(&self.content_type),
            response_code: self.response_code,
        }
    }
}

impl Clone for HTTPExitKind {
    /// A copy with the same content.
    fn clone(&self) -> (copy: Self)
        ensures
            copy@ == self@,
    {
        HTTPExitKind {
            exitkind: self.exitkind,
            method: self.method,
            body: self.body.clone(),
            host: copy_text(&self.host),
            useragent: copy_text(&self.useragent),
            content_type: copy_text(&self.content_type),
            response_code: self.response_code,
        }
    }
}

impl HTTPExitKind {
    /// Builds the record of a run from what the probe brought back and the
    /// verdict reached on it.
    pub fn from_response(response: &Option<RawResult>, exitkind: ExitKind) -> (record: HTTPExitKind)
        ensures
            record@ == run_record(response_view(*response), exitkind),
    {
        match response {
            Some(r) => HTTPExitKind {
                exitkind,
                method: r.method,
                body: r.body.clone(),
                host: copy_text(&r.host),
                useragent: copy_text(&r.useragent),
                content_type: copy_text(&r.content_type),
                response_code: r.response_code,
            },
            None => HTTPExitKind {
                exitkind,
                method: HTTPVerb::GET,
                body: String::new(),
                host: None,
                useragent: None,
                content_type: None,
                response_code: 0,
            },
        }
    }
}

} // verus!
