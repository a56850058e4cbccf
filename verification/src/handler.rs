//! The life of one request. The pipeline has one point at which it waits, the
//! call to the upstream, and is cut in two there: `forward` decides what is
//! sent, and `relay` decides what the caller gets once the upstream has
//! answered or failed.

use axum::http::HeaderMap;
use axum::http::HeaderValue;
use crate::config::Config;
use crate::error::{method_not_supported, request_not_built, Failure, HandlerErr};
use crate::headers::{has_room, header_fields, is_addition, well_formed, Fields};
use crate::method::Method;
use crate::path::{format_path, normalized, separator, trailing_separator_is_ignored};
use crate::record::{OutboundRequest, OutboundView, Record, RecordView, Response};
use crate::text::{is_token, uppered};
use vstd::prelude::*;

verus! {

/// What came of sending a request upstream.
#[derive(Debug, PartialEq, Eq)]
pub enum Upstream {
    /// The upstream answered.
    Replied { status: u16, headers: HeaderMap<HeaderValue>, body: Vec<u8> },
    /// The call failed, or the answer could not be read; the text says how.
    Failed(String),
}

/// What came of the first half of the pipeline, as plain values.
pub open spec fn stepped(step: Result<(OutboundRequest, &Record), HandlerErr>) -> Result<
    (OutboundView, RecordView),
    Failure,
> {
    match step {
        Ok((request, record)) => Ok((request@, record@)),
        Err(error) => Err(error@),
    }
}

impl Config {
    /// What the first half of the pipeline comes to for a request with this
    /// path, method and headers: the request to send and the record that
    /// matched, or the failure that ends the pipeline. The method is matched
    /// and sent on in upper case.
    pub open spec fn dispatch(&self, path: Seq<char>, method: Seq<char>, fields: Fields) -> Result<
        (OutboundView, RecordView),
        Failure,
    > {
        match self.find(normalized(path)) {
            None => Err(Failure::NotFound),
            Some(record) => if !is_token(method) || !record.allows(uppered(method)) {
                Err(Failure::BadRequest(method_not_supported()))
            } else {
                match record.request(normalized(path), uppered(method), fields) {
                    Ok(out) => Ok((out, record)),
                    Err(_) => Err(Failure::InternalError(request_not_built())),
                }
            },
        }
    }
}

/// The first half of the pipeline: the path is normalised, the route looked
/// up, the method checked and the outbound request built. The first step that
/// fails ends the pipeline with its failure.
pub fn forward<'a>(
    config: &'a Config,
    method: &str,
    path: &str,
    header: &HeaderMap<HeaderValue>,
) -> (step: Result<(OutboundRequest, &'a Record), HandlerErr>)
    ensures
        stepped(step) == config.dispatch(path@, method@, header_fields(*header)),
        step matches Ok((_, record)) ==> {
            &&& config.records@.contains_key(normalized(path@))
            &&& *record == config.records@[normalized(path@)]
        },
{
    let fmt_path = format_path(path);
    let record = match config.lookup(fmt_path.as_str()) {
        Some(record) => record,
        None => {
            return Err(HandlerErr::NOTFOUND);
        },
    };
    let method = match Method::from_str(method) {
        Some(method) => method,
        None => {
            return Err(HandlerErr::BADREQUEST(String::from_str("Method not supported")));
        },
    };
    if !record.allows(&method) {
        return Err(HandlerErr::BADREQUEST(String::from_str("Method not supported")));
    }
    match record.get_request(fmt_path.as_str(), method, header) {
        Ok(request) => Ok((request, record)),
        Err(_) => Err(
            HandlerErr::INTERNALERROR(String::from_str("Error while building proxy request")),
        ),
    }
}

/// The second half of the pipeline. An upstream that answered has its status
/// and body passed on, with the record's additions made to its headers; the
/// flags say which of them were applied. A call that failed is an internal
/// error with the failure's text as its reason.
pub fn relay(record: &Record, upstream: Upstream) -> (step: Result<
    (Response, Vec<bool>),
    HandlerErr,
>)
    ensures
        match upstream {
            Upstream::Replied { status, headers, body } => {
                &&& step matches Ok((response, applied))
                &&& response@ == record@.response(status, header_fields(headers), body@, applied@)
                &&& applied@.len() == record@.additions().len()
                &&& forall|i: int|
                    0 <= i < applied@.len() && applied@[i] ==> is_addition(
                        #[trigger] record@.additions()[i],
                    )
                &&& has_room(header_fields(headers), record@.additions().len()) ==> {
                    &&& applied@ == well_formed(record@.additions())
                    &&& response@ == record@.full_response(status, header_fields(headers), body@)
                }
            },
            Upstream::Failed(reason) => step matches Err(error) && error@ == Failure::InternalError(
                reason@,
            ),
        },
{
    match upstream {
        Upstream::Replied { status, headers, body } => {
            Ok(record.get_response(status, headers, body))
        },
        Upstream::Failed(reason) => Err(HandlerErr::INTERNALERROR(reason)),
    }
}

/// A request whose path matches no route is not found, whatever its method and
/// headers.
pub proof fn unknown_path_is_not_found(
    config: Config,
    path: Seq<char>,
    method: Seq<char>,
    fields: Fields,
)
    requires
        config.find(normalized(path)) is None,
    ensures
        config.dispatch(path, method, fields) == Err::<(OutboundView, RecordView), Failure>(
            Failure::NotFound,
        ),
{
}

/// A request whose path matches a route that does not allow its method is a
/// bad request: it is neither not found nor forwarded.
pub proof fn disallowed_method_is_bad_request(
    config: Config,
    path: Seq<char>,
    method: Seq<char>,
    fields: Fields,
)
    requires
        config.find(normalized(path)) matches Some(record) && !record.allows(uppered(method)),
    ensures
        config.dispatch(path, method, fields) == Err::<(OutboundView, RecordView), Failure>(
            Failure::BadRequest(method_not_supported()),
        ),
{
}

/// A separator at the end of the path does not change what comes of the
/// request.
pub proof fn trailing_separator_changes_nothing(
    config: Config,
    path: Seq<char>,
    method: Seq<char>,
    fields: Fields,
)
    requires
        path.len() == 0 || path.last() != separator(),
    ensures
        config.dispatch(path + seq![separator()], method, fields) == config.dispatch(
            path,
            method,
            fields,
        ),
{
    trailing_separator_is_ignored(path);
}

} // verus!
