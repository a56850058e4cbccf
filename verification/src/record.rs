//! Routing rules: how a definition becomes a record, and what a record makes
//! of a request and of the upstream's response.

use axum::http::HeaderMap;
use axum::http::HeaderValue;
use crate::error::{BuildError, RecordError};
use crate::headers::{
    add_headers, clone_headers, has_room, header_fields, header_key, is_addition, is_header_name,
    names_are_distinct, remove_headers, well_formed, with_additions, without, Addition, Fields,
};
use crate::method::Method;
use crate::target::{
    fits, fits_url, is_absolute_url, replace_path, url_is_valid, url_origin, url_with_path,
    Location, Origin,
};
use crate::text::{is_token, uppered};
use vstd::prelude::*;

verus! {

/// A route as the configuration gives it, with nothing checked yet.
#[derive(Debug, PartialEq, Eq)]
pub struct Route {
    pub path: String,
    pub target: String,
    pub methods: Vec<String>,
    pub rewrite: Option<String>,
    pub remove_request_headers: Option<Vec<String>>,
    pub add_response_headers: Option<Vec<(String, String)>>,
}

/// One routing rule: where requests go, which methods may go there, and what
/// is changed on the way there and back.
#[derive(Debug, PartialEq, Eq)]
pub struct Record {
    pub target: String,
    pub methods: Vec<Method>,
    pub rewrite: Option<String>,
    pub remove_request_headers: Option<Vec<String>>,
    pub add_response_headers: Option<Vec<(String, String)>>,
}

/// The request that the proxy sends upstream.
#[derive(Debug, PartialEq, Eq)]
pub struct OutboundRequest {
    pub method: Method,
    pub url: Location,
    pub headers: HeaderMap<HeaderValue>,
}

/// The response that the proxy gives to its caller.
#[derive(Debug, PartialEq, Eq)]
pub struct Response {
    pub status: u16,
    pub headers: HeaderMap<HeaderValue>,
    pub body: Vec<u8>,
}

/// A route definition as plain values.
pub ghost struct RouteView {
    pub path: Seq<char>,
    pub target: Seq<char>,
    pub methods: Seq<Seq<char>>,
    pub rewrite: Option<Seq<char>>,
    pub remove_request_headers: Option<Seq<Seq<char>>>,
    pub add_response_headers: Option<Seq<Addition>>,
}

/// A record as plain values.
pub ghost struct RecordView {
    pub target: Seq<char>,
    pub methods: Seq<Seq<char>>,
    pub rewrite: Option<Seq<char>>,
    pub remove_request_headers: Option<Seq<Seq<char>>>,
    pub add_response_headers: Option<Seq<Addition>>,
}

/// An outbound request as plain values: the method, the URL's serialisation,
/// its scheme, host and port, and the headers.
pub ghost struct OutboundView {
    pub method: Seq<char>,
    pub url: Seq<char>,
    pub origin: Origin,
    pub headers: Fields,
}

/// A response as plain values.
pub ghost struct ResponseView {
    pub status: u16,
    pub headers: Fields,
    pub body: Seq<u8>,
}

/// The text that an optional string holds.
pub open spec fn text_of(text: Option<String>) -> Option<Seq<char>> {
    match text {
        Some(text) => Some(text@),
        None => None,
    }
}

/// The names that an optional list of names holds.
pub open spec fn names_of(names: Option<Vec<String>>) -> Option<Seq<Seq<char>>> {
    match names {
        Some(names) => Some(names.deep_view()),
        None => None,
    }
}

/// The rules that an optional list of additions holds.
pub open spec fn rules_of(rules: Option<Vec<(String, String)>>) -> Option<Seq<Addition>> {
    match rules {
        Some(rules) => Some(rules.deep_view()),
        None => None,
    }
}

/// A location as plain values, where there is one.
pub open spec fn located(location: Option<Location>) -> Option<(Seq<char>, Origin)> {
    match location {
        Some(location) => Some((location.href@, location.origin())),
        None => None,
    }
}

/// What came of making a record, as plain values.
pub open spec fn made(record: Result<Record, RecordError>) -> Result<RecordView, RecordError> {
    match record {
        Ok(record) => Ok(record@),
        Err(error) => Err(error),
    }
}

/// What came of building a request, as plain values.
pub open spec fn built(request: Result<OutboundRequest, BuildError>) -> Result<
    OutboundView,
    BuildError,
> {
    match request {
        Ok(out) => Ok(out@),
        Err(error) => Err(error),
    }
}

/// A target is an absolute URL that is short enough to be parsed.
pub open spec fn is_target(text: Seq<char>) -> bool {
    fits_url(text) && is_absolute_url(text)
}

/// Whether every one of `texts` is a token.
pub open spec fn are_tokens(texts: Seq<Seq<char>>) -> bool {
    forall|i: int| 0 <= i < texts.len() ==> is_token(#[trigger] texts[i])
}

/// The methods that the tokens stand for: each in upper case.
pub open spec fn methods_of(tokens: Seq<Seq<char>>) -> Seq<Seq<char>> {
    Seq::new(tokens.len(), |i: int| uppered(tokens[i]))
}

impl View for Route {
    type V = RouteView;

    open spec fn view(&self) -> RouteView {
        RouteView {
            path: self.path@,
            target: self.target@,
            methods: self.methods.deep_view(),
            rewrite: text_of(self.rewrite),
            remove_request_headers: names_of(self.remove_request_headers),
            add_response_headers: rules_of(self.add_response_headers),
        }
    }
}

impl DeepView for Route {
    type V = RouteView;

    open spec fn deep_view(&self) -> RouteView {
        self@
    }
}

impl View for Record {
    type V = RecordView;

    open spec fn view(&self) -> RecordView {
        RecordView {
            target: self.target@,
            methods: self.methods.deep_view(),
            rewrite: text_of(self.rewrite),
            remove_request_headers: names_of(self.remove_request_headers),
            add_response_headers: rules_of(self.add_response_headers),
        }
    }
}

impl View for OutboundRequest {
    type V = OutboundView;

    open spec fn view(&self) -> OutboundView {
        OutboundView {
            method: self.method@,
            url: self.url.href@,
            origin: self.url.origin(),
            headers: header_fields(self.headers),
        }
    }
}

impl View for Response {
    type V = ResponseView;

    open spec fn view(&self) -> ResponseView {
        ResponseView { status: self.status, headers: header_fields(self.headers), body: self.body@ }
    }
}

impl RouteView {
    /// The record that the definition gives, or why it gives none. The target
    /// is looked at first, then the methods, then the additions.
    pub open spec fn record(self) -> Result<RecordView, RecordError> {
        if !is_target(self.target) {
            Err(RecordError::InvalidTarget)
        } else if self.methods.len() == 0 {
            Err(RecordError::NoMethods)
        } else if !are_tokens(self.methods) {
            Err(RecordError::InvalidMethod)
        } else if self.add_response_headers matches Some(rules) && !names_are_distinct(rules) {
            Err(RecordError::DuplicateHeader)
        } else {
            Ok(
                RecordView {
                    target: self.target,
                    methods: methods_of(self.methods),
                    rewrite: self.rewrite,
                    remove_request_headers: self.remove_request_headers,
                    add_response_headers: self.add_response_headers,
                },
            )
        }
    }
}

impl RecordView {
    /// What construction establishes: a target that parses, at least one
    /// method, every method a token in upper case, and no two additions for
    /// one header.
    pub open spec fn wf(self) -> bool {
        &&& is_target(self.target)
        &&& self.methods.len() > 0
        &&& are_tokens(self.methods)
        &&& methods_of(self.methods) == self.methods
        &&& self.add_response_headers matches Some(rules) ==> names_are_distinct(rules)
    }

    /// Whether the record allows the method.
    pub open spec fn allows(self, method: Seq<char>) -> bool {
        self.methods.contains(method)
    }

    /// The path that is sent upstream: the rewrite, verbatim, where there is
    /// one, and the path of the request otherwise.
    pub open spec fn outbound_path(self, path: Seq<char>) -> Seq<char> {
        match self.rewrite {
            Some(rewrite) => rewrite,
            None => path,
        }
    }

    /// The names of the headers that are not sent upstream. One that is no
    /// header name is kept as configured and removes nothing.
    pub open spec fn removed(self) -> Seq<Seq<char>> {
        match self.remove_request_headers {
            Some(names) => names,
            None => Seq::empty(),
        }
    }

    /// The rules that add headers to the response.
    pub open spec fn additions(self) -> Seq<Addition> {
        match self.add_response_headers {
            Some(rules) => rules,
            None => Seq::empty(),
        }
    }

    /// The outbound request, given what replacing the target's path gave: the
    /// URL's serialisation with its scheme, host and port.
    pub open spec fn request_at(
        self,
        location: Option<(Seq<char>, Origin)>,
        method: Seq<char>,
        fields: Fields,
    ) -> Result<OutboundView, BuildError> {
        match location {
            None => Err(BuildError::InvalidTarget),
            Some((href, origin)) => if origin.1 is Some {
                Ok(
                    OutboundView {
                        method,
                        url: href,
                        origin,
                        headers: without(fields, self.removed()),
                    },
                )
            } else {
                Err(BuildError::NoHost)
            },
        }
    }

    /// What replacing the target's path by `path` gives: the serialisation of
    /// the new URL, with the scheme, host and port of the target.
    pub open spec fn location(self, path: Seq<char>) -> Option<(Seq<char>, Origin)> {
        match (url_with_path(self.target, path), url_origin(self.target)) {
            (Some(href), Some(origin)) => Some((href, origin)),
            _ => None,
        }
    }

    /// The outbound request for a request with this path, method and headers,
    /// or why there is none.
    pub open spec fn request(self, path: Seq<char>, method: Seq<char>, fields: Fields) -> Result<
        OutboundView,
        BuildError,
    > {
        if !fits_url(self.target) {
            Err(BuildError::TargetTooLong)
        } else if !fits_url(self.outbound_path(path)) {
            Err(BuildError::PathTooLong)
        } else {
            self.request_at(self.location(self.outbound_path(path)), method, fields)
        }
    }

    /// The response for the caller, where `applied` says which of the
    /// additions were applied: status and body are the upstream's.
    pub open spec fn response(
        self,
        status: u16,
        fields: Fields,
        body: Seq<u8>,
        applied: Seq<bool>,
    ) -> ResponseView {
        ResponseView { status, headers: with_additions(fields, self.additions(), applied), body }
    }

    /// The response for the caller when every well-formed addition is applied.
    pub open spec fn full_response(
        self,
        status: u16,
        fields: Fields,
        body: Seq<u8>,
    ) -> ResponseView {
        self.response(status, fields, body, well_formed(self.additions()))
    }
}

/// Checks the target of a route: it has to be an absolute URL.
pub fn target_from_str(text: &str) -> (target: Result<String, RecordError>)
    ensures
        match target {
            Ok(target) => is_target(text@) && target@ == text@,
            Err(error) => !is_target(text@) && error == RecordError::InvalidTarget,
        },
{
    if fits(text) && url_is_valid(text) {
        Ok(text.to_owned())
    } else {
        Err(RecordError::InvalidTarget)
    }
}

/// Reads the methods of a route: each has to be a token, and each is brought
/// into upper case.
pub fn methods_from_strs(strs: &Vec<String>) -> (methods: Result<Vec<Method>, RecordError>)
    ensures
        match methods {
            Ok(methods) => are_tokens(strs.deep_view()) && methods.deep_view() == methods_of(
                strs.deep_view(),
            ),
            Err(error) => !are_tokens(strs.deep_view()) && error == RecordError::InvalidMethod,
        },
{
    let mut methods: Vec<Method> = Vec::new();
    let mut i: usize = 0;
    while i < strs.len()
        invariant
            i <= strs.len(),
            methods.len() == i,
            forall|j: int| 0 <= j < i ==> is_token(#[trigger] strs.deep_view()[j]),
            forall|j: int| 0 <= j < i ==> (#[trigger] methods[j])@ == uppered(strs[j]@),
        decreases strs.len() - i,
    {
        match Method::from_str(strs[i].as_str()) {
            Some(method) => methods.push(method),
            None => {
                assert(!is_token(strs.deep_view()[i as int]));
                return Err(RecordError::InvalidMethod);
            },
        }
        i += 1;
    }
    Ok(methods)
}

/// Says whether no two of the rules are for one header, that is, whether their
/// names differ even without regard to ASCII case.
pub fn has_distinct_names(rules: &Vec<(String, String)>) -> (distinct: bool)
    ensures
        distinct == names_are_distinct(rules.deep_view()),
{
    let mut j: usize = 0;
    while j < rules.len()
        invariant
            j <= rules.len(),
            forall|a: int, b: int|
                0 <= a < b < j ==> header_key((#[trigger] rules.deep_view()[a]).0) != header_key(
                    (#[trigger] rules.deep_view()[b]).0,
                ),
        decreases rules.len() - j,
    {
        let mut i: usize = 0;
        while i < j
            invariant
                i <= j < rules.len(),
                forall|a: int|
                    0 <= a < i ==> header_key((#[trigger] rules.deep_view()[a]).0) != header_key(
                        rules.deep_view()[j as int].0,
                    ),
            decreases j - i,
        {
            if rules[i].0.as_str().eq_ignore_ascii_case(rules[j].0.as_str()) {
                assert(header_key(rules.deep_view()[i as int].0) == header_key(
                    rules.deep_view()[j as int].0,
                ));
                return false;
            }
            i += 1;
        }
        j += 1;
    }
    true
}

impl Record {
    /// Makes a record of a route definition, or says why it gives none.
    pub fn new(route: Route) -> (record: Result<Record, RecordError>)
        ensures
            made(record) == route@.record(),
            record matches Ok(record) ==> record@.wf(),
    {
        let target = match target_from_str(route.target.as_str()) {
            Ok(target) => target,
            Err(error) => {
                return Err(error);
            },
        };
        if route.methods.len() == 0 {
            return Err(RecordError::NoMethods);
        }
        let methods = match methods_from_strs(&route.methods) {
            Ok(methods) => methods,
            Err(error) => {
                return Err(error);
            },
        };
        let distinct = match &route.add_response_headers {
            Some(rules) => has_distinct_names(rules),
            None => true,
        };
        if !distinct {
            return Err(RecordError::DuplicateHeader);
        }
        proof {
            methods_are_upper_case(route.methods.deep_view());
        }
        Ok(
            Record {
                target,
                methods,
                rewrite: route.rewrite,
                remove_request_headers: route.remove_request_headers,
                add_response_headers: route.add_response_headers,
            },
        )
    }

    /// Says whether the record allows the method.
    pub fn allows(&self, method: &Method) -> (allowed: bool)
        ensures
            allowed == self@.allows(method@),
    {
        let mut i: usize = 0;
        while i < self.methods.len()
            invariant
                i <= self.methods.len(),
                forall|j: int| 0 <= j < i ==> (#[trigger] self.methods.deep_view()[j]) != method@,
            decreases self.methods.len() - i,
        {
            if self.methods[i].same_as(method) {
                assert(self.methods.deep_view()[i as int] == method@);
                return true;
            }
            i += 1;
        }
        false
    }

    /// Builds the outbound request from what replacing the target's path gave:
    /// the URL must have parsed and must name a host, and the headers are
    /// those of the request without the ones the record removes.
    pub fn request_at(
        &self,
        location: Option<Location>,
        method: Method,
        incoming_header: &HeaderMap<HeaderValue>,
    ) -> (request: Result<OutboundRequest, BuildError>)
        ensures
            built(request) == self@.request_at(
                located(location),
                method@,
                header_fields(*incoming_header),
            ),
    {
        let location = match location {
            Some(location) => location,
            None => {
                return Err(BuildError::InvalidTarget);
            },
        };
        if !location.has_host() {
            return Err(BuildError::NoHost);
        }
        let mut proxy_headers = clone_headers(incoming_header);
        match &self.remove_request_headers {
            Some(to_remove) => {
                remove_headers(&mut proxy_headers, to_remove);
            },
            None => {
                proof {
                    crate::headers::removing_nothing_keeps_all(header_fields(proxy_headers));
                }
            },
        }
        Ok(OutboundRequest { method, url: location, headers: proxy_headers })
    }

    /// Builds the request to send upstream for a request with this path,
    /// method and headers: the path is the record's rewrite where it has one,
    /// the target's scheme, host and port stay, and the headers that the record
    /// removes are left out.
    pub fn get_request(
        &self,
        path: &str,
        method: Method,
        incoming_header: &HeaderMap<HeaderValue>,
    ) -> (request: Result<OutboundRequest, BuildError>)
        ensures
            built(request) == self@.request(path@, method@, header_fields(*incoming_header)),
            is_target(self.target@) ==> !(request matches Err(BuildError::InvalidTarget))
                && !(request matches Err(BuildError::TargetTooLong)),
    {
        let rewrite = match &self.rewrite {
            Some(rewrite) => rewrite.as_str(),
            None => path,
        };
        if !fits(self.target.as_str()) {
            return Err(BuildError::TargetTooLong);
        }
        if !fits(rewrite) {
            return Err(BuildError::PathTooLong);
        }
        let location = replace_path(self.target.as_str(), rewrite);
        self.request_at(location, method, incoming_header)
    }

    /// Assembles the response for the caller from the upstream's: status and
    /// body pass through, and each addition of the record overwrites what the
    /// headers held under its name. The flags say, for each addition in turn,
    /// whether it was applied; one that is not well formed never is.
    pub fn get_response(
        &self,
        status: u16,
        headers: HeaderMap<HeaderValue>,
        body: Vec<u8>,
    ) -> (out: (Response, Vec<bool>))
        ensures
            out.0@ == self@.response(status, header_fields(headers), body@, out.1@),
            out.1@.len() == self@.additions().len(),
            forall|i: int|
                0 <= i < out.1@.len() && out.1@[i] ==> is_addition(#[trigger] self@.additions()[i]),
            has_room(header_fields(headers), self@.additions().len()) ==> {
                &&& out.1@ == well_formed(self@.additions())
                &&& out.0@ == self@.full_response(status, header_fields(headers), body@)
            },
    {
        let mut headers = headers;
        let applied = match &self.add_response_headers {
            Some(add_on) => add_headers(&mut headers, add_on),
            None => Vec::new(),
        };
        (Response { status, headers, body }, applied)
    }
}

/// Methods read from tokens are in upper case already.
pub proof fn methods_are_upper_case(tokens: Seq<Seq<char>>)
    ensures
        methods_of(methods_of(tokens)) == methods_of(tokens),
        are_tokens(tokens) ==> are_tokens(methods_of(tokens)),
{
    assert forall|i: int| 0 <= i < tokens.len() implies uppered(uppered(tokens[i])) == uppered(
        tokens[i],
    ) by {
        crate::text::uppered_twice(tokens[i]);
    }
    if are_tokens(tokens) {
        assert forall|i: int| 0 <= i < tokens.len() implies is_token(
            #[trigger] methods_of(tokens)[i],
        ) by {
            crate::method::uppered_is_token(tokens[i]);
        }
    }
}

/// A record that removes no header sends upstream exactly the headers that
/// came in.
pub proof fn forwards_every_header_when_none_is_removed(
    record: RecordView,
    path: Seq<char>,
    method: Seq<char>,
    fields: Fields,
)
    requires
        record.removed().len() == 0,
    ensures
        record.request(path, method, fields) matches Ok(out) ==> out.headers == fields,
{
    crate::headers::removing_nothing_keeps_all(fields);
}

/// Removing headers that the request does not carry changes nothing in what
/// is sent upstream; a removal name that is no header name counts as not
/// carried.
pub proof fn removing_an_absent_header_changes_nothing(
    record: RecordView,
    path: Seq<char>,
    method: Seq<char>,
    fields: Fields,
)
    requires
        forall|i: int|
            0 <= i < record.removed().len() && is_header_name(record.removed()[i])
                ==> !fields.contains_key(#[trigger] header_key(record.removed()[i])),
    ensures
        record.request(path, method, fields) matches Ok(out) ==> out.headers == fields,
{
    crate::headers::removing_absent_names_keeps_all(fields, record.removed());
}

/// Assembling the response a second time from the headers of the first gives
/// the same headers: additions overwrite.
pub proof fn assembling_twice_is_assembling_once(
    record: RecordView,
    status: u16,
    fields: Fields,
    body: Seq<u8>,
    applied: Seq<bool>,
)
    requires
        applied.len() == record.additions().len(),
    ensures
        record.response(
            status,
            record.response(status, fields, body, applied).headers,
            body,
            applied,
        ) == record.response(status, fields, body, applied),
{
    crate::headers::adding_twice_is_adding_once(fields, record.additions(), applied);
}

/// Where the upstream's headers leave room for the additions twice over, the
/// response is assembled in full, its headers leave room for the additions
/// once more, and assembling a response from them again gives the same
/// headers: a second pass adds no value and doubles none.
pub proof fn a_second_assembly_changes_nothing(
    record: RecordView,
    status: u16,
    fields: Fields,
    body: Seq<u8>,
)
    requires
        has_room(fields, 2 * record.additions().len()),
    ensures
        has_room(fields, record.additions().len()),
        has_room(record.full_response(status, fields, body).headers, record.additions().len()),
        record.full_response(status, record.full_response(status, fields, body).headers, body)
            == record.full_response(status, fields, body),
{
    crate::headers::a_second_pass_changes_nothing(fields, record.additions());
}

/// The response of a well-formed record holds, under the name of each of its
/// well-formed additions, the value of that addition alone, whatever the order
/// of the additions.
pub proof fn every_addition_is_in_the_response(
    record: RecordView,
    status: u16,
    fields: Fields,
    body: Seq<u8>,
    i: int,
)
    requires
        record.wf(),
        0 <= i < record.additions().len(),
        is_addition(record.additions()[i]),
    ensures
        record.full_response(status, fields, body).headers.contains_key(
            header_key(record.additions()[i].0),
        ),
        record.full_response(status, fields, body).headers[header_key(record.additions()[i].0)]
            == seq![crate::headers::header_bytes(record.additions()[i].1)],
{
    assert(names_are_distinct(record.additions())) by {
        if record.add_response_headers is None {
            assert(record.additions() =~= Seq::empty());
        }
    }
    crate::headers::each_addition_holds(
        fields,
        record.additions(),
        well_formed(record.additions()),
        i,
    );
}

/// What is sent upstream goes to the target's scheme, host and port, with the
/// method of the request; only the path is replaced.
pub proof fn outbound_keeps_origin_and_method(
    record: RecordView,
    path: Seq<char>,
    method: Seq<char>,
    fields: Fields,
)
    ensures
        record.request(path, method, fields) matches Ok(out) ==> {
            &&& url_origin(record.target) == Some(out.origin)
            &&& url_with_path(record.target, record.outbound_path(path)) == Some(out.url)
            &&& out.method == method
        },
{
}

} // verus!
