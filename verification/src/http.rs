//! HTTP described with specs: the request and response protocols, the
//! information they carry, and the handling of a request.
use vstd::prelude::*;

use vstd::slice::*;

use crate::error::ParserError;
use crate::info::{InfoProvider, KeyRoute, RequestInfo, ResponseInfo, info_added, info_of};
use crate::mapper::{DefaultMapper, MapperView};
use crate::builders::{
    new_mandatory_spec_builder, BuildFromScratch, CompositeBuilder, CustomSpecBuilder, DelimitedStringSpecBuilder,
    DelimiterBuilder, InlineValueBuilder, KeySpecBuilder, ProtoSpecBuilder, ProtoSpecBuilderData, RepeatBuilder,
    ValueBuilder,
};
use crate::names::{RepeatCountView, Separator, SeparatorView, SpecMetaData, SpecName, SpecNameView};
use crate::server::{DefaultSerializer, HandlerInput, RequestErrorHandler, RequestFactory, RequestHandler, ResponseErrorHandler, ResponseFactory, ResponseHandler};
use crate::spec::{KeyValueSpec, ListSpec, SpecNode};
use crate::text::{decimal, text_eq, unsigned_to_string};
use vstd::utf8::*;
use crate::value::{Value, ValueExtractor, ValueType, ValueView, string_of};

verus! {

/// Spec of an HTTP body: as many bytes as the `Content-Length` header says.
pub struct BodySpec {
    pub spec_meta_data: SpecMetaData,
}

impl BodySpec {
    pub fn new(name: SpecName, optional: bool) -> (r: Self)
        ensures
            r.spec_meta_data == SpecMetaData::new_spec(name, ValueType::NoValue, optional),
    {
        BodySpec { spec_meta_data: SpecMetaData::new(name, ValueType::NoValue, optional) }
    }
}


/// Whether `key` names a value of the request kept as a simple value; any
/// other name is a header.
pub open spec fn request_simple_key(key: Seq<char>) -> bool {
    key == "request_method"@ || key == "protocol_version"@ || key == "request_uri"@ || key == "request_body"@
}

/// Whether `key` names a value of the response kept as a simple value; any
/// other name is a header.
pub open spec fn response_simple_key(key: Seq<char>) -> bool {
    key == "status_code"@ || key == "protocol_version"@ || key == "status_text"@ || key == "response_body"@
}

/// Information of an HTTP request.
pub struct HttpRequestInfo {
    mapper: DefaultMapper,
}

/// Information of an HTTP response.
pub struct HttpResponseInfo {
    mapper: DefaultMapper,
}

impl Default for HttpRequestInfo {
    fn default() -> (r: Self)
        ensures
            r.mapper_view() == MapperView::empty(),
    {
        HttpRequestInfo { mapper: DefaultMapper::new() }
    }
}

impl Default for HttpResponseInfo {
    fn default() -> (r: Self)
        ensures
            r.mapper_view() == MapperView::empty(),
    {
        HttpResponseInfo { mapper: DefaultMapper::new() }
    }
}

impl KeyRoute for HttpRequestInfo {
    /// Request headers are kept under the lookup names `header_name` and `header_value`.
    open spec fn route(key: Seq<char>) -> Option<(Seq<char>, Seq<char>)> {
        if request_simple_key(key) {
            None
        } else {
            Some(("header_name"@, "header_value"@))
        }
    }

    fn key_route(&self, key: &str) -> (r: Option<(String, String)>) {
        if text_eq(key, "request_method") || text_eq(key, "protocol_version") || text_eq(key, "request_uri")
            || text_eq(key, "request_body") {
            None
        } else {
            Some((String::from_str("header_name"), String::from_str("header_value")))
        }
    }
}

impl KeyRoute for HttpResponseInfo {
    /// Response headers are kept under the lookup names `header_name` and `header_value`.
    open spec fn route(key: Seq<char>) -> Option<(Seq<char>, Seq<char>)> {
        if response_simple_key(key) {
            None
        } else {
            Some(("header_name"@, "header_value"@))
        }
    }

    fn key_route(&self, key: &str) -> (r: Option<(String, String)>) {
        if text_eq(key, "status_code") || text_eq(key, "protocol_version") || text_eq(key, "status_text")
            || text_eq(key, "response_body") {
            None
        } else {
            Some((String::from_str("header_name"), String::from_str("header_value")))
        }
    }
}

impl InfoProvider for HttpRequestInfo {
    closed spec fn mapper_view(&self) -> MapperView {
        self.mapper@
    }

    fn get_mapper_mut(&mut self) -> (r: &mut DefaultMapper) {
        &mut self.mapper
    }

    fn get_mapper(&self) -> (r: &DefaultMapper) {
        &self.mapper
    }
}

impl InfoProvider for HttpResponseInfo {
    closed spec fn mapper_view(&self) -> MapperView {
        self.mapper@
    }

    fn get_mapper_mut(&mut self) -> (r: &mut DefaultMapper) {
        &mut self.mapper
    }

    fn get_mapper(&self) -> (r: &DefaultMapper) {
        &self.mapper
    }
}

impl RequestInfo for HttpRequestInfo {
}

/// The text the information holds for `key`, if it holds text (or a number, as text).
pub open spec fn text_info<I: KeyRoute>(m: MapperView, key: Seq<char>) -> Option<Seq<char>> {
    match info_of::<I>(m, key) {
        Some(v) => string_of(v),
        None => None,
    }
}

/// The text held for `key`.
fn get_text<I: InfoProvider>(info: &I, key: &str) -> (r: Option<String>)
    ensures
        r is Some <==> text_info::<I>(info.mapper_view(), key@) is Some,
        r matches Some(t) ==> t@ == text_info::<I>(info.mapper_view(), key@).unwrap(),
{
    match info.get_info(&String::from_str(key)) {
        Some(v) => v.get_string_value(),
        None => None,
    }
}

impl HttpRequestInfo {
    pub fn get_request_method(&self) -> (r: Option<String>)
        ensures
            r is Some <==> text_info::<HttpRequestInfo>(self.mapper_view(), "request_method"@) is Some,
            r matches Some(t) ==> t@ == text_info::<HttpRequestInfo>(self.mapper_view(), "request_method"@).unwrap(),
    {
        get_text(self, "request_method")
    }

    pub fn get_request_uri(&self) -> (r: Option<String>)
        ensures
            r is Some <==> text_info::<HttpRequestInfo>(self.mapper_view(), "request_uri"@) is Some,
            r matches Some(t) ==> t@ == text_info::<HttpRequestInfo>(self.mapper_view(), "request_uri"@).unwrap(),
    {
        get_text(self, "request_uri")
    }

    pub fn get_content_type(&self) -> (r: Option<String>)
        ensures
            r is Some <==> text_info::<HttpRequestInfo>(self.mapper_view(), "Content-Type"@) is Some,
            r matches Some(t) ==> t@ == text_info::<HttpRequestInfo>(self.mapper_view(), "Content-Type"@).unwrap(),
    {
        get_text(self, "Content-Type")
    }

    pub fn get_request_body(&self) -> (r: Option<Vec<u8>>)
        ensures
            r is Some <==> info_of::<HttpRequestInfo>(self.mapper_view(), "request_body"@) matches Some(ValueView::Bytes(_)),
            r matches Some(b) ==> info_of::<HttpRequestInfo>(self.mapper_view(), "request_body"@) == Some(ValueView::Bytes(b@)),
    {
        match self.get_info(&String::from_str("request_body")) {
            Some(Value::U8Vec(b)) => Some(slice_to_vec(b.as_slice())),
            _ => None,
        }
    }
}

/// `m` after information `I` took `value` for `key`, or `m` when it could not.
pub open spec fn added_or_kept<I: KeyRoute>(m: MapperView, key: Seq<char>, value: ValueView) -> MapperView {
    match info_added::<I>(m, key, value) {
        Some(m2) => m2,
        None => m,
    }
}

/// Adds text for `key`, an information that cannot take it staying as it is.
fn put_text<I: InfoProvider>(info: &mut I, key: &str, value: &str)
    ensures
        final(info).mapper_view() == added_or_kept::<I>(old(info).mapper_view(), key@, ValueView::Text(value@)),
{
    let _ = info.add_info(String::from_str(key), Value::String(String::from_str(value)));
}

/// Formats the current date for the `Date` header (`chrono::Utc::now()` and
/// `DateTime::format`); the contract says nothing of the text, which depends on
/// the time.
#[verifier::external_body]
fn current_date_text() -> String {
    chrono::Utc::now().format("%a %d %b %Y %H %M %S GMT").to_string()
}

/// The mapper `m` with the status `200 OK`, the protocol version `HTTP/1.1`
/// and the date `date` added.
pub open spec fn response_defaults(m: MapperView, date: Seq<char>) -> MapperView {
    added_or_kept::<HttpResponseInfo>(
        added_or_kept::<HttpResponseInfo>(
            added_or_kept::<HttpResponseInfo>(
                added_or_kept::<HttpResponseInfo>(m, "status_code"@, ValueView::Text("200"@)),
                "protocol_version"@,
                ValueView::Text("HTTP/1.1"@),
            ),
            "status_text"@,
            ValueView::Text("OK"@),
        ),
        "Date"@,
        ValueView::Text(date),
    )
}

impl ResponseInfo for HttpResponseInfo {
    /// The defaults were added with some date: the text of the date depends on the time.
    open spec fn defaults_added(before: MapperView, after: MapperView) -> bool {
        exists|date: Seq<char>| after == response_defaults(before, date)
    }

    /// The defaults can always be added: a name that has no place is left out.
    open spec fn defaults_accepted(before: MapperView) -> bool {
        true
    }

    /// Adds the status `200 OK`, the protocol version `HTTP/1.1` and the date.
    fn add_defaults(&mut self) -> (r: Result<(), ParserError>)
        ensures
            r is Ok,
            Self::defaults_added(old(self).mapper_view(), final(self).mapper_view()),
    {
        let now = current_date_text();
        put_text(self, "status_code", "200");
        put_text(self, "protocol_version", "HTTP/1.1");
        put_text(self, "status_text", "OK");
        let ghost before = self.mapper_view();
        let ghost d = now@;
        put_text(self, "Date", now.as_str());
        assert(self.mapper_view() == added_or_kept::<HttpResponseInfo>(before, "Date"@, ValueView::Text(d)));
        assert(self.mapper_view() == response_defaults(old(self).mapper_view(), d));
        Ok(())
    }
}


/// The information of a response whose entries were added to `m`, in order;
/// an entry that could not be taken is left out.
pub open spec fn with_entries(m: MapperView, entries: Seq<(Seq<char>, ValueView)>) -> MapperView
    decreases entries.len(),
{
    if entries.len() == 0 {
        m
    } else {
        added_or_kept::<HttpResponseInfo>(with_entries(m, entries.drop_last()), entries.last().0, entries.last().1)
    }
}

/// The entries of the response to a request for the product: `200 OK`, JSON
/// content of the length of `json`, and `json` as body.
pub open spec fn product_entries(json: Seq<u8>) -> Seq<(Seq<char>, ValueView)> {
    seq![
        ("status_code"@, ValueView::Text("200"@)),
        ("status_text"@, ValueView::Text("OK"@)),
        ("protocol_version"@, ValueView::Text("HTTP/1.1"@)),
        ("Content-Type"@, ValueView::Text("application/json"@)),
        ("Content-Length"@, ValueView::Text(decimal(json.len()))),
        ("response_body"@, ValueView::Bytes(json)),
    ]
}

/// The entries of the response to a product that was created.
pub open spec fn created_entries() -> Seq<(Seq<char>, ValueView)> {
    seq![
        ("status_code"@, ValueView::Text("201"@)),
        ("status_text"@, ValueView::Text("Created"@)),
        ("protocol_version"@, ValueView::Text("HTTP/1.1"@)),
        ("Content-Length"@, ValueView::Text("0"@)),
    ]
}

/// The entries of the response to a product that was deleted.
pub open spec fn deleted_entries() -> Seq<(Seq<char>, ValueView)> {
    seq![
        ("status_code"@, ValueView::Text("200"@)),
        ("status_text"@, ValueView::Text("OK"@)),
        ("protocol_version"@, ValueView::Text("HTTP/1.1"@)),
    ]
}

/// The path of the product served.
pub open spec fn product_path() -> Seq<char> {
    "/product/1"@
}

/// Takes the response out, leaving a default one in its place.
fn take_response(response: &mut HttpResponseInfo) -> (r: HttpResponseInfo)
    ensures
        r.mapper_view() == old(response).mapper_view(),
        final(response).mapper_view() == MapperView::empty(),
{
    let mut fresh = HttpResponseInfo::default();
    core::mem::swap(&mut fresh, response);
    fresh
}

/// Adds the entries of the response to a request for the product.
fn add_product_entries(response: &mut HttpResponseInfo, json: &Vec<u8>)
    ensures
        final(response).mapper_view() == with_entries(old(response).mapper_view(), product_entries(json@)),
{
    proof {
        reveal_with_fuel(with_entries, 7);
    }
    let ghost m0 = response.mapper_view();
    put_text(response, "status_code", "200");
    put_text(response, "status_text", "OK");
    put_text(response, "protocol_version", "HTTP/1.1");
    put_text(response, "Content-Type", "application/json");
    let length = unsigned_to_string(json.len() as u64);
    put_text(response, "Content-Length", length.as_str());
    let _ = response.add_info(String::from_str("response_body"), Value::U8Vec(slice_to_vec(json.as_slice())));
    proof {
        let e = product_entries(json@);
        assert(e.drop_last().drop_last().drop_last().drop_last().drop_last().drop_last() =~= Seq::<(Seq<char>, ValueView)>::empty());
        assert(e.drop_last().drop_last().drop_last().drop_last().drop_last() =~= seq![e[0]]);
        assert(e.drop_last().drop_last().drop_last().drop_last() =~= seq![e[0], e[1]]);
        assert(e.drop_last().drop_last().drop_last() =~= seq![e[0], e[1], e[2]]);
        assert(e.drop_last().drop_last() =~= seq![e[0], e[1], e[2], e[3]]);
        assert(e.drop_last() =~= seq![e[0], e[1], e[2], e[3], e[4]]);
    }
}

/// Adds the entries of the response to a product that was created.
fn add_created_entries(response: &mut HttpResponseInfo)
    ensures
        final(response).mapper_view() == with_entries(old(response).mapper_view(), created_entries()),
{
    proof {
        reveal_with_fuel(with_entries, 5);
    }
    put_text(response, "status_code", "201");
    put_text(response, "status_text", "Created");
    put_text(response, "protocol_version", "HTTP/1.1");
    put_text(response, "Content-Length", "0");
    proof {
        let e = created_entries();
        assert(e.drop_last().drop_last().drop_last().drop_last() =~= Seq::<(Seq<char>, ValueView)>::empty());
        assert(e.drop_last().drop_last().drop_last() =~= seq![e[0]]);
        assert(e.drop_last().drop_last() =~= seq![e[0], e[1]]);
        assert(e.drop_last() =~= seq![e[0], e[1], e[2]]);
    }
}

/// Adds the entries of the response to a product that was deleted.
fn add_deleted_entries(response: &mut HttpResponseInfo)
    ensures
        final(response).mapper_view() == with_entries(old(response).mapper_view(), deleted_entries()),
{
    proof {
        reveal_with_fuel(with_entries, 4);
    }
    put_text(response, "status_code", "200");
    put_text(response, "status_text", "OK");
    put_text(response, "protocol_version", "HTTP/1.1");
    proof {
        let e = deleted_entries();
        assert(e.drop_last().drop_last().drop_last() =~= Seq::<(Seq<char>, ValueView)>::empty());
        assert(e.drop_last().drop_last() =~= seq![e[0]]);
        assert(e.drop_last() =~= seq![e[0], e[1]]);
    }
}

/// `std::str::from_utf8`, for its error: it fails exactly on bytes that are
/// not UTF-8, as its documentation says.
#[verifier::external_body]
fn utf8_check(bytes: &[u8]) -> (r: Result<(), std::str::Utf8Error>)
    ensures
        r is Ok <==> valid_utf8(bytes@),
{
    match std::str::from_utf8(bytes) {
        Ok(_) => Ok(()),
        Err(e) => Err(e),
    }
}

/// The error of a request value that the handler needs and that is missing.
fn missing_request_data(name: &str) -> (e: ParserError)
    ensures
        e matches ParserError::MissingData(n) && n@ == name@,
{
    ParserError::MissingData(String::from_str(name))
}

/// Handler of the HTTP requests of the product service.
pub struct HttpRequestHandler;

/// Handler of HTTP responses.
pub struct HttpResponseHandler;

/// Configuration of the HTTP server.
pub struct HttpConfig;

/// What the handler of a request that changes the product answers: for the
/// product's path, a body that is UTF-8 JSON of a product gives the response
/// with `entries`; a body that is not UTF-8, or not a product, is an error;
/// any other request gets a default response.
pub open spec fn change_outcome(
    request: MapperView,
    response: MapperView,
    body_is_product: bool,
    entries: Seq<(Seq<char>, ValueView)>,
    r: Result<HttpResponseInfo, ParserError>,
) -> bool {
    match text_info::<HttpRequestInfo>(request, "request_uri"@) {
        None => r matches Err(e) && e is MissingData,
        Some(uri) => if uri == product_path() {
            match info_of::<HttpRequestInfo>(request, "request_body"@) {
                Some(ValueView::Bytes(body)) => if !valid_utf8(body) {
                    r matches Err(e) && e is Utf8Error
                } else if text_info::<HttpRequestInfo>(request, "Content-Type"@) is None
                    || text_info::<HttpRequestInfo>(request, "Content-Type"@) == Some("application/json"@) {
                    if body_is_product {
                        r matches Ok(x) && x.mapper_view() == with_entries(response, entries)
                    } else {
                        r matches Err(e) && e is SerdeError
                    }
                } else {
                    r matches Ok(x) && x.mapper_view() == MapperView::empty()
                },
                _ => r matches Err(e) && e is MissingData,
            }
        } else {
            r matches Ok(x) && x.mapper_view() == MapperView::empty()
        },
    }
}

impl HttpRequestHandler {
    /// Answers a GET request: the product at its path, a default response elsewhere.
    pub fn handle_get(&self, request: &HttpRequestInfo, response: &mut HttpResponseInfo, input: &HandlerInput) -> (r: Result<HttpResponseInfo, ParserError>)
        ensures
            match text_info::<HttpRequestInfo>(request.mapper_view(), "request_uri"@) {
                None => r matches Err(e) && e is MissingData,
                Some(uri) => if uri == product_path() {
                    &&& r matches Ok(x) && x.mapper_view() == with_entries(old(response).mapper_view(), product_entries(input.product_json@))
                    &&& final(response).mapper_view() == MapperView::empty()
                } else {
                    r matches Ok(x) && x.mapper_view() == MapperView::empty()
                },
            },
    {
        let uri = match request.get_request_uri() {
            Some(u) => u,
            None => {
                return Err(missing_request_data("request_uri"));
            },
        };
        if text_eq(uri.as_str(), "/product/1") {
            add_product_entries(response, &input.product_json);
            return Ok(take_response(response));
        }
        Ok(HttpResponseInfo::default())
    }

    /// Answers a request that changes the product, with the entries that `deleted` selects.
    fn handle_change(&self, request: &HttpRequestInfo, response: &mut HttpResponseInfo, input: &HandlerInput, deleted: bool) -> (r: Result<HttpResponseInfo, ParserError>)
        ensures
            change_outcome(request.mapper_view(), old(response).mapper_view(), input.body_is_product,
                if deleted { deleted_entries() } else { created_entries() }, r),
    {
        let uri = match request.get_request_uri() {
            Some(u) => u,
            None => {
                return Err(missing_request_data("request_uri"));
            },
        };
        if text_eq(uri.as_str(), "/product/1") {
            let body = match request.get_request_body() {
                Some(b) => b,
                None => {
                    return Err(missing_request_data("request_body"));
                },
            };
            match utf8_check(body.as_slice()) {
                Ok(()) => {},
                Err(e) => {
                    return Err(ParserError::Utf8Error(e));
                },
            }
            let content_type = match request.get_content_type() {
                Some(t) => t,
                None => String::from_str("application/json"),
            };
            if text_eq(content_type.as_str(), "application/json") {
                if !input.body_is_product {
                    return Err(ParserError::SerdeError(String::from_str("the body is not a product")));
                }
                if deleted {
                    add_deleted_entries(response);
                } else {
                    add_created_entries(response);
                }
                return Ok(take_response(response));
            }
        }
        Ok(HttpResponseInfo::default())
    }

    /// Answers a POST request: the product is created.
    pub fn handle_post(&self, request: &HttpRequestInfo, response: &mut HttpResponseInfo, input: &HandlerInput) -> (r: Result<HttpResponseInfo, ParserError>)
        ensures
            change_outcome(request.mapper_view(), old(response).mapper_view(), input.body_is_product, created_entries(), r),
    {
        self.handle_change(request, response, input, false)
    }

    /// Answers a PUT request as a POST request.
    pub fn handle_put(&self, request: &HttpRequestInfo, response: &mut HttpResponseInfo, input: &HandlerInput) -> (r: Result<HttpResponseInfo, ParserError>)
        ensures
            change_outcome(request.mapper_view(), old(response).mapper_view(), input.body_is_product, created_entries(), r),
    {
        self.handle_post(request, response, input)
    }

    /// Answers a DELETE request: the product is deleted.
    pub fn handle_delete(&self, request: &HttpRequestInfo, response: &mut HttpResponseInfo, input: &HandlerInput) -> (r: Result<HttpResponseInfo, ParserError>)
        ensures
            change_outcome(request.mapper_view(), old(response).mapper_view(), input.body_is_product, deleted_entries(), r),
    {
        self.handle_change(request, response, input, true)
    }
}

/// The method of a request: the text it holds, `GET` when it holds none.
pub open spec fn method_of(request: MapperView) -> Seq<char> {
    match text_info::<HttpRequestInfo>(request, "request_method"@) {
        Some(m) => m,
        None => "GET"@,
    }
}

impl RequestHandler<HttpRequestInfo, HttpResponseInfo> for HttpRequestHandler {
    /// Dispatches on the method: GET, POST and PUT have their handlers, any
    /// other method is handled as DELETE.
    fn handle_request(&self, request: &HttpRequestInfo, response: &mut HttpResponseInfo, input: &HandlerInput) -> (r: Result<HttpResponseInfo, ParserError>)
        ensures
            method_of(request.mapper_view()) == "GET"@ ==> match text_info::<HttpRequestInfo>(request.mapper_view(), "request_uri"@) {
                None => r matches Err(e) && e is MissingData,
                Some(uri) => if uri == product_path() {
                    r matches Ok(x) && x.mapper_view() == with_entries(old(response).mapper_view(), product_entries(input.product_json@))
                } else {
                    r matches Ok(x) && x.mapper_view() == MapperView::empty()
                },
            },
            method_of(request.mapper_view()) != "GET"@ ==> change_outcome(request.mapper_view(), old(response).mapper_view(), input.body_is_product,
                if method_of(request.mapper_view()) == "POST"@ || method_of(request.mapper_view()) == "PUT"@ { created_entries() } else { deleted_entries() }, r),
    {
        let method = match request.get_request_method() {
            Some(m) => m,
            None => String::from_str("GET"),
        };
        if text_eq(method.as_str(), "GET") {
            self.handle_get(request, response, input)
        } else if text_eq(method.as_str(), "POST") {
            self.handle_post(request, response, input)
        } else if text_eq(method.as_str(), "PUT") {
            self.handle_put(request, response, input)
        } else {
            self.handle_delete(request, response, input)
        }
    }
}

impl RequestErrorHandler<HttpRequestInfo, HttpResponseInfo> for HttpRequestHandler {
    /// Gives the error back: no response is made for a request in error.
    fn handle_request_error(&self, request: &HttpRequestInfo, error: ParserError) -> (r: Result<HttpResponseInfo, ParserError>)
        ensures
            r == Err::<HttpResponseInfo, ParserError>(error),
    {
        Err(error)
    }
}

impl ResponseHandler<HttpResponseInfo> for HttpResponseHandler {
    fn handle_response(&self, response: &HttpResponseInfo) -> (r: Result<(), ParserError>)
        ensures
            r is Ok,
    {
        Ok(())
    }
}

impl ResponseErrorHandler<HttpResponseInfo> for HttpResponseHandler {
    fn handle_response_error(&self, response_info: &HttpResponseInfo, error: ParserError) -> (r: Result<(), ParserError>)
        ensures
            r is Ok,
    {
        Ok(())
    }
}

/// Factory of HTTP requests.
pub struct HttpRequestFactory {
    pub spec: SpecNode,
}

impl HttpRequestFactory {
    pub fn new(spec: ListSpec) -> (r: Self)
        ensures
            r.spec == SpecNode::List(spec),
    {
        HttpRequestFactory { spec: SpecNode::List(spec) }
    }
}

impl RequestFactory<HttpRequestInfo, DefaultSerializer, HttpRequestHandler, HttpRequestHandler, HttpResponseInfo> for HttpRequestFactory {
    open spec fn request_spec(&self) -> SpecNode {
        self.spec
    }

    /// A request starts with an empty mapper.
    open spec fn fresh_request(&self) -> MapperView {
        MapperView::empty()
    }

    fn get_request_spec(&self) -> (r: &SpecNode) {
        &self.spec
    }

    fn create_request_info(&self) -> (r: HttpRequestInfo) {
        HttpRequestInfo::default()
    }

    fn create_request_serializer(&self) -> DefaultSerializer {
        DefaultSerializer
    }

    fn create_request_handler(&self) -> HttpRequestHandler {
        HttpRequestHandler
    }

    fn create_error_request_handler(&self) -> HttpRequestHandler {
        HttpRequestHandler
    }
}

/// Factory of HTTP responses.
pub struct HttpResponseFactory {
    pub response_spec: SpecNode,
}

impl HttpResponseFactory {
    pub fn new(spec: ListSpec) -> (r: Self)
        ensures
            r.response_spec == SpecNode::List(spec),
    {
        HttpResponseFactory { response_spec: SpecNode::List(spec) }
    }
}

impl ResponseFactory<HttpResponseInfo, DefaultSerializer, HttpResponseHandler, HttpResponseHandler> for HttpResponseFactory {
    open spec fn response_spec(&self) -> SpecNode {
        self.response_spec
    }

    /// A response starts with an empty mapper.
    open spec fn fresh_response(&self) -> MapperView {
        MapperView::empty()
    }

    /// Making the information of a response never fails.
    open spec fn makes_response(&self) -> bool {
        true
    }

    fn get_response_spec(&self) -> (r: &SpecNode) {
        &self.response_spec
    }

    fn create_response_info(&self) -> (r: Result<HttpResponseInfo, ParserError>)
        ensures
            r is Ok,
    {
        Ok(HttpResponseInfo::default())
    }

    fn create_response_serializer(&self) -> DefaultSerializer {
        DefaultSerializer
    }

    fn create_response_handler(&self) -> HttpResponseHandler {
        HttpResponseHandler
    }

    fn create_error_response_handler(&self) -> HttpResponseHandler {
        HttpResponseHandler
    }
}


/// Whether metadata `m` is named `name`, holds no value itself, and is optional as `optional` says.
pub open spec fn is_meta(m: SpecMetaData, name: SpecNameView, value_type: ValueType, optional: bool) -> bool {
    m.name@ == name && m.value_type == value_type && m.optional == optional
}

/// Whether `n` is mandatory unnamed text read up to the delimiter `sep`.
pub open spec fn is_text_until(n: SpecNode, sep: Seq<char>) -> bool {
    n matches SpecNode::DelimitedString(d)
        && is_meta(d.spec_meta_data, SpecNameView::NoName, ValueType::String, false)
        && d.until@ == SeparatorView::Delimiter(sep)
}

/// Whether `n` is mandatory unnamed text, one of `values`, read up to the delimiter `sep`.
pub open spec fn is_one_of_until(n: SpecNode, values: Seq<Seq<char>>, sep: Seq<char>) -> bool {
    &&& n matches SpecNode::OneOf(o)
    &&& is_meta(o.spec_meta_data, SpecNameView::NoName, ValueType::String, false)
    &&& o.until@ == SeparatorView::Delimiter(sep)
    &&& o.values@.len() == values.len()
    &&& forall|i: int| 0 <= i < values.len() ==> #[trigger] o.values@[i]@ == values[i]
}

/// Whether `n` is a mandatory inline value named `name` whose text is read up to `sep`.
pub open spec fn is_inline_text(n: SpecNode, name: Seq<char>, sep: Seq<char>) -> bool {
    n matches SpecNode::InlineKeyWithValue(i)
        && is_meta(i.1, SpecNameView::Name(name), ValueType::NoValue, false)
        && is_text_until(*i.0, sep)
}

/// The methods an HTTP request may have.
pub open spec fn http_methods() -> Seq<Seq<char>> {
    seq!["GET"@, "POST"@, "DELETE"@, "PUT"@, "OPTIONS"@]
}

/// Whether `kv` is a header: its name read up to `": "`, under the lookup
/// name `header_name` (optional as `key_optional` says), its value read up to
/// a newline under the lookup name `header_value`.
pub open spec fn is_header(kv: KeyValueSpec, key_optional: bool) -> bool {
    &&& is_text_until(*kv.key.0, ": "@)
    &&& is_meta(kv.key.1, SpecNameView::Name("header_name"@), ValueType::NoValue, key_optional)
    &&& is_text_until(*kv.value.0, "\r\n"@)
    &&& is_meta(kv.value.1, SpecNameView::Name("header_value"@), ValueType::NoValue, false)
    &&& is_meta(kv.spec_metadata, SpecNameView::Name("key-value-spec"@), ValueType::NoValue, key_optional)
}

/// Whether `n` is the repeat of the headers, optional, ended by an empty
/// line, each header being a list named `header_list` that holds one header.
pub open spec fn is_headers_repeat(n: SpecNode, header_list: SpecNameView, key_optional: bool) -> bool {
    &&& n matches SpecNode::RepeatMany(rm)
    &&& is_meta(rm.spec_meta_data, SpecNameView::Name("headers"@), ValueType::NoValue, true)
    &&& rm.repeat_count@ == RepeatCountView::Delimited(SeparatorView::Delimiter("\r\n"@))
    &&& is_meta(rm.constituents.spec_meta_data, header_list, ValueType::NoValue, false)
    &&& rm.constituents.constituents@.len() == 1
    &&& (rm.constituents.constituents@[0] matches SpecNode::KeyValue(kv) && is_header(kv, key_optional))
}

/// Whether `n` is the optional body named `name`.
pub open spec fn is_body_named(n: SpecNode, name: Seq<char>) -> bool {
    n matches SpecNode::Body(b) && b.spec_meta_data.name@ == SpecNameView::Name(name) && b.spec_meta_data.optional
}

/// Whether `n` is the mandatory inline method of a request: one of the HTTP
/// methods, read up to a space.
pub open spec fn is_request_method(n: SpecNode) -> bool {
    n matches SpecNode::InlineKeyWithValue(m)
        && is_meta(m.1, SpecNameView::Name("request_method"@), ValueType::NoValue, false)
        && is_one_of_until(*m.0, http_methods(), " "@)
}

/// Whether `line` is the request line: mandatory, named `request_line`, of the
/// method and the URI, each ended by a space, then the protocol version ended
/// by a newline.
pub open spec fn is_request_line(line: ListSpec) -> bool {
    &&& is_meta(line.spec_meta_data, SpecNameView::Transient("request_line"@), ValueType::NoValue, false)
    &&& line.constituents@.len() == 3
    &&& is_request_method(line.constituents@[0])
    &&& is_inline_text(line.constituents@[1], "request_uri"@, " "@)
    &&& is_inline_text(line.constituents@[2], "protocol_version"@, "\r\n"@)
}

/// The spec of an HTTP request: a list named `Default`, optional, of the
/// request line (mandatory, named `request_line`: the method, one of the HTTP
/// methods, and the URI, each ended by a space, then the protocol version
/// ended by a newline), the optional headers, and the optional body.
pub open spec fn is_http_request_spec(r: ListSpec) -> bool {
    &&& is_meta(r.spec_meta_data, SpecNameView::Name("Default"@), ValueType::NoValue, true)
    &&& r.constituents@.len() == 3
    &&& r.constituents@[0] matches SpecNode::List(line) && is_request_line(line)
    &&& is_headers_repeat(r.constituents@[1], SpecNameView::Transient("header"@), true)
    &&& is_body_named(r.constituents@[2], "request_body"@)
}

/// Whether `line` is the status line: mandatory, named `response_line`, of the
/// protocol version and the status code, each ended by a space, then the
/// status text ended by a newline.
pub open spec fn is_response_line(line: ListSpec) -> bool {
    &&& is_meta(line.spec_meta_data, SpecNameView::Transient("response_line"@), ValueType::NoValue, false)
    &&& line.constituents@.len() == 3
    &&& is_inline_text(line.constituents@[0], "protocol_version"@, " "@)
    &&& is_inline_text(line.constituents@[1], "status_code"@, " "@)
    &&& is_inline_text(line.constituents@[2], "status_text"@, "\r\n"@)
}

/// The spec of an HTTP response: an unnamed mandatory list of the status line
/// (mandatory, named `response_line`: the protocol version and the status
/// code, each ended by a space, then the status text ended by a newline), the
/// optional headers, and the optional body.
pub open spec fn is_http_response_spec(r: ListSpec) -> bool {
    &&& is_meta(r.spec_meta_data, SpecNameView::NoName, ValueType::NoValue, false)
    &&& r.constituents@.len() == 3
    &&& r.constituents@[0] matches SpecNode::List(line) && is_response_line(line)
    &&& is_headers_repeat(r.constituents@[1], SpecNameView::Name("header"@), false)
    &&& is_body_named(r.constituents@[2], "response_body"@)
}

/// The spec of an HTTP request: the request line with the method, the URI and
/// the protocol version, the headers, and the body.
pub fn build_http_request_protocol() -> (r: ListSpec)
    ensures
        is_http_request_spec(r),
{
    let spec_builder = ProtoSpecBuilderData::<BuildFromScratch>::new();
    let request_line_placeholder = ProtoSpecBuilderData::<BuildFromScratch>::new_with(
        SpecName::Transient(String::from_str("request_line")),
        false,
    );
    let mut methods: Vec<String> = Vec::new();
    methods.push(String::from_str("GET"));
    methods.push(String::from_str("POST"));
    methods.push(String::from_str("DELETE"));
    methods.push(String::from_str("PUT"));
    methods.push(String::from_str("OPTIONS"));
    let request_line = request_line_placeholder
        .inline_value_follows(SpecName::Name(String::from_str("request_method")), false)
        .expect_one_of_string(SpecName::NoName, false, methods)
        .delimited_by_space()
        .inline_value_follows(SpecName::Name(String::from_str("request_uri")), false)
        .expect_string(SpecName::NoName, false)
        .delimited_by_space()
        .inline_value_follows(SpecName::Name(String::from_str("protocol_version")), false)
        .expect_string(SpecName::NoName, false)
        .delimited_by_newline()
        .build();
    let header_placeholder_builder = new_mandatory_spec_builder(SpecName::Transient(String::from_str("header")));
    let header_place_holder = header_placeholder_builder
        .key_follows(SpecName::Name(String::from_str("header_name")), true)
        .expect_string(SpecName::NoName, false)
        .delimited_by(String::from_str(": "))
        .value_follows(SpecName::Name(String::from_str("header_value")), false)
        .expect_string(SpecName::NoName, false)
        .delimited_by_newline()
        .build();
    let spec_builder = spec_builder
        .expect_composite(request_line)
        .repeat_many(
            SpecName::Name(String::from_str("headers")),
            true,
            Separator::Delimiter(String::from_str("\r\n")),
            header_place_holder,
        )
        .use_spec(SpecNode::Body(BodySpec::new(SpecName::Name(String::from_str("request_body")), true)));
    spec_builder.build()
}

/// The spec of an HTTP response: the status line with the protocol version,
/// the status code and the status text, the headers, and the body.
pub fn build_http_response_protocol() -> (r: ListSpec)
    ensures
        is_http_response_spec(r),
{
    let root_builder = new_mandatory_spec_builder(SpecName::NoName);
    let response_line_placeholder = new_mandatory_spec_builder(SpecName::Transient(String::from_str("response_line")))
        .inline_value_follows(SpecName::Name(String::from_str("protocol_version")), false)
        .expect_string(SpecName::NoName, false)
        .delimited_by_space()
        .inline_value_follows(SpecName::Name(String::from_str("status_code")), false)
        .expect_string(SpecName::NoName, false)
        .delimited_by_space()
        .inline_value_follows(SpecName::Name(String::from_str("status_text")), false)
        .expect_string(SpecName::NoName, false)
        .delimited_by_newline()
        .build();
    let header_placeholder_builder = new_mandatory_spec_builder(SpecName::Name(String::from_str("header")));
    let header_place_holder = header_placeholder_builder
        .key_follows(SpecName::Name(String::from_str("header_name")), false)
        .expect_string(SpecName::NoName, false)
        .delimited_by(String::from_str(": "))
        .value_follows(SpecName::Name(String::from_str("header_value")), false)
        .expect_string(SpecName::NoName, false)
        .delimited_by_newline()
        .build();
    let root_builder = root_builder
        .expect_composite(response_line_placeholder)
        .repeat_many(
            SpecName::Name(String::from_str("headers")),
            true,
            Separator::Delimiter(String::from_str("\r\n")),
            header_place_holder,
        )
        .use_spec(SpecNode::Body(BodySpec::new(SpecName::Name(String::from_str("response_body")), true)));
    root_builder.build()
}

} // verus!
