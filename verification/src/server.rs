//! The parts of a protocol server that decide: the factories of requests and
//! responses, the handlers, and the serializer that reads a request and
//! writes a response with their specs.
use vstd::prelude::*;

use crate::context::MapperContext;
use crate::deser::{DState, deser, Outcome, SpecDeserialize};
use crate::error::{ParserError, ServerError, kind_of, token_message_stated};
use crate::info::{InfoProvider, ResponseInfo};
use crate::mapper::{DefaultMapper, MapperView};
use crate::reader::{ProtocolBuffReader, ReaderView};
use crate::ser::{SState, ser_wrapped, serialize};
use crate::spec::{ListSpec, SpecNode};
use crate::text::{chars_of, string_from_chars};
use crate::traverse::{traverse_spec, traversed};
use crate::writer::ProtocolBuffWriter;

verus! {

/// Information about a protocol.
pub trait ProtocolInfo {
    fn get_name() -> String;

    fn get_version() -> String;

    fn get_transport_type() -> Transport;

    fn get_format() -> ProtocolFormat;
}

/// The transport a protocol runs on.
pub enum Transport {
    UDP,
    TCP,
}

/// The format of a protocol.
pub enum ProtocolFormat {
    Text,
    Binary,
}

/// Name and version of a protocol.
pub struct ProtocolVersion {
    pub name: String,
    pub version: Option<String>,
}

/// A protocol: its name, transport, format, and the specs of its requests and responses.
pub struct Protocol {
    pub name: ProtocolVersion,
    pub transport: Transport,
    pub format: ProtocolFormat,
    pub request_place_holder: ListSpec,
    pub response_place_holder: ListSpec,
}

/// Builder of a protocol.
pub struct ProtocolBuilder<RQI, RSI> {
    pub name: Option<String>,
    pub version: Option<String>,
    pub transport: Option<Transport>,
    pub format: Option<ProtocolFormat>,
    pub request_info: Option<RQI>,
    pub response_info: Option<RSI>,
}

/// Trait representing Server behaviour/operations
pub trait Server {
    /// Starts the server. It could establish socket binding on a given ip
    fn start(&mut self) -> Result<(), ServerError>;

    /// Stops the server. It unbind itself from socket
    fn stop(&mut self) -> Result<(), ServerError>;
}

/// What a handler needs that only the application can make: the JSON text
/// of the product served, and whether the body of the request holds a product.
pub struct HandlerInput {
    pub product_json: Vec<u8>,
    pub body_is_product: bool,
}

/// RequestFactory contains methods to generate Request related objects e.g RequestInfo, RequestSerializer,
/// RequestDeserializer, ReqiestErrorHandler, Request Spec
pub trait RequestFactory<REQI: InfoProvider, REQSER, REQH, REQERRH, RESI> {
    /// The spec of the requests this factory makes.
    spec fn request_spec(&self) -> SpecNode;

    /// The mapper of the information a new request starts with.
    spec fn fresh_request(&self) -> MapperView;

    /// The spec of the requests.
    fn get_request_spec(&self) -> (r: &SpecNode)
        ensures
            *r == self.request_spec(),
    ;

    /// Creates the information of a request.
    fn create_request_info(&self) -> (r: REQI)
        ensures
            r.mapper_view() == self.fresh_request(),
    ;

    fn create_request_serializer(&self) -> REQSER;

    fn create_request_handler(&self) -> REQH;

    fn create_error_request_handler(&self) -> REQERRH;
}

/// ResponseFactory contains methods to generate Response related objects
pub trait ResponseFactory<RESI: ResponseInfo, RESSER, RESH, RESERRH> {
    /// The spec of the responses this factory makes.
    spec fn response_spec(&self) -> SpecNode;

    /// The mapper of the information a new response starts with.
    spec fn fresh_response(&self) -> MapperView;

    /// Whether this factory succeeds in making the information of a response.
    spec fn makes_response(&self) -> bool;

    /// The spec of the responses.
    fn get_response_spec(&self) -> (r: &SpecNode)
        ensures
            *r == self.response_spec(),
    ;

    /// Creates the information of a response.
    fn create_response_info(&self) -> (r: Result<RESI, ParserError>)
        ensures
            r is Ok <==> self.makes_response(),
            r matches Ok(x) ==> x.mapper_view() == self.fresh_response(),
    ;

    fn create_response_serializer(&self) -> RESSER;

    fn create_response_handler(&self) -> RESH;

    fn create_error_response_handler(&self) -> RESERRH;
}

/// Request Handler trait
pub trait RequestHandler<REQI, RESI> {
    /// handles the request
    /// * `request` - RequestInfo object containing deserialized request data
    /// * `response` - Response infomation to be popuated by this method
    /// * returns - Result of ResponseInfo
    fn handle_request(&self, request: &REQI, response: &mut RESI, input: &HandlerInput) -> Result<RESI, ParserError>;
}

/// Response Handler trait
pub trait ResponseHandler<RESI> {
    /// handles the response
    fn handle_response(&self, response: &RESI) -> Result<(), ParserError>;
}

/// Response Error Handler trait
pub trait ResponseErrorHandler<RESI> {
    /// handles the error response
    fn handle_response_error(&self, response_info: &RESI, error: ParserError) -> Result<(), ParserError>;
}

/// handles the error request
pub trait RequestErrorHandler<REQI, RESI> {
    /// handles the error request
    fn handle_request_error(&self, request: &REQI, error: ParserError) -> Result<RESI, ParserError>;
}

/// Default Serializer struct
pub struct DefaultSerializer;

/// The reader of the bytes `input`, of a stream that ends after them when `closed`.
pub open spec fn reader_of(input: Seq<u8>, closed: bool) -> ReaderView {
    ReaderView { buf: Seq::empty(), pos: 0, markers: Seq::empty(), incoming: input, closed }
}

impl DefaultSerializer {
    /// DeSerializes protocol data from the bytes `input` into `info` with `spec`.
    pub fn deserialize_from<I: InfoProvider>(
        &self,
        info: &mut I,
        input: Vec<u8>,
        closed: bool,
        spec: &SpecNode,
    ) -> (r: Result<(), ParserError>)
        ensures
            r matches Err(e) ==> token_message_stated(e),
            ({
                let (o, s2) = deser::<I>(*spec, DState { r: reader_of(input@, closed), m: old(info).mapper_view() }, true);
                &&& r is Ok <==> o is Done
                &&& r matches Err(e) ==> o == Outcome::Failed(kind_of(e))
                &&& final(info).mapper_view() == s2.m
            }),
    {
        let mut reader = ProtocolBuffReader::new(input, closed);
        match spec.deserialize(info, &mut reader, true) {
            Ok(_) => Ok(()),
            Err(e) => Err(e),
        }
    }

    /// Serializes `info` with `spec`, giving the bytes written.
    pub fn serialize_to<I: InfoProvider>(&self, info: &I, spec: &SpecNode) -> (r: Result<Vec<u8>, ParserError>)
        ensures
            ({
                let (e, s2) = ser_wrapped::<I>(*spec, info.mapper_view(), SState { types: Seq::empty(), out: Seq::empty() });
                &&& r is Ok <==> e is None
                &&& r matches Ok(bytes) ==> bytes@ == s2.out
                &&& r matches Err(x) ==> e == Some(kind_of(x))
            }),
    {
        let mut mapper_context = MapperContext::new();
        let mut writer = ProtocolBuffWriter::new();
        serialize(spec, info, &mut writer, &mut mapper_context)?;
        Ok(writer.into_bytes())
    }
}

/// The mapper of a spec: the templates its traversal makes in an empty mapper.
pub open spec fn spec_templates(spec: SpecNode) -> MapperView {
    traversed(spec, MapperView::empty()).1
}

/// The mapper `m` with the templates of the traversal of `spec` added.
pub open spec fn with_templates(spec: SpecNode, m: MapperView) -> MapperView {
    traversed(spec, m).1
}

/// Wrapper for requestfactory that is aware of Mapper( traversal of the spec that generates metadata about the Spec).
/// During the server initialization, Request Spec is first created, it needs to be traversed
/// and meta data information about thr spec is created.
pub struct MapperAwareRequestFactory<F> {
    pub inner: F,
    pub mapper: DefaultMapper,
}

/// Wrapper for ResponseFactory that is aware of Mapper
pub struct MapperAwareResponseFactory<F> {
    pub inner: F,
    pub mapper: DefaultMapper,
}

impl<F> MapperAwareRequestFactory<F> {
    /// New method (constructor). The wrapped request spec is traversed first before Creating new MapperAware RequestFactory
    pub fn new<REQI: InfoProvider, REQSER, REQH, REQERRH, RESI>(inner: F) -> (r: Self)
        where
            F: RequestFactory<REQI, REQSER, REQH, REQERRH, RESI>,
        ensures
            r.inner == inner,
            r.mapper@ == spec_templates(inner.request_spec()),
    {
        let mut mapper = DefaultMapper::new();
        let _ = traverse_spec(inner.get_request_spec(), &mut mapper);
        MapperAwareRequestFactory { inner, mapper }
    }

    /// Creates Request Info. The request info is given the templates of the request spec.
    pub fn create_request_info<REQI: InfoProvider, REQSER, REQH, REQERRH, RESI>(&self) -> (r: REQI)
        where
            F: RequestFactory<REQI, REQSER, REQH, REQERRH, RESI>,
        ensures
            r.mapper_view() == with_templates(self.inner.request_spec(), self.inner.fresh_request()),
    {
        let mut request_info = self.inner.create_request_info();
        let _ = traverse_spec(self.inner.get_request_spec(), request_info.get_mapper_mut());
        request_info
    }
}

impl<F> MapperAwareResponseFactory<F> {
    /// New method (constructor). The wrapped response spec is traversed first before Creating new MapperAware ResponseFactory
    pub fn new<RESI: ResponseInfo, RESSER, RESH, RESERRH>(inner: F) -> (r: Self)
        where
            F: ResponseFactory<RESI, RESSER, RESH, RESERRH>,
        ensures
            r.inner == inner,
            r.mapper@ == spec_templates(inner.response_spec()),
    {
        let mut mapper = DefaultMapper::new();
        let _ = traverse_spec(inner.get_response_spec(), &mut mapper);
        MapperAwareResponseFactory { inner, mapper }
    }

    /// Creates Response Info. The response info is given the templates of the
    /// response spec, then its defaults. An error of the inner factory or of
    /// the defaults is given back.
    pub fn create_response_info<RESI: ResponseInfo, RESSER, RESH, RESERRH>(&self) -> (r: Result<RESI, ParserError>)
        where
            F: ResponseFactory<RESI, RESSER, RESH, RESERRH>,
        ensures
            r is Ok <==> self.inner.makes_response()
                && RESI::defaults_accepted(with_templates(self.inner.response_spec(), self.inner.fresh_response())),
            r matches Ok(x) ==> RESI::defaults_added(
                with_templates(self.inner.response_spec(), self.inner.fresh_response()),
                x.mapper_view(),
            ),
    {
        let mut response_info = self.inner.create_response_info()?;
        let _ = traverse_spec(self.inner.get_response_spec(), response_info.get_mapper_mut());
        response_info.add_defaults()?;
        Ok(response_info)
    }
}

/// Builder of the parts of a server instance.
pub struct ServerInstanceBuilder<REQF, RESF> {
    pub hosts: Option<Vec<String>>,
    pub request_factory: Option<MapperAwareRequestFactory<REQF>>,
    pub response_factory: Option<MapperAwareResponseFactory<RESF>>,
}

/// The parts of a server instance: the hosts it listens on, and its factories.
pub struct ServerCore<REQF, RESF> {
    pub hosts: Vec<String>,
    pub request_factory: MapperAwareRequestFactory<REQF>,
    pub response_factory: MapperAwareResponseFactory<RESF>,
}

impl<REQF, RESF> ServerInstanceBuilder<REQF, RESF> {
    pub fn new() -> (r: Self)
        ensures
            r.hosts is None,
            r.request_factory is None,
            r.response_factory is None,
    {
        ServerInstanceBuilder { hosts: None, request_factory: None, response_factory: None }
    }

    pub fn hosts(self, value: Vec<String>) -> (r: Self)
        ensures
            r.hosts == Some(value),
            r.request_factory == self.request_factory,
            r.response_factory == self.response_factory,
    {
        ServerInstanceBuilder { hosts: Some(value), ..self }
    }

    pub fn request_factory<REQI: InfoProvider, REQSER, REQH, REQERRH, RESI>(self, value: REQF) -> (r: Self)
        where
            REQF: RequestFactory<REQI, REQSER, REQH, REQERRH, RESI>,
        ensures
            r.request_factory matches Some(f) && f.inner == value && f.mapper@ == spec_templates(value.request_spec()),
            r.hosts == self.hosts,
            r.response_factory == self.response_factory,
    {
        ServerInstanceBuilder { request_factory: Some(MapperAwareRequestFactory::new(value)), ..self }
    }

    pub fn response_factory<RESI: ResponseInfo, RESSER, RESH, RESERRH>(self, value: RESF) -> (r: Self)
        where
            RESF: ResponseFactory<RESI, RESSER, RESH, RESERRH>,
        ensures
            r.response_factory matches Some(f) && f.inner == value && f.mapper@ == spec_templates(value.response_spec()),
            r.hosts == self.hosts,
            r.request_factory == self.request_factory,
    {
        ServerInstanceBuilder { response_factory: Some(MapperAwareResponseFactory::new(value)), ..self }
    }

    /// The parts of the server, when all were given.
    pub fn build(self) -> (r: Result<ServerCore<REQF, RESF>, String>)
        ensures
            r is Ok <==> (self.hosts is Some && self.request_factory is Some && self.response_factory is Some),
            r matches Ok(core) ==> Some(core.hosts) == self.hosts && Some(core.request_factory) == self.request_factory
                && Some(core.response_factory) == self.response_factory,
    {
        match (self.hosts, self.request_factory, self.response_factory) {
            (Some(hosts), Some(request_factory), Some(response_factory)) => Ok(ServerCore { hosts, request_factory, response_factory }),
            _ => Err(String::from_str("a server needs its hosts and both factories")),
        }
    }
}

/// Splits `host:port` at its first `:`; a host without one is an error.
pub fn split_host_port(host: &str) -> (r: Result<(String, String), ServerError>)
    ensures
        r is Ok <==> host@.contains(':'),
        r matches Ok((h, p)) ==> ({
            let i = choose|i: int| 0 <= i < host@.len() && host@[i] == ':' && !host@.subrange(0, i).contains(':');
            &&& h@ == host@.subrange(0, i)
            &&& p@ == host@.subrange(i + 1, host@.len() as int)
        }),
        r matches Err(e) ==> e is StartError,
{
    let chars = chars_of(host);
    let mut i: usize = 0;
    while i < chars.len()
        invariant
            chars@ == host@,
            i <= chars@.len(),
            !chars@.subrange(0, i as int).contains(':'),
        decreases chars@.len() - i,
    {
        if chars[i] == ':' {
            let mut left: Vec<char> = Vec::new();
            let mut j: usize = 0;
            while j < i
                invariant
                    j <= i,
                    i < chars@.len(),
                    left@ == chars@.subrange(0, j as int),
                decreases i - j,
            {
                left.push(chars[j]);
                assert(chars@.subrange(0, j + 1) =~= chars@.subrange(0, j as int).push(chars@[j as int]));
                j = j + 1;
            }
            let mut right: Vec<char> = Vec::new();
            let mut k: usize = i + 1;
            while k < chars.len()
                invariant
                    i + 1 <= k <= chars@.len(),
                    right@ == chars@.subrange(i + 1, k as int),
                decreases chars@.len() - k,
            {
                right.push(chars[k]);
                assert(chars@.subrange(i + 1, k + 1) =~= chars@.subrange(i + 1, k as int).push(chars@[k as int]));
                k = k + 1;
            }
            proof {
                let w = choose|w: int| 0 <= w < host@.len() && host@[w] == ':' && !host@.subrange(0, w).contains(':');
                assert(0 <= i < host@.len() && host@[i as int] == ':' && !host@.subrange(0, i as int).contains(':'));
                if w < i {
                    assert(host@.subrange(0, i as int)[w] == ':');
                } else if i < w {
                    assert(host@.subrange(0, w)[i as int] == ':');
                }
                assert(host@.contains(':')) by {
                    assert(host@[i as int] == ':');
                }
            }
            return Ok((string_from_chars(&left), string_from_chars(&right)));
        }
        assert(chars@.subrange(0, i + 1) =~= chars@.subrange(0, i as int).push(chars@[i as int]));
        i = i + 1;
    }
    assert(chars@.subrange(0, chars@.len() as int) =~= host@);
    Err(ServerError::StartError(String::from_str("Invalid host:port format")))
}

} // verus!
