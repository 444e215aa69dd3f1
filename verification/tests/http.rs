use protocol_spec::error::ParserError;
use protocol_spec::http::{
    build_http_request_protocol, build_http_response_protocol, HttpRequestFactory, HttpRequestHandler,
    HttpRequestInfo, HttpResponseFactory, HttpResponseInfo,
};
use protocol_spec::info::{InfoProvider, ResponseInfo};
use protocol_spec::server::{
    split_host_port, DefaultSerializer, HandlerInput, MapperAwareRequestFactory, MapperAwareResponseFactory,
    RequestFactory, RequestHandler, ResponseFactory, ServerInstanceBuilder,
};
use protocol_spec::value::Value;

fn request_factory() -> MapperAwareRequestFactory<HttpRequestFactory> {
    MapperAwareRequestFactory::new::<HttpRequestInfo, DefaultSerializer, HttpRequestHandler, HttpRequestHandler, HttpResponseInfo>(
        HttpRequestFactory::new(build_http_request_protocol()),
    )
}

fn response_factory() -> MapperAwareResponseFactory<HttpResponseFactory> {
    MapperAwareResponseFactory::new::<HttpResponseInfo, DefaultSerializer, protocol_spec::http::HttpResponseHandler, protocol_spec::http::HttpResponseHandler>(
        HttpResponseFactory::new(build_http_response_protocol()),
    )
}

fn parse(text: &str) -> Result<HttpRequestInfo, ParserError> {
    let factory = request_factory();
    let mut info: HttpRequestInfo = factory.create_request_info::<HttpRequestInfo, DefaultSerializer, HttpRequestHandler, HttpRequestHandler, HttpResponseInfo>();
    let spec = factory.inner.get_request_spec();
    DefaultSerializer.deserialize_from(&mut info, text.as_bytes().to_vec(), true, spec)?;
    Ok(info)
}

fn text_of(info: &impl InfoProvider, key: &str) -> Option<String> {
    match info.get_info(&key.to_string()) {
        Some(Value::String(s)) => Some(s.clone()),
        _ => None,
    }
}

#[test]
fn parses_request_line_and_headers() {
    let info = parse("GET /product/1 HTTP/1.1\r\nHost: localhost:8080\r\nAccept: */*\r\n\r\n").unwrap();
    assert_eq!(info.get_request_method(), Some("GET".to_string()));
    assert_eq!(info.get_request_uri(), Some("/product/1".to_string()));
    assert_eq!(text_of(&info, "protocol_version"), Some("HTTP/1.1".to_string()));
    assert_eq!(text_of(&info, "Host"), Some("localhost:8080".to_string()));
    assert_eq!(text_of(&info, "Accept"), Some("*/*".to_string()));
    assert_eq!(info.get_request_body(), None);
}

#[test]
fn parses_body_of_content_length() {
    let info = parse("POST /product/1 HTTP/1.1\r\nContent-Length: 4\r\nContent-Type: application/json\r\n\r\n{\"a\"}").unwrap();
    assert_eq!(info.get_request_method(), Some("POST".to_string()));
    assert_eq!(info.get_content_type(), Some("application/json".to_string()));
    assert_eq!(info.get_request_body(), Some(b"{\"a\"".to_vec()));
}

#[test]
fn unknown_method_is_refused() {
    match parse("FETCH / HTTP/1.1\r\n\r\n") {
        Err(ParserError::MissingValue(_)) => {},
        other => panic!("unexpected {:?}", other.map(|_| ())),
    }
}

#[test]
fn truncated_request_line_fails() {
    assert!(parse("GET /product/1").is_err());
}

#[test]
fn serves_the_product() {
    let request = parse("GET /product/1 HTTP/1.1\r\nHost: localhost\r\n\r\n").unwrap();
    let responses = response_factory();
    let mut response: HttpResponseInfo = responses
        .create_response_info::<HttpResponseInfo, DefaultSerializer, protocol_spec::http::HttpResponseHandler, protocol_spec::http::HttpResponseHandler>()
        .unwrap();
    let input = HandlerInput { product_json: b"{\"id\":1,\"name\":\"Table\"}".to_vec(), body_is_product: false };
    let answer = HttpRequestHandler.handle_request(&request, &mut response, &input).unwrap();
    let bytes = DefaultSerializer.serialize_to(&answer, responses.inner.get_response_spec()).unwrap();
    let text = String::from_utf8(bytes).unwrap();
    assert!(text.starts_with("HTTP/1.1 200 OK\r\nDate: "), "{}", text);
    assert!(
        text.ends_with("\r\nContent-Type: application/json\r\nContent-Length: 23\r\n\r\n{\"id\":1,\"name\":\"Table\"}"),
        "{}",
        text
    );
}

#[test]
fn other_paths_get_a_default_response() {
    let request = parse("GET /other HTTP/1.1\r\n\r\n").unwrap();
    let mut response = HttpResponseInfo::default();
    let input = HandlerInput { product_json: Vec::new(), body_is_product: false };
    let answer = HttpRequestHandler.handle_request(&request, &mut response, &input).unwrap();
    assert!(answer.get_info(&"status_code".to_string()).is_none());
}

#[test]
fn created_product_response() {
    let request = parse("POST /product/1 HTTP/1.1\r\nContent-Length: 2\r\n\r\n{}").unwrap();
    let responses = response_factory();
    let mut response: HttpResponseInfo = responses
        .create_response_info::<HttpResponseInfo, DefaultSerializer, protocol_spec::http::HttpResponseHandler, protocol_spec::http::HttpResponseHandler>()
        .unwrap();
    let input = HandlerInput { product_json: Vec::new(), body_is_product: true };
    let answer = HttpRequestHandler.handle_request(&request, &mut response, &input).unwrap();
    assert_eq!(text_of(&answer, "status_code"), Some("201".to_string()));
    assert_eq!(text_of(&answer, "status_text"), Some("Created".to_string()));
    assert_eq!(text_of(&answer, "Content-Length"), Some("0".to_string()));
}

#[test]
fn body_that_is_not_utf8_is_refused() {
    let factory = request_factory();
    let mut info: HttpRequestInfo = factory.create_request_info::<HttpRequestInfo, DefaultSerializer, HttpRequestHandler, HttpRequestHandler, HttpResponseInfo>();
    let mut bytes = b"PUT /product/1 HTTP/1.1\r\nContent-Length: 2\r\n\r\n".to_vec();
    bytes.extend_from_slice(&[0xff, 0xfe]);
    DefaultSerializer.deserialize_from(&mut info, bytes, true, factory.inner.get_request_spec()).unwrap();
    let mut response = HttpResponseInfo::default();
    let input = HandlerInput { product_json: Vec::new(), body_is_product: true };
    match HttpRequestHandler.handle_request(&info, &mut response, &input) {
        Err(ParserError::Utf8Error(_)) => {},
        other => panic!("unexpected {:?}", other.map(|_| ())),
    }
}

#[test]
fn body_that_is_not_a_product_is_refused() {
    let request = parse("DELETE /product/1 HTTP/1.1\r\nContent-Length: 2\r\n\r\nno").unwrap();
    let mut response = HttpResponseInfo::default();
    let input = HandlerInput { product_json: Vec::new(), body_is_product: false };
    match HttpRequestHandler.handle_request(&request, &mut response, &input) {
        Err(ParserError::SerdeError(_)) => {},
        other => panic!("unexpected {:?}", other.map(|_| ())),
    }
}

#[test]
fn response_defaults() {
    let responses = response_factory();
    let response: HttpResponseInfo = responses
        .create_response_info::<HttpResponseInfo, DefaultSerializer, protocol_spec::http::HttpResponseHandler, protocol_spec::http::HttpResponseHandler>()
        .unwrap();
    assert_eq!(text_of(&response, "status_code"), Some("200".to_string()));
    assert_eq!(text_of(&response, "status_text"), Some("OK".to_string()));
    assert_eq!(text_of(&response, "protocol_version"), Some("HTTP/1.1".to_string()));
    assert!(text_of(&response, "Date").unwrap().ends_with(" GMT"));
    let mut again = HttpResponseInfo::default();
    assert!(again.add_defaults().is_ok());
}

#[test]
fn request_headers_are_added_through_info() {
    let factory = request_factory();
    let mut info: HttpRequestInfo = factory.create_request_info::<HttpRequestInfo, DefaultSerializer, HttpRequestHandler, HttpRequestHandler, HttpResponseInfo>();
    assert!(info.add_info("Content-Type".to_string(), Value::String("application/json".to_string())).is_ok());
    assert!(matches!(
        info.get_info(&"Content-Type".to_string()),
        Some(Value::String(t)) if t == "application/json"
    ));
    assert_eq!(info.get_content_type(), Some("application/json".to_string()));
    assert!(info.add_info("request_uri".to_string(), Value::String("/x".to_string())).is_ok());
    assert_eq!(info.get_request_uri(), Some("/x".to_string()));
}

#[test]
fn server_parts() {
    let builder = ServerInstanceBuilder::<HttpRequestFactory, HttpResponseFactory>::new();
    assert!(builder.build().is_err());
    let builder = ServerInstanceBuilder::<HttpRequestFactory, HttpResponseFactory>::new()
        .hosts(vec!["127.0.0.1:8080".to_string()])
        .request_factory::<HttpRequestInfo, DefaultSerializer, HttpRequestHandler, HttpRequestHandler, HttpResponseInfo>(
            HttpRequestFactory::new(build_http_request_protocol()),
        )
        .response_factory::<HttpResponseInfo, DefaultSerializer, protocol_spec::http::HttpResponseHandler, protocol_spec::http::HttpResponseHandler>(
            HttpResponseFactory::new(build_http_response_protocol()),
        );
    let core = builder.build().ok().unwrap();
    assert_eq!(core.hosts, vec!["127.0.0.1:8080".to_string()]);
    let (host, port) = split_host_port("127.0.0.1:8080").ok().unwrap();
    assert_eq!((host.as_str(), port.as_str()), ("127.0.0.1", "8080"));
    assert!(split_host_port("localhost").is_err());
}
