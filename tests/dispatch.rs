use envoy_types::pb::envoy::extensions::filters::http::ext_proc::v3::ProcessingMode;
use envoy_types::pb::google::protobuf::Struct;
use mt_ext_proc_grpc::envelope::{
    BodyResponse, CommonResponse, Direction, EventKind, HandlerOutcome, HeaderMap, HeaderMutation,
    HeaderValue, HeadersResponse, HttpBody, HttpHeaders, HttpTrailers, Phase, ProcessingEvent,
    ProcessingResponse, ResponseKind, ResponseStatus, TrailersResponse,
};
use mt_ext_proc_grpc::ext_proc::{respond, DispatchError, ProcessingRequestHandlerServer};
use mt_ext_proc_grpc::handler::MyExtProcHandler;
use std::collections::HashMap;

fn server() -> ProcessingRequestHandlerServer<MyExtProcHandler> {
    ProcessingRequestHandlerServer::new(MyExtProcHandler::new("ext-proc".to_string()))
}

fn header_map() -> HeaderMap {
    HeaderMap {
        headers: vec![
            HeaderValue { key: ":path".to_string(), value: "/index.html".to_string(), raw_value: vec![] },
            HeaderValue { key: "x-raw".to_string(), value: String::new(), raw_value: b"abc".to_vec() },
        ],
    }
}

fn event(kind: Option<EventKind>) -> ProcessingEvent {
    ProcessingEvent { request: kind, metadata_context: None, attributes: HashMap::new(), async_mode: false }
}

fn stamped(value: &str) -> CommonResponse {
    let mut r = CommonResponse::default();
    r.header_mutation = Some(HeaderMutation {
        set_headers: vec![mt_ext_proc_grpc::envelope::HeaderValueOption {
            header: Some(HeaderValue { key: "ext-proc".to_string(), value: value.to_string(), raw_value: vec![] }),
            append: None,
            append_action: 0,
            keep_empty_value: false,
        }],
        remove_headers: vec![],
    });
    r
}

fn answer(kind: ResponseKind) -> ProcessingResponse {
    ProcessingResponse { response: Some(kind), dynamic_metadata: None, mode_override: None, override_message_timeout: None }
}

#[test]
fn request_headers_are_answered_with_the_marker() {
    let e = event(Some(EventKind::RequestHeaders(HttpHeaders { headers: Some(header_map()), end_of_stream: false })));
    let r = server().dispatch(e).unwrap();
    assert_eq!(r, answer(ResponseKind::RequestHeaders(HeadersResponse { response: Some(stamped("request headers")) })));
    assert_eq!(r.response.unwrap().phase(), Phase::RequestHeaders);
}

#[test]
fn response_headers_are_answered_with_the_marker() {
    let e = event(Some(EventKind::ResponseHeaders(HttpHeaders { headers: Some(header_map()), end_of_stream: true })));
    let r = server().dispatch(e).unwrap();
    assert_eq!(r, answer(ResponseKind::ResponseHeaders(HeadersResponse { response: Some(stamped("response headers")) })));
}

#[test]
fn request_body_passes_through() {
    let e = event(Some(EventKind::RequestBody(HttpBody { body: b"hello".to_vec(), end_of_stream: false })));
    let r = server().dispatch(e).unwrap();
    assert_eq!(r, answer(ResponseKind::RequestBody(BodyResponse { response: Some(CommonResponse::default()) })));
}

#[test]
fn empty_response_body_passes_through() {
    let e = event(Some(EventKind::ResponseBody(HttpBody { body: vec![], end_of_stream: true })));
    let r = server().dispatch(e).unwrap();
    assert_eq!(r, answer(ResponseKind::ResponseBody(BodyResponse { response: Some(CommonResponse::default()) })));
}

#[test]
fn trailers_are_answered_without_mutation() {
    let e = event(Some(EventKind::RequestTrailers(HttpTrailers { trailers: Some(header_map()) })));
    let r = server().dispatch(e).unwrap();
    assert_eq!(r, answer(ResponseKind::RequestTrailers(TrailersResponse { header_mutation: None })));
    let e = event(Some(EventKind::ResponseTrailers(HttpTrailers { trailers: Some(HeaderMap { headers: vec![] }) })));
    let r = server().dispatch(e).unwrap();
    assert_eq!(r, answer(ResponseKind::ResponseTrailers(TrailersResponse { header_mutation: None })));
}

#[test]
fn every_phase_is_answered_in_its_own_phase() {
    let kinds = vec![
        EventKind::RequestHeaders(HttpHeaders { headers: Some(header_map()), end_of_stream: false }),
        EventKind::ResponseHeaders(HttpHeaders { headers: Some(header_map()), end_of_stream: false }),
        EventKind::RequestBody(HttpBody { body: vec![1, 2, 3], end_of_stream: false }),
        EventKind::ResponseBody(HttpBody { body: vec![4], end_of_stream: true }),
        EventKind::RequestTrailers(HttpTrailers { trailers: Some(header_map()) }),
        EventKind::ResponseTrailers(HttpTrailers { trailers: Some(header_map()) }),
    ];
    for k in kinds {
        let phase = k.phase();
        let r = server().dispatch(event(Some(k))).unwrap();
        assert_eq!(r.response.as_ref().unwrap().phase(), phase);
        assert!(r.mode_override.is_none());
    }
}

#[test]
fn header_outcome_keeps_its_mode_override() {
    let mode = ProcessingMode { request_body_mode: 1, ..ProcessingMode::default() };
    let o = HandlerOutcome::Headers {
        response: CommonResponse::default(),
        dynamic_metadata: Some(Struct::default()),
        mode_override: Some(mode),
    };
    let r = respond(Direction::Response, o);
    assert_eq!(r.mode_override, Some(mode));
    assert_eq!(r.dynamic_metadata, Some(Struct::default()));
    assert_eq!(r.response.unwrap().phase(), Phase::ResponseHeaders);
    let o = HandlerOutcome::Headers { response: CommonResponse::default(), dynamic_metadata: None, mode_override: None };
    assert_eq!(respond(Direction::Request, o).mode_override, None);
}

#[test]
fn body_and_trailer_outcomes_carry_no_mode_override() {
    let o = HandlerOutcome::Body { response: CommonResponse::default(), dynamic_metadata: Some(Struct::default()) };
    let r = respond(Direction::Request, o);
    assert_eq!(r.mode_override, None);
    assert_eq!(r.dynamic_metadata, Some(Struct::default()));
    assert_eq!(r.response.unwrap().phase(), Phase::RequestBody);
    let o = HandlerOutcome::Trailers { header_mutation: None, dynamic_metadata: None };
    let r = respond(Direction::Response, o);
    assert_eq!(r, answer(ResponseKind::ResponseTrailers(TrailersResponse { header_mutation: None })));
}

#[test]
fn async_mode_is_refused() {
    let mut e = event(Some(EventKind::RequestBody(HttpBody { body: vec![], end_of_stream: false })));
    e.async_mode = true;
    assert_eq!(server().dispatch(e), Err(DispatchError::AsyncModeUnsupported));
    let mut e = event(None);
    e.async_mode = true;
    assert_eq!(server().dispatch(e), Err(DispatchError::AsyncModeUnsupported));
}

#[test]
fn headers_phase_without_header_list_gets_the_empty_response() {
    let e = event(Some(EventKind::RequestHeaders(HttpHeaders { headers: None, end_of_stream: false })));
    assert_eq!(server().dispatch(e), Ok(ProcessingResponse::default()));
    let e = event(Some(EventKind::ResponseHeaders(HttpHeaders { headers: None, end_of_stream: true })));
    assert_eq!(server().dispatch(e), Ok(ProcessingResponse::default()));
}

#[test]
fn trailers_phase_without_trailer_list_gets_the_empty_response() {
    let e = event(Some(EventKind::ResponseTrailers(HttpTrailers { trailers: None })));
    assert_eq!(server().dispatch(e), Ok(ProcessingResponse::default()));
}

#[test]
fn message_without_phase_gets_the_empty_response() {
    let r = server().dispatch(event(None)).unwrap();
    assert_eq!(r, ProcessingResponse::default());
    assert!(r.response.is_none() && r.dynamic_metadata.is_none() && r.mode_override.is_none());
    assert!(r.override_message_timeout.is_none());
}

#[test]
fn same_event_twice_gets_the_same_response() {
    let s = server();
    let mut attributes = HashMap::new();
    attributes.insert("request".to_string(), Struct::default());
    let e = ProcessingEvent {
        request: Some(EventKind::ResponseHeaders(HttpHeaders { headers: Some(header_map()), end_of_stream: false })),
        metadata_context: None,
        attributes,
        async_mode: false,
    };
    let first = s.dispatch(e.clone()).unwrap();
    let second = s.dispatch(e).unwrap();
    assert_eq!(first, second);
}

#[test]
fn cloned_server_answers_alike() {
    let s = server();
    let t = s.clone();
    let e = event(Some(EventKind::RequestHeaders(HttpHeaders { headers: Some(header_map()), end_of_stream: false })));
    assert_eq!(s.dispatch(e.clone()), t.dispatch(e));
}

#[test]
fn pass_through_default() {
    let c = CommonResponse::default();
    assert_eq!(c.status, ResponseStatus::Continue);
    assert!(c.header_mutation.is_none() && c.body_mutation.is_none() && c.trailers.is_none());
    assert!(!c.clear_route_cache);
}
