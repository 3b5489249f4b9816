//! The phase envelope model: what the proxy sends for each protocol phase,
//! and what the processor answers.
use envoy_types::pb::envoy::extensions::filters::http::ext_proc::v3::ProcessingMode;
use envoy_types::pb::google::protobuf::Struct;
use std::collections::HashMap;
use vstd::prelude::*;

verus! {

/// A protobuf `Struct`: an opaque structured-value bag, carried through unread.
#[verifier::external_type_specification]
#[verifier::external_body]
pub struct ExStruct(envoy_types::pb::google::protobuf::Struct);

/// The proxy's per-request metadata bag, carried through unread.
#[verifier::external_type_specification]
#[verifier::external_body]
pub struct ExMetadata(envoy_types::pb::envoy::config::core::v3::Metadata);

/// A processing-mode override for the rest of a transaction, carried through unread.
#[verifier::external_type_specification]
#[verifier::external_body]
pub struct ExProcessingMode(envoy_types::pb::envoy::extensions::filters::http::ext_proc::v3::ProcessingMode);

/// One of the six moments at which the proxy consults the processor.
#[derive(Clone, Copy, Debug, PartialEq, Eq, Structural)]
pub enum Phase {
    RequestHeaders,
    ResponseHeaders,
    RequestBody,
    ResponseBody,
    RequestTrailers,
    ResponseTrailers,
}

/// Whether a phase belongs to the request or to the response.
#[derive(Clone, Copy, Debug, PartialEq, Eq, Structural)]
pub enum Direction {
    Request,
    Response,
}

impl Phase {
    pub open spec fn is_headers(self) -> bool {
        self is RequestHeaders || self is ResponseHeaders
    }
}

#[derive(Clone, Debug, PartialEq)]
pub struct HeaderValue {
    pub key: String,
    pub value: String,
    pub raw_value: Vec<u8>,
}

#[derive(Clone, Debug, PartialEq)]
pub struct HeaderMap {
    pub headers: Vec<HeaderValue>,
}

#[derive(Clone, Debug, PartialEq)]
pub struct HeaderValueOption {
    pub header: Option<HeaderValue>,
    pub append: Option<bool>,
    pub append_action: i32,
    pub keep_empty_value: bool,
}

/// Headers to set, in order, and header names to remove.
#[derive(Clone, Debug, PartialEq)]
pub struct HeaderMutation {
    pub set_headers: Vec<HeaderValueOption>,
    pub remove_headers: Vec<String>,
}

#[derive(Clone, Copy, Debug, PartialEq, Eq, Structural)]
pub enum ResponseStatus {
    Continue,
    ContinueAndReplace,
}

#[derive(Clone, Debug, PartialEq)]
pub enum BodyMutation {
    Body(Vec<u8>),
    ClearBody(bool),
    Streamed { body: Vec<u8>, end_of_stream: bool },
}

/// The result fields shared by the header and body phases.
#[derive(Clone, Debug, PartialEq)]
pub struct CommonResponse {
    pub status: ResponseStatus,
    pub header_mutation: Option<HeaderMutation>,
    pub body_mutation: Option<BodyMutation>,
    pub trailers: Option<HeaderMap>,
    pub clear_route_cache: bool,
}

impl CommonResponse {
    /// Continue, with no mutation of any kind.
    pub open spec fn is_pass_through(self) -> bool {
        &&& self.status == ResponseStatus::Continue
        &&& self.header_mutation is None
        &&& self.body_mutation is None
        &&& self.trailers is None
        &&& !self.clear_route_cache
    }
}

impl Default for CommonResponse {
    fn default() -> (r: Self)
        ensures
            r.is_pass_through(),
    {
        CommonResponse {
            status: ResponseStatus::Continue,
            header_mutation: None,
            body_mutation: None,
            trailers: None,
            clear_route_cache: false,
        }
    }
}

/// The header list of one direction.
#[derive(Clone, Debug, PartialEq)]
pub struct HttpHeaders {
    pub headers: Option<HeaderMap>,
    pub end_of_stream: bool,
}

/// One body chunk, as it arrived.
#[derive(Clone, Debug, PartialEq)]
pub struct HttpBody {
    pub body: Vec<u8>,
    pub end_of_stream: bool,
}

#[derive(Clone, Debug, PartialEq)]
pub struct HttpTrailers {
    pub trailers: Option<HeaderMap>,
}

/// The phase-specific payload of an inbound message.
#[derive(Clone, Debug, PartialEq)]
pub enum EventKind {
    RequestHeaders(HttpHeaders),
    ResponseHeaders(HttpHeaders),
    RequestBody(HttpBody),
    ResponseBody(HttpBody),
    RequestTrailers(HttpTrailers),
    ResponseTrailers(HttpTrailers),
}

impl EventKind {
    pub open spec fn spec_phase(self) -> Phase {
        match self {
            EventKind::RequestHeaders(_) => Phase::RequestHeaders,
            EventKind::ResponseHeaders(_) => Phase::ResponseHeaders,
            EventKind::RequestBody(_) => Phase::RequestBody,
            EventKind::ResponseBody(_) => Phase::ResponseBody,
            EventKind::RequestTrailers(_) => Phase::RequestTrailers,
            EventKind::ResponseTrailers(_) => Phase::ResponseTrailers,
        }
    }

    /// The payload holds what its phase requires: a header list for the
    /// header phases, a trailer list for the trailer phases.
    pub open spec fn is_complete(self) -> bool {
        match self {
            EventKind::RequestHeaders(h) => h.headers is Some,
            EventKind::ResponseHeaders(h) => h.headers is Some,
            EventKind::RequestBody(_) => true,
            EventKind::ResponseBody(_) => true,
            EventKind::RequestTrailers(t) => t.trailers is Some,
            EventKind::ResponseTrailers(t) => t.trailers is Some,
        }
    }

    pub open spec fn spec_direction(self) -> Direction {
        match self {
            EventKind::RequestHeaders(_) | EventKind::RequestBody(_) | EventKind::RequestTrailers(
                _,
            ) => Direction::Request,
            _ => Direction::Response,
        }
    }

    pub fn phase(&self) -> (p: Phase)
        ensures
            p == self.spec_phase(),
    {
        match self {
            EventKind::RequestHeaders(_) => Phase::RequestHeaders,
            EventKind::ResponseHeaders(_) => Phase::ResponseHeaders,
            EventKind::RequestBody(_) => Phase::RequestBody,
            EventKind::ResponseBody(_) => Phase::ResponseBody,
            EventKind::RequestTrailers(_) => Phase::RequestTrailers,
            EventKind::ResponseTrailers(_) => Phase::ResponseTrailers,
        }
    }
}

/// One inbound message of a stream.
#[derive(Clone, Debug, PartialEq)]
pub struct ProcessingEvent {
    pub request: Option<EventKind>,
    pub metadata_context: Option<envoy_types::pb::envoy::config::core::v3::Metadata>,
    pub attributes: HashMap<String, Struct>,
    /// Fire-and-forget delivery was asked for; this server answers every
    /// message in order, and so refuses it.
    pub async_mode: bool,
}

impl ProcessingEvent {
    /// Exactly one phase is populated and its payload is complete.
    pub open spec fn is_well_formed(self) -> bool {
        self.request is Some && self.request->Some_0.is_complete()
    }
}

#[derive(Clone, Debug, PartialEq)]
pub struct HeadersResponse {
    pub response: Option<CommonResponse>,
}

#[derive(Clone, Debug, PartialEq)]
pub struct BodyResponse {
    pub response: Option<CommonResponse>,
}

#[derive(Clone, Debug, PartialEq)]
pub struct TrailersResponse {
    pub header_mutation: Option<HeaderMutation>,
}

/// The phase-specific payload of an outbound message.
#[derive(Clone, Debug, PartialEq)]
pub enum ResponseKind {
    RequestHeaders(HeadersResponse),
    ResponseHeaders(HeadersResponse),
    RequestBody(BodyResponse),
    ResponseBody(BodyResponse),
    RequestTrailers(TrailersResponse),
    ResponseTrailers(TrailersResponse),
}

impl ResponseKind {
    pub open spec fn spec_phase(self) -> Phase {
        match self {
            ResponseKind::RequestHeaders(_) => Phase::RequestHeaders,
            ResponseKind::ResponseHeaders(_) => Phase::ResponseHeaders,
            ResponseKind::RequestBody(_) => Phase::RequestBody,
            ResponseKind::ResponseBody(_) => Phase::ResponseBody,
            ResponseKind::RequestTrailers(_) => Phase::RequestTrailers,
            ResponseKind::ResponseTrailers(_) => Phase::ResponseTrailers,
        }
    }

    pub fn phase(&self) -> (p: Phase)
        ensures
            p == self.spec_phase(),
    {
        match self {
            ResponseKind::RequestHeaders(_) => Phase::RequestHeaders,
            ResponseKind::ResponseHeaders(_) => Phase::ResponseHeaders,
            ResponseKind::RequestBody(_) => Phase::RequestBody,
            ResponseKind::ResponseBody(_) => Phase::ResponseBody,
            ResponseKind::RequestTrailers(_) => Phase::RequestTrailers,
            ResponseKind::ResponseTrailers(_) => Phase::ResponseTrailers,
        }
    }
}

/// A protobuf `Duration`, as seconds and nanoseconds.
#[derive(Clone, Copy, Debug, PartialEq, Eq, Structural)]
pub struct MessageTimeout {
    pub seconds: i64,
    pub nanos: i32,
}

/// One outbound message of a stream.
#[derive(Clone, Debug, PartialEq)]
pub struct ProcessingResponse {
    pub response: Option<ResponseKind>,
    pub dynamic_metadata: Option<Struct>,
    /// Read by the proxy on header-phase responses only.
    pub mode_override: Option<ProcessingMode>,
    pub override_message_timeout: Option<MessageTimeout>,
}

impl ProcessingResponse {
    /// The protocol's empty message: nothing populated.
    pub open spec fn is_empty(self) -> bool {
        &&& self.response is None
        &&& self.dynamic_metadata is None
        &&& self.mode_override is None
        &&& self.override_message_timeout is None
    }
}

impl Default for ProcessingResponse {
    fn default() -> (r: Self)
        ensures
            r.is_empty(),
    {
        ProcessingResponse {
            response: None,
            dynamic_metadata: None,
            mode_override: None,
            override_message_timeout: None,
        }
    }
}

/// What a handler decided for one message, in the shape of its phase.
#[derive(Clone, Debug, PartialEq)]
pub enum HandlerOutcome {
    Headers {
        response: CommonResponse,
        dynamic_metadata: Option<Struct>,
        mode_override: Option<ProcessingMode>,
    },
    Body { response: CommonResponse, dynamic_metadata: Option<Struct> },
    Trailers { header_mutation: Option<HeaderMutation>, dynamic_metadata: Option<Struct> },
}

/// The phase that a direction and the shape of an outcome make up.
pub open spec fn outcome_phase(direction: Direction, outcome: HandlerOutcome) -> Phase {
    match (direction, outcome) {
        (Direction::Request, HandlerOutcome::Headers { .. }) => Phase::RequestHeaders,
        (Direction::Response, HandlerOutcome::Headers { .. }) => Phase::ResponseHeaders,
        (Direction::Request, HandlerOutcome::Body { .. }) => Phase::RequestBody,
        (Direction::Response, HandlerOutcome::Body { .. }) => Phase::ResponseBody,
        (Direction::Request, HandlerOutcome::Trailers { .. }) => Phase::RequestTrailers,
        (Direction::Response, HandlerOutcome::Trailers { .. }) => Phase::ResponseTrailers,
    }
}

/// The response envelope for a handler's outcome: the phase-matched payload,
/// the outcome's dynamic metadata, its mode override on the header phases
/// only, and no timeout override.
pub open spec fn response_for(direction: Direction, outcome: HandlerOutcome) -> ProcessingResponse {
    match outcome {
        HandlerOutcome::Headers { response, dynamic_metadata, mode_override } => {
            let payload = HeadersResponse { response: Some(response) };
            ProcessingResponse {
                response: Some(
                    match direction {
                        Direction::Request => ResponseKind::RequestHeaders(payload),
                        Direction::Response => ResponseKind::ResponseHeaders(payload),
                    },
                ),
                dynamic_metadata,
                mode_override,
                override_message_timeout: None,
            }
        },
        HandlerOutcome::Body { response, dynamic_metadata } => {
            let payload = BodyResponse { response: Some(response) };
            ProcessingResponse {
                response: Some(
                    match direction {
                        Direction::Request => ResponseKind::RequestBody(payload),
                        Direction::Response => ResponseKind::ResponseBody(payload),
                    },
                ),
                dynamic_metadata,
                mode_override: None,
                override_message_timeout: None,
            }
        },
        HandlerOutcome::Trailers { header_mutation, dynamic_metadata } => {
            let payload = TrailersResponse { header_mutation };
            ProcessingResponse {
                response: Some(
                    match direction {
                        Direction::Request => ResponseKind::RequestTrailers(payload),
                        Direction::Response => ResponseKind::ResponseTrailers(payload),
                    },
                ),
                dynamic_metadata,
                mode_override: None,
                override_message_timeout: None,
            }
        },
    }
}

} // verus!
