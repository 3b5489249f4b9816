//! The handler contract and the dispatcher that answers each inbound message
//! with a phase-matched response.
use crate::envelope::{
    outcome_phase, response_for, BodyResponse, CommonResponse, Direction, EventKind, HandlerOutcome, HeaderMap,
    HeaderMutation, HeadersResponse, ProcessingEvent, ProcessingResponse, ResponseKind,
    TrailersResponse,
};
use envoy_types::pb::envoy::extensions::filters::http::ext_proc::v3::ProcessingMode;
use envoy_types::pb::google::protobuf::Struct;
use std::collections::HashMap;
use std::sync::Arc;
use vstd::prelude::*;

verus! {

/// The decision logic: one operation per phase. Each takes the phase payload,
/// the proxy's metadata and the selected attributes, and has no error channel:
/// a handler that cannot decide returns a pass-through result.
///
/// Each operation's result meets the matching decision predicate, which an
/// implementation defines to say what it decides; one that keeps state across
/// calls leaves it open.
pub trait ProcessingRequestHandler: Send + Sync + 'static {
    spec fn headers_decision(
        &self,
        direction: Direction,
        headers: HeaderMap,
        metadata_context: Option<envoy_types::pb::envoy::config::core::v3::Metadata>,
        attributes: HashMap<String, Struct>,
        result: (CommonResponse, Option<Struct>, Option<ProcessingMode>),
    ) -> bool;

    spec fn body_decision(
        &self,
        direction: Direction,
        body: Seq<u8>,
        metadata_context: Option<envoy_types::pb::envoy::config::core::v3::Metadata>,
        attributes: HashMap<String, Struct>,
        result: (CommonResponse, Option<Struct>),
    ) -> bool;

    spec fn trailers_decision(
        &self,
        direction: Direction,
        trailers: HeaderMap,
        metadata_context: Option<envoy_types::pb::envoy::config::core::v3::Metadata>,
        attributes: HashMap<String, Struct>,
        result: (Option<HeaderMutation>, Option<Struct>),
    ) -> bool;

    fn request_headers(
        &self,
        headers: &HeaderMap,
        metadata_context: Option<envoy_types::pb::envoy::config::core::v3::Metadata>,
        attributes: HashMap<String, Struct>,
    ) -> (r: (CommonResponse, Option<Struct>, Option<ProcessingMode>))
        ensures
            self.headers_decision(Direction::Request, *headers, metadata_context, attributes, r),
    ;

    fn response_headers(
        &self,
        headers: &HeaderMap,
        metadata_context: Option<envoy_types::pb::envoy::config::core::v3::Metadata>,
        attributes: HashMap<String, Struct>,
    ) -> (r: (CommonResponse, Option<Struct>, Option<ProcessingMode>))
        ensures
            self.headers_decision(Direction::Response, *headers, metadata_context, attributes, r),
    ;

    fn request_body(
        &self,
        body: &[u8],
        metadata_context: Option<envoy_types::pb::envoy::config::core::v3::Metadata>,
        attributes: HashMap<String, Struct>,
    ) -> (r: (CommonResponse, Option<Struct>))
        ensures
            self.body_decision(Direction::Request, body@, metadata_context, attributes, r),
    ;

    fn response_body(
        &self,
        body: &[u8],
        metadata_context: Option<envoy_types::pb::envoy::config::core::v3::Metadata>,
        attributes: HashMap<String, Struct>,
    ) -> (r: (CommonResponse, Option<Struct>))
        ensures
            self.body_decision(Direction::Response, body@, metadata_context, attributes, r),
    ;

    fn request_trailers(
        &self,
        trailers: &HeaderMap,
        metadata_context: Option<envoy_types::pb::envoy::config::core::v3::Metadata>,
        attributes: HashMap<String, Struct>,
    ) -> (r: (Option<HeaderMutation>, Option<Struct>))
        ensures
            self.trailers_decision(Direction::Request, *trailers, metadata_context, attributes, r),
    ;

    fn response_trailers(
        &self,
        trailers: &HeaderMap,
        metadata_context: Option<envoy_types::pb::envoy::config::core::v3::Metadata>,
        attributes: HashMap<String, Struct>,
    ) -> (r: (Option<HeaderMutation>, Option<Struct>))
        ensures
            self.trailers_decision(Direction::Response, *trailers, metadata_context, attributes, r),
    ;
}

/// `o` is what `h` may decide for the payload `k`, given the event's context.
pub open spec fn decided<T: ProcessingRequestHandler>(
    h: T,
    k: EventKind,
    metadata_context: Option<envoy_types::pb::envoy::config::core::v3::Metadata>,
    attributes: HashMap<String, Struct>,
    o: HandlerOutcome,
) -> bool {
    match o {
        HandlerOutcome::Headers { response, dynamic_metadata, mode_override } => {
            let r = (response, dynamic_metadata, mode_override);
            match k {
                EventKind::RequestHeaders(hs) => hs.headers is Some && h.headers_decision(
                    Direction::Request,
                    hs.headers->Some_0,
                    metadata_context,
                    attributes,
                    r,
                ),
                EventKind::ResponseHeaders(hs) => hs.headers is Some && h.headers_decision(
                    Direction::Response,
                    hs.headers->Some_0,
                    metadata_context,
                    attributes,
                    r,
                ),
                _ => false,
            }
        },
        HandlerOutcome::Body { response, dynamic_metadata } => {
            let r = (response, dynamic_metadata);
            match k {
                EventKind::RequestBody(b) => h.body_decision(
                    Direction::Request,
                    b.body@,
                    metadata_context,
                    attributes,
                    r,
                ),
                EventKind::ResponseBody(b) => h.body_decision(
                    Direction::Response,
                    b.body@,
                    metadata_context,
                    attributes,
                    r,
                ),
                _ => false,
            }
        },
        HandlerOutcome::Trailers { header_mutation, dynamic_metadata } => {
            let r = (header_mutation, dynamic_metadata);
            match k {
                EventKind::RequestTrailers(ts) => ts.trailers is Some && h.trailers_decision(
                    Direction::Request,
                    ts.trailers->Some_0,
                    metadata_context,
                    attributes,
                    r,
                ),
                EventKind::ResponseTrailers(ts) => ts.trailers is Some && h.trailers_decision(
                    Direction::Response,
                    ts.trailers->Some_0,
                    metadata_context,
                    attributes,
                    r,
                ),
                _ => false,
            }
        },
    }
}

/// Each of `h`'s decisions is a function of its inputs.
pub open spec fn is_stateless<T: ProcessingRequestHandler>(h: T) -> bool {
    &&& forall|d: Direction, hs: HeaderMap, md: Option<envoy_types::pb::envoy::config::core::v3::Metadata>, at: HashMap<String, Struct>, x, y|
        #![trigger h.headers_decision(d, hs, md, at, x), h.headers_decision(d, hs, md, at, y)]
        h.headers_decision(d, hs, md, at, x) && h.headers_decision(d, hs, md, at, y) ==> x == y
    &&& forall|d: Direction, b: Seq<u8>, md: Option<envoy_types::pb::envoy::config::core::v3::Metadata>, at: HashMap<String, Struct>, x, y|
        #![trigger h.body_decision(d, b, md, at, x), h.body_decision(d, b, md, at, y)]
        h.body_decision(d, b, md, at, x) && h.body_decision(d, b, md, at, y) ==> x == y
    &&& forall|d: Direction, ts: HeaderMap, md: Option<envoy_types::pb::envoy::config::core::v3::Metadata>, at: HashMap<String, Struct>, x, y|
        #![trigger h.trailers_decision(d, ts, md, at, x), h.trailers_decision(d, ts, md, at, y)]
        h.trailers_decision(d, ts, md, at, x) && h.trailers_decision(d, ts, md, at, y) ==> x == y
}

/// Why a message was refused.
#[derive(Clone, Copy, Debug, PartialEq, Eq, Structural)]
pub enum DispatchError {
    /// Fire-and-forget delivery was asked for; only in-order pairing is served.
    AsyncModeUnsupported,
}

/// `r` is `h`'s answer to `e`: for a well-formed event, the envelope of an
/// outcome that `h` may decide for it; otherwise the empty message.
pub open spec fn answers<T: ProcessingRequestHandler>(
    h: T,
    e: ProcessingEvent,
    r: ProcessingResponse,
) -> bool {
    if e.is_well_formed() {
        let k = e.request->Some_0;
        exists|o: HandlerOutcome|
            decided(h, k, e.metadata_context, e.attributes, o) && r == #[trigger] response_for(
                k.spec_direction(),
                o,
            )
    } else {
        r.is_empty()
    }
}

/// Builds the response envelope for a handler's outcome. The mode override is
/// kept exactly when the outcome is of a header phase.
pub fn respond(direction: Direction, outcome: HandlerOutcome) -> (r: ProcessingResponse)
    ensures
        r == response_for(direction, outcome),
        r.response is Some && r.response->Some_0.spec_phase() == outcome_phase(direction, outcome),
        r.mode_override == (match outcome {
            HandlerOutcome::Headers { mode_override, .. } => mode_override,
            _ => None,
        }),
{
    match outcome {
        HandlerOutcome::Headers { response, dynamic_metadata, mode_override } => {
            let payload = HeadersResponse { response: Some(response) };
            let kind = match direction {
                Direction::Request => ResponseKind::RequestHeaders(payload),
                Direction::Response => ResponseKind::ResponseHeaders(payload),
            };
            ProcessingResponse {
                response: Some(kind),
                dynamic_metadata,
                mode_override,
                override_message_timeout: None,
            }
        },
        HandlerOutcome::Body { response, dynamic_metadata } => {
            let payload = BodyResponse { response: Some(response) };
            let kind = match direction {
                Direction::Request => ResponseKind::RequestBody(payload),
                Direction::Response => ResponseKind::ResponseBody(payload),
            };
            ProcessingResponse {
                response: Some(kind),
                dynamic_metadata,
                // the proxy ignores it on body and trailer responses
                mode_override: None,
                override_message_timeout: None,
            }
        },
        HandlerOutcome::Trailers { header_mutation, dynamic_metadata } => {
            let payload = TrailersResponse { header_mutation };
            let kind = match direction {
                Direction::Request => ResponseKind::RequestTrailers(payload),
                Direction::Response => ResponseKind::ResponseTrailers(payload),
            };
            ProcessingResponse {
                response: Some(kind),
                dynamic_metadata,
                mode_override: None,
                override_message_timeout: None,
            }
        },
    }
}

/// Serves one handler, shared by every stream.
pub struct ProcessingRequestHandlerServer<T: ProcessingRequestHandler> {
    handler: Arc<T>,
}

impl<T: ProcessingRequestHandler> ProcessingRequestHandlerServer<T> {
    pub closed spec fn spec_handler(&self) -> T {
        *self.handler
    }

    pub fn new(handler: T) -> (r: Self)
        ensures
            r.spec_handler() == handler,
    {
        ProcessingRequestHandlerServer { handler: Arc::new(handler) }
    }

    /// Answers one message. Fire-and-forget messages are refused; a message
    /// with no phase, or with a header or trailer phase that lacks its list,
    /// is answered with the empty message.
    pub fn dispatch(&self, req: ProcessingEvent) -> (r: Result<ProcessingResponse, DispatchError>)
        ensures
            req.async_mode <==> r is Err,
            r is Err ==> r->Err_0 == DispatchError::AsyncModeUnsupported,
            r is Ok ==> answers(self.spec_handler(), req, r->Ok_0),
            r is Ok && req.is_well_formed() ==> ({
                let k = req.request->Some_0;
                let resp = r->Ok_0;
                &&& resp.response is Some
                &&& resp.response->Some_0.spec_phase() == k.spec_phase()
                &&& !k.spec_phase().is_headers() ==> resp.mode_override is None
            }),
            r is Ok && !req.is_well_formed() ==> r->Ok_0.is_empty(),
    {
        if req.async_mode {
            return Err(DispatchError::AsyncModeUnsupported);
        }
        match self.dispatch_inner(req) {
            Some(resp) => Ok(resp),
            None => Ok(ProcessingResponse::default()),
        }
    }

    fn dispatch_inner(&self, req: ProcessingEvent) -> (r: Option<ProcessingResponse>)
        ensures
            r is None <==> !req.is_well_formed(),
            r is Some ==> answers(self.spec_handler(), req, r->Some_0),
    {
        let ProcessingEvent { request, metadata_context, attributes, async_mode: _ } = req;
        let kind = match request {
            Some(kind) => kind,
            None => return None,
        };
        let ghost k = kind;
        let (direction, outcome) = match kind {
            EventKind::RequestHeaders(hs) => {
                let headers = match hs.headers {
                    Some(headers) => headers,
                    None => return None,
                };
                let (response, dynamic_metadata, mode_override) = self.handler.request_headers(
                    &headers,
                    metadata_context,
                    attributes,
                );
                (Direction::Request, HandlerOutcome::Headers { response, dynamic_metadata, mode_override })
            },
            EventKind::ResponseHeaders(hs) => {
                let headers = match hs.headers {
                    Some(headers) => headers,
                    None => return None,
                };
                let (response, dynamic_metadata, mode_override) = self.handler.response_headers(
                    &headers,
                    metadata_context,
                    attributes,
                );
                (Direction::Response, HandlerOutcome::Headers { response, dynamic_metadata, mode_override })
            },
            EventKind::RequestBody(b) => {
                let (response, dynamic_metadata) = self.handler.request_body(
                    b.body.as_slice(),
                    metadata_context,
                    attributes,
                );
                (Direction::Request, HandlerOutcome::Body { response, dynamic_metadata })
            },
            EventKind::ResponseBody(b) => {
                let (response, dynamic_metadata) = self.handler.response_body(
                    b.body.as_slice(),
                    metadata_context,
                    attributes,
                );
                (Direction::Response, HandlerOutcome::Body { response, dynamic_metadata })
            },
            EventKind::RequestTrailers(ts) => {
                let trailers = match ts.trailers {
                    Some(trailers) => trailers,
                    None => return None,
                };
                let (header_mutation, dynamic_metadata) = self.handler.request_trailers(
                    &trailers,
                    metadata_context,
                    attributes,
                );
                (Direction::Request, HandlerOutcome::Trailers { header_mutation, dynamic_metadata })
            },
            EventKind::ResponseTrailers(ts) => {
                let trailers = match ts.trailers {
                    Some(trailers) => trailers,
                    None => return None,
                };
                let (header_mutation, dynamic_metadata) = self.handler.response_trailers(
                    &trailers,
                    metadata_context,
                    attributes,
                );
                (Direction::Response, HandlerOutcome::Trailers { header_mutation, dynamic_metadata })
            },
        };
        let resp = respond(direction, outcome);
        assert(decided(self.spec_handler(), k, req.metadata_context, req.attributes, outcome)
            && resp == response_for(k.spec_direction(), outcome));
        Some(resp)
    }
}

impl<T: ProcessingRequestHandler> Clone for ProcessingRequestHandlerServer<T> {
    fn clone(&self) -> (r: Self)
        ensures
            r.spec_handler() == self.spec_handler(),
    {
        ProcessingRequestHandlerServer { handler: Arc::clone(&self.handler) }
    }
}

/// A handler whose every decision is a function of its inputs answers the
/// same event with the same response each time it is dispatched.
pub proof fn lemma_stateless_dispatch_repeats<T: ProcessingRequestHandler>(
    h: T,
    e: ProcessingEvent,
    r1: ProcessingResponse,
    r2: ProcessingResponse,
)
    requires
        is_stateless(h),
        answers(h, e, r1),
        answers(h, e, r2),
    ensures
        r1 == r2,
{
    if e.is_well_formed() {
        let k = e.request->Some_0;
        let md = e.metadata_context;
        let at = e.attributes;
        let o1 = choose|o: HandlerOutcome|
            decided(h, k, md, at, o) && r1 == #[trigger] response_for(k.spec_direction(), o);
        let o2 = choose|o: HandlerOutcome|
            decided(h, k, md, at, o) && r2 == #[trigger] response_for(k.spec_direction(), o);
        assert(o1 == o2);
    }
}

} // verus!
