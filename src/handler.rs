//! A sample handler: it stamps a marker header on both header phases and
//! lets every other phase pass through unchanged.
use crate::envelope::{
    CommonResponse, Direction, HeaderMap, HeaderMutation, HeaderValue, HeaderValueOption, ResponseStatus,
};
use crate::ext_proc::ProcessingRequestHandler;
use envoy_types::pb::envoy::extensions::filters::http::ext_proc::v3::ProcessingMode;
use envoy_types::pb::google::protobuf::Struct;
use std::collections::HashMap;
use vstd::prelude::*;

verus! {

/// Stamps `name: request headers` on requests and `name: response headers`
/// on responses.
#[derive(Clone, Debug)]
pub struct MyExtProcHandler {
    pub name: String,
}

/// `m` sets exactly one header, `key: value`, and removes none.
pub open spec fn sets_only(m: HeaderMutation, key: Seq<char>, value: Seq<char>) -> bool {
    &&& m.set_headers@.len() == 1
    &&& m.remove_headers@.len() == 0
    &&& m.set_headers@[0].header is Some
    &&& m.set_headers@[0].header->Some_0.key@ == key
    &&& m.set_headers@[0].header->Some_0.value@ == value
    &&& m.set_headers@[0].header->Some_0.raw_value@.len() == 0
    &&& m.set_headers@[0].append is None
    &&& m.set_headers@[0].append_action == 0
    &&& !m.set_headers@[0].keep_empty_value
}

/// Continue, with only the header mutation `key: value`.
pub open spec fn stamped(r: CommonResponse, key: Seq<char>, value: Seq<char>) -> bool {
    &&& r.status == ResponseStatus::Continue
    &&& r.header_mutation is Some
    &&& sets_only(r.header_mutation->Some_0, key, value)
    &&& r.body_mutation is None
    &&& r.trailers is None
    &&& !r.clear_route_cache
}

impl MyExtProcHandler {
    pub fn new(name: String) -> (r: Self)
        ensures
            r.name == name,
    {
        MyExtProcHandler { name }
    }

    /// Continue, setting the header `self.name: value`.
    fn stamp(&self, value: &str) -> (r: CommonResponse)
        ensures
            stamped(r, self.name@, value@),
    {
        let header = HeaderValue { key: self.name.clone(), value: value.to_owned(), raw_value: Vec::new() };
        let option = HeaderValueOption {
            header: Some(header),
            append: None,
            append_action: 0,
            keep_empty_value: false,
        };
        let mut set_headers: Vec<HeaderValueOption> = Vec::new();
        set_headers.push(option);
        CommonResponse {
            status: ResponseStatus::Continue,
            header_mutation: Some(HeaderMutation { set_headers, remove_headers: Vec::new() }),
            body_mutation: None,
            trailers: None,
            clear_route_cache: false,
        }
    }
}

/// The value stamped in each direction.
pub open spec fn marker_value(direction: Direction) -> Seq<char> {
    match direction {
        Direction::Request => "request headers"@,
        Direction::Response => "response headers"@,
    }
}

impl ProcessingRequestHandler for MyExtProcHandler {
    open spec fn headers_decision(
        &self,
        direction: Direction,
        headers: HeaderMap,
        metadata_context: Option<envoy_types::pb::envoy::config::core::v3::Metadata>,
        attributes: HashMap<String, Struct>,
        result: (CommonResponse, Option<Struct>, Option<ProcessingMode>),
    ) -> bool {
        &&& stamped(result.0, self.name@, marker_value(direction))
        &&& result.1 is None
        &&& result.2 is None
    }

    open spec fn body_decision(
        &self,
        direction: Direction,
        body: Seq<u8>,
        metadata_context: Option<envoy_types::pb::envoy::config::core::v3::Metadata>,
        attributes: HashMap<String, Struct>,
        result: (CommonResponse, Option<Struct>),
    ) -> bool {
        result.0.is_pass_through() && result.1 is None
    }

    open spec fn trailers_decision(
        &self,
        direction: Direction,
        trailers: HeaderMap,
        metadata_context: Option<envoy_types::pb::envoy::config::core::v3::Metadata>,
        attributes: HashMap<String, Struct>,
        result: (Option<HeaderMutation>, Option<Struct>),
    ) -> bool {
        result.0 is None && result.1 is None
    }

    fn request_headers(
        &self,
        headers: &HeaderMap,
        metadata_context: Option<envoy_types::pb::envoy::config::core::v3::Metadata>,
        attributes: HashMap<String, Struct>,
    ) -> (CommonResponse, Option<Struct>, Option<ProcessingMode>) {
        proof {
            reveal_strlit("request headers");
        }
        (self.stamp("request headers"), None, None)
    }

    fn response_headers(
        &self,
        headers: &HeaderMap,
        metadata_context: Option<envoy_types::pb::envoy::config::core::v3::Metadata>,
        attributes: HashMap<String, Struct>,
    ) -> (CommonResponse, Option<Struct>, Option<ProcessingMode>) {
        proof {
            reveal_strlit("response headers");
        }
        (self.stamp("response headers"), None, None)
    }

    fn request_body(
        &self,
        body: &[u8],
        metadata_context: Option<envoy_types::pb::envoy::config::core::v3::Metadata>,
        attributes: HashMap<String, Struct>,
    ) -> (CommonResponse, Option<Struct>) {
        (CommonResponse::default(), None)
    }

    fn response_body(
        &self,
        body: &[u8],
        metadata_context: Option<envoy_types::pb::envoy::config::core::v3::Metadata>,
        attributes: HashMap<String, Struct>,
    ) -> (CommonResponse, Option<Struct>) {
        (CommonResponse::default(), None)
    }

    fn request_trailers(
        &self,
        trailers: &HeaderMap,
        metadata_context: Option<envoy_types::pb::envoy::config::core::v3::Metadata>,
        attributes: HashMap<String, Struct>,
    ) -> (Option<HeaderMutation>, Option<Struct>) {
        (None, None)
    }

    fn response_trailers(
        &self,
        trailers: &HeaderMap,
        metadata_context: Option<envoy_types::pb::envoy::config::core::v3::Metadata>,
        attributes: HashMap<String, Struct>,
    ) -> (Option<HeaderMutation>, Option<Struct>) {
        (None, None)
    }
}

} // verus!
