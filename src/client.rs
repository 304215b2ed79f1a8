use crate::common::{
    decode_merge_request_value, decode_pipeline_value, merge_request_of, pipeline_of,
    MergeRequest, MergeRequestView, Pipeline,
};
use crate::json::{json_of_bytes, parse_json};
use vstd::prelude::*;

verus! {

/// Where and as whom to reach the source-control API.
#[derive(Clone, Debug)]
pub struct GitlabClient {
    pub hostname: String,
    pub access_token: String,
}

impl GitlabClient {
    pub fn new(hostname: String, access_token: String) -> (r: Self)
        ensures
            r.hostname == hostname,
            r.access_token == access_token,
    {
        Self { hostname, access_token }
    }
}

/// The pipeline that an API response body describes.
pub open spec fn pipeline_of_bytes(b: Seq<u8>) -> Option<Pipeline> {
    match json_of_bytes(b) {
        Some(j) => pipeline_of(j),
        None => None,
    }
}

/// The merge request that an API response body describes.
pub open spec fn merge_request_of_bytes(b: Seq<u8>) -> Option<MergeRequestView> {
    match json_of_bytes(b) {
        Some(j) => merge_request_of(j),
        None => None,
    }
}

/// Reads the pipeline details from the body of an API response; `None` when
/// the body is malformed, which counts as a failed lookup.
pub fn pipeline_from_response(body: &[u8]) -> (r: Option<Pipeline>)
    ensures
        r == pipeline_of_bytes(body@),
{
    match parse_json(body) {
        Some(j) => decode_pipeline_value(&j),
        None => None,
    }
}

/// Reads the merge request details from the body of an API response; `None`
/// when the body is malformed, which counts as a failed lookup.
pub fn merge_request_from_response(body: &[u8]) -> (r: Option<MergeRequest>)
    ensures
        match r {
            Some(m) => merge_request_of_bytes(body@) == Some(m@),
            None => merge_request_of_bytes(body@) is None,
        },
{
    match parse_json(body) {
        Some(j) => decode_merge_request_value(&j),
        None => None,
    }
}

} // verus!
