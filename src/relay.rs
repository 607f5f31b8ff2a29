//! The relay's decisions for one `GET /proxy/{token}` request: what to fetch,
//! and what to answer once the upstream reply (or its failure) is known.
use vstd::prelude::*;
use vstd::string::StringExecFns;
use crate::codec::{all_base58, bs58_bytes, decode, decoded, DecodeError};
use crate::headers::{collect_pairs, form_decoded, HeaderSet};
use crate::manifest::{
    body_resolves, is_manifest_url, manifest_parses, maybe_rewrite, rewritten_body, RewriteError,
    RewriteOutcome,
};
use crate::urls::{parse_url, url_parsed};

verus! {

/// The media type of a rewritten manifest.
pub open spec fn manifest_type() -> Seq<char> {
    "application/vnd.apple.mpegurl"@
}

/// The media type of a body whose upstream named none.
pub open spec fn generic_type() -> Seq<char> {
    "application/octet-stream"@
}

/// The media type of an error reply.
pub open spec fn error_type() -> Seq<char> {
    "text/plain"@
}

/// Why a request could not be served.
#[derive(Debug, Clone, Copy, PartialEq, Eq)]
pub enum RelayError {
    /// The token does not decode.
    Decode(DecodeError),
    /// The token decodes to a text that is no absolute URL.
    BadTarget,
    /// A header name or value carried by the query is not legal in HTTP.
    BadHeader,
    /// The upstream fetch failed.
    Upstream,
    /// The body of a manifest fetch is no playlist.
    Parse,
    /// The rewritten playlist could not be written out.
    Serialize,
}

/// The HTTP status that answers an error: client errors for a bad token,
/// a gateway error for a failed fetch, a server error otherwise.
pub open spec fn status_of(e: RelayError) -> u16 {
    match e {
        RelayError::Decode(_) => 400,
        RelayError::BadTarget => 400,
        RelayError::BadHeader => 400,
        RelayError::Upstream => 502,
        RelayError::Parse => 500,
        RelayError::Serialize => 500,
    }
}

/// What to fetch: a target URL and the headers to send with it.
#[derive(Debug, Clone)]
pub struct Target {
    pub url: String,
    pub headers: HeaderSet,
}

/// What the upstream server answered.
#[derive(Debug, Clone)]
pub struct Upstream {
    pub status: u16,
    /// The URL the response is associated with.
    pub url: String,
    pub content_type: Option<String>,
    pub body: Vec<u8>,
}

/// What the relay answers.
#[derive(Debug, Clone)]
pub struct Reply {
    pub status: u16,
    pub content_type: String,
    pub body: Vec<u8>,
}

/// A 2xx status.
pub open spec fn is_success(status: u16) -> bool {
    200 <= status < 300
}

/// A 3xx status, which the relay hands on as it came rather than follow it.
pub open spec fn is_redirect(status: u16) -> bool {
    300 <= status < 400
}

/// The upstream's media type, or the generic one where it named none.
pub open spec fn passed_type(ct: Option<String>) -> Seq<char> {
    match ct {
        Some(t) => t@,
        None => generic_type(),
    }
}

/// The status that answers an error.
pub fn error_status(e: RelayError) -> (r: u16)
    ensures
        r == status_of(e),
{
    match e {
        RelayError::Decode(_) => 400,
        RelayError::BadTarget => 400,
        RelayError::BadHeader => 400,
        RelayError::Upstream => 502,
        RelayError::Parse => 500,
        RelayError::Serialize => 500,
    }
}

/// The reply to a request that failed: the error's status and an empty body.
pub fn failure(e: RelayError) -> (r: Reply)
    ensures
        r.status == status_of(e),
        r.content_type@ == error_type(),
        r.body@.len() == 0,
{
    Reply { status: error_status(e), content_type: String::from_str("text/plain"), body: Vec::new() }
}

/// Reads a request: the target URL its token stands for, and the headers its
/// query string carries.
pub fn accept(token: &str, query: &str) -> (r: Result<Target, RelayError>)
    ensures
        r == Err::<Target, RelayError>(RelayError::Decode(DecodeError::NotBase58)) <==> !all_base58(token@),
        r == Err::<Target, RelayError>(RelayError::Decode(DecodeError::NotBase58)) <==> bs58_bytes(token@) is None,
        r == Err::<Target, RelayError>(RelayError::Decode(DecodeError::NotUtf8)) <==> (bs58_bytes(token@) is Some
            && decoded(token@) is None),
        r == Err::<Target, RelayError>(RelayError::BadTarget) <==> (decoded(token@) matches Some(s) && url_parsed(s) is None),
        r is Ok <==> (decoded(token@) matches Some(s) && url_parsed(s) is Some),
        r matches Ok(t) ==> url_parsed(decoded(token@)->0) == Some(t.url@) && t.headers.wf()
            && t.headers@ == collect_pairs(form_decoded(query@)),
{
    match decode(token) {
        Err(e) => Err(RelayError::Decode(e)),
        Ok(text) => match parse_url(text.as_str()) {
            None => Err(RelayError::BadTarget),
            Some(url) => Ok(Target { url, headers: HeaderSet::from_query(query) }),
        },
    }
}

/// Answers a request from what the upstream returned. A redirect passes
/// through as it came; another non-success status is a gateway error; a
/// success is rewritten where it is a manifest and passed through otherwise.
pub fn respond(up: Upstream, headers: &HeaderSet) -> (r: Reply)
    ensures
        is_redirect(up.status) ==> r.status == up.status && r.body@ == up.body@
            && r.content_type@ == passed_type(up.content_type),
        !is_success(up.status) && !is_redirect(up.status) ==> r.status == status_of(RelayError::Upstream)
            && r.body@.len() == 0 && r.content_type@ == error_type(),
        is_success(up.status) && !is_manifest_url(up.url@) ==> r.status == 200 && r.body@ == up.body@
            && r.content_type@ == passed_type(up.content_type),
        is_success(up.status) && is_manifest_url(up.url@) && !manifest_parses(up.body@) ==> r.status
            == status_of(RelayError::Parse) && r.body@.len() == 0 && r.content_type@ == error_type(),
        is_success(up.status) && is_manifest_url(up.url@) && body_resolves(up.url@, up.body@) ==> r.status == 200
            && r.content_type@ == manifest_type() && rewritten_body(up.body@, up.url@, headers@, r.body@),
        is_success(up.status) && is_manifest_url(up.url@) && manifest_parses(up.body@) && !body_resolves(
            up.url@,
            up.body@,
        ) ==> r.status == 200 && r.body@ == up.body@ && r.content_type@ == passed_type(up.content_type),
{
    if 300 <= up.status && up.status < 400 {
        let content_type = passed_content_type(up.content_type);
        return Reply { status: up.status, content_type, body: up.body };
    }
    if !(200 <= up.status && up.status < 300) {
        return failure(RelayError::Upstream);
    }
    let Upstream { status: _, url, content_type, body } = up;
    match maybe_rewrite(url.as_str(), body, headers) {
        Ok(RewriteOutcome::Unchanged(b)) => Reply { status: 200, content_type: passed_content_type(content_type), body: b },
        Ok(RewriteOutcome::Rewritten(b)) => Reply {
            status: 200,
            content_type: String::from_str("application/vnd.apple.mpegurl"),
            body: b,
        },
        Err(RewriteError::Parse) => failure(RelayError::Parse),
        Err(RewriteError::Serialize) => failure(RelayError::Serialize),
    }
}

/// The reply to an upstream fetch that failed.
pub fn upstream_failure() -> (r: Reply)
    ensures
        r.status == 502,
        r.body@.len() == 0,
{
    failure(RelayError::Upstream)
}

fn passed_content_type(ct: Option<String>) -> (r: String)
    ensures
        r@ == passed_type(ct),
{
    match ct {
        Some(t) => t,
        None => String::from_str("application/octet-stream"),
    }
}

} // verus!
