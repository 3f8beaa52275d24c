//! The rules by which a request is passed on to the service it is meant for.
//!
//! A request names its target in a header of its own, and may name a
//! provider whose stored key is sent along in place of the caller's
//! credentials. Headers that belong to the hop, not to the message, are not
//! passed on, in either direction.
use vstd::prelude::*;
use vstd::string::*;
use crate::text::{decimal, decimal_string};

verus! {

/// The names of the request headers that are never passed on.
pub open spec fn hop_request_headers() -> Seq<Seq<char>> {
    seq![
        "x-proxy-target-url"@,
        "x-api-provider"@,
        "x-api-auth-header"@,
        "host"@,
        "connection"@,
        "keep-alive"@,
        "proxy-authorization"@,
        "te"@,
        "trailer"@,
        "transfer-encoding"@,
        "upgrade"@,
        "content-length"@,
        "accept-encoding"@,
        "origin"@,
    ]
}

/// The names of the request headers that are not passed on where the proxy
/// has one key of its own for every request: the headers of the hop and the
/// caller's authorization.
pub open spec fn fixed_key_request_headers() -> Seq<Seq<char>> {
    seq![
        "x-proxy-target-url"@,
        "host"@,
        "connection"@,
        "keep-alive"@,
        "proxy-authorization"@,
        "te"@,
        "trailer"@,
        "transfer-encoding"@,
        "upgrade"@,
        "content-length"@,
        "authorization"@,
        "accept-encoding"@,
    ]
}

/// Whether a proxy with one key of its own passes on the request header with
/// the lower-case name `name`.
pub open spec fn fixed_key_request_header_passes(name: Seq<char>) -> bool {
    !fixed_key_request_headers().contains(name)
}

/// The names of the request headers that carry a credential of the caller,
/// which a stored key replaces.
pub open spec fn credential_request_headers() -> Seq<Seq<char>> {
    seq!["authorization"@, "x-api-key"@, "x-goog-api-key"@]
}

/// The names of the response headers that are not passed back.
pub open spec fn hop_response_headers() -> Seq<Seq<char>> {
    seq!["content-encoding"@, "content-length"@, "transfer-encoding"@]
}

/// Whether the request header with the lower-case name `name` is passed on.
/// `key_sent` says that a stored key is sent with the request.
pub open spec fn request_header_passes(name: Seq<char>, key_sent: bool) -> bool {
    &&& !hop_request_headers().contains(name)
    &&& !(key_sent && credential_request_headers().contains(name))
}

/// Whether the response header with the lower-case name `name` is passed
/// back.
pub open spec fn response_header_passes(name: Seq<char>) -> bool {
    !hop_response_headers().contains(name)
}

/// The address that a request is sent to.
pub open spec fn target_address(base: Seq<char>, path_and_query: Seq<char>) -> Seq<char> {
    base + path_and_query
}

/// The header that carries a stored key: under `Authorization` the key is a
/// bearer token, under any other name it stands alone.
pub open spec fn key_header(name: Seq<char>, key: Seq<char>) -> (Seq<char>, Seq<char>) {
    if name == "Authorization"@ {
        (name, "Bearer "@ + key)
    } else {
        (name, key)
    }
}

/// Whether a request gets the content type of JSON: it is a POST with a body
/// and says nothing of its content type.
pub open spec fn json_content_type_added(
    is_post: bool,
    body_is_empty: bool,
    has_content_type: bool,
) -> bool {
    is_post && !body_is_empty && !has_content_type
}

/// The lower-case form of a text.
pub uninterp spec fn lowercase(text: Seq<char>) -> Seq<char>;

/// Puts a header's name in lower case.
///
/// Trusted: the body is `str::to_lowercase`. The contract claims only that
/// the result depends on the text alone.
#[verifier::external_body]
fn to_lowercase(text: &str) -> (lower: String)
    ensures
        lower@ == lowercase(text@),
{
    text.to_lowercase()
}

fn contains_text(names: &Vec<String>, name: &String) -> (found: bool)
    ensures
        found == names.deep_view().contains(name@),
{
    let mut at: usize = 0;
    while at < names.len()
        invariant
            at <= names@.len(),
            forall|i: int| 0 <= i < at ==> names.deep_view()[i] != name@,
        decreases names@.len() - at,
    {
        if names[at] == *name {
            assert(names.deep_view()[at as int] == name@);
            return true;
        }
        at += 1;
    }
    false
}

fn hop_request_names() -> (names: Vec<String>)
    ensures
        names.deep_view() == hop_request_headers(),
{
    let mut names: Vec<String> = Vec::new();
    names.push(String::from_str("x-proxy-target-url"));
    names.push(String::from_str("x-api-provider"));
    names.push(String::from_str("x-api-auth-header"));
    names.push(String::from_str("host"));
    names.push(String::from_str("connection"));
    names.push(String::from_str("keep-alive"));
    names.push(String::from_str("proxy-authorization"));
    names.push(String::from_str("te"));
    names.push(String::from_str("trailer"));
    names.push(String::from_str("transfer-encoding"));
    names.push(String::from_str("upgrade"));
    names.push(String::from_str("content-length"));
    names.push(String::from_str("accept-encoding"));
    names.push(String::from_str("origin"));
    assert(names.deep_view() =~= hop_request_headers());
    names
}

fn fixed_key_request_names() -> (names: Vec<String>)
    ensures
        names.deep_view() == fixed_key_request_headers(),
{
    let mut names: Vec<String> = Vec::new();
    names.push(String::from_str("x-proxy-target-url"));
    names.push(String::from_str("host"));
    names.push(String::from_str("connection"));
    names.push(String::from_str("keep-alive"));
    names.push(String::from_str("proxy-authorization"));
    names.push(String::from_str("te"));
    names.push(String::from_str("trailer"));
    names.push(String::from_str("transfer-encoding"));
    names.push(String::from_str("upgrade"));
    names.push(String::from_str("content-length"));
    names.push(String::from_str("authorization"));
    names.push(String::from_str("accept-encoding"));
    assert(names.deep_view() =~= fixed_key_request_headers());
    names
}

fn credential_request_names() -> (names: Vec<String>)
    ensures
        names.deep_view() == credential_request_headers(),
{
    let mut names: Vec<String> = Vec::new();
    names.push(String::from_str("authorization"));
    names.push(String::from_str("x-api-key"));
    names.push(String::from_str("x-goog-api-key"));
    assert(names.deep_view() =~= credential_request_headers());
    names
}

fn hop_response_names() -> (names: Vec<String>)
    ensures
        names.deep_view() == hop_response_headers(),
{
    let mut names: Vec<String> = Vec::new();
    names.push(String::from_str("content-encoding"));
    names.push(String::from_str("content-length"));
    names.push(String::from_str("transfer-encoding"));
    assert(names.deep_view() =~= hop_response_headers());
    names
}

/// Whether the request header with the lower-case name `name` is passed on.
pub fn passes_request_header(name: &String, key_sent: bool) -> (passes: bool)
    ensures
        passes == request_header_passes(name@, key_sent),
{
    if contains_text(&hop_request_names(), name) {
        return false;
    }
    !(key_sent && contains_text(&credential_request_names(), name))
}

/// Whether a proxy with one key of its own passes on the request header with
/// the lower-case name `name`.
pub fn passes_fixed_key_request_header(name: &String) -> (passes: bool)
    ensures
        passes == fixed_key_request_header_passes(name@),
{
    !contains_text(&fixed_key_request_names(), name)
}

/// Whether a proxy with one key of its own passes on the request header
/// `name`, in whatever case it is written.
pub fn forwards_fixed_key_request_header(name: &str) -> (passes: bool)
    ensures
        passes == fixed_key_request_header_passes(lowercase(name@)),
{
    let lower = to_lowercase(name);
    passes_fixed_key_request_header(&lower)
}

/// Whether the response header with the lower-case name `name` is passed
/// back.
pub fn passes_response_header(name: &String) -> (passes: bool)
    ensures
        passes == response_header_passes(name@),
{
    !contains_text(&hop_response_names(), name)
}

/// Whether the request header `name`, in whatever case it is written, is
/// passed on.
pub fn forwards_request_header(name: &str, key_sent: bool) -> (passes: bool)
    ensures
        passes == request_header_passes(lowercase(name@), key_sent),
{
    let lower = to_lowercase(name);
    passes_request_header(&lower, key_sent)
}

/// Whether the response header `name`, in whatever case it is written, is
/// passed back.
pub fn forwards_response_header(name: &str) -> (passes: bool)
    ensures
        passes == response_header_passes(lowercase(name@)),
{
    let lower = to_lowercase(name);
    passes_response_header(&lower)
}

/// The address that a request is sent to: the target's base followed by the
/// request's own path and query.
pub fn target_url(base: &String, path_and_query: &String) -> (url: String)
    ensures
        url@ == target_address(base@, path_and_query@),
{
    let mut url = base.clone();
    url.append(path_and_query.as_str());
    url
}

/// The name and value of the header that carries the stored key `key`.
pub fn credential_header(name: &String, key: &String) -> (header: (String, String))
    ensures
        (header.0@, header.1@) == key_header(name@, key@),
{
    let authorization = String::from_str("Authorization");
    if *name == authorization {
        let mut value = String::from_str("Bearer ");
        value.append(key.as_str());
        (name.clone(), value)
    } else {
        (name.clone(), key.clone())
    }
}

/// Whether a request gets the content type of JSON.
pub fn adds_json_content_type(is_post: bool, body_is_empty: bool, has_content_type: bool) -> (adds:
    bool)
    ensures
        adds == json_content_type_added(is_post, body_is_empty, has_content_type),
{
    is_post && !body_is_empty && !has_content_type
}

/// The user agent of a request that names none.
pub fn default_user_agent() -> (agent: String)
    ensures
        agent@ == "reticle-proxy/1.0"@,
{
    String::from_str("reticle-proxy/1.0")
}

/// The content type given to a request body that names none.
pub fn default_content_type() -> (content_type: String)
    ensures
        content_type@ == "application/json"@,
{
    String::from_str("application/json")
}

/// The name and value of the header that tells the caller how long the
/// target took to answer, in milliseconds.
pub fn latency_header(milliseconds: u64) -> (header: (String, String))
    ensures
        header.0@ == "X-Request-Latency-Ms"@,
        header.1@ == decimal(milliseconds as nat),
{
    (String::from_str("X-Request-Latency-Ms"), decimal_string(milliseconds as u128))
}

} // verus!
