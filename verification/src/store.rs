//! The boundary to the cookie-jar and HTTP-client crates.
//!
//! Everything the library needs from `cookie_store`, `reqwest_cookie_store`
//! and `reqwest` passes through the declarations and wrappers in this module;
//! their contracts are what the rest of the crate builds on.

use vstd::prelude::*;
use std::sync::Arc;
use cookie_store::CookieStore;
use reqwest_cookie_store::CookieStoreMutex;
use reqwest::Client;

verus! {

#[verifier::external_type_specification]
#[verifier::external_body]
pub struct ExCookieStore(CookieStore);

#[verifier::external_type_specification]
#[verifier::external_body]
pub struct ExCookieStoreMutex(CookieStoreMutex);

#[verifier::external_type_specification]
#[verifier::external_body]
pub struct ExClient(Client);

/// Whether the cookie codec accepts these bytes: exactly the inputs on which
/// `cookie_store::serde::json::load` returns a store rather than an error.
/// Acceptance is a function of the bytes alone; which cookies the loaded
/// store then holds is not modelled here.
pub uninterp spec fn is_cookie_json(bytes: Seq<u8>) -> bool;

/// Relies on `reqwest_cookie_store::CookieStoreMutex::new`, which wraps a
/// store in a mutual-exclusion lock.
pub assume_specification[ CookieStoreMutex::new ](cookie_store: CookieStore) -> CookieStoreMutex;

/// Relies on `cookie_store::CookieStore::new`: a store holding no cookies.
#[verifier::external_body]
pub(crate) fn empty_store() -> (r: CookieStore) {
    CookieStore::new()
}

/// Relies on `std::sync::Arc::clone`: the clone is a handle to the very same
/// allocation, so as a value it equals the original.
#[verifier::external_body]
pub(crate) fn clone_jar_handle(jar: &Arc<CookieStoreMutex>) -> (r: Arc<CookieStoreMutex>)
    ensures
        r == *jar,
{
    Arc::clone(jar)
}

/// Relies on `cookie_store::serde::json::load`: parses the bytes as a JSON
/// array of cookie records and builds a store from them; it succeeds or
/// fails depending on the bytes alone. The error is returned as its message.
#[verifier::external_body]
pub(crate) fn load_store(bytes: &Vec<u8>) -> (r: Result<CookieStore, String>)
    ensures
        r is Ok <==> is_cookie_json(bytes@),
{
    cookie_store::serde::json::load(bytes.as_slice()).map_err(|e| e.to_string())
}

/// Relies on `reqwest_cookie_store::CookieStoreMutex::lock` and
/// `cookie_store::serde::json::save`: serializes the store's unexpired
/// persistent cookies as JSON, a format that `cookie_store::serde::json::load`
/// reads back, so a successful snapshot is made of accepted bytes. A poisoned
/// lock or a serializer failure is returned as its message.
#[verifier::external_body]
pub(crate) fn snapshot_store(jar: &Arc<CookieStoreMutex>) -> (r: Result<Vec<u8>, String>)
    ensures
        r matches Ok(b) ==> is_cookie_json(b@),
{
    let guard = match jar.lock() {
        Ok(g) => g,
        Err(e) => return Err(e.to_string()),
    };
    let mut buffer: Vec<u8> = Vec::new();
    match cookie_store::serde::json::save(&guard, &mut buffer) {
        Ok(()) => Ok(buffer),
        Err(e) => Err(e.to_string()),
    }
}

/// Relies on `reqwest::Client::builder` with `cookie_provider`,
/// `default_headers` and `build`: the client consults and updates the given
/// shared jar on every request and response, and carries the given
/// `User-Agent` value on every request unless a caller overrides it. A
/// rejected header value or a failed construction is returned as its message.
#[verifier::external_body]
pub(crate) fn build_http_client(jar: &Arc<CookieStoreMutex>, user_agent: &str) -> (r: Result<
    Client,
    String,
>) {
    let value = match reqwest::header::HeaderValue::from_str(user_agent) {
        Ok(v) => v,
        Err(e) => return Err(e.to_string()),
    };
    let mut headers = reqwest::header::HeaderMap::new();
    headers.insert(reqwest::header::USER_AGENT, value);
    reqwest::Client::builder()
        .cookie_provider(Arc::clone(jar))
        .default_headers(headers)
        .build()
        .map_err(|e| e.to_string())
}

} // verus!
