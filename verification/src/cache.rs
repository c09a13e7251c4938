use vstd::prelude::*;
use crate::envelope::{Rejection, TextReply, STATUS_OK};

verus! {

/// The number of seconds after which a cached value expires.
pub const CACHE_TTL_SECONDS: u64 = 3600;

/// A value to put into the cache.
#[derive(Clone, Debug, PartialEq, Eq)]
pub struct CachePut {
    pub key: String,
    pub value: String,
    pub expiration_ttl: u64,
}

/// Reading the cache: the stored value goes out as plain text with 200; a
/// key without a value is answered with 404.
pub fn handle_cache_get(value: Option<String>) -> (reply: TextReply)
    ensures
        match value {
            Some(text) => reply.status == STATUS_OK && reply.text == text,
            None => reply.status == 404 && reply.text@ == Rejection::NotFound.message_spec(),
        },
{
    match value {
        Some(text) => TextReply { status: STATUS_OK, text },
        None => TextReply {
            status: Rejection::NotFound.status(),
            text: Rejection::NotFound.message(),
        },
    }
}

/// Writing the cache, first step: the body of the request is stored under
/// `key` for `CACHE_TTL_SECONDS`, whether or not the key held a value.
pub fn handle_cache_set(key: &str, body: String) -> (put: CachePut)
    ensures
        put.key@ == key@,
        put.value == body,
        put.expiration_ttl == CACHE_TTL_SECONDS,
{
    CachePut { key: String::from_str(key), value: body, expiration_ttl: CACHE_TTL_SECONDS }
}

/// Writing the cache, last step: the answer once the value is stored.
pub fn cache_set_reply() -> (reply: TextReply)
    ensures
        reply.status == STATUS_OK,
        reply.text@ == "Cached"@,
{
    TextReply { status: STATUS_OK, text: String::from_str("Cached") }
}

} // verus!
