//! The I/O protocol of every remote flow: a verified step function
//! decides, an unverified driver performs.  Each step names the one cache
//! or network action to take next, or ends the flow with its result.
use vstd::prelude::*;

use crate::errors::WechatError;

verus! {

/// The next action of a flow, or its result.
#[derive(Debug, PartialEq, Eq)]
pub enum Step<T> {
    /// Read this key from the credential store.
    CacheGet { key: String },
    /// Write this value under this key with this time-to-live.
    CacheSetEx { key: String, ttl_seconds: u64, value: String },
    /// Perform an HTTP GET of this URL.
    HttpGet { url: String },
    /// POST to this URL with no body.
    HttpPost { url: String },
    /// POST this JSON body to this URL.
    HttpPostJson { url: String, body: String },
    /// The flow is over, with this result.
    Done { result: Result<T, WechatError> },
}

/// The mathematical image of a [`Step`].
pub enum SpecStep<T> {
    CacheGet { key: Seq<char> },
    CacheSetEx { key: Seq<char>, ttl_seconds: u64, value: Seq<char> },
    HttpGet { url: Seq<char> },
    HttpPost { url: Seq<char> },
    HttpPostJson { url: Seq<char>, body: Seq<char> },
    Done { result: Result<T, WechatError> },
}

impl<T: View> View for Step<T> {
    type V = SpecStep<T::V>;

    open spec fn view(&self) -> SpecStep<T::V> {
        match self {
            Step::CacheGet { key } => SpecStep::CacheGet { key: key@ },
            Step::CacheSetEx { key, ttl_seconds, value } => SpecStep::CacheSetEx {
                key: key@,
                ttl_seconds: *ttl_seconds,
                value: value@,
            },
            Step::HttpGet { url } => SpecStep::HttpGet { url: url@ },
            Step::HttpPost { url } => SpecStep::HttpPost { url: url@ },
            Step::HttpPostJson { url, body } => SpecStep::HttpPostJson {
                url: url@,
                body: body@,
            },
            Step::Done { result } => SpecStep::Done {
                result: match result {
                    Ok(t) => Ok(t.view()),
                    Err(e) => Err(*e),
                },
            },
        }
    }
}

/// A model of the shared credential store with per-entry expiry: each
/// key maps to a value and the time at which it lapses.
pub struct SpecStore {
    pub entries: Map<Seq<char>, (Seq<char>, int)>,
}

/// What a read of `key` at time `now` returns: the stored value while it
/// is live, nothing after its expiry or when it was never written.
pub open spec fn store_get(st: SpecStore, key: Seq<char>, now: int) -> Option<Seq<char>> {
    if st.entries.dom().contains(key) && now < st.entries[key].1 {
        Some(st.entries[key].0)
    } else {
        None
    }
}

/// The store after writing `value` under `key` at time `now` with the
/// given time-to-live; a write is a full overwrite.
pub open spec fn store_setex(
    st: SpecStore,
    key: Seq<char>,
    value: Seq<char>,
    ttl_seconds: u64,
    now: int,
) -> SpecStore {
    SpecStore { entries: st.entries.insert(key, (value, now + ttl_seconds)) }
}

} // verus!
