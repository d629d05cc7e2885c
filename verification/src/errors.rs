//! The error taxonomy shared by every component: each failure path of the
//! library produces one discriminable kind.
use vstd::prelude::*;

verus! {

/// A typed failure of the webhook pipeline, the credential lifecycle or a
/// platform call.
#[derive(Debug, Clone, PartialEq, Eq)]
pub enum WechatError {
    /// An inbound webhook request whose signature does not match.
    SignatureInvalid,
    /// The platform-wide credential could not be obtained.
    TokenUnavailable,
    /// No cached user access token exists for the requested user.
    AccessTokenNotFound,
    /// The platform answered with its error envelope; the original code and
    /// message are carried unmodified.
    RemoteApiError { code: i64, message: String },
    /// A payload that could not be decoded into the expected shape.
    DecodeError { detail: String },
    /// The credential store is not available.
    CacheUnavailable,
}

impl WechatError {
    /// A short, stable name of the error kind.
    pub fn kind_name(&self) -> (r: &'static str)
        ensures
            r@ == match self {
                WechatError::SignatureInvalid => "signature invalid"@,
                WechatError::TokenUnavailable => "token unavailable"@,
                WechatError::AccessTokenNotFound => "access token not found"@,
                WechatError::RemoteApiError { .. } => "remote api error"@,
                WechatError::DecodeError { .. } => "decode error"@,
                WechatError::CacheUnavailable => "cache unavailable"@,
            },
    {
        match self {
            WechatError::SignatureInvalid => "signature invalid",
            WechatError::TokenUnavailable => "token unavailable",
            WechatError::AccessTokenNotFound => "access token not found",
            WechatError::RemoteApiError { .. } => "remote api error",
            WechatError::DecodeError { .. } => "decode error",
            WechatError::CacheUnavailable => "cache unavailable",
        }
    }
}

/// The shape every remote-error result shares: the platform's code and
/// message are carried unmodified, an absent message becomes empty.
pub open spec fn remote_error_shape<T>(
    r: Result<T, WechatError>,
    c: i64,
    errmsg: Option<Seq<char>>,
) -> bool {
    match r {
        Err(WechatError::RemoteApiError { code, message }) => code == c && message@ == (match errmsg {
            Some(m) => m,
            None => Seq::<char>::empty(),
        }),
        _ => false,
    }
}

} // verus!
