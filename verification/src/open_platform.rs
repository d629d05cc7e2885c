//! The open-platform login variant: the QR-connect redirect URL and the
//! per-user credential flows, sharing the credential store with the
//! official-account side when one is configured.
use vstd::prelude::*;

use crate::errors::WechatError;
use crate::flow::{SpecStep, Step};
use crate::model::{AccessTokenResponse, AuthResponse, SpecAccessTokenResponse, UserInfoResponse};
use crate::urlquery::{url_encode, urlencoded_of};
use vstd::string::StringExecFns;

verus! {

/// The time-to-live a user access token is cached with, in seconds.
pub const SNS_TOKEN_TTL: u64 = 7200;

/// The time-to-live a refresh token is cached with, in seconds.
pub const REFRESH_TOKEN_TTL: u64 = 604800;

/// The verified core of an open-platform client.  Whether a credential
/// store was configured decides which flows are available; the driver
/// owns the store connection itself.
pub struct OpenPlatform {
    pub appid: String,
    pub app_secret: String,
    pub store_configured: bool,
}

impl OpenPlatform {
    /// Creates a new open-platform core; a store configuration makes
    /// the cache-backed flows available.
    pub fn new(appid: String, app_secret: String, cfg: Option<String>) -> (r: Self)
        ensures
            r.appid@ == appid@,
            r.app_secret@ == app_secret@,
            r.store_configured == (cfg is Some),
    {
        let store_configured = cfg.is_some();
        OpenPlatform { appid, app_secret, store_configured }
    }

    /// The QR-connect redirect URL that starts the login flow.
    pub fn get_redirect_url(&self, redirect_uri: String, state: Option<String>) -> (r: String)
        ensures
            r@ == spec_qrconnect_url(self.appid@, redirect_uri@, state.deep_view()),
    {
        let mut url = String::from_str("https://open.weixin.qq.com/connect/qrconnect?appid=");
        let ea = url_encode(self.appid.as_str());
        url.append(ea.as_str());
        url.append("&redirect_uri=");
        let er = url_encode(redirect_uri.as_str());
        url.append(er.as_str());
        url.append("&response_type=code&scope=snsapi_login&state=");
        let st = match &state {
            Some(s) => url_encode(s.as_str()),
            None => url_encode(""),
        };
        url.append(st.as_str());
        url.append("&lang=");
        proof {
            reveal_strlit("");
            assert(""@ =~= Seq::<char>::empty());
        }
        url
    }

    /// The first step of the code exchange: one remote call.
    pub fn access_token_request(&self, code: &str) -> (s: Step<AccessTokenResponse>)
        ensures
            s@ == (SpecStep::HttpGet::<SpecAccessTokenResponse> {
                url: spec_sns_token_url(self.appid@, self.app_secret@, code@),
            }),
    {
        let mut url = String::from_str(
            "https://api.weixin.qq.com/sns/oauth2/access_token?appid=",
        );
        url.append(self.appid.as_str());
        url.append("&secret=");
        url.append(self.app_secret.as_str());
        url.append("&code=");
        url.append(code);
        url.append("&grant_type=authorization_code");
        Step::HttpGet { url }
    }

    /// The second step of the code exchange: with a store configured, a
    /// parsed credential is persisted under the user's identifier
    /// first; without one the flow ends at once.
    pub fn access_token_on_response(&self, parsed: Result<AccessTokenResponse, WechatError>)
        -> (s: Step<AccessTokenResponse>)
        ensures
            s@ == match parsed {
                Ok(at) => if self.store_configured {
                    SpecStep::CacheSetEx::<SpecAccessTokenResponse> {
                        key: at.openid@,
                        ttl_seconds: SNS_TOKEN_TTL,
                        value: at.access_token@,
                    }
                } else {
                    SpecStep::Done { result: Ok(at@) }
                },
                Err(e) => SpecStep::Done { result: Err(e) },
            },
    {
        match parsed {
            Ok(at) => if self.store_configured {
                Step::CacheSetEx {
                    key: at.openid.clone(),
                    ttl_seconds: SNS_TOKEN_TTL,
                    value: at.access_token.clone(),
                }
            } else {
                Step::Done { result: Ok(at) }
            },
            Err(e) => Step::Done { result: Err(e) },
        }
    }

    /// The third step after the access token was stored: the refresh
    /// token is persisted under the application identifier.
    pub fn access_token_store_refresh(&self, at: &AccessTokenResponse) -> (s: Step<
        AccessTokenResponse,
    >)
        ensures
            s@ == (SpecStep::CacheSetEx::<SpecAccessTokenResponse> {
                key: self.appid@,
                ttl_seconds: REFRESH_TOKEN_TTL,
                value: at.refresh_token@,
            }),
    {
        Step::CacheSetEx {
            key: self.appid.clone(),
            ttl_seconds: REFRESH_TOKEN_TTL,
            value: at.refresh_token.clone(),
        }
    }

    /// The last step of the code exchange: hand the credential out.
    pub fn access_token_finish(&self, at: AccessTokenResponse) -> (s: Step<AccessTokenResponse>)
        ensures
            s@ == (SpecStep::Done::<SpecAccessTokenResponse> { result: Ok(at@) }),
    {
        Step::Done { result: Ok(at) }
    }

    /// The first step of a token refresh: without a store the flow
    /// fails at once, else the cached refresh token is read.
    pub fn refresh_request(&self, appid: &str) -> (s: Step<AccessTokenResponse>)
        ensures
            !self.store_configured ==> s@ == (SpecStep::Done::<SpecAccessTokenResponse> {
                result: Err(WechatError::CacheUnavailable),
            }),
            self.store_configured ==> s@ == (SpecStep::CacheGet::<SpecAccessTokenResponse> {
                key: appid@,
            }),
    {
        if !self.store_configured {
            return Step::Done { result: Err(WechatError::CacheUnavailable) };
        }
        Step::CacheGet { key: appid.to_owned() }
    }

    /// The second step of a token refresh: a missing refresh token is a
    /// distinct, explicit error and no remote call is attempted; a hit
    /// leads to the one refresh call.
    pub fn refresh_on_cache(&self, appid: &str, cached: Option<String>) -> (s: Step<
        AccessTokenResponse,
    >)
        ensures
            cached is None ==> s@ == (SpecStep::Done::<SpecAccessTokenResponse> {
                result: Err(WechatError::AccessTokenNotFound),
            }),
            cached matches Some(rt) ==> s@ == (SpecStep::HttpGet::<SpecAccessTokenResponse> {
                url: spec_refresh_url(appid@, rt@),
            }),
    {
        match cached {
            None => Step::Done { result: Err(WechatError::AccessTokenNotFound) },
            Some(rt) => {
                let mut url = String::from_str(
                    "https://api.weixin.qq.com/sns/oauth2/refresh_token?appid=",
                );
                url.append(appid);
                url.append("&grant_type=refresh_token&refresh_token=");
                url.append(rt.as_str());
                Step::HttpGet { url }
            },
        }
    }

    /// The last step of a token refresh: the outcome is handed out and
    /// deliberately not persisted - refreshed credentials are treated
    /// as ephemeral, unlike those of the code exchange.
    pub fn refresh_on_response(&self, parsed: Result<AccessTokenResponse, WechatError>) -> (s:
        Step<AccessTokenResponse>)
        ensures
            s@ == (SpecStep::Done::<SpecAccessTokenResponse> {
                result: match parsed {
                    Ok(at) => Ok(at@),
                    Err(e) => Err(e),
                },
            }),
    {
        Step::Done { result: parsed }
    }

    /// The first step of a validity check: without a store the flow
    /// fails at once, else the user's cached access token is read.
    pub fn check_request(&self, openid: &str) -> (s: Step<AuthResponse>)
        ensures
            !self.store_configured ==> s@ == (SpecStep::Done::<<AuthResponse as View>::V> {
                result: Err(WechatError::CacheUnavailable),
            }),
            self.store_configured ==> s@ == (SpecStep::CacheGet::<<AuthResponse as View>::V> {
                key: openid@,
            }),
    {
        if !self.store_configured {
            return Step::Done { result: Err(WechatError::CacheUnavailable) };
        }
        Step::CacheGet { key: openid.to_owned() }
    }

    /// The second step of a validity check: a cache miss is a distinct,
    /// explicit error; a hit leads to the one check call, always a
    /// network pass-through.
    pub fn check_on_cache(&self, openid: &str, cached: Option<String>) -> (s: Step<AuthResponse>)
        ensures
            cached is None ==> s@ == (SpecStep::Done::<<AuthResponse as View>::V> {
                result: Err(WechatError::AccessTokenNotFound),
            }),
            cached matches Some(tok) ==> s@ == (SpecStep::HttpGet::<<AuthResponse as View>::V> {
                url: spec_auth_url(tok@, openid@),
            }),
    {
        match cached {
            None => Step::Done { result: Err(WechatError::AccessTokenNotFound) },
            Some(tok) => {
                let mut url = String::from_str("https://api.weixin.qq.com/sns/auth?access_token=");
                url.append(tok.as_str());
                url.append("&openid=");
                url.append(openid);
                Step::HttpGet { url }
            },
        }
    }

    /// The last step of a validity check: the platform's answer is
    /// carried unmodified.
    pub fn check_on_response(&self, parsed: Result<AuthResponse, WechatError>) -> (s: Step<
        AuthResponse,
    >)
        ensures
            s@ == (SpecStep::Done::<<AuthResponse as View>::V> {
                result: match parsed {
                    Ok(a) => Ok(a@),
                    Err(e) => Err(e),
                },
            }),
    {
        Step::Done { result: parsed }
    }

    /// The first step of a profile lookup: without a store the flow
    /// fails at once, else the user's cached access token is read.
    pub fn user_info_request(&self, openid: &str) -> (s: Step<UserInfoResponse>)
        ensures
            !self.store_configured ==> s@ == (SpecStep::Done::<<UserInfoResponse as View>::V> {
                result: Err(WechatError::CacheUnavailable),
            }),
            self.store_configured ==> s@ == (SpecStep::CacheGet::<<UserInfoResponse as View>::V> {
                key: openid@,
            }),
    {
        if !self.store_configured {
            return Step::Done { result: Err(WechatError::CacheUnavailable) };
        }
        Step::CacheGet { key: openid.to_owned() }
    }

    /// The second step of a profile lookup: a cache miss is a distinct,
    /// explicit error and no remote call is attempted.
    pub fn user_info_on_cache(&self, openid: &str, cached: Option<String>) -> (s: Step<
        UserInfoResponse,
    >)
        ensures
            cached is None ==> s@ == (SpecStep::Done::<<UserInfoResponse as View>::V> {
                result: Err(WechatError::AccessTokenNotFound),
            }),
            cached matches Some(tok) ==> s@ == (SpecStep::HttpGet::<
                <UserInfoResponse as View>::V,
            > { url: spec_sns_user_info_url(tok@, openid@) }),
    {
        match cached {
            None => Step::Done { result: Err(WechatError::AccessTokenNotFound) },
            Some(tok) => {
                let mut url = String::from_str(
                    "https://api.weixin.qq.com/sns/userinfo?access_token=",
                );
                url.append(tok.as_str());
                url.append("&openid=");
                url.append(openid);
                Step::HttpGet { url }
            },
        }
    }

    /// The last step of a profile lookup.
    pub fn user_info_on_response(&self, parsed: Result<UserInfoResponse, WechatError>) -> (s:
        Step<UserInfoResponse>)
        ensures
            s@ == (SpecStep::Done::<<UserInfoResponse as View>::V> {
                result: match parsed {
                    Ok(u) => Ok(u@),
                    Err(e) => Err(e),
                },
            }),
    {
        Step::Done { result: parsed }
    }
}

/// The QR-connect redirect URL, with every parameter value
/// percent-encoded.
pub open spec fn spec_qrconnect_url(
    appid: Seq<char>,
    redirect_uri: Seq<char>,
    state: Option<Seq<char>>,
) -> Seq<char> {
    "https://open.weixin.qq.com/connect/qrconnect?appid="@ + urlencoded_of(appid)
        + "&redirect_uri="@ + urlencoded_of(redirect_uri)
        + "&response_type=code&scope=snsapi_login&state="@ + urlencoded_of(
        match state {
            Some(s) => s,
            None => Seq::<char>::empty(),
        },
    ) + "&lang="@
}

/// The open-platform code exchange URL; its parameter values are
/// interpolated as they stand.
pub open spec fn spec_sns_token_url(
    appid: Seq<char>,
    app_secret: Seq<char>,
    code: Seq<char>,
) -> Seq<char> {
    "https://api.weixin.qq.com/sns/oauth2/access_token?appid="@ + appid + "&secret="@ + app_secret
        + "&code="@ + code + "&grant_type=authorization_code"@
}

/// The token refresh URL for a cached refresh token.
pub open spec fn spec_refresh_url(appid: Seq<char>, refresh_token: Seq<char>) -> Seq<char> {
    "https://api.weixin.qq.com/sns/oauth2/refresh_token?appid="@ + appid
        + "&grant_type=refresh_token&refresh_token="@ + refresh_token
}

/// The validity-check URL for a cached token and a user identifier.
pub open spec fn spec_auth_url(access_token: Seq<char>, openid: Seq<char>) -> Seq<char> {
    "https://api.weixin.qq.com/sns/auth?access_token="@ + access_token + "&openid="@ + openid
}

/// The open-platform profile URL for a cached token and a user
/// identifier.
pub open spec fn spec_sns_user_info_url(access_token: Seq<char>, openid: Seq<char>) -> Seq<char> {
    "https://api.weixin.qq.com/sns/userinfo?access_token="@ + access_token + "&openid="@ + openid
}

} // verus!
