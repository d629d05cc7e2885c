//! The per-user authorization flows: the redirect URL, the
//! authorization-code exchange, and the user-profile lookup that relies
//! on a previously cached user token.
use vstd::prelude::*;

use crate::OfficialAccount;
use crate::SpecConfig;
use crate::errors::{WechatError, remote_error_shape};
use crate::flow::{SpecStep, Step};
use crate::json::{
    json_get_i64, json_get_string, json_get_string_array, json_get_u64, json_i64_field,
    json_string_array_field, json_string_field, json_u64_field,
};
use crate::urlquery::{url_encode, urlencoded_of};
use vstd::string::StringExecFns;

verus! {

/// The time-to-live a user token is cached with after a code exchange.
pub const USER_TOKEN_TTL: u64 = 86400;

/// A user credential as the authorization-code endpoint returns it.
#[derive(Debug, Clone, PartialEq, Eq)]
pub struct AccessTokenResponse {
    pub access_token: String,
    pub expires_in: u64,
    pub refresh_token: String,
    pub open_id: String,
    pub scope: String,
    pub union_id: Option<String>,
}

/// The mathematical image of an [`AccessTokenResponse`].
pub struct SpecAccessTokenResponse {
    pub access_token: Seq<char>,
    pub expires_in: u64,
    pub refresh_token: Seq<char>,
    pub open_id: Seq<char>,
    pub scope: Seq<char>,
    pub union_id: Option<Seq<char>>,
}

impl View for AccessTokenResponse {
    type V = SpecAccessTokenResponse;

    open spec fn view(&self) -> SpecAccessTokenResponse {
        SpecAccessTokenResponse {
            access_token: self.access_token@,
            expires_in: self.expires_in,
            refresh_token: self.refresh_token@,
            open_id: self.open_id@,
            scope: self.scope@,
            union_id: self.union_id.deep_view(),
        }
    }
}

/// The platform's generic error envelope.
#[derive(Debug, Clone, PartialEq, Eq)]
pub struct BasicResponse {
    pub errcode: i64,
    pub errmsg: String,
}

/// The mathematical image of a [`BasicResponse`].
pub struct SpecBasicResponse {
    pub errcode: i64,
    pub errmsg: Seq<char>,
}

impl View for BasicResponse {
    type V = SpecBasicResponse;

    open spec fn view(&self) -> SpecBasicResponse {
        SpecBasicResponse { errcode: self.errcode, errmsg: self.errmsg@ }
    }
}

/// A user profile as the profile endpoint returns it.
#[derive(Debug, Clone, PartialEq, Eq)]
pub struct UserInfoResponse {
    pub open_id: String,
    pub nickname: Option<String>,
    pub sex: Option<i64>,
    pub province: Option<String>,
    pub city: Option<String>,
    pub country: Option<String>,
    pub profile_url: Option<String>,
    pub privilege: Option<Vec<String>>,
    pub union_id: Option<String>,
}

/// The mathematical image of a [`UserInfoResponse`].
pub struct SpecUserInfoResponse {
    pub open_id: Seq<char>,
    pub nickname: Option<Seq<char>>,
    pub sex: Option<i64>,
    pub province: Option<Seq<char>>,
    pub city: Option<Seq<char>>,
    pub country: Option<Seq<char>>,
    pub profile_url: Option<Seq<char>>,
    pub privilege: Option<Seq<Seq<char>>>,
    pub union_id: Option<Seq<char>>,
}

impl View for UserInfoResponse {
    type V = SpecUserInfoResponse;

    open spec fn view(&self) -> SpecUserInfoResponse {
        SpecUserInfoResponse {
            open_id: self.open_id@,
            nickname: self.nickname.deep_view(),
            sex: self.sex,
            province: self.province.deep_view(),
            city: self.city.deep_view(),
            country: self.country.deep_view(),
            profile_url: self.profile_url.deep_view(),
            privilege: self.privilege.deep_view(),
            union_id: self.union_id.deep_view(),
        }
    }
}

impl OfficialAccount {
    /// The browser redirect URL that starts the authorization-code flow.
    pub fn get_redirect_url(&self, redirect_uri: String, scope: String, state: Option<String>)
        -> (r: String)
        ensures
            r@ == spec_redirect_url(
                self.config@,
                redirect_uri@,
                scope@,
                state.deep_view(),
            ),
    {
        let mut url = String::from_str(
            "https://open.weixin.qq.com/connect/oauth2/authorize?appid=",
        );
        let ea = url_encode(self.config.appid.as_str());
        url.append(ea.as_str());
        url.append("&redirect_uri=");
        let er = url_encode(redirect_uri.as_str());
        url.append(er.as_str());
        url.append("&response_type=code&scope=");
        let es = url_encode(scope.as_str());
        url.append(es.as_str());
        url.append("&state=");
        let st = match &state {
            Some(s) => url_encode(s.as_str()),
            None => url_encode(""),
        };
        url.append(st.as_str());
        url.append("#wechat_redirect");
        proof {
            reveal_strlit("");
            assert(""@ =~= Seq::<char>::empty());
        }
        url
    }

    /// The first step of the code exchange: one remote call.
    pub fn oauth2_token_request(&self, code: &str) -> (s: Step<AccessTokenResponse>)
        ensures
            s@ == (SpecStep::HttpGet::<SpecAccessTokenResponse> {
                url: spec_oauth2_url(self.config@, code@),
            }),
    {
        let mut url = String::from_str(
            "https://api.weixin.qq.com/sns/oauth2/access_token?appid=",
        );
        url.append(self.config.appid.as_str());
        url.append("&secret=");
        url.append(self.config.app_secret.as_str());
        url.append("&code=");
        url.append(code);
        url.append("&grant_type=authorization_code");
        Step::HttpGet { url }
    }

    /// The second step: a parsed credential is persisted under the
    /// user's identifier - the stored value is the bare access token,
    /// the shape the profile lookup reads back; any failure ends the
    /// flow with that error.
    pub fn oauth2_on_response(&self, parsed: Result<AccessTokenResponse, WechatError>) -> (s:
        Step<AccessTokenResponse>)
        ensures
            s@ == match parsed {
                Ok(at) => SpecStep::CacheSetEx::<SpecAccessTokenResponse> {
                    key: at.open_id@,
                    ttl_seconds: USER_TOKEN_TTL,
                    value: at.access_token@,
                },
                Err(e) => SpecStep::Done { result: Err(e) },
            },
    {
        match parsed {
            Ok(at) => Step::CacheSetEx {
                key: at.open_id.clone(),
                ttl_seconds: USER_TOKEN_TTL,
                value: at.access_token.clone(),
            },
            Err(e) => Step::Done { result: Err(e) },
        }
    }

    /// The last step of the code exchange after the write: hand the
    /// credential out.
    pub fn oauth2_after_store(&self, at: AccessTokenResponse) -> (s: Step<AccessTokenResponse>)
        ensures
            s@ == (SpecStep::Done::<SpecAccessTokenResponse> { result: Ok(at@) }),
    {
        Step::Done { result: Ok(at) }
    }

    /// The first step of a profile lookup: read the user's cached token.
    pub fn userinfo_request(&self, openid: &str) -> (s: Step<UserInfoResponse>)
        ensures
            s@ == (SpecStep::CacheGet::<<UserInfoResponse as View>::V> { key: openid@ }),
    {
        Step::CacheGet { key: openid.to_owned() }
    }

    /// The second step: a cache miss is a distinct, explicit error - it
    /// marks a caller sequencing bug, and no remote call is attempted;
    /// a hit leads to the one profile call.
    pub fn userinfo_on_cache(&self, openid: &str, cached: Option<String>) -> (s: Step<
        UserInfoResponse,
    >)
        ensures
            cached is None ==> s@ == (SpecStep::Done::<<UserInfoResponse as View>::V> {
                result: Err(WechatError::AccessTokenNotFound),
            }),
            cached matches Some(tok) ==> s@ == (SpecStep::HttpGet::<
                <UserInfoResponse as View>::V,
            > { url: spec_userinfo_url(tok@, openid@) }),
    {
        match cached {
            None => Step::Done { result: Err(WechatError::AccessTokenNotFound) },
            Some(tok) => {
                let mut url = String::from_str(
                    "https://api.weixin.qq.com/sns/userinfo?access_token=",
                );
                url.append(tok.as_str());
                url.append("&openid=");
                url.append(openid);
                Step::HttpGet { url }
            },
        }
    }

    /// The last step of a profile lookup.
    pub fn userinfo_on_response(&self, parsed: Result<UserInfoResponse, WechatError>) -> (s:
        Step<UserInfoResponse>)
        ensures
            s@ == (SpecStep::Done::<<UserInfoResponse as View>::V> {
                result: match parsed {
                    Ok(u) => Ok(u@),
                    Err(e) => Err(e),
                },
            }),
    {
        Step::Done { result: parsed }
    }
}

/// The redirect URL of the authorization page, with every parameter
/// value percent-encoded.
pub open spec fn spec_redirect_url(
    c: SpecConfig,
    redirect_uri: Seq<char>,
    scope: Seq<char>,
    state: Option<Seq<char>>,
) -> Seq<char> {
    "https://open.weixin.qq.com/connect/oauth2/authorize?appid="@ + urlencoded_of(c.appid)
        + "&redirect_uri="@ + urlencoded_of(redirect_uri) + "&response_type=code&scope="@
        + urlencoded_of(scope) + "&state="@ + urlencoded_of(
        match state {
            Some(s) => s,
            None => Seq::<char>::empty(),
        },
    ) + "#wechat_redirect"@
}

/// The authorization-code exchange URL; its parameter values are
/// interpolated as they stand.
pub open spec fn spec_oauth2_url(c: SpecConfig, code: Seq<char>) -> Seq<char> {
    "https://api.weixin.qq.com/sns/oauth2/access_token?appid="@ + c.appid + "&secret="@
        + c.app_secret + "&code="@ + code + "&grant_type=authorization_code"@
}

/// The profile endpoint URL for a cached token and a user identifier.
pub open spec fn spec_userinfo_url(access_token: Seq<char>, openid: Seq<char>) -> Seq<char> {
    "https://api.weixin.qq.com/sns/userinfo?access_token="@ + access_token + "&openid="@ + openid
}

/// The successful shape of an assembled code-exchange response: the
/// required fields present and carried unchanged, else a decode error.
pub open spec fn access_token_success_shape(
    r: Result<AccessTokenResponse, WechatError>,
    access_token: Option<Seq<char>>,
    expires_in: Option<u64>,
    refresh_token: Option<Seq<char>>,
    open_id: Option<Seq<char>>,
    scope: Option<Seq<char>>,
    union_id: Option<Seq<char>>,
) -> bool {
    match (access_token, expires_in, refresh_token, open_id, scope) {
        (Some(t), Some(x), Some(rt), Some(o), Some(sc)) => r matches Ok(at) && at.access_token@
            == t && at.expires_in == x && at.refresh_token@ == rt && at.open_id@ == o
            && at.scope@ == sc && at.union_id.deep_view() == union_id,
        _ => r matches Err(e) && e is DecodeError,
    }
}

/// Decides what a code-exchange response means, given its extracted
/// fields: the error envelope wins with a non-zero code; otherwise the
/// success shape must be complete.
pub fn assemble_access_token_response(
    access_token: Option<String>,
    expires_in: Option<u64>,
    refresh_token: Option<String>,
    open_id: Option<String>,
    scope: Option<String>,
    union_id: Option<String>,
    errcode: Option<i64>,
    errmsg: Option<String>,
) -> (r: Result<AccessTokenResponse, WechatError>)
    ensures
        match errcode {
            Some(c) => if c != 0 {
                remote_error_shape(r, c, errmsg.deep_view())
            } else {
                access_token_success_shape(
                    r,
                    access_token.deep_view(),
                    expires_in,
                    refresh_token.deep_view(),
                    open_id.deep_view(),
                    scope.deep_view(),
                    union_id.deep_view(),
                )
            },
            None => access_token_success_shape(
                r,
                access_token.deep_view(),
                expires_in,
                refresh_token.deep_view(),
                open_id.deep_view(),
                scope.deep_view(),
                union_id.deep_view(),
            ),
        },
{
    let failed = match errcode {
        Some(c) => c != 0,
        None => false,
    };
    if failed {
        let c = match errcode {
            Some(c) => c,
            None => 0,
        };
        let message = match errmsg {
            Some(m) => m,
            None => String::new(),
        };
        return Err(WechatError::RemoteApiError { code: c, message });
    }
    match (access_token, expires_in, refresh_token, open_id, scope) {
        (Some(t), Some(x), Some(rt), Some(o), Some(sc)) => Ok(
            AccessTokenResponse {
                access_token: t,
                expires_in: x,
                refresh_token: rt,
                open_id: o,
                scope: sc,
                union_id,
            },
        ),
        _ => Err(
            WechatError::DecodeError { detail: "code exchange response missing fields".to_owned() },
        ),
    }
}

/// Parses the code-exchange response body under the shared response
/// policy: the error envelope wins with a non-zero code, else the
/// success shape must be complete; every field is a named function of
/// the body.
pub fn parse_access_token_body(body: &str) -> (r: Result<AccessTokenResponse, WechatError>)
    ensures
        match json_i64_field(body@, "errcode"@) {
            Some(c) => if c != 0 {
                remote_error_shape(r, c, json_string_field(body@, "errmsg"@))
            } else {
                access_token_success_shape(
                    r,
                    json_string_field(body@, "access_token"@),
                    json_u64_field(body@, "expires_in"@),
                    json_string_field(body@, "refresh_token"@),
                    json_string_field(body@, "openid"@),
                    json_string_field(body@, "scope"@),
                    json_string_field(body@, "unionid"@),
                )
            },
            None => access_token_success_shape(
                r,
                json_string_field(body@, "access_token"@),
                json_u64_field(body@, "expires_in"@),
                json_string_field(body@, "refresh_token"@),
                json_string_field(body@, "openid"@),
                json_string_field(body@, "scope"@),
                json_string_field(body@, "unionid"@),
            ),
        },
{
    assemble_access_token_response(
        json_get_string(body, "access_token"),
        json_get_u64(body, "expires_in"),
        json_get_string(body, "refresh_token"),
        json_get_string(body, "openid"),
        json_get_string(body, "scope"),
        json_get_string(body, "unionid"),
        json_get_i64(body, "errcode"),
        json_get_string(body, "errmsg"),
    )
}

/// The successful shape of an assembled profile response: the user
/// identifier is required, everything else optional and carried
/// unchanged.
pub open spec fn user_info_success_shape(
    r: Result<UserInfoResponse, WechatError>,
    open_id: Option<Seq<char>>,
    nickname: Option<Seq<char>>,
    sex: Option<i64>,
    province: Option<Seq<char>>,
    city: Option<Seq<char>>,
    country: Option<Seq<char>>,
    profile_url: Option<Seq<char>>,
    privilege: Option<Seq<Seq<char>>>,
    union_id: Option<Seq<char>>,
) -> bool {
    match open_id {
        Some(o) => r matches Ok(u) && u.open_id@ == o && u.nickname.deep_view() == nickname
            && u.sex == sex && u.province.deep_view() == province && u.city.deep_view() == city
            && u.country.deep_view() == country && u.profile_url.deep_view() == profile_url
            && u.privilege.deep_view() == privilege && u.union_id.deep_view() == union_id,
        None => r matches Err(e) && e is DecodeError,
    }
}

/// Decides what a profile response means, given its extracted fields.
pub fn assemble_user_info_response(
    open_id: Option<String>,
    nickname: Option<String>,
    sex: Option<i64>,
    province: Option<String>,
    city: Option<String>,
    country: Option<String>,
    profile_url: Option<String>,
    privilege: Option<Vec<String>>,
    union_id: Option<String>,
    errcode: Option<i64>,
    errmsg: Option<String>,
) -> (r: Result<UserInfoResponse, WechatError>)
    ensures
        match errcode {
            Some(c) => if c != 0 {
                remote_error_shape(r, c, errmsg.deep_view())
            } else {
                user_info_success_shape(
                    r,
                    open_id.deep_view(),
                    nickname.deep_view(),
                    sex,
                    province.deep_view(),
                    city.deep_view(),
                    country.deep_view(),
                    profile_url.deep_view(),
                    privilege.deep_view(),
                    union_id.deep_view(),
                )
            },
            None => user_info_success_shape(
                r,
                open_id.deep_view(),
                nickname.deep_view(),
                sex,
                province.deep_view(),
                city.deep_view(),
                country.deep_view(),
                profile_url.deep_view(),
                privilege.deep_view(),
                union_id.deep_view(),
            ),
        },
{
    let failed = match errcode {
        Some(c) => c != 0,
        None => false,
    };
    if failed {
        let c = match errcode {
            Some(c) => c,
            None => 0,
        };
        let message = match errmsg {
            Some(m) => m,
            None => String::new(),
        };
        return Err(WechatError::RemoteApiError { code: c, message });
    }
    match open_id {
        Some(o) => Ok(
            UserInfoResponse {
                open_id: o,
                nickname,
                sex,
                province,
                city,
                country,
                profile_url,
                privilege,
                union_id,
            },
        ),
        _ => Err(
            WechatError::DecodeError { detail: "profile response missing openid".to_owned() },
        ),
    }
}

/// Parses the profile response body: a non-success HTTP status is
/// surfaced as a remote error carrying the status code; otherwise the
/// shared response policy applies, every field a named function of the
/// body.
pub fn parse_user_info_body(status: u16, body: &str) -> (r: Result<UserInfoResponse, WechatError>)
    ensures
        !(200 <= status < 300) ==> (r matches Err(e) && e matches WechatError::RemoteApiError {
            code,
            message,
        } && code == status as i64 && message@ == "http error"@),
        (200 <= status < 300) ==> match json_i64_field(body@, "errcode"@) {
            Some(c) => if c != 0 {
                remote_error_shape(r, c, json_string_field(body@, "errmsg"@))
            } else {
                user_info_success_shape(
                    r,
                    json_string_field(body@, "openid"@),
                    json_string_field(body@, "nickname"@),
                    json_i64_field(body@, "sex"@),
                    json_string_field(body@, "province"@),
                    json_string_field(body@, "city"@),
                    json_string_field(body@, "country"@),
                    json_string_field(body@, "headimgurl"@),
                    json_string_array_field(body@, "privilege"@),
                    json_string_field(body@, "unionid"@),
                )
            },
            None => user_info_success_shape(
                r,
                json_string_field(body@, "openid"@),
                json_string_field(body@, "nickname"@),
                json_i64_field(body@, "sex"@),
                json_string_field(body@, "province"@),
                json_string_field(body@, "city"@),
                json_string_field(body@, "country"@),
                json_string_field(body@, "headimgurl"@),
                json_string_array_field(body@, "privilege"@),
                json_string_field(body@, "unionid"@),
            ),
        },
{
    if status < 200 || status >= 300 {
        return Err(
            WechatError::RemoteApiError { code: status as i64, message: "http error".to_owned() },
        );
    }
    assemble_user_info_response(
        json_get_string(body, "openid"),
        json_get_string(body, "nickname"),
        json_get_i64(body, "sex"),
        json_get_string(body, "province"),
        json_get_string(body, "city"),
        json_get_string(body, "country"),
        json_get_string(body, "headimgurl"),
        json_get_string_array(body, "privilege"),
        json_get_string(body, "unionid"),
        json_get_i64(body, "errcode"),
        json_get_string(body, "errmsg"),
    )
}

} // verus!
