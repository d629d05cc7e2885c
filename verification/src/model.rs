//! Response shapes of the open-platform login flows, and the verified
//! policy that decides what an extracted response means.
use vstd::prelude::*;

use crate::errors::{WechatError, remote_error_shape};
use crate::json::{
    json_get_i64, json_get_string, json_get_string_array, json_get_u64, json_i64_field,
    json_string_array_field, json_string_field, json_u64_field,
};

verus! {

/// A user credential as the open-platform token endpoints return it.
#[derive(Debug, Clone, PartialEq, Eq)]
pub struct AccessTokenResponse {
    pub access_token: String,
    pub expires_in: u64,
    pub refresh_token: String,
    pub openid: String,
    pub scope: String,
    pub unionid: Option<String>,
}

/// The mathematical image of an [`AccessTokenResponse`].
pub struct SpecAccessTokenResponse {
    pub access_token: Seq<char>,
    pub expires_in: u64,
    pub refresh_token: Seq<char>,
    pub openid: Seq<char>,
    pub scope: Seq<char>,
    pub unionid: Option<Seq<char>>,
}

impl View for AccessTokenResponse {
    type V = SpecAccessTokenResponse;

    open spec fn view(&self) -> SpecAccessTokenResponse {
        SpecAccessTokenResponse {
            access_token: self.access_token@,
            expires_in: self.expires_in,
            refresh_token: self.refresh_token@,
            openid: self.openid@,
            scope: self.scope@,
            unionid: self.unionid.deep_view(),
        }
    }
}

/// The answer of the token-validity check: the platform's code and
/// message, unmodified.
#[derive(Debug, Clone, PartialEq, Eq)]
pub struct AuthResponse {
    pub errcode: i64,
    pub errmsg: String,
}

/// The mathematical image of an [`AuthResponse`].
pub struct SpecAuthResponse {
    pub errcode: i64,
    pub errmsg: Seq<char>,
}

impl View for AuthResponse {
    type V = SpecAuthResponse;

    open spec fn view(&self) -> SpecAuthResponse {
        SpecAuthResponse { errcode: self.errcode, errmsg: self.errmsg@ }
    }
}

/// A user profile as the open-platform profile endpoint returns it;
/// every field but the union identifier is required.
#[derive(Debug, Clone, PartialEq, Eq)]
pub struct UserInfoResponse {
    pub openid: String,
    pub nickname: String,
    pub sex: i64,
    pub province: String,
    pub city: String,
    pub country: String,
    pub headimgurl: String,
    pub privilege: Vec<String>,
    pub unionid: Option<String>,
}

/// The mathematical image of a [`UserInfoResponse`].
pub struct SpecUserInfoResponse {
    pub openid: Seq<char>,
    pub nickname: Seq<char>,
    pub sex: i64,
    pub province: Seq<char>,
    pub city: Seq<char>,
    pub country: Seq<char>,
    pub headimgurl: Seq<char>,
    pub privilege: Seq<Seq<char>>,
    pub unionid: Option<Seq<char>>,
}

impl View for UserInfoResponse {
    type V = SpecUserInfoResponse;

    open spec fn view(&self) -> SpecUserInfoResponse {
        SpecUserInfoResponse {
            openid: self.openid@,
            nickname: self.nickname@,
            sex: self.sex,
            province: self.province@,
            city: self.city@,
            country: self.country@,
            headimgurl: self.headimgurl@,
            privilege: self.privilege.deep_view(),
            unionid: self.unionid.deep_view(),
        }
    }
}

/// The successful shape of an assembled open-platform credential
/// response.
pub open spec fn sns_token_success_shape(
    r: Result<AccessTokenResponse, WechatError>,
    access_token: Option<Seq<char>>,
    expires_in: Option<u64>,
    refresh_token: Option<Seq<char>>,
    openid: Option<Seq<char>>,
    scope: Option<Seq<char>>,
    unionid: Option<Seq<char>>,
) -> bool {
    match (access_token, expires_in, refresh_token, openid, scope) {
        (Some(t), Some(x), Some(rt), Some(o), Some(sc)) => r matches Ok(at) && at.access_token@
            == t && at.expires_in == x && at.refresh_token@ == rt && at.openid@ == o
            && at.scope@ == sc && at.unionid.deep_view() == unionid,
        _ => r matches Err(e) && e is DecodeError,
    }
}

/// Decides what an open-platform credential response means, given its
/// extracted fields.
pub fn assemble_sns_token_response(
    access_token: Option<String>,
    expires_in: Option<u64>,
    refresh_token: Option<String>,
    openid: Option<String>,
    scope: Option<String>,
    unionid: Option<String>,
    errcode: Option<i64>,
    errmsg: Option<String>,
) -> (r: Result<AccessTokenResponse, WechatError>)
    ensures
        match errcode {
            Some(c) => if c != 0 {
                remote_error_shape(r, c, errmsg.deep_view())
            } else {
                sns_token_success_shape(
                    r,
                    access_token.deep_view(),
                    expires_in,
                    refresh_token.deep_view(),
                    openid.deep_view(),
                    scope.deep_view(),
                    unionid.deep_view(),
                )
            },
            None => sns_token_success_shape(
                r,
                access_token.deep_view(),
                expires_in,
                refresh_token.deep_view(),
                openid.deep_view(),
                scope.deep_view(),
                unionid.deep_view(),
            ),
        },
{
    let failed = match errcode {
        Some(c) => c != 0,
        None => false,
    };
    if failed {
        let c = match errcode {
            Some(c) => c,
            None => 0,
        };
        let message = match errmsg {
            Some(m) => m,
            None => String::new(),
        };
        return Err(WechatError::RemoteApiError { code: c, message });
    }
    match (access_token, expires_in, refresh_token, openid, scope) {
        (Some(t), Some(x), Some(rt), Some(o), Some(sc)) => Ok(
            AccessTokenResponse {
                access_token: t,
                expires_in: x,
                refresh_token: rt,
                openid: o,
                scope: sc,
                unionid,
            },
        ),
        _ => Err(
            WechatError::DecodeError { detail: "credential response missing fields".to_owned() },
        ),
    }
}

/// Parses an open-platform credential response body under the shared
/// response policy, every field a named function of the body.
pub fn parse_sns_token_body(body: &str) -> (r: Result<AccessTokenResponse, WechatError>)
    ensures
        match json_i64_field(body@, "errcode"@) {
            Some(c) => if c != 0 {
                remote_error_shape(r, c, json_string_field(body@, "errmsg"@))
            } else {
                sns_token_success_shape(
                    r,
                    json_string_field(body@, "access_token"@),
                    json_u64_field(body@, "expires_in"@),
                    json_string_field(body@, "refresh_token"@),
                    json_string_field(body@, "openid"@),
                    json_string_field(body@, "scope"@),
                    json_string_field(body@, "unionid"@),
                )
            },
            None => sns_token_success_shape(
                r,
                json_string_field(body@, "access_token"@),
                json_u64_field(body@, "expires_in"@),
                json_string_field(body@, "refresh_token"@),
                json_string_field(body@, "openid"@),
                json_string_field(body@, "scope"@),
                json_string_field(body@, "unionid"@),
            ),
        },
{
    assemble_sns_token_response(
        json_get_string(body, "access_token"),
        json_get_u64(body, "expires_in"),
        json_get_string(body, "refresh_token"),
        json_get_string(body, "openid"),
        json_get_string(body, "scope"),
        json_get_string(body, "unionid"),
        json_get_i64(body, "errcode"),
        json_get_string(body, "errmsg"),
    )
}

/// The shape of an assembled validity-check response: both fields
/// present and carried unchanged, else a decode error.
pub open spec fn auth_response_shape(
    r: Result<AuthResponse, WechatError>,
    errcode: Option<i64>,
    errmsg: Option<Seq<char>>,
) -> bool {
    match (errcode, errmsg) {
        (Some(c), Some(m)) => r matches Ok(a) && a.errcode == c && a.errmsg@ == m,
        _ => r matches Err(e) && e is DecodeError,
    }
}

/// Decides what a validity-check response means: both envelope fields
/// are required and carried unchanged.
pub fn assemble_auth_response(errcode: Option<i64>, errmsg: Option<String>) -> (r: Result<
    AuthResponse,
    WechatError,
>)
    ensures
        auth_response_shape(r, errcode, errmsg.deep_view()),
{
    match (errcode, errmsg) {
        (Some(c), Some(m)) => Ok(AuthResponse { errcode: c, errmsg: m }),
        _ => Err(
            WechatError::DecodeError { detail: "auth response missing fields".to_owned() },
        ),
    }
}

/// Parses a validity-check response body: both fields are named
/// functions of the body and carried unchanged.
pub fn parse_auth_body(body: &str) -> (r: Result<AuthResponse, WechatError>)
    ensures
        auth_response_shape(
            r,
            json_i64_field(body@, "errcode"@),
            json_string_field(body@, "errmsg"@),
        ),
{
    assemble_auth_response(json_get_i64(body, "errcode"), json_get_string(body, "errmsg"))
}

/// The successful shape of an assembled open-platform profile response:
/// every field but the union identifier is required.
pub open spec fn sns_user_info_success_shape(
    r: Result<UserInfoResponse, WechatError>,
    openid: Option<Seq<char>>,
    nickname: Option<Seq<char>>,
    sex: Option<i64>,
    province: Option<Seq<char>>,
    city: Option<Seq<char>>,
    country: Option<Seq<char>>,
    headimgurl: Option<Seq<char>>,
    privilege: Option<Seq<Seq<char>>>,
    unionid: Option<Seq<char>>,
) -> bool {
    match (openid, nickname, sex, province, city, country, headimgurl, privilege) {
        (Some(o), Some(n), Some(x), Some(p), Some(ci), Some(co), Some(h), Some(pr)) => r matches
            Ok(u) && u.openid@ == o && u.nickname@ == n && u.sex == x && u.province@ == p
            && u.city@ == ci && u.country@ == co && u.headimgurl@ == h
            && u.privilege.deep_view() == pr && u.unionid.deep_view() == unionid,
        _ => r matches Err(e) && e is DecodeError,
    }
}

/// Decides what an open-platform profile response means, given its
/// extracted fields.
pub fn assemble_sns_user_info_response(
    openid: Option<String>,
    nickname: Option<String>,
    sex: Option<i64>,
    province: Option<String>,
    city: Option<String>,
    country: Option<String>,
    headimgurl: Option<String>,
    privilege: Option<Vec<String>>,
    unionid: Option<String>,
    errcode: Option<i64>,
    errmsg: Option<String>,
) -> (r: Result<UserInfoResponse, WechatError>)
    ensures
        match errcode {
            Some(c) => if c != 0 {
                remote_error_shape(r, c, errmsg.deep_view())
            } else {
                sns_user_info_success_shape(
                    r,
                    openid.deep_view(),
                    nickname.deep_view(),
                    sex,
                    province.deep_view(),
                    city.deep_view(),
                    country.deep_view(),
                    headimgurl.deep_view(),
                    privilege.deep_view(),
                    unionid.deep_view(),
                )
            },
            None => sns_user_info_success_shape(
                r,
                openid.deep_view(),
                nickname.deep_view(),
                sex,
                province.deep_view(),
                city.deep_view(),
                country.deep_view(),
                headimgurl.deep_view(),
                privilege.deep_view(),
                unionid.deep_view(),
            ),
        },
{
    let failed = match errcode {
        Some(c) => c != 0,
        None => false,
    };
    if failed {
        let c = match errcode {
            Some(c) => c,
            None => 0,
        };
        let message = match errmsg {
            Some(m) => m,
            None => String::new(),
        };
        return Err(WechatError::RemoteApiError { code: c, message });
    }
    match (openid, nickname, sex, province, city, country, headimgurl, privilege) {
        (Some(o), Some(n), Some(x), Some(p), Some(ci), Some(co), Some(h), Some(pr)) => Ok(
            UserInfoResponse {
                openid: o,
                nickname: n,
                sex: x,
                province: p,
                city: ci,
                country: co,
                headimgurl: h,
                privilege: pr,
                unionid,
            },
        ),
        _ => Err(
            WechatError::DecodeError { detail: "profile response missing fields".to_owned() },
        ),
    }
}

/// Parses an open-platform profile response body: a non-success HTTP
/// status is surfaced as a remote error carrying the status code;
/// otherwise the shared response policy applies, every field a named
/// function of the body.
pub fn parse_sns_user_info_body(status: u16, body: &str) -> (r: Result<
    UserInfoResponse,
    WechatError,
>)
    ensures
        !(200 <= status < 300) ==> (r matches Err(e) && e matches WechatError::RemoteApiError {
            code,
            message,
        } && code == status as i64 && message@ == "http error"@),
        (200 <= status < 300) ==> match json_i64_field(body@, "errcode"@) {
            Some(c) => if c != 0 {
                remote_error_shape(r, c, json_string_field(body@, "errmsg"@))
            } else {
                sns_user_info_success_shape(
                    r,
                    json_string_field(body@, "openid"@),
                    json_string_field(body@, "nickname"@),
                    json_i64_field(body@, "sex"@),
                    json_string_field(body@, "province"@),
                    json_string_field(body@, "city"@),
                    json_string_field(body@, "country"@),
                    json_string_field(body@, "headimgurl"@),
                    json_string_array_field(body@, "privilege"@),
                    json_string_field(body@, "unionid"@),
                )
            },
            None => sns_user_info_success_shape(
                r,
                json_string_field(body@, "openid"@),
                json_string_field(body@, "nickname"@),
                json_i64_field(body@, "sex"@),
                json_string_field(body@, "province"@),
                json_string_field(body@, "city"@),
                json_string_field(body@, "country"@),
                json_string_field(body@, "headimgurl"@),
                json_string_array_field(body@, "privilege"@),
                json_string_field(body@, "unionid"@),
            ),
        },
{
    if status < 200 || status >= 300 {
        return Err(
            WechatError::RemoteApiError { code: status as i64, message: "http error".to_owned() },
        );
    }
    assemble_sns_user_info_response(
        json_get_string(body, "openid"),
        json_get_string(body, "nickname"),
        json_get_i64(body, "sex"),
        json_get_string(body, "province"),
        json_get_string(body, "city"),
        json_get_string(body, "country"),
        json_get_string(body, "headimgurl"),
        json_get_string_array(body, "privilege"),
        json_get_string(body, "unionid"),
        json_get_i64(body, "errcode"),
        json_get_string(body, "errmsg"),
    )
}

} // verus!
