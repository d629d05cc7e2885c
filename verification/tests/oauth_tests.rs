use wechat_sdk::errors::WechatError;
use wechat_sdk::flow::Step;
use wechat_sdk::official_account::oauth::{
    assemble_access_token_response, parse_access_token_body, parse_user_info_body,
    AccessTokenResponse, USER_TOKEN_TTL,
};
use wechat_sdk::{Config, OfficialAccount};

fn account() -> OfficialAccount {
    OfficialAccount::new(Config {
        appid: "app1".to_string(),
        app_secret: "sec1".to_string(),
        token: "wechat".to_string(),
        encoding_aes_key: None,
    })
}

fn sample_at() -> AccessTokenResponse {
    AccessTokenResponse {
        access_token: "at".to_string(),
        expires_in: 7200,
        refresh_token: "rt".to_string(),
        open_id: "user-1".to_string(),
        scope: "snsapi_userinfo".to_string(),
        union_id: None,
    }
}

#[test]
fn get_redirect_url() {
    let account = account();
    let url = account.get_redirect_url(
        "https://example.com/cb".to_string(),
        "snsapi_userinfo".to_string(),
        None,
    );
    assert_eq!(
        url,
        "https://open.weixin.qq.com/connect/oauth2/authorize?appid=app1\
         &redirect_uri=https%3A%2F%2Fexample.com%2Fcb&response_type=code\
         &scope=snsapi_userinfo&state=#wechat_redirect"
    );

    let url = account.get_redirect_url(
        "https://example.com/cb".to_string(),
        "snsapi_base".to_string(),
        Some("a state".to_string()),
    );
    assert!(url.contains("&state=a%20state#wechat_redirect"));
}

#[test]
fn oauth2_exchange_flow() {
    let account = account();
    let step = account.oauth2_token_request("CODE9");
    assert_eq!(
        step,
        Step::HttpGet {
            url: "https://api.weixin.qq.com/sns/oauth2/access_token?appid=app1\
                  &secret=sec1&code=CODE9&grant_type=authorization_code"
                .to_string()
        }
    );

    // A parsed credential is persisted under the user's identifier.
    let at = sample_at();
    assert_eq!(
        account.oauth2_on_response(Ok(at.clone())),
        Step::CacheSetEx {
            key: "user-1".to_string(),
            ttl_seconds: USER_TOKEN_TTL,
            value: "at".to_string(),
        }
    );
    assert_eq!(
        account.oauth2_after_store(at.clone()),
        Step::Done { result: Ok(at) }
    );

    // A failure ends the flow with that error.
    assert_eq!(
        account.oauth2_on_response(Err(WechatError::TokenUnavailable)),
        Step::Done { result: Err(WechatError::TokenUnavailable) }
    );
}

#[test]
fn fetch_user_profile_without_cached_token_fails_locally() {
    // A cache miss is the distinct AccessTokenNotFound error; the flow
    // ends without requesting any remote call.
    let account = account();
    assert_eq!(
        account.userinfo_request("user-1"),
        Step::CacheGet { key: "user-1".to_string() }
    );
    assert_eq!(
        account.userinfo_on_cache("user-1", None),
        Step::Done { result: Err(WechatError::AccessTokenNotFound) }
    );
}

#[test]
fn fetch_user_profile_with_cached_token_calls_remote() {
    let account = account();
    assert_eq!(
        account.userinfo_on_cache("user-1", Some("tok".to_string())),
        Step::HttpGet {
            url: "https://api.weixin.qq.com/sns/userinfo?access_token=tok&openid=user-1"
                .to_string()
        }
    );
}

#[test]
fn access_token_body_parsing_follows_policy() {
    let body = "{\"access_token\":\"at\",\"expires_in\":7200,\"refresh_token\":\"rt\",\
                \"openid\":\"user-1\",\"scope\":\"snsapi_userinfo\"}";
    let at = parse_access_token_body(body).unwrap();
    assert_eq!(at, sample_at());

    let err = parse_access_token_body("{\"errcode\":40029,\"errmsg\":\"invalid code\"}");
    assert_eq!(
        err,
        Err(WechatError::RemoteApiError { code: 40029, message: "invalid code".to_string() })
    );

    assert!(matches!(
        parse_access_token_body("{\"access_token\":\"at\"}"),
        Err(WechatError::DecodeError { .. })
    ));
}

#[test]
fn assemble_access_token_keeps_optional_union_id() {
    let r = assemble_access_token_response(
        Some("at".to_string()),
        Some(1),
        Some("rt".to_string()),
        Some("o".to_string()),
        Some("s".to_string()),
        Some("u".to_string()),
        None,
        None,
    )
    .unwrap();
    assert_eq!(r.union_id, Some("u".to_string()));
}

#[test]
fn user_info_body_parsing() {
    // The HTTP status is checked first.
    let err = parse_user_info_body(502, "{}").unwrap_err();
    assert_eq!(
        err,
        WechatError::RemoteApiError { code: 502, message: "http error".to_string() }
    );

    // The error envelope wins over the success shape.
    let err = parse_user_info_body(200, "{\"errcode\":40003,\"errmsg\":\"bad openid\"}");
    assert_eq!(
        err,
        Err(WechatError::RemoteApiError { code: 40003, message: "bad openid".to_string() })
    );

    // The success shape requires only the user identifier.
    let u = parse_user_info_body(
        200,
        "{\"openid\":\"user-1\",\"nickname\":\"n\",\"privilege\":[\"a\",\"b\"]}",
    )
    .unwrap();
    assert_eq!(u.open_id, "user-1");
    assert_eq!(u.nickname, Some("n".to_string()));
    assert_eq!(u.privilege, Some(vec!["a".to_string(), "b".to_string()]));
    assert_eq!(u.sex, None);

    assert!(matches!(
        parse_user_info_body(200, "{\"nickname\":\"n\"}"),
        Err(WechatError::DecodeError { .. })
    ));

    // A privilege array holding a non-string element does not count as
    // a string array: the optional field comes back absent.
    let u = parse_user_info_body(
        200,
        "{\"openid\":\"user-1\",\"privilege\":[\"a\",7]}",
    )
    .unwrap();
    assert_eq!(u.privilege, None);
}
