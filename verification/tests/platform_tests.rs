use wechat_sdk::errors::WechatError;
use wechat_sdk::flow::Step;
use wechat_sdk::mini_program::MiniProgram;
use wechat_sdk::model::{
    parse_auth_body, parse_sns_token_body, parse_sns_user_info_body, AccessTokenResponse,
    AuthResponse,
};
use wechat_sdk::open_platform::{OpenPlatform, REFRESH_TOKEN_TTL, SNS_TOKEN_TTL};

fn platform_with_store() -> OpenPlatform {
    OpenPlatform::new(
        "opapp".to_string(),
        "opsec".to_string(),
        Some("redis://localhost".to_string()),
    )
}

fn sample_at() -> AccessTokenResponse {
    AccessTokenResponse {
        access_token: "at".to_string(),
        expires_in: 7200,
        refresh_token: "rt".to_string(),
        openid: "op-user".to_string(),
        scope: "snsapi_login".to_string(),
        unionid: Some("union".to_string()),
    }
}

#[test]
fn new_records_store_configuration() {
    let with = platform_with_store();
    assert!(with.store_configured);
    let without = OpenPlatform::new("a".to_string(), "b".to_string(), None);
    assert!(!without.store_configured);
}

#[test]
fn qrconnect_redirect_url() {
    let p = platform_with_store();
    let url = p.get_redirect_url("https://example.com/cb".to_string(), None);
    assert_eq!(
        url,
        "https://open.weixin.qq.com/connect/qrconnect?appid=opapp\
         &redirect_uri=https%3A%2F%2Fexample.com%2Fcb&response_type=code\
         &scope=snsapi_login&state=&lang="
    );
}

#[test]
fn access_token_flow_persists_both_tokens() {
    let p = platform_with_store();
    assert_eq!(
        p.access_token_request("C"),
        Step::HttpGet {
            url: "https://api.weixin.qq.com/sns/oauth2/access_token?appid=opapp\
                  &secret=opsec&code=C&grant_type=authorization_code"
                .to_string()
        }
    );
    let at = sample_at();
    assert_eq!(
        p.access_token_on_response(Ok(at.clone())),
        Step::CacheSetEx {
            key: "op-user".to_string(),
            ttl_seconds: SNS_TOKEN_TTL,
            value: "at".to_string(),
        }
    );
    assert_eq!(
        p.access_token_store_refresh(&at),
        Step::CacheSetEx {
            key: "opapp".to_string(),
            ttl_seconds: REFRESH_TOKEN_TTL,
            value: "rt".to_string(),
        }
    );
    assert_eq!(p.access_token_finish(at.clone()), Step::Done { result: Ok(at) });
}

#[test]
fn access_token_flow_without_store_skips_persistence() {
    let p = OpenPlatform::new("a".to_string(), "b".to_string(), None);
    let at = sample_at();
    assert_eq!(
        p.access_token_on_response(Ok(at.clone())),
        Step::Done { result: Ok(at) }
    );
}

#[test]
fn refresh_flow() {
    let p = platform_with_store();
    assert_eq!(p.refresh_request("opapp"), Step::CacheGet { key: "opapp".to_string() });
    assert_eq!(
        p.refresh_on_cache("opapp", None),
        Step::Done { result: Err(WechatError::AccessTokenNotFound) }
    );
    assert_eq!(
        p.refresh_on_cache("opapp", Some("rt".to_string())),
        Step::HttpGet {
            url: "https://api.weixin.qq.com/sns/oauth2/refresh_token?appid=opapp\
                  &grant_type=refresh_token&refresh_token=rt"
                .to_string()
        }
    );
    // A refreshed credential is handed out and deliberately not
    // persisted.
    let at = sample_at();
    assert_eq!(p.refresh_on_response(Ok(at.clone())), Step::Done { result: Ok(at) });

    let no_store = OpenPlatform::new("a".to_string(), "b".to_string(), None);
    assert_eq!(
        no_store.refresh_request("a"),
        Step::Done { result: Err(WechatError::CacheUnavailable) }
    );
}

#[test]
fn check_flow_is_a_pass_through() {
    let p = platform_with_store();
    assert_eq!(p.check_request("u"), Step::CacheGet { key: "u".to_string() });
    assert_eq!(
        p.check_on_cache("u", Some("tok".to_string())),
        Step::HttpGet {
            url: "https://api.weixin.qq.com/sns/auth?access_token=tok&openid=u".to_string()
        }
    );
    let auth = AuthResponse { errcode: 0, errmsg: "ok".to_string() };
    assert_eq!(p.check_on_response(Ok(auth.clone())), Step::Done { result: Ok(auth) });
}

#[test]
fn user_info_flow() {
    let p = platform_with_store();
    assert_eq!(
        p.user_info_on_cache("u", None),
        Step::Done { result: Err(WechatError::AccessTokenNotFound) }
    );
    assert_eq!(
        p.user_info_on_cache("u", Some("tok".to_string())),
        Step::HttpGet {
            url: "https://api.weixin.qq.com/sns/userinfo?access_token=tok&openid=u".to_string()
        }
    );
}

#[test]
fn sns_token_body_parsing() {
    let body = "{\"access_token\":\"at\",\"expires_in\":7200,\"refresh_token\":\"rt\",\
                \"openid\":\"op-user\",\"scope\":\"snsapi_login\",\"unionid\":\"union\"}";
    assert_eq!(parse_sns_token_body(body), Ok(sample_at()));
    assert_eq!(
        parse_sns_token_body("{\"errcode\":40030,\"errmsg\":\"invalid refresh_token\"}"),
        Err(WechatError::RemoteApiError {
            code: 40030,
            message: "invalid refresh_token".to_string()
        })
    );
}

#[test]
fn auth_body_parsing() {
    assert_eq!(
        parse_auth_body("{\"errcode\":0,\"errmsg\":\"ok\"}"),
        Ok(AuthResponse { errcode: 0, errmsg: "ok".to_string() })
    );
    assert!(matches!(
        parse_auth_body("{}"),
        Err(WechatError::DecodeError { .. })
    ));
}

#[test]
fn sns_user_info_requires_all_fields() {
    let body = "{\"openid\":\"u\",\"nickname\":\"n\",\"sex\":1,\"province\":\"p\",\
                \"city\":\"c\",\"country\":\"cn\",\"headimgurl\":\"h\",\"privilege\":[]}";
    let u = parse_sns_user_info_body(200, body).unwrap();
    assert_eq!(u.openid, "u");
    assert_eq!(u.privilege, Vec::<String>::new());
    assert_eq!(u.unionid, None);

    // The open-platform profile shape requires every field but the
    // union identifier.
    assert!(matches!(
        parse_sns_user_info_body(200, "{\"openid\":\"u\",\"nickname\":\"n\"}"),
        Err(WechatError::DecodeError { .. })
    ));
    assert_eq!(
        parse_sns_user_info_body(500, body),
        Err(WechatError::RemoteApiError { code: 500, message: "http error".to_string() })
    );
}

#[test]
fn mini_program_new() {
    let m = MiniProgram::new("mp".to_string(), "ms".to_string());
    assert_eq!(m.appid, "mp");
    assert_eq!(m.app_secret, "ms");
}
