use wechat_sdk::errors::WechatError;
use wechat_sdk::flow::Step;
use wechat_sdk::official_account::token::{
    assemble_token_response, encode_token_entry, parse_token_body, parse_token_entry,
    TokenResponse, GLOBAL_TOKEN, TOKEN_TTL_MARGIN,
};
use wechat_sdk::{Config, OfficialAccount};

fn account() -> OfficialAccount {
    OfficialAccount::new(Config {
        appid: "my-app".to_string(),
        app_secret: "my-secret".to_string(),
        token: "wechat".to_string(),
        encoding_aes_key: None,
    })
}

#[test]
fn token_entry_round_trips() {
    let t = TokenResponse { access_token: "abc123".to_string(), expires_in: 7200 };
    let entry = encode_token_entry(&t);
    assert_eq!(entry, "{\"access_token\":\"abc123\",\"expires_in\":7200}");
    assert_eq!(parse_token_entry(&entry), Some(("abc123".to_string(), 7200)));

    // Quotes and backslashes in the token survive the trip.
    let t = TokenResponse { access_token: "a\"b\\c".to_string(), expires_in: 1 };
    let entry = encode_token_entry(&t);
    assert_eq!(parse_token_entry(&entry), Some(("a\"b\\c".to_string(), 1)));
}

#[test]
fn malformed_entries_are_rejected() {
    assert_eq!(parse_token_entry(""), None);
    // An entry denoting an empty token does not count as well formed.
    assert_eq!(parse_token_entry("{\"access_token\":\"\",\"expires_in\":5}"), None);
    assert_eq!(parse_token_entry("{\"access_token\":\"abc\"}"), None);
    assert_eq!(parse_token_entry("{\"access_token\":\"abc\",\"expires_in\":}"), None);
    assert_eq!(parse_token_entry("{\"access_token\":\"abc\",\"expires_in\":12"), None);
    assert_eq!(parse_token_entry("{\"access_token\":\"abc\",\"expires_in\":12}x"), None);
}

#[test]
fn cached_token_is_returned_without_remote_call() {
    // A pre-populated store answers the flow at once: the cached value
    // comes back unchanged and no fetch is requested.
    let account = account();
    assert_eq!(
        account.token_request(),
        Step::CacheGet { key: GLOBAL_TOKEN.to_string() }
    );
    let entry = "{\"access_token\":\"cached-token\",\"expires_in\":7200}".to_string();
    assert_eq!(
        account.token_on_cache(Some(entry)),
        Step::Done { result: Ok("cached-token".to_string()) }
    );
}

#[test]
fn empty_store_leads_to_one_fetch_then_cache() {
    // On a miss the flow asks for exactly one remote call; the refresh
    // is written back with a safety margin below the declared expiry,
    // and a subsequent read is answered from the cache.
    let account = account();
    let fetch = account.token_on_cache(None);
    let expected_url = "https://api.weixin.qq.com/cgi-bin/token?appid=my-app\
                        &secret=my-secret&grant_type=client_credential";
    assert_eq!(fetch, Step::HttpGet { url: expected_url.to_string() });

    let fresh = TokenResponse { access_token: "fresh".to_string(), expires_in: 7200 };
    let write = account.token_on_response(Ok(fresh.clone()));
    let value = encode_token_entry(&fresh);
    assert_eq!(
        write,
        Step::CacheSetEx {
            key: GLOBAL_TOKEN.to_string(),
            ttl_seconds: 7200 - TOKEN_TTL_MARGIN,
            value: value.clone(),
        }
    );
    assert_eq!(
        account.token_after_store(&fresh),
        Step::Done { result: Ok("fresh".to_string()) }
    );

    // The second call, before the TTL lapses, finds the entry.
    assert_eq!(
        account.token_on_cache(Some(value)),
        Step::Done { result: Ok("fresh".to_string()) }
    );
}

#[test]
fn malformed_cache_entry_triggers_refresh() {
    let account = account();
    match account.token_on_cache(Some("not an entry".to_string())) {
        Step::HttpGet { .. } => {},
        other => panic!("malformed entry must refresh, got {:?}", other),
    }
}

#[test]
fn failed_refresh_is_token_unavailable() {
    let account = account();
    assert_eq!(
        account.token_on_response(Err(WechatError::DecodeError {
            detail: "broken".to_string()
        })),
        Step::Done { result: Err(WechatError::TokenUnavailable) }
    );
}

#[test]
fn token_body_parsing_follows_policy() {
    // The HTTP status is checked first.
    assert_eq!(
        parse_token_body(503, "{\"access_token\":\"tok\",\"expires_in\":7200}"),
        Err(WechatError::RemoteApiError { code: 503, message: "http error".to_string() })
    );

    // Success shape.
    let ok = parse_token_body(200, "{\"access_token\":\"tok\",\"expires_in\":7200}").unwrap();
    assert_eq!(ok, TokenResponse { access_token: "tok".to_string(), expires_in: 7200 });

    // Error envelope with a non-zero code.
    let err = parse_token_body(200, "{\"errcode\":40013,\"errmsg\":\"invalid appid\"}")
        .unwrap_err();
    assert_eq!(
        err,
        WechatError::RemoteApiError { code: 40013, message: "invalid appid".to_string() }
    );

    // Neither shape.
    assert!(matches!(
        parse_token_body(200, "{\"unrelated\":true}"),
        Err(WechatError::DecodeError { .. })
    ));
    assert!(matches!(
        parse_token_body(200, "no json"),
        Err(WechatError::DecodeError { .. })
    ));

    // A credential violating the invariants - an empty token or a zero
    // lifetime - is a decode error, not a credential.
    assert!(matches!(
        parse_token_body(200, "{\"access_token\":\"\",\"expires_in\":7200}"),
        Err(WechatError::DecodeError { .. })
    ));
    assert!(matches!(
        parse_token_body(200, "{\"access_token\":\"tok\",\"expires_in\":0}"),
        Err(WechatError::DecodeError { .. })
    ));
}

#[test]
fn invalid_credentials_are_never_written() {
    // A response naming an empty token or a zero lifetime would break
    // the credential invariants; the flow refuses it instead of
    // caching it.
    let account = account();
    assert_eq!(
        account.token_on_response(Ok(TokenResponse {
            access_token: "".to_string(),
            expires_in: 7200
        })),
        Step::Done { result: Err(WechatError::TokenUnavailable) }
    );
    assert_eq!(
        account.token_on_response(Ok(TokenResponse {
            access_token: "tok".to_string(),
            expires_in: 0
        })),
        Step::Done { result: Err(WechatError::TokenUnavailable) }
    );
}

#[test]
fn assemble_token_response_pins_fields() {
    assert_eq!(
        assemble_token_response(Some("t".to_string()), Some(5), None, None),
        Ok(TokenResponse { access_token: "t".to_string(), expires_in: 5 })
    );
    assert_eq!(
        assemble_token_response(Some("t".to_string()), Some(5), Some(0), None),
        Ok(TokenResponse { access_token: "t".to_string(), expires_in: 5 })
    );
    assert_eq!(
        assemble_token_response(None, None, Some(7), Some("boom".to_string())),
        Err(WechatError::RemoteApiError { code: 7, message: "boom".to_string() })
    );
    assert!(matches!(
        assemble_token_response(Some("t".to_string()), None, None, None),
        Err(WechatError::DecodeError { .. })
    ));
    assert!(matches!(
        assemble_token_response(Some(String::new()), Some(5), None, None),
        Err(WechatError::DecodeError { .. })
    ));
    assert!(matches!(
        assemble_token_response(Some("t".to_string()), Some(0), None, None),
        Err(WechatError::DecodeError { .. })
    ));
}

#[test]
fn short_expiry_is_not_reduced_below_itself() {
    let account = account();
    let fresh = TokenResponse { access_token: "x".to_string(), expires_in: 100 };
    match account.token_on_response(Ok(fresh)) {
        Step::CacheSetEx { ttl_seconds, .. } => assert_eq!(ttl_seconds, 100),
        other => panic!("expected a cache write, got {:?}", other),
    }
}
