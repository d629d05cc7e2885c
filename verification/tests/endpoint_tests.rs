use wechat_sdk::errors::WechatError;
use wechat_sdk::flow::Step;
use wechat_sdk::official_account::menu::{
    delete_menu_on_response, delete_menu_request, parse_basic_body,
};
use wechat_sdk::official_account::oauth::BasicResponse;
use wechat_sdk::official_account::qrcode::{
    build_tmp_qr_request, encode_ticket_request, parse_ticket_body, SceneValue,
    TicketActionInfo, TicketActionName, TicketRequest, TicketResponse, TicketScene,
};
use wechat_sdk::official_account::quota::clear_quota_on_response;
use wechat_sdk::official_account::user::get_user_request;
use wechat_sdk::{Config, OfficialAccount};

fn account() -> OfficialAccount {
    OfficialAccount::new(Config {
        appid: "app\"quote".to_string(),
        app_secret: "sec".to_string(),
        token: "wechat".to_string(),
        encoding_aes_key: None,
    })
}

#[test]
fn qrcode_get_qr_ticket() {
    // The ticket creation flow: the request body and URL are exact.
    let account = OfficialAccount::new(Config {
        appid: "app".to_string(),
        app_secret: "sec".to_string(),
        token: "wechat".to_string(),
        encoding_aes_key: None,
    });
    let params = TicketRequest {
        expire_seconds: 200000,
        action_name: TicketActionName::QrStrScene,
        action_info: TicketActionInfo {
            scene: TicketScene {
                scene_id: None,
                scene_str: Some("login:key-1".to_string()),
            },
        },
    };
    let step = account.qr_ticket_request("tok", &params);
    assert_eq!(
        step,
        Step::HttpPostJson {
            url: "https://api.weixin.qq.com/cgi-bin/qrcode/create?access_token=tok".to_string(),
            body: "{\"expire_seconds\":200000,\"action_name\":\"QR_STR_SCENE\",\
                   \"action_info\":{\"scene\":{\"scene_str\":\"login:key-1\"}}}"
                .to_string(),
        }
    );

    let body = "{\"ticket\":\"tick\",\"expire_seconds\":200000,\"url\":\"http://x\"}";
    let resp = parse_ticket_body(body).unwrap();
    assert_eq!(
        resp,
        TicketResponse {
            ticket: "tick".to_string(),
            expire_seconds: 200000,
            url: "http://x".to_string(),
        }
    );
    assert_eq!(
        account.qr_ticket_on_response(Ok(resp.clone())),
        Step::Done { result: Ok(resp) }
    );
}

#[test]
fn build_tmp_qr_request_selects_scene_kind() {
    let r = build_tmp_qr_request(1000, SceneValue::Str("key".to_string()));
    assert_eq!(r.expire_seconds, 1000);
    assert_eq!(r.action_name, TicketActionName::QrStrScene);
    assert_eq!(r.action_info.scene.scene_str, Some("key".to_string()));
    assert_eq!(r.action_info.scene.scene_id, None);

    let r = build_tmp_qr_request(1000, SceneValue::Id(77));
    assert_eq!(r.action_name, TicketActionName::QrScene);
    assert_eq!(r.action_info.scene.scene_id, Some(77));
    assert_eq!(r.action_info.scene.scene_str, None);
}

#[test]
fn build_tmp_qr_request_clamps_expiry() {
    assert_eq!(build_tmp_qr_request(0, SceneValue::Id(1)).expire_seconds, 60);
    assert_eq!(build_tmp_qr_request(59, SceneValue::Id(1)).expire_seconds, 60);
    assert_eq!(build_tmp_qr_request(60, SceneValue::Id(1)).expire_seconds, 60);
    assert_eq!(build_tmp_qr_request(2592000, SceneValue::Id(1)).expire_seconds, 2592000);
    assert_eq!(build_tmp_qr_request(2592001, SceneValue::Id(1)).expire_seconds, 2592000);
}

#[test]
fn encode_ticket_request_numeric_scene() {
    let req = TicketRequest {
        expire_seconds: 60,
        action_name: TicketActionName::QrScene,
        action_info: TicketActionInfo {
            scene: TicketScene { scene_id: Some(42), scene_str: None },
        },
    };
    assert_eq!(
        encode_ticket_request(&req),
        "{\"expire_seconds\":60,\"action_name\":\"QR_SCENE\",\
         \"action_info\":{\"scene\":{\"scene_id\":42}}}"
    );
}

#[test]
fn show_qrcode_encodes_the_ticket() {
    let resp = TicketResponse {
        ticket: "a+b/c=".to_string(),
        expire_seconds: 60,
        url: "u".to_string(),
    };
    // The ticket value is percent-encoded, not passed through.
    assert_eq!(
        resp.show_qrcode(),
        "https://mp.weixin.qq.com/cgi-bin/showqrcode?ticket=a%2Bb%2Fc%3D"
    );
}

#[test]
fn delete_menu() {
    assert_eq!(
        delete_menu_request("tok"),
        Step::HttpPost {
            url: "https://api.weixin.qq.com/cgi-bin/menu/delete?access_token=tok".to_string()
        }
    );
    let parsed = parse_basic_body("{\"errcode\":0,\"errmsg\":\"ok\"}").unwrap();
    assert_eq!(parsed, BasicResponse { errcode: 0, errmsg: "ok".to_string() });
    assert_eq!(
        delete_menu_on_response(Ok(parsed)),
        Step::Done { result: Ok("ok".to_string()) }
    );
    assert!(matches!(
        parse_basic_body("nope"),
        Err(WechatError::DecodeError { .. })
    ));
}

#[test]
fn clear_quota_builds_escaped_body() {
    let account = account();
    let step = account.clear_quota_request("tok");
    assert_eq!(
        step,
        Step::HttpPostJson {
            url: "https://api.weixin.qq.com/cgi-bin/clear_quota?access_token=tok".to_string(),
            body: "{\"appid\":\"app\\\"quote\"}".to_string(),
        }
    );
    assert_eq!(
        clear_quota_on_response(Ok(BasicResponse { errcode: 0, errmsg: "ok".to_string() })),
        Step::Done { result: Ok(()) }
    );
    assert_eq!(
        clear_quota_on_response(Err(WechatError::TokenUnavailable)),
        Step::Done { result: Err(WechatError::TokenUnavailable) }
    );
}

#[test]
fn get_user_by_open_id_url() {
    assert_eq!(
        get_user_request("tok", "u1"),
        Step::HttpGet {
            url: "https://api.weixin.qq.com/cgi-bin/user/info?access_token=tok\
                  &openid=u1&lang=zh_CN"
                .to_string()
        }
    );
}

#[test]
fn error_kind_names() {
    assert_eq!(WechatError::SignatureInvalid.kind_name(), "signature invalid");
    assert_eq!(
        WechatError::RemoteApiError { code: 1, message: "m".to_string() }.kind_name(),
        "remote api error"
    );
    assert_eq!(WechatError::CacheUnavailable.kind_name(), "cache unavailable");
}
