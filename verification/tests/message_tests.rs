use wechat_sdk::errors::WechatError;
use wechat_sdk::official_account::message::{
    decode, parse_message, EventKind, MessageBody, MessageHandler, WechatMessage, WechatQuery,
};
use wechat_sdk::official_account::signature::signature;
use wechat_sdk::{Config, OfficialAccount};

fn sample_message() -> WechatMessage {
    WechatMessage {
        to_user_name: "gh_account".to_string(),
        from_user_name: "open_user".to_string(),
        create_time: 1744100071,
        msg_type: "text".to_string(),
        content: Some("hi".to_string()),
        msg_id: None,
        idx: None,
        event: None,
        event_key: None,
        ticket: None,
    }
}

fn is_decode_error(e: &WechatError) -> bool {
    matches!(e, WechatError::DecodeError { .. })
}

#[test]
fn reply_round_trip() {
    // decode(encode(buildTextReply(m, "x"))) keeps the swapped sender
    // and receiver and the reply content.
    let m = sample_message();
    let reply = m.plaintext("x");
    assert_eq!(reply.to_user_name, "open_user");
    assert_eq!(reply.from_user_name, "gh_account");
    assert_eq!(reply.msg_type, "text");
    let handler = MessageHandler { message: m };
    let encoded = handler.to_string(&reply).unwrap();
    let round = decode(&encoded).unwrap();
    assert_eq!(round.target_account, "open_user");
    assert_eq!(round.source_user, "gh_account");
    assert_eq!(round.created_at, reply.create_time);
    assert_eq!(round.body, MessageBody::Text { content: "x".to_string() });
}

#[test]
fn reply_round_trip_with_specials() {
    let m = sample_message();
    let reply = m.plaintext("a<b>&c \"quoted\"");
    let handler = MessageHandler { message: sample_message() };
    let encoded = handler.to_string(&reply).unwrap();
    let round = decode(&encoded).unwrap();
    assert_eq!(
        round.body,
        MessageBody::Text { content: "a<b>&c \"quoted\"".to_string() }
    );
}

#[test]
fn encode_exact_document() {
    let reply = wechat_sdk::official_account::message::WeChatResponse {
        to_user_name: "u".to_string(),
        from_user_name: "g".to_string(),
        create_time: 42,
        msg_type: "text".to_string(),
        content: "a&b".to_string(),
    };
    let handler = MessageHandler { message: sample_message() };
    let encoded = handler.to_string(&reply).unwrap();
    assert_eq!(
        encoded,
        "<xml><ToUserName>u</ToUserName><FromUserName>g</FromUserName>\
         <CreateTime>42</CreateTime><MsgType>text</MsgType><Content>a&amp;b</Content></xml>"
    );
}

#[test]
fn decode_text_message() {
    let raw = "<xml><ToUserName>gh</ToUserName><FromUserName>u</FromUserName>\
               <CreateTime>123</CreateTime><MsgType>text</MsgType><Content>hello</Content></xml>";
    let m = parse_message(&raw).unwrap();
    assert_eq!(m.to_user_name, "gh");
    assert_eq!(m.from_user_name, "u");
    assert_eq!(m.create_time, 123);
    assert_eq!(m.msg_type, "text");
    assert_eq!(m.content, Some("hello".to_string()));
    assert_eq!(m.get_open_id(), "u");
    assert_eq!(m.get_gh_id(), "gh");
}

#[test]
fn decode_accepts_whitespace_between_elements() {
    let raw = "<xml>\n  <ToUserName>gh</ToUserName>\n  <FromUserName>u</FromUserName>\n  \
               <CreateTime>1</CreateTime>\n  <MsgType>image</MsgType>\n</xml>\n";
    let decoded = decode(raw).unwrap();
    assert_eq!(decoded.body, MessageBody::Image);
}

#[test]
fn decode_accepts_literal_sections() {
    // Real platform payloads wrap values in CDATA sections; they are
    // taken verbatim, entities included.
    let raw = "<xml><ToUserName><![CDATA[gh_acc]]></ToUserName>\
               <FromUserName><![CDATA[user&name]]></FromUserName>\
               <CreateTime>9</CreateTime><MsgType><![CDATA[text]]></MsgType>\
               <Content><![CDATA[a <raw> &amp; body]]></Content></xml>";
    let decoded = decode(raw).unwrap();
    assert_eq!(decoded.target_account, "gh_acc");
    assert_eq!(decoded.source_user, "user&name");
    assert_eq!(
        decoded.body,
        MessageBody::Text { content: "a <raw> &amp; body".to_string() }
    );

    // An unterminated literal section is a decode error.
    let raw = "<xml><ToUserName><![CDATA[x</ToUserName></xml>";
    assert!(is_decode_error(&decode(raw).unwrap_err()));
}

#[test]
fn decode_unescapes_entities() {
    let raw = "<xml><ToUserName>g</ToUserName><FromUserName>u</FromUserName>\
               <CreateTime>1</CreateTime><MsgType>text</MsgType>\
               <Content>&lt;b&gt; &amp; &quot;q&quot; &apos;a&apos;</Content></xml>";
    let decoded = decode(&raw).unwrap();
    assert_eq!(
        decoded.body,
        MessageBody::Text { content: "<b> & \"q\" 'a'".to_string() }
    );
}

#[test]
fn decode_unknown_kind_is_error() {
    // An unrecognized kind discriminant is a decode error.
    let raw = "<xml><ToUserName>g</ToUserName><FromUserName>u</FromUserName>\
               <CreateTime>1</CreateTime><MsgType>hologram</MsgType></xml>";
    match decode(&raw) {
        Err(e) => assert!(is_decode_error(&e)),
        Ok(_) => panic!("unrecognized kind must not decode"),
    }
}

#[test]
fn decode_missing_kind_is_error() {
    let raw = "<xml><ToUserName>g</ToUserName><FromUserName>u</FromUserName>\
               <CreateTime>1</CreateTime></xml>";
    assert!(is_decode_error(&decode(&raw).unwrap_err()));
}

#[test]
fn decode_text_without_content_is_error() {
    let raw = "<xml><ToUserName>g</ToUserName><FromUserName>u</FromUserName>\
               <CreateTime>1</CreateTime><MsgType>text</MsgType></xml>";
    assert!(is_decode_error(&decode(&raw).unwrap_err()));
}

#[test]
fn decode_event_kinds() {
    let raw = "<xml><ToUserName>g</ToUserName><FromUserName>u</FromUserName>\
               <CreateTime>1</CreateTime><MsgType>event</MsgType><Event>subscribe</Event></xml>";
    assert_eq!(
        decode(&raw).unwrap().body,
        MessageBody::Event { event: EventKind::Subscribe }
    );

    let raw = "<xml><ToUserName>g</ToUserName><FromUserName>u</FromUserName>\
               <CreateTime>1</CreateTime><MsgType>event</MsgType><Event>SCAN</Event>\
               <EventKey>qrscene_7</EventKey><Ticket>tk</Ticket></xml>";
    assert_eq!(
        decode(&raw).unwrap().body,
        MessageBody::Event {
            event: EventKind::Scan {
                event_key: "qrscene_7".to_string(),
                ticket: "tk".to_string(),
            }
        }
    );

    // A scan event without its required fields is a decode error.
    let raw = "<xml><ToUserName>g</ToUserName><FromUserName>u</FromUserName>\
               <CreateTime>1</CreateTime><MsgType>event</MsgType><Event>SCAN</Event></xml>";
    assert!(is_decode_error(&decode(&raw).unwrap_err()));

    // An unrecognized event kind is a decode error.
    let raw = "<xml><ToUserName>g</ToUserName><FromUserName>u</FromUserName>\
               <CreateTime>1</CreateTime><MsgType>event</MsgType><Event>dance</Event></xml>";
    assert!(is_decode_error(&decode(&raw).unwrap_err()));
}

#[test]
fn decode_malformed_number_is_error() {
    let raw = "<xml><ToUserName>g</ToUserName><FromUserName>u</FromUserName>\
               <CreateTime>later</CreateTime><MsgType>text</MsgType><Content>x</Content></xml>";
    assert!(is_decode_error(&parse_message(&raw).unwrap_err()));

    let raw = "<xml><ToUserName>g</ToUserName><FromUserName>u</FromUserName>\
               <CreateTime>99999999999999999999999</CreateTime><MsgType>text</MsgType>\
               <Content>x</Content></xml>";
    assert!(is_decode_error(&parse_message(&raw).unwrap_err()));
}

#[test]
fn decode_malformed_document_is_error() {
    assert!(is_decode_error(&parse_message("not xml at all").unwrap_err()));
    assert!(is_decode_error(&parse_message("<xml><Broken>x</Other></xml>").unwrap_err()));
    assert!(is_decode_error(&parse_message("<xml><A>x</A>").unwrap_err()));
}

#[test]
fn plaintext_at_stamps_the_given_time() {
    let m = sample_message();
    let reply = m.plaintext_at("x", 777);
    assert_eq!(reply.create_time, 777);
    assert_eq!(reply.to_user_name, "open_user");
    assert_eq!(reply.from_user_name, "gh_account");
    assert_eq!(reply.msg_type, "text");
    assert_eq!(reply.content, "x");
}

#[test]
fn decoded_webhook_pipeline_classifies() {
    let account = OfficialAccount::new(Config {
        appid: "a".to_string(),
        app_secret: "s".to_string(),
        token: "wechat".to_string(),
        encoding_aes_key: None,
    });
    let good = WechatQuery {
        timestamp: "11".to_string(),
        nonce: "22".to_string(),
        signature: signature("wechat", "11", "22"),
        echostr: None,
    };
    let text_body = "<xml><ToUserName>g</ToUserName><FromUserName>u</FromUserName>\
                     <CreateTime>5</CreateTime><MsgType>text</MsgType><Content>m</Content></xml>";
    let decoded = account.handle_webhook_decoded(&good, text_body).unwrap();
    assert_eq!(decoded.body, MessageBody::Text { content: "m".to_string() });

    // An unrecognized kind is a decode error of the pipeline itself.
    let odd_body = "<xml><ToUserName>g</ToUserName><FromUserName>u</FromUserName>\
                    <CreateTime>5</CreateTime><MsgType>hologram</MsgType></xml>";
    assert!(is_decode_error(
        &account.handle_webhook_decoded(&good, odd_body).unwrap_err()
    ));

    // A bad signature is terminal before any decoding.
    let bad = WechatQuery {
        timestamp: "11".to_string(),
        nonce: "22".to_string(),
        signature: "wrong".to_string(),
        echostr: None,
    };
    assert!(matches!(
        account.handle_webhook_decoded(&bad, text_body),
        Err(WechatError::SignatureInvalid)
    ));
}

#[test]
fn webhook_pipeline_authenticates_before_parsing() {
    let account = OfficialAccount::new(Config {
        appid: "a".to_string(),
        app_secret: "s".to_string(),
        token: "wechat".to_string(),
        encoding_aes_key: None,
    });
    let body = "<xml><ToUserName>g</ToUserName><FromUserName>u</FromUserName>\
                <CreateTime>5</CreateTime><MsgType>text</MsgType><Content>m</Content></xml>";

    // A non-matching signature is terminal, whatever the body holds.
    let bad = WechatQuery {
        timestamp: "10".to_string(),
        nonce: "20".to_string(),
        signature: "wrong".to_string(),
        echostr: None,
    };
    assert!(matches!(
        account.handle_webhook(&bad, "<<<garbage>>>"),
        Err(WechatError::SignatureInvalid)
    ));
    assert!(matches!(
        account.handle_webhook(&bad, &body),
        Err(WechatError::SignatureInvalid)
    ));

    // A matching signature lets the payload through to the decoder.
    let good = WechatQuery {
        timestamp: "10".to_string(),
        nonce: "20".to_string(),
        signature: signature("wechat", "10", "20"),
        echostr: None,
    };
    let handler = account.handle_webhook(&good, &body).unwrap();
    assert_eq!(handler.message.content, Some("m".to_string()));
}
