//! Inbound webhook messages: decoding a verified payload into a tagged
//! message variant, and building and encoding text replies.
use vstd::prelude::*;

use crate::OfficialAccount;
use crate::errors::WechatError;
use crate::official_account::signature::spec_signature;
use crate::official_account::xml::{
    encode_doc, encode_elem, encode_elems, is_name_char, lemma_parse_doc_encode, lookup,
    lookup_exec, parse_doc, parse_doc_exec, push_elem, wf_name, wf_pairs, xml_close, xml_open,
};
use crate::text::{
    chars_to_string, dec_chars, digits_val, is_digits, lemma_dec_chars_val, parse_u64_chars,
    str_eq, string_to_chars, u64_to_chars,
};

pub use crate::official_account::signature::WechatQuery;

verus! {

/// The primary message-kind discriminants the platform uses.
pub struct MsgType;

impl MsgType {
    pub const TEXT: &'static str = "text";

    pub const IMAGE: &'static str = "image";

    pub const VOICE: &'static str = "voice";

    pub const VIDEO: &'static str = "video";

    pub const MINIPROGRAMPAGE: &'static str = "miniprogrampage";

    pub const SHORTVIDEO: &'static str = "shortvideo";

    pub const LOCATION: &'static str = "location";

    pub const LINK: &'static str = "link";

    pub const MUSIC: &'static str = "music";

    pub const NEWS: &'static str = "news";

    pub const TRANSFER: &'static str = "transfer_customer_service";

    pub const EVENT: &'static str = "event";
}

/// The secondary discriminants of event messages.
pub struct EventType;

impl EventType {
    pub const SUBSCRIBE: &'static str = "subscribe";

    pub const UNSUBSCRIBE: &'static str = "unsubscribe";

    pub const SCAN: &'static str = "SCAN";
}

/// The flat field set of an inbound webhook payload.
#[derive(Debug, Clone, PartialEq, Eq)]
pub struct WechatMessage {
    /// The receiving account identifier.
    pub to_user_name: String,
    /// The sending user identifier.
    pub from_user_name: String,
    /// The platform-supplied creation timestamp.
    pub create_time: u64,
    /// The primary message-kind discriminant.
    pub msg_type: String,
    pub content: Option<String>,
    pub msg_id: Option<u64>,
    pub idx: Option<u64>,
    pub event: Option<String>,
    pub event_key: Option<String>,
    pub ticket: Option<String>,
}

/// The mathematical image of a [`WechatMessage`].
pub struct SpecMessage {
    pub to_user_name: Seq<char>,
    pub from_user_name: Seq<char>,
    pub create_time: u64,
    pub msg_type: Seq<char>,
    pub content: Option<Seq<char>>,
    pub msg_id: Option<u64>,
    pub idx: Option<u64>,
    pub event: Option<Seq<char>>,
    pub event_key: Option<Seq<char>>,
    pub ticket: Option<Seq<char>>,
}

impl View for WechatMessage {
    type V = SpecMessage;

    open spec fn view(&self) -> SpecMessage {
        SpecMessage {
            to_user_name: self.to_user_name@,
            from_user_name: self.from_user_name@,
            create_time: self.create_time,
            msg_type: self.msg_type@,
            content: self.content.deep_view(),
            msg_id: self.msg_id,
            idx: self.idx,
            event: self.event.deep_view(),
            event_key: self.event_key.deep_view(),
            ticket: self.ticket.deep_view(),
        }
    }
}

impl WechatMessage {
    /// The identifier of the user who sent the message.
    pub fn get_open_id(&self) -> (r: String)
        ensures
            r@ == self.from_user_name@,
    {
        self.from_user_name.clone()
    }

    /// The identifier of the account that received the message.
    pub fn get_gh_id(&self) -> (r: String)
        ensures
            r@ == self.to_user_name@,
    {
        self.to_user_name.clone()
    }
}

/// An optional numeric field is acceptable when absent or all digits in
/// range.
pub open spec fn num_ok(v: Option<Seq<char>>) -> bool {
    match v {
        None => true,
        Some(x) => is_digits(x) && digits_val(x) <= u64::MAX,
    }
}

/// The value of an optional numeric field.
pub open spec fn num_of(v: Option<Seq<char>>) -> Option<u64> {
    match v {
        None => None,
        Some(x) => Some(digits_val(x) as u64),
    }
}

/// The message fields denoted by a parsed element list: the receiver,
/// sender, creation time and kind are required, the rest are optional;
/// a missing required field or a malformed number is a decode error.
pub open spec fn spec_parse_fields(pairs: Seq<(Seq<char>, Seq<char>)>) -> Option<SpecMessage> {
    let to = lookup(pairs, "ToUserName"@);
    let from = lookup(pairs, "FromUserName"@);
    let ct = lookup(pairs, "CreateTime"@);
    let mt = lookup(pairs, "MsgType"@);
    let mid = lookup(pairs, "MsgId"@);
    let idx = lookup(pairs, "Idx"@);
    if to is Some && from is Some && ct is Some && mt is Some && is_digits(ct->Some_0)
        && digits_val(ct->Some_0) <= u64::MAX && num_ok(mid) && num_ok(idx) {
        Some(
            SpecMessage {
                to_user_name: to->Some_0,
                from_user_name: from->Some_0,
                create_time: digits_val(ct->Some_0) as u64,
                msg_type: mt->Some_0,
                content: lookup(pairs, "Content"@),
                msg_id: num_of(mid),
                idx: num_of(idx),
                event: lookup(pairs, "Event"@),
                event_key: lookup(pairs, "EventKey"@),
                ticket: lookup(pairs, "Ticket"@),
            },
        )
    } else {
        None
    }
}

/// The message denoted by a raw payload, if it parses.
pub open spec fn spec_parse_message(s: Seq<char>) -> Option<SpecMessage> {
    match parse_doc(s) {
        Some(pairs) => spec_parse_fields(pairs),
        None => None,
    }
}

/// Builds a decode error carrying the given detail.
fn decode_error(detail: &str) -> (r: WechatError)
    ensures
        r is DecodeError,
{
    WechatError::DecodeError { detail: detail.to_owned() }
}

/// Looks a tag up in the parsed element list and returns its value as a
/// string.
fn field_string(pairs: &Vec<(Vec<char>, Vec<char>)>, tag: &str) -> (r: Option<String>)
    ensures
        match lookup(pairs.deep_view(), tag@) {
            Some(val) => (r matches Some(x) && x@ == val),
            None => r is None,
        },
{
    let key = string_to_chars(tag);
    match lookup_exec(pairs, &key) {
        Some(v) => Some(chars_to_string(&v)),
        None => None,
    }
}

/// Looks a numeric tag up; distinguishes absence, a good number and a
/// malformed one.
fn field_u64(pairs: &Vec<(Vec<char>, Vec<char>)>, tag: &str) -> (r: Result<Option<u64>, ()>)
    ensures
        match lookup(pairs.deep_view(), tag@) {
            Some(val) => if is_digits(val) && digits_val(val) <= u64::MAX {
                r matches Ok(x) && x == Some(digits_val(val) as u64)
            } else {
                r is Err
            },
            None => r matches Ok(x) && x is None,
        },
{
    let key = string_to_chars(tag);
    match lookup_exec(pairs, &key) {
        Some(v) => match parse_u64_chars(&v) {
            Some(n) => Ok(Some(n)),
            None => Err(()),
        },
        None => Ok(None),
    }
}

/// Parses a raw payload into its flat field set; the result is exactly
/// the message `spec_parse_message` denotes, and every malformed payload
/// is a decode error.
pub fn parse_message(raw: &str) -> (r: Result<WechatMessage, WechatError>)
    ensures
        match spec_parse_message(raw@) {
            Some(m) => (r matches Ok(x) && x@ == m),
            None => (r matches Err(e) && e is DecodeError),
        },
{
    let chars = string_to_chars(raw);
    let pairs = match parse_doc_exec(&chars) {
        Some(p) => p,
        None => {
            return Err(decode_error("malformed document"));
        },
    };
    let to_user_name = match field_string(&pairs, "ToUserName") {
        Some(x) => x,
        None => {
            return Err(decode_error("missing ToUserName"));
        },
    };
    let from_user_name = match field_string(&pairs, "FromUserName") {
        Some(x) => x,
        None => {
            return Err(decode_error("missing FromUserName"));
        },
    };
    let create_time = match field_u64(&pairs, "CreateTime") {
        Ok(Some(n)) => n,
        Ok(None) => {
            return Err(decode_error("missing CreateTime"));
        },
        Err(()) => {
            return Err(decode_error("malformed CreateTime"));
        },
    };
    let msg_type = match field_string(&pairs, "MsgType") {
        Some(x) => x,
        None => {
            return Err(decode_error("missing MsgType"));
        },
    };
    let msg_id = match field_u64(&pairs, "MsgId") {
        Ok(x) => x,
        Err(()) => {
            return Err(decode_error("malformed MsgId"));
        },
    };
    let idx = match field_u64(&pairs, "Idx") {
        Ok(x) => x,
        Err(()) => {
            return Err(decode_error("malformed Idx"));
        },
    };
    let content = field_string(&pairs, "Content");
    let event = field_string(&pairs, "Event");
    let event_key = field_string(&pairs, "EventKey");
    let ticket = field_string(&pairs, "Ticket");
    Ok(
        WechatMessage {
            to_user_name,
            from_user_name,
            create_time,
            msg_type,
            content,
            msg_id,
            idx,
            event,
            event_key,
            ticket,
        },
    )
}

/// The secondary discriminant of a decoded event message.
#[derive(Debug, Clone, PartialEq, Eq)]
pub enum EventKind {
    Subscribe,
    Unsubscribe,
    Scan { event_key: String, ticket: String },
}

/// The mathematical image of an [`EventKind`].
pub enum SpecEventKind {
    Subscribe,
    Unsubscribe,
    Scan { event_key: Seq<char>, ticket: Seq<char> },
}

impl View for EventKind {
    type V = SpecEventKind;

    open spec fn view(&self) -> SpecEventKind {
        match self {
            EventKind::Subscribe => SpecEventKind::Subscribe,
            EventKind::Unsubscribe => SpecEventKind::Unsubscribe,
            EventKind::Scan { event_key, ticket } => SpecEventKind::Scan {
                event_key: event_key@,
                ticket: ticket@,
            },
        }
    }
}

/// The tagged variant of a decoded message.
#[derive(Debug, Clone, PartialEq, Eq)]
pub enum MessageBody {
    Text { content: String },
    Image,
    Voice,
    Video,
    MiniProgramCard,
    ShortVideo,
    Location,
    Link,
    Event { event: EventKind },
}

/// The mathematical image of a [`MessageBody`].
pub enum SpecBody {
    Text { content: Seq<char> },
    Image,
    Voice,
    Video,
    MiniProgramCard,
    ShortVideo,
    Location,
    Link,
    Event { event: SpecEventKind },
}

impl View for MessageBody {
    type V = SpecBody;

    open spec fn view(&self) -> SpecBody {
        match self {
            MessageBody::Text { content } => SpecBody::Text { content: content@ },
            MessageBody::Image => SpecBody::Image,
            MessageBody::Voice => SpecBody::Voice,
            MessageBody::Video => SpecBody::Video,
            MessageBody::MiniProgramCard => SpecBody::MiniProgramCard,
            MessageBody::ShortVideo => SpecBody::ShortVideo,
            MessageBody::Location => SpecBody::Location,
            MessageBody::Link => SpecBody::Link,
            MessageBody::Event { event } => SpecBody::Event { event: event@ },
        }
    }
}

/// A fully decoded inbound message: the common fields and the variant.
#[derive(Debug, Clone, PartialEq, Eq)]
pub struct InboundMessage {
    /// The receiving account identifier.
    pub target_account: String,
    /// The sending user identifier.
    pub source_user: String,
    /// The platform-supplied creation timestamp.
    pub created_at: u64,
    /// The decoded variant.
    pub body: MessageBody,
}

/// The mathematical image of an [`InboundMessage`].
pub struct SpecInbound {
    pub target_account: Seq<char>,
    pub source_user: Seq<char>,
    pub created_at: u64,
    pub body: SpecBody,
}

impl View for InboundMessage {
    type V = SpecInbound;

    open spec fn view(&self) -> SpecInbound {
        SpecInbound {
            target_account: self.target_account@,
            source_user: self.source_user@,
            created_at: self.created_at,
            body: self.body@,
        }
    }
}

/// A recognized primary message-kind discriminant.
pub open spec fn recognized_kind(mt: Seq<char>) -> bool {
    mt == "text"@ || mt == "image"@ || mt == "voice"@ || mt == "video"@ || mt
        == "miniprogrampage"@ || mt == "shortvideo"@ || mt == "location"@ || mt == "link"@ || mt
        == "event"@
}

/// The variant denoted by a parsed message: dispatch on the kind, then
/// for events on the event kind; an unrecognized or missing discriminant
/// and a missing variant-required field are decode errors.
pub open spec fn spec_classify(m: SpecMessage) -> Option<SpecBody> {
    if m.msg_type == "text"@ {
        match m.content {
            Some(c) => Some(SpecBody::Text { content: c }),
            None => None,
        }
    } else if m.msg_type == "image"@ {
        Some(SpecBody::Image)
    } else if m.msg_type == "voice"@ {
        Some(SpecBody::Voice)
    } else if m.msg_type == "video"@ {
        Some(SpecBody::Video)
    } else if m.msg_type == "miniprogrampage"@ {
        Some(SpecBody::MiniProgramCard)
    } else if m.msg_type == "shortvideo"@ {
        Some(SpecBody::ShortVideo)
    } else if m.msg_type == "location"@ {
        Some(SpecBody::Location)
    } else if m.msg_type == "link"@ {
        Some(SpecBody::Link)
    } else if m.msg_type == "event"@ {
        match m.event {
            Some(e) => if e == "subscribe"@ {
                Some(SpecBody::Event { event: SpecEventKind::Subscribe })
            } else if e == "unsubscribe"@ {
                Some(SpecBody::Event { event: SpecEventKind::Unsubscribe })
            } else if e == "SCAN"@ {
                if m.event_key is Some && m.ticket is Some {
                    Some(
                        SpecBody::Event {
                            event: SpecEventKind::Scan {
                                event_key: m.event_key->Some_0,
                                ticket: m.ticket->Some_0,
                            },
                        },
                    )
                } else {
                    None
                }
            } else {
                None
            },
            None => None,
        }
    } else {
        None
    }
}

/// The decoded message denoted by a raw payload.
pub open spec fn spec_decode(s: Seq<char>) -> Option<SpecInbound> {
    match spec_parse_message(s) {
        Some(m) => match spec_classify(m) {
            Some(b) => Some(
                SpecInbound {
                    target_account: m.to_user_name,
                    source_user: m.from_user_name,
                    created_at: m.create_time,
                    body: b,
                },
            ),
            None => None,
        },
        None => None,
    }
}

/// Selects the variant of a parsed message, exactly as `spec_classify`
/// denotes it.
pub fn classify(m: &WechatMessage) -> (r: Result<MessageBody, WechatError>)
    ensures
        match spec_classify(m@) {
            Some(b) => (r matches Ok(x) && x@ == b),
            None => (r matches Err(e) && e is DecodeError),
        },
{
    if str_eq(m.msg_type.as_str(), "text") {
        match &m.content {
            Some(c) => Ok(MessageBody::Text { content: c.clone() }),
            None => Err(decode_error("text message without content")),
        }
    } else if str_eq(m.msg_type.as_str(), "image") {
        Ok(MessageBody::Image)
    } else if str_eq(m.msg_type.as_str(), "voice") {
        Ok(MessageBody::Voice)
    } else if str_eq(m.msg_type.as_str(), "video") {
        Ok(MessageBody::Video)
    } else if str_eq(m.msg_type.as_str(), "miniprogrampage") {
        Ok(MessageBody::MiniProgramCard)
    } else if str_eq(m.msg_type.as_str(), "shortvideo") {
        Ok(MessageBody::ShortVideo)
    } else if str_eq(m.msg_type.as_str(), "location") {
        Ok(MessageBody::Location)
    } else if str_eq(m.msg_type.as_str(), "link") {
        Ok(MessageBody::Link)
    } else if str_eq(m.msg_type.as_str(), "event") {
        match &m.event {
            Some(e) => {
                if str_eq(e.as_str(), "subscribe") {
                    Ok(MessageBody::Event { event: EventKind::Subscribe })
                } else if str_eq(e.as_str(), "unsubscribe") {
                    Ok(MessageBody::Event { event: EventKind::Unsubscribe })
                } else if str_eq(e.as_str(), "SCAN") {
                    match (&m.event_key, &m.ticket) {
                        (Some(k), Some(t)) => Ok(
                            MessageBody::Event {
                                event: EventKind::Scan {
                                    event_key: k.clone(),
                                    ticket: t.clone(),
                                },
                            },
                        ),
                        _ => Err(decode_error("scan event without key or ticket")),
                    }
                } else {
                    Err(decode_error("unrecognized event kind"))
                }
            },
            None => Err(decode_error("event message without event kind")),
        }
    } else {
        Err(decode_error("unrecognized message kind"))
    }
}

/// Decodes a verified raw payload into a tagged inbound message; the
/// result is exactly what `spec_decode` denotes, and every malformed or
/// unrecognized payload is a decode error.
pub fn decode(raw: &str) -> (r: Result<InboundMessage, WechatError>)
    ensures
        match spec_decode(raw@) {
            Some(m) => (r matches Ok(x) && x@ == m),
            None => (r matches Err(e) && e is DecodeError),
        },
{
    let m = match parse_message(raw) {
        Ok(m) => m,
        Err(e) => {
            return Err(e);
        },
    };
    let body = match classify(&m) {
        Ok(b) => b,
        Err(e) => {
            return Err(e);
        },
    };
    Ok(
        InboundMessage {
            target_account: m.to_user_name,
            source_user: m.from_user_name,
            created_at: m.create_time,
            body,
        },
    )
}

/// A payload whose kind discriminant is unrecognized never decodes.
pub proof fn lemma_unknown_kind_rejected(s: Seq<char>)
    requires
        spec_parse_message(s) matches Some(m) && !recognized_kind(m.msg_type),
    ensures
        spec_decode(s) is None,
{
}

/// A reply payload: the outbound counterpart of an inbound message.
#[derive(Debug, Clone, PartialEq, Eq)]
pub struct WeChatResponse {
    pub to_user_name: String,
    pub from_user_name: String,
    pub create_time: u64,
    pub msg_type: String,
    pub content: String,
}

/// The mathematical image of a [`WeChatResponse`].
pub struct SpecResponse {
    pub to_user_name: Seq<char>,
    pub from_user_name: Seq<char>,
    pub create_time: u64,
    pub msg_type: Seq<char>,
    pub content: Seq<char>,
}

impl View for WeChatResponse {
    type V = SpecResponse;

    open spec fn view(&self) -> SpecResponse {
        SpecResponse {
            to_user_name: self.to_user_name@,
            from_user_name: self.from_user_name@,
            create_time: self.create_time,
            msg_type: self.msg_type@,
            content: self.content@,
        }
    }
}

/// The element list a reply serializes to, in the order the platform
/// expects.
pub open spec fn response_pairs(r: SpecResponse) -> Seq<(Seq<char>, Seq<char>)> {
    seq![
        ("ToUserName"@, r.to_user_name),
        ("FromUserName"@, r.from_user_name),
        ("CreateTime"@, dec_chars(r.create_time as int)),
        ("MsgType"@, r.msg_type),
        ("Content"@, r.content),
    ]
}

/// The serialized form of a reply.
pub open spec fn spec_encode_response(r: SpecResponse) -> Seq<char> {
    encode_doc(response_pairs(r))
}

/// Serializes a reply into the markup document the platform accepts.
#[verifier::rlimit(100)]
pub fn encode_response(message: &WeChatResponse) -> (r: String)
    ensures
        r@ == spec_encode_response(message@),
{
    let mut out: Vec<char> = Vec::new();
    out.push('<');
    out.push('x');
    out.push('m');
    out.push('l');
    out.push('>');
    proof {
        assert(out@ =~= xml_open());
    }
    let tag_to = string_to_chars("ToUserName");
    let tag_from = string_to_chars("FromUserName");
    let tag_ct = string_to_chars("CreateTime");
    let tag_mt = string_to_chars("MsgType");
    let tag_content = string_to_chars("Content");
    let val_to = string_to_chars(message.to_user_name.as_str());
    let val_from = string_to_chars(message.from_user_name.as_str());
    let val_ct = u64_to_chars(message.create_time);
    let val_mt = string_to_chars(message.msg_type.as_str());
    let val_content = string_to_chars(message.content.as_str());
    push_elem(&mut out, &tag_to, &val_to);
    push_elem(&mut out, &tag_from, &val_from);
    push_elem(&mut out, &tag_ct, &val_ct);
    push_elem(&mut out, &tag_mt, &val_mt);
    push_elem(&mut out, &tag_content, &val_content);
    out.push('<');
    out.push('/');
    out.push('x');
    out.push('m');
    out.push('l');
    out.push('>');
    proof {
        let ps = response_pairs(message@);
        let p1 = ps.skip(1);
        let p2 = ps.skip(2);
        let p3 = ps.skip(3);
        let p4 = ps.skip(4);
        let p5 = ps.skip(5);
        assert(p1.skip(1) =~= p2);
        assert(p2.skip(1) =~= p3);
        assert(p3.skip(1) =~= p4);
        assert(p4.skip(1) =~= p5);
        assert(p5.len() == 0);
        assert(encode_elems(p5) =~= Seq::<char>::empty());
        assert(encode_elems(ps) == encode_elem(ps[0].0, ps[0].1) + encode_elems(p1));
        assert(encode_elems(p1) == encode_elem(p1[0].0, p1[0].1) + encode_elems(p2));
        assert(encode_elems(p2) == encode_elem(p2[0].0, p2[0].1) + encode_elems(p3));
        assert(encode_elems(p3) == encode_elem(p3[0].0, p3[0].1) + encode_elems(p4));
        assert(encode_elems(p4) == encode_elem(p4[0].0, p4[0].1) + encode_elems(p5));
        assert(out@ =~= xml_open() + encode_elems(ps) + xml_close());
    }
    chars_to_string(&out)
}

/// Relies on `chrono::Utc::now` for the reply timestamp; nothing is
/// assumed of the value it returns.
#[verifier::external_body]
fn unix_now_seconds() -> u64 {
    chrono::Utc::now().timestamp() as u64
}

impl WechatMessage {
    /// Builds a plain-text reply stamped with the given time, treated
    /// as an input value: sender and receiver are swapped, the kind is
    /// fixed to text, the body is `content`, the stamp is `created_at`.
    pub fn plaintext_at(&self, content: &str, created_at: u64) -> (r: WeChatResponse)
        ensures
            r@.to_user_name == self@.from_user_name,
            r@.from_user_name == self@.to_user_name,
            r@.create_time == created_at,
            r@.msg_type == "text"@,
            r@.content == content@,
    {
        WeChatResponse {
            to_user_name: self.from_user_name.clone(),
            from_user_name: self.to_user_name.clone(),
            create_time: created_at,
            msg_type: "text".to_owned(),
            content: content.to_owned(),
        }
    }

    /// Builds a plain-text reply stamped with the current time: exactly
    /// `plaintext_at` with the clock's value as the stamp.
    pub fn plaintext(&self, content: &str) -> (r: WeChatResponse)
        ensures
            r@.to_user_name == self@.from_user_name,
            r@.from_user_name == self@.to_user_name,
            r@.msg_type == "text"@,
            r@.content == content@,
    {
        let now = unix_now_seconds();
        self.plaintext_at(content, now)
    }
}

/// A decoded webhook delivery, as handed to the application handler.
#[derive(Debug, Clone, PartialEq, Eq)]
pub struct MessageHandler {
    pub message: WechatMessage,
}

impl MessageHandler {
    /// Serializes a reply; serialization of a well-formed reply always
    /// succeeds.
    pub fn to_string(&self, message: &WeChatResponse) -> (r: Result<String, WechatError>)
        ensures
            r matches Ok(s) && s@ == spec_encode_response(message@),
    {
        Ok(encode_response(message))
    }
}

impl OfficialAccount {
    /// The webhook delivery pipeline: authenticate the request, then -
    /// and only then - parse the payload.  A non-matching signature is
    /// rejected before any payload parsing occurs.
    pub fn handle_webhook(&self, query: &WechatQuery, body: &str) -> (r: Result<
        MessageHandler,
        WechatError,
    >)
        ensures
            query.signature@ != spec_signature(
                self.config.token@,
                query.timestamp@,
                query.nonce@,
            ) ==> (r matches Err(e) && e == WechatError::SignatureInvalid),
            query.signature@ == spec_signature(
                self.config.token@,
                query.timestamp@,
                query.nonce@,
            ) ==> match spec_parse_message(body@) {
                Some(m) => (r matches Ok(h) && h.message@ == m),
                None => (r matches Err(e) && e is DecodeError),
            },
    {
        if !self.request_validate(query) {
            return Err(WechatError::SignatureInvalid);
        }
        match parse_message(body) {
            Ok(message) => Ok(MessageHandler { message }),
            Err(e) => Err(e),
        }
    }

    /// The webhook delivery pipeline, through to the classified message:
    /// authenticate the request, then - and only then - decode the
    /// payload into its tagged variant.  An unrecognized or missing kind
    /// discriminant is a decode error of the pipeline.
    pub fn handle_webhook_decoded(&self, query: &WechatQuery, body: &str) -> (r: Result<
        InboundMessage,
        WechatError,
    >)
        ensures
            query.signature@ != spec_signature(
                self.config.token@,
                query.timestamp@,
                query.nonce@,
            ) ==> (r matches Err(e) && e == WechatError::SignatureInvalid),
            query.signature@ == spec_signature(
                self.config.token@,
                query.timestamp@,
                query.nonce@,
            ) ==> match spec_decode(body@) {
                Some(m) => (r matches Ok(x) && x@ == m),
                None => (r matches Err(e) && e is DecodeError),
            },
    {
        if !self.request_validate(query) {
            return Err(WechatError::SignatureInvalid);
        }
        decode(body)
    }
}

/// The five reply tags are well-formed element names.
proof fn lemma_response_tags_wf()
    ensures
        wf_name("ToUserName"@),
        wf_name("FromUserName"@),
        wf_name("CreateTime"@),
        wf_name("MsgType"@),
        wf_name("Content"@),
{
    reveal_strlit("ToUserName");
    reveal_strlit("FromUserName");
    reveal_strlit("CreateTime");
    reveal_strlit("MsgType");
    reveal_strlit("Content");
    assert forall|i: int| 0 <= i < "ToUserName"@.len() implies is_name_char(
        #[trigger] "ToUserName"@[i],
    ) by {
        assert("ToUserName"@.len() == 10);
    }
    assert forall|i: int| 0 <= i < "FromUserName"@.len() implies is_name_char(
        #[trigger] "FromUserName"@[i],
    ) by {
        assert("FromUserName"@.len() == 12);
    }
    assert forall|i: int| 0 <= i < "CreateTime"@.len() implies is_name_char(
        #[trigger] "CreateTime"@[i],
    ) by {
        assert("CreateTime"@.len() == 10);
    }
    assert forall|i: int| 0 <= i < "MsgType"@.len() implies is_name_char(
        #[trigger] "MsgType"@[i],
    ) by {
        assert("MsgType"@.len() == 7);
    }
    assert forall|i: int| 0 <= i < "Content"@.len() implies is_name_char(
        #[trigger] "Content"@[i],
    ) by {
        assert("Content"@.len() == 7);
    }
}

/// Decoding the re-encoded text reply round-trips: the decoded message
/// carries the reply's receiver as target, its sender as source, its
/// timestamp, and its content as the text body.
pub proof fn lemma_reply_round_trip(r: SpecResponse)
    requires
        r.msg_type == "text"@,
    ensures
        spec_decode(spec_encode_response(r)) == Some(
            SpecInbound {
                target_account: r.to_user_name,
                source_user: r.from_user_name,
                created_at: r.create_time,
                body: SpecBody::Text { content: r.content },
            },
        ),
{
    lemma_response_tags_wf();
    let ps = response_pairs(r);
    assert(wf_pairs(ps));
    lemma_parse_doc_encode(ps);
    assert(parse_doc(spec_encode_response(r)) == Some(ps));
    let p1 = ps.skip(1);
    let p2 = ps.skip(2);
    let p3 = ps.skip(3);
    let p4 = ps.skip(4);
    let p5 = ps.skip(5);
    assert(p1.skip(1) =~= p2);
    assert(p2.skip(1) =~= p3);
    assert(p3.skip(1) =~= p4);
    assert(p4.skip(1) =~= p5);
    assert(p5.len() == 0);
    reveal_with_fuel(lookup, 8);
    reveal_strlit("ToUserName");
    reveal_strlit("FromUserName");
    reveal_strlit("CreateTime");
    reveal_strlit("MsgType");
    reveal_strlit("Content");
    reveal_strlit("MsgId");
    reveal_strlit("Idx");
    reveal_strlit("Event");
    reveal_strlit("EventKey");
    reveal_strlit("Ticket");
    reveal_strlit("text");
    reveal_strlit("image");
    reveal_strlit("voice");
    reveal_strlit("video");
    reveal_strlit("miniprogrampage");
    reveal_strlit("shortvideo");
    reveal_strlit("location");
    reveal_strlit("link");
    reveal_strlit("event");
    assert(lookup(ps, "ToUserName"@) == Some(r.to_user_name));
    assert(lookup(ps, "FromUserName"@) == Some(r.from_user_name));
    assert(lookup(ps, "CreateTime"@) == Some(dec_chars(r.create_time as int)));
    assert(lookup(ps, "MsgType"@) == Some(r.msg_type));
    assert("MsgType"@ != "Content"@) by {
        if "MsgType"@ == "Content"@ {
            assert("MsgType"@[0] == "Content"@[0]);
        }
    };
    assert(lookup(ps, "Content"@) == Some(r.content));
    assert(lookup(ps, "MsgId"@) is None);
    assert(lookup(ps, "Idx"@) is None);
    assert(lookup(ps, "Event"@) is None);
    assert(lookup(ps, "EventKey"@) is None);
    assert(lookup(ps, "Ticket"@) is None);
    lemma_dec_chars_val(r.create_time as int);
    let m = spec_parse_fields(ps)->Some_0;
    assert(spec_parse_fields(ps) is Some);
    assert(m.msg_type == "text"@);
    assert(m.content == Some(r.content));
    assert(spec_classify(m) == Some(SpecBody::Text { content: r.content }));
}

} // verus!
