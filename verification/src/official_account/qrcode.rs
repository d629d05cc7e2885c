//! Parametric QR-code tickets: building the creation request, encoding
//! it for the wire, and turning a ticket into a displayable image URL.
use vstd::prelude::*;

use crate::OfficialAccount;
use crate::errors::{WechatError, remote_error_shape};
use crate::flow::{SpecStep, Step};
use crate::json::{
    json_get_i64, json_get_string, json_get_u64, json_i64_field, json_string_field,
    json_u64_field, jstr_escape, push_jstr_escaped,
};
use crate::text::{chars_to_string, dec_chars, u64_to_chars};
use crate::urlquery::{url_encode, urlencoded_of};
use vstd::string::StringExecFns;

verus! {

/// The smallest expiry a temporary ticket may carry, in seconds.
pub const QR_EXPIRE_MIN: u64 = 60;

/// The largest expiry a temporary ticket may carry, in seconds.
pub const QR_EXPIRE_MAX: u64 = 2592000;

/// The kind of QR scene being requested.
#[derive(Debug, Clone, PartialEq, Eq)]
pub enum TicketActionName {
    QrScene,
    QrStrScene,
    QrLimitScene,
    QrLimitStrScene,
}

/// The wire name of a QR action kind.
pub open spec fn spec_action_name(a: TicketActionName) -> Seq<char> {
    match a {
        TicketActionName::QrScene => "QR_SCENE"@,
        TicketActionName::QrStrScene => "QR_STR_SCENE"@,
        TicketActionName::QrLimitScene => "QR_LIMIT_SCENE"@,
        TicketActionName::QrLimitStrScene => "QR_LIMIT_STR_SCENE"@,
    }
}

/// The scene of a QR ticket: a numeric or a string key.
#[derive(Debug, Clone, PartialEq, Eq)]
pub struct TicketScene {
    pub scene_id: Option<u32>,
    pub scene_str: Option<String>,
}

/// The scene wrapper the wire format expects.
#[derive(Debug, Clone, PartialEq, Eq)]
pub struct TicketActionInfo {
    pub scene: TicketScene,
}

/// A QR ticket creation request.
#[derive(Debug, Clone, PartialEq, Eq)]
pub struct TicketRequest {
    pub expire_seconds: u64,
    pub action_name: TicketActionName,
    pub action_info: TicketActionInfo,
}

/// The mathematical image of a [`TicketScene`].
pub struct SpecTicketScene {
    pub scene_id: Option<u32>,
    pub scene_str: Option<Seq<char>>,
}

impl View for TicketScene {
    type V = SpecTicketScene;

    open spec fn view(&self) -> SpecTicketScene {
        SpecTicketScene { scene_id: self.scene_id, scene_str: self.scene_str.deep_view() }
    }
}

/// The mathematical image of a [`TicketRequest`].
pub struct SpecTicketRequest {
    pub expire_seconds: u64,
    pub action_name: TicketActionName,
    pub scene: SpecTicketScene,
}

impl View for TicketRequest {
    type V = SpecTicketRequest;

    open spec fn view(&self) -> SpecTicketRequest {
        SpecTicketRequest {
            expire_seconds: self.expire_seconds,
            action_name: self.action_name,
            scene: self.action_info.scene@,
        }
    }
}

/// A created ticket as the endpoint returns it.
#[derive(Debug, Clone, PartialEq, Eq)]
pub struct TicketResponse {
    pub ticket: String,
    pub expire_seconds: u64,
    pub url: String,
}

/// The mathematical image of a [`TicketResponse`].
pub struct SpecTicketResponse {
    pub ticket: Seq<char>,
    pub expire_seconds: u64,
    pub url: Seq<char>,
}

impl View for TicketResponse {
    type V = SpecTicketResponse;

    open spec fn view(&self) -> SpecTicketResponse {
        SpecTicketResponse {
            ticket: self.ticket@,
            expire_seconds: self.expire_seconds,
            url: self.url@,
        }
    }
}

/// The expiry a request carries: clamped into the platform's bounds.
pub open spec fn spec_clamp_expire(exp: u64) -> u64 {
    if exp < QR_EXPIRE_MIN {
        QR_EXPIRE_MIN
    } else if exp > QR_EXPIRE_MAX {
        QR_EXPIRE_MAX
    } else {
        exp
    }
}

/// The scene key of a temporary ticket request.
#[derive(Debug, Clone, PartialEq, Eq)]
pub enum SceneValue {
    Id(u32),
    Str(String),
}

/// Builds a temporary-ticket request: a string key selects the string
/// scene, a numeric key the numeric one, and the expiry is clamped into
/// the platform's bounds.
pub fn build_tmp_qr_request(exp: u64, scene: SceneValue) -> (r: TicketRequest)
    ensures
        r.expire_seconds == spec_clamp_expire(exp),
        match scene {
            SceneValue::Str(s) => r.action_name == TicketActionName::QrStrScene
                && r.action_info.scene.scene_id is None && (r.action_info.scene.scene_str matches
            Some(x) && x@ == s@),
            SceneValue::Id(i) => r.action_name == TicketActionName::QrScene
                && r.action_info.scene.scene_id == Some(i)
                && r.action_info.scene.scene_str is None,
        },
{
    let expire_seconds = if exp < QR_EXPIRE_MIN {
        QR_EXPIRE_MIN
    } else if exp > QR_EXPIRE_MAX {
        QR_EXPIRE_MAX
    } else {
        exp
    };
    match scene {
        SceneValue::Str(s) => TicketRequest {
            expire_seconds,
            action_name: TicketActionName::QrStrScene,
            action_info: TicketActionInfo {
                scene: TicketScene { scene_id: None, scene_str: Some(s) },
            },
        },
        SceneValue::Id(i) => TicketRequest {
            expire_seconds,
            action_name: TicketActionName::QrScene,
            action_info: TicketActionInfo {
                scene: TicketScene { scene_id: Some(i), scene_str: None },
            },
        },
    }
}

/// The wire form of a scene: present keys only.
pub open spec fn spec_scene_json(s: SpecTicketScene) -> Seq<char> {
    match (s.scene_id, s.scene_str) {
        (None, None) => "{}"@,
        (Some(i), None) => "{\"scene_id\":"@ + dec_chars(i as int) + "}"@,
        (None, Some(t)) => "{\"scene_str\":\""@ + jstr_escape(t) + "\"}"@,
        (Some(i), Some(t)) => "{\"scene_id\":"@ + dec_chars(i as int) + ",\"scene_str\":\""@
            + jstr_escape(t) + "\"}"@,
    }
}

/// The wire form of a ticket creation request.
pub open spec fn spec_ticket_body(r: SpecTicketRequest) -> Seq<char> {
    "{\"expire_seconds\":"@ + dec_chars(r.expire_seconds as int) + ",\"action_name\":\""@
        + spec_action_name(r.action_name) + "\",\"action_info\":{\"scene\":"@ + spec_scene_json(
        r.scene,
    ) + "}}"@
}

/// Serializes a ticket creation request for the wire.
pub fn encode_ticket_request(req: &TicketRequest) -> (r: String)
    ensures
        r@ == spec_ticket_body(req@),
{
    let mut out = String::from_str("{\"expire_seconds\":");
    let digits = u64_to_chars(req.expire_seconds);
    let ds = chars_to_string(&digits);
    out.append(ds.as_str());
    out.append(",\"action_name\":\"");
    match &req.action_name {
        TicketActionName::QrScene => out.append("QR_SCENE"),
        TicketActionName::QrStrScene => out.append("QR_STR_SCENE"),
        TicketActionName::QrLimitScene => out.append("QR_LIMIT_SCENE"),
        TicketActionName::QrLimitStrScene => out.append("QR_LIMIT_STR_SCENE"),
    }
    out.append("\",\"action_info\":{\"scene\":");
    match (&req.action_info.scene.scene_id, &req.action_info.scene.scene_str) {
        (None, None) => out.append("{}"),
        (Some(i), None) => {
            out.append("{\"scene_id\":");
            let d = u64_to_chars(*i as u64);
            let dstr = chars_to_string(&d);
            out.append(dstr.as_str());
            out.append("}");
        },
        (None, Some(t)) => {
            out.append("{\"scene_str\":\"");
            push_jstr_escaped(&mut out, t.as_str());
            out.append("\"}");
        },
        (Some(i), Some(t)) => {
            out.append("{\"scene_id\":");
            let d = u64_to_chars(*i as u64);
            let dstr = chars_to_string(&d);
            out.append(dstr.as_str());
            out.append(",\"scene_str\":\"");
            push_jstr_escaped(&mut out, t.as_str());
            out.append("\"}");
        },
    }
    out.append("}}");
    proof {
        assert(out@ =~= spec_ticket_body(req@));
    }
    out
}

impl TicketResponse {
    /// The URL at which the QR image behind this ticket can be viewed.
    pub fn show_qrcode(&self) -> (r: String)
        ensures
            r@ == "https://mp.weixin.qq.com/cgi-bin/showqrcode?ticket="@ + urlencoded_of(
                self.ticket@,
            ),
    {
        let mut url = String::from_str("https://mp.weixin.qq.com/cgi-bin/showqrcode?ticket=");
        let et = url_encode(self.ticket.as_str());
        url.append(et.as_str());
        url
    }
}

impl OfficialAccount {
    /// The one remote call of a ticket creation, given the shared
    /// credential.
    pub fn qr_ticket_request(&self, token: &str, req: &TicketRequest) -> (s: Step<
        TicketResponse,
    >)
        ensures
            s@ == (SpecStep::HttpPostJson::<SpecTicketResponse> {
                url: "https://api.weixin.qq.com/cgi-bin/qrcode/create?access_token="@ + token@,
                body: spec_ticket_body(req@),
            }),
    {
        let mut url = String::from_str(
            "https://api.weixin.qq.com/cgi-bin/qrcode/create?access_token=",
        );
        url.append(token);
        let body = encode_ticket_request(req);
        Step::HttpPostJson { url, body }
    }

    /// Ends a ticket creation with the parsed outcome.
    pub fn qr_ticket_on_response(&self, parsed: Result<TicketResponse, WechatError>) -> (s: Step<
        TicketResponse,
    >)
        ensures
            s@ == (SpecStep::Done::<SpecTicketResponse> {
                result: match parsed {
                    Ok(t) => Ok(t@),
                    Err(e) => Err(e),
                },
            }),
    {
        Step::Done { result: parsed }
    }
}

/// The successful shape of an assembled ticket response: all three
/// fields present and carried unchanged, else a decode error.
pub open spec fn ticket_success_shape(
    r: Result<TicketResponse, WechatError>,
    ticket: Option<Seq<char>>,
    expire_seconds: Option<u64>,
    url: Option<Seq<char>>,
) -> bool {
    match (ticket, expire_seconds, url) {
        (Some(t), Some(x), Some(u)) => r matches Ok(tr) && tr.ticket@ == t && tr.expire_seconds
            == x && tr.url@ == u,
        _ => r matches Err(e) && e is DecodeError,
    }
}

/// Decides what a ticket response means, given its extracted fields.
pub fn assemble_ticket_response(
    ticket: Option<String>,
    expire_seconds: Option<u64>,
    url: Option<String>,
    errcode: Option<i64>,
    errmsg: Option<String>,
) -> (r: Result<TicketResponse, WechatError>)
    ensures
        match errcode {
            Some(c) => if c != 0 {
                remote_error_shape(r, c, errmsg.deep_view())
            } else {
                ticket_success_shape(r, ticket.deep_view(), expire_seconds, url.deep_view())
            },
            None => ticket_success_shape(r, ticket.deep_view(), expire_seconds, url.deep_view()),
        },
{
    let failed = match errcode {
        Some(c) => c != 0,
        None => false,
    };
    if failed {
        let c = match errcode {
            Some(c) => c,
            None => 0,
        };
        let message = match errmsg {
            Some(m) => m,
            None => String::new(),
        };
        return Err(WechatError::RemoteApiError { code: c, message });
    }
    match (ticket, expire_seconds, url) {
        (Some(t), Some(x), Some(u)) => Ok(
            TicketResponse { ticket: t, expire_seconds: x, url: u },
        ),
        _ => Err(
            WechatError::DecodeError { detail: "ticket response missing fields".to_owned() },
        ),
    }
}

/// Parses a ticket response body under the shared response policy,
/// every field a named function of the body.
pub fn parse_ticket_body(body: &str) -> (r: Result<TicketResponse, WechatError>)
    ensures
        match json_i64_field(body@, "errcode"@) {
            Some(c) => if c != 0 {
                remote_error_shape(r, c, json_string_field(body@, "errmsg"@))
            } else {
                ticket_success_shape(
                    r,
                    json_string_field(body@, "ticket"@),
                    json_u64_field(body@, "expire_seconds"@),
                    json_string_field(body@, "url"@),
                )
            },
            None => ticket_success_shape(
                r,
                json_string_field(body@, "ticket"@),
                json_u64_field(body@, "expire_seconds"@),
                json_string_field(body@, "url"@),
            ),
        },
{
    assemble_ticket_response(
        json_get_string(body, "ticket"),
        json_get_u64(body, "expire_seconds"),
        json_get_string(body, "url"),
        json_get_i64(body, "errcode"),
        json_get_string(body, "errmsg"),
    )
}

} // verus!
