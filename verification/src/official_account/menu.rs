//! The custom-menu endpoint: a single token-bearing call that deletes
//! every custom menu of the account.
use vstd::prelude::*;

use crate::errors::WechatError;
use crate::flow::{SpecStep, Step};
use crate::json::{json_get_i64, json_get_string, json_i64_field, json_string_field};
use crate::official_account::oauth::BasicResponse;
use vstd::string::StringExecFns;

verus! {

/// The menu-deletion URL for a given credential.
pub open spec fn spec_delete_menu_url(token: Seq<char>) -> Seq<char> {
    "https://api.weixin.qq.com/cgi-bin/menu/delete?access_token="@ + token
}

/// The one remote call of the menu deletion, given the shared
/// credential.
pub fn delete_menu_request(token: &str) -> (s: Step<String>)
    ensures
        s@ == (SpecStep::HttpPost::<Seq<char>> { url: spec_delete_menu_url(token@) }),
{
    let mut url = String::from_str("https://api.weixin.qq.com/cgi-bin/menu/delete?access_token=");
    url.append(token);
    Step::HttpPost { url }
}

/// Ends the menu deletion: any parsed envelope counts as done, a parse
/// failure is surfaced.
pub fn delete_menu_on_response(parsed: Result<BasicResponse, WechatError>) -> (s: Step<String>)
    ensures
        parsed is Ok ==> s@ == (SpecStep::Done::<Seq<char>> { result: Ok("ok"@) }),
        parsed matches Err(e) ==> s@ == (SpecStep::Done::<Seq<char>> { result: Err(e) }),
{
    match parsed {
        Ok(_) => Step::Done { result: Ok("ok".to_owned()) },
        Err(e) => Step::Done { result: Err(e) },
    }
}

/// The shape of an assembled envelope response: both fields present and
/// carried unchanged, else a decode error.
pub open spec fn basic_response_shape(
    r: Result<BasicResponse, WechatError>,
    errcode: Option<i64>,
    errmsg: Option<Seq<char>>,
) -> bool {
    match (errcode, errmsg) {
        (Some(c), Some(m)) => r matches Ok(b) && b.errcode == c && b.errmsg@ == m,
        _ => r matches Err(e) && e is DecodeError,
    }
}

/// Decides what an envelope response means, given its extracted fields:
/// both fields must be present, and they are carried unchanged.
pub fn assemble_basic_response(errcode: Option<i64>, errmsg: Option<String>) -> (r: Result<
    BasicResponse,
    WechatError,
>)
    ensures
        basic_response_shape(r, errcode, errmsg.deep_view()),
{
    match (errcode, errmsg) {
        (Some(c), Some(m)) => Ok(BasicResponse { errcode: c, errmsg: m }),
        _ => Err(
            WechatError::DecodeError { detail: "envelope response missing fields".to_owned() },
        ),
    }
}

/// Parses an envelope response body: both fields are named functions of
/// the body and are carried unchanged; anything else is a decode error.
pub fn parse_basic_body(body: &str) -> (r: Result<BasicResponse, WechatError>)
    ensures
        basic_response_shape(
            r,
            json_i64_field(body@, "errcode"@),
            json_string_field(body@, "errmsg"@),
        ),
{
    assemble_basic_response(json_get_i64(body, "errcode"), json_get_string(body, "errmsg"))
}

} // verus!
