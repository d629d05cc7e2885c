//! The account-scoped user lookup: a single token-bearing call that
//! fetches a user's profile by open id.
use vstd::prelude::*;

use crate::errors::WechatError;
use crate::flow::{SpecStep, Step};
use crate::official_account::oauth::UserInfoResponse;
use vstd::string::StringExecFns;

verus! {

/// The user-lookup URL for a given credential and user identifier.
pub open spec fn spec_user_info_url(token: Seq<char>, open_id: Seq<char>) -> Seq<char> {
    "https://api.weixin.qq.com/cgi-bin/user/info?access_token="@ + token + "&openid="@ + open_id
        + "&lang=zh_CN"@
}

/// The one remote call of the user lookup, given the shared credential.
pub fn get_user_request(token: &str, open_id: &str) -> (s: Step<UserInfoResponse>)
    ensures
        s@ == (SpecStep::HttpGet::<<UserInfoResponse as View>::V> {
            url: spec_user_info_url(token@, open_id@),
        }),
{
    let mut url = String::from_str("https://api.weixin.qq.com/cgi-bin/user/info?access_token=");
    url.append(token);
    url.append("&openid=");
    url.append(open_id);
    url.append("&lang=zh_CN");
    Step::HttpGet { url }
}

/// Ends the user lookup with the parsed outcome.
pub fn get_user_on_response(parsed: Result<UserInfoResponse, WechatError>) -> (s: Step<
    UserInfoResponse,
>)
    ensures
        s@ == (SpecStep::Done::<<UserInfoResponse as View>::V> {
            result: match parsed {
                Ok(u) => Ok(u@),
                Err(e) => Err(e),
            },
        }),
{
    Step::Done { result: parsed }
}

} // verus!
