//! The quota endpoint: a single token-bearing call that clears the
//! account's API call quota.
use vstd::prelude::*;

use crate::OfficialAccount;
use crate::errors::WechatError;
use crate::flow::{SpecStep, Step};
use crate::json::{jstr_escape, push_jstr_escaped};
use crate::official_account::oauth::BasicResponse;
use crate::text::push_char;
use vstd::string::StringExecFns;

verus! {

/// The quota-clearing URL for a given credential.
pub open spec fn spec_clear_quota_url(token: Seq<char>) -> Seq<char> {
    "https://api.weixin.qq.com/cgi-bin/clear_quota?access_token="@ + token
}

/// The JSON body of a quota-clearing call.
pub open spec fn spec_quota_body(appid: Seq<char>) -> Seq<char> {
    "{\"appid\":\""@ + jstr_escape(appid) + "\"}"@
}

impl OfficialAccount {
    /// The one remote call of the quota clearing, given the shared
    /// credential.
    pub fn clear_quota_request(&self, token: &str) -> (s: Step<()>)
        ensures
            s@ == (SpecStep::HttpPostJson::<()> {
                url: spec_clear_quota_url(token@),
                body: spec_quota_body(self.config.appid@),
            }),
    {
        let mut url = String::from_str(
            "https://api.weixin.qq.com/cgi-bin/clear_quota?access_token=",
        );
        url.append(token);
        let mut body = String::from_str("{\"appid\":\"");
        push_jstr_escaped(&mut body, self.config.appid.as_str());
        push_char(&mut body, '"');
        push_char(&mut body, '}');
        proof {
            reveal_strlit("\"}");
            assert(body@ =~= spec_quota_body(self.config.appid@));
        }
        Step::HttpPostJson { url, body }
    }
}

/// Ends the quota clearing: any parsed envelope counts as done, a
/// parse failure is surfaced.
pub fn clear_quota_on_response(parsed: Result<BasicResponse, WechatError>) -> (s: Step<()>)
    ensures
        parsed is Ok ==> s@ == (SpecStep::Done::<()> { result: Ok(()) }),
        parsed matches Err(e) ==> s@ == (SpecStep::Done::<()> { result: Err(e) }),
{
    match parsed {
        Ok(_) => Step::Done { result: Ok(()) },
        Err(e) => Step::Done { result: Err(e) },
    }
}

} // verus!
