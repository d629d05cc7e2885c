//! The platform-wide credential lifecycle: a read-through cache over the
//! credential store.  The verified step functions decide what to do at
//! each stage; the driver performs the cache and network actions.
//!
//! The read-then-refresh-then-write sequence is not atomic across the
//! whole flow: concurrent cache misses may each issue their own refresh
//! call, and their writes race to the shared key with the last one
//! winning.  Every write is a full overwrite, so the race wastes remote
//! calls but never corrupts the entry; either of two overlapping tokens
//! may be observed by readers during the overlap window.
use vstd::prelude::*;

use crate::OfficialAccount;
use crate::SpecConfig;
use crate::errors::{WechatError, remote_error_shape};
use crate::flow::{SpecStep, SpecStore, Step, store_get, store_setex};
use crate::json::{
    digit_count, digit_scan_exec, json_get_i64, json_get_string, json_get_u64, json_i64_field,
    json_string_field, json_u64_field, jstr_escape, jstr_len, jstr_scan_exec, jstr_unescape,
    jstr_unescape_exec, lemma_jstr_len_escape, lemma_jstr_unescape_escape, push_jstr_escaped,
};
use crate::official_account::xml::{starts_with, starts_with_exec};
use crate::text::{
    chars_to_string, dec_chars, digits_val, is_digits, lemma_dec_chars_val, parse_u64_chars,
    push_char, string_to_chars,
};
use crate::urlquery::{url_encode, urlencoded_of};
use vstd::string::StringExecFns;

verus! {

/// The store key under which the platform-wide credential lives.
pub const GLOBAL_TOKEN: &'static str = "GLOBAL_TOKEN";

/// The safety margin subtracted from the platform-declared expiry when
/// the credential is cached.
pub const TOKEN_TTL_MARGIN: u64 = 300;

/// A platform-wide credential as the credential endpoint returns it.
#[derive(Debug, Clone, PartialEq, Eq)]
pub struct TokenResponse {
    pub access_token: String,
    pub expires_in: u64,
}

/// The mathematical image of a [`TokenResponse`].
pub struct SpecTokenResponse {
    pub access_token: Seq<char>,
    pub expires_in: u64,
}

impl View for TokenResponse {
    type V = SpecTokenResponse;

    open spec fn view(&self) -> SpecTokenResponse {
        SpecTokenResponse { access_token: self.access_token@, expires_in: self.expires_in }
    }
}

/// The serialized store entry of a credential.
pub open spec fn spec_token_entry(access_token: Seq<char>, expires_in: u64) -> Seq<char> {
    "{\"access_token\":\""@ + jstr_escape(access_token) + "\",\"expires_in\":"@ + dec_chars(
        expires_in as int,
    ) + "}"@
}

/// The credential a store entry denotes, if it is well formed: an
/// entry denoting an empty token does not count, so a live credential
/// read back from the store always has a non-empty value.
pub open spec fn spec_parse_token_entry(s: Seq<char>) -> Option<(Seq<char>, u64)> {
    let p = "{\"access_token\":\""@;
    let q = "\",\"expires_in\":"@;
    if starts_with(s, p) {
        let s1 = s.skip(p.len() as int);
        match jstr_len(s1) {
            Some(n) => {
                let tok = jstr_unescape(s1.subrange(0, n));
                let s2 = s1.skip(n);
                if starts_with(s2, q) {
                    let s3 = s2.skip(q.len() as int);
                    let d = digit_count(s3);
                    if tok.len() > 0 && d > 0 && s3.len() == d + 1 && s3[d] == '}' && digits_val(
                        s3.subrange(0, d),
                    ) <= u64::MAX {
                        Some((tok, digits_val(s3.subrange(0, d)) as u64))
                    } else {
                        None
                    }
                } else {
                    None
                }
            },
            None => None,
        }
    } else {
        None
    }
}

/// Serializes a credential for the store.
pub fn encode_token_entry(t: &TokenResponse) -> (r: String)
    ensures
        r@ == spec_token_entry(t.access_token@, t.expires_in),
{
    let mut out = String::from_str("{\"access_token\":\"");
    push_jstr_escaped(&mut out, t.access_token.as_str());
    out.append("\",\"expires_in\":");
    let digits = crate::text::u64_to_chars(t.expires_in);
    let ds = chars_to_string(&digits);
    out.append(ds.as_str());
    push_char(&mut out, '}');
    proof {
        reveal_strlit("}");
        assert(out@ =~= spec_token_entry(t.access_token@, t.expires_in));
    }
    out
}

/// Parses a store entry back into a credential.
pub fn parse_token_entry(s: &str) -> (r: Option<(String, u64)>)
    ensures
        match spec_parse_token_entry(s@) {
            Some(t) => (r matches Some(o) && o.0@ == t.0 && o.1 == t.1),
            None => r is None,
        },
{
    let v = string_to_chars(s);
    let p = string_to_chars("{\"access_token\":\"");
    proof {
        assert(v@.skip(0) =~= v@);
    }
    if !starts_with_exec(&v, 0, &p) {
        return None;
    }
    let i1 = p.len();
    proof {
        assert(i1 <= v.len());
        assert(v@.skip(0).skip(i1 as int) =~= v@.skip(i1 as int));
    }
    let ghost s1 = s@.skip("{\"access_token\":\""@.len() as int);
    proof {
        assert(s1 =~= v@.skip(i1 as int));
    }
    let tok_end = match jstr_scan_exec(&v, i1) {
        Some(j) => j,
        None => {
            return None;
        },
    };
    let tok_chars = jstr_unescape_exec(&v, i1, tok_end);
    proof {
        assert(s1.subrange(0, tok_end - i1) =~= v@.subrange(i1 as int, tok_end as int));
        assert(s1.skip(tok_end - i1) =~= v@.skip(tok_end as int));
    }
    if tok_chars.len() == 0 {
        return None;
    }
    let q = string_to_chars("\",\"expires_in\":");
    if !starts_with_exec(&v, tok_end, &q) {
        return None;
    }
    let i2 = tok_end + q.len();
    proof {
        assert(i2 <= v.len());
        assert(v@.skip(tok_end as int).skip(q@.len() as int) =~= v@.skip(i2 as int));
    }
    let ghost s3 = s1.skip(tok_end - i1).skip("\",\"expires_in\":"@.len() as int);
    proof {
        assert(s3 =~= v@.skip(i2 as int));
    }
    let d_end = digit_scan_exec(&v, i2);
    if d_end == i2 {
        return None;
    }
    if v.len() - d_end != 1 {
        return None;
    }
    proof {
        assert(s3[d_end - i2] == v@[d_end as int]);
    }
    if v[d_end] != '}' {
        return None;
    }
    let num = crate::official_account::xml::copy_range(&v, i2, d_end);
    proof {
        assert(s3.subrange(0, d_end - i2) =~= v@.subrange(i2 as int, d_end as int));
    }
    let value = match parse_u64_chars(&num) {
        Some(n) => n,
        None => {
            proof {
                crate::json::lemma_digit_count_digits(s3);
                assert(is_digits(num@));
            }
            return None;
        },
    };
    Some((chars_to_string(&tok_chars), value))
}

/// Serializing a credential with a non-empty token and parsing it back
/// yields the same credential.
pub proof fn lemma_token_entry_round_trip(access_token: Seq<char>, expires_in: u64)
    requires
        access_token.len() > 0,
    ensures
        spec_parse_token_entry(spec_token_entry(access_token, expires_in)) == Some(
            (access_token, expires_in),
        ),
{
    let p = "{\"access_token\":\""@;
    let q = "\",\"expires_in\":"@;
    let esc = jstr_escape(access_token);
    let digits = dec_chars(expires_in as int);
    let s = spec_token_entry(access_token, expires_in);
    reveal_strlit("{\"access_token\":\"");
    reveal_strlit("\",\"expires_in\":");
    reveal_strlit("}");
    assert(s =~= p + (esc + (q + (digits + "}"@))));
    assert(s.subrange(0, p.len() as int) =~= p);
    assert(starts_with(s, p));
    let s1 = s.skip(p.len() as int);
    assert(s1 =~= esc + (q + (digits + "}"@)));
    assert(q[0] == '"');
    lemma_jstr_len_escape(access_token, q + (digits + "}"@));
    assert(jstr_len(s1) == Some(esc.len() as int));
    assert(s1.subrange(0, esc.len() as int) =~= esc);
    lemma_jstr_unescape_escape(access_token);
    let s2 = s1.skip(esc.len() as int);
    assert(s2 =~= q + (digits + "}"@));
    assert(s2.subrange(0, q.len() as int) =~= q);
    assert(starts_with(s2, q));
    let s3 = s2.skip(q.len() as int);
    assert(s3 =~= digits + "}"@);
    lemma_dec_chars_val(expires_in as int);
    lemma_digit_count_concat(digits, "}"@);
    assert(digit_count(s3) == digits.len());
    assert(s3.len() == digits.len() + 1);
    assert(s3[digits.len() as int] == '}');
    assert(s3.subrange(0, digits.len() as int) =~= digits);
}

/// The digit prefix of a digit sequence followed by a non-digit.
proof fn lemma_digit_count_concat(t: Seq<char>, rest: Seq<char>)
    requires
        forall|i: int| 0 <= i < t.len() ==> crate::text::is_digit(#[trigger] t[i]),
        rest.len() > 0,
        !crate::text::is_digit(rest[0]),
    ensures
        digit_count(t + rest) == t.len(),
    decreases t.len(),
{
    if t.len() == 0 {
        assert(t + rest =~= rest);
    } else {
        assert((t + rest)[0] == t[0]);
        assert((t + rest).skip(1) =~= t.skip(1) + rest);
        lemma_digit_count_concat(t.skip(1), rest);
    }
}

/// The credential endpoint URL for this account.
pub open spec fn spec_token_url(c: SpecConfig) -> Seq<char> {
    "https://api.weixin.qq.com/cgi-bin/token?appid="@ + urlencoded_of(c.appid) + "&secret="@
        + urlencoded_of(c.app_secret) + "&grant_type=client_credential"@
}

/// The time-to-live a fresh credential is cached with: a safety margin
/// below the platform-declared expiry.
pub open spec fn spec_token_ttl(expires_in: u64) -> u64 {
    if expires_in > TOKEN_TTL_MARGIN {
        (expires_in - TOKEN_TTL_MARGIN) as u64
    } else {
        expires_in
    }
}

/// What the credential flow does with the store's answer: a live,
/// well-formed entry is returned as it is, with no remote call; a miss
/// or a malformed entry leads to one refresh call.
pub open spec fn spec_token_on_cache(c: SpecConfig, cached: Option<Seq<char>>) -> SpecStep<
    Seq<char>,
> {
    match cached {
        Some(e) => match spec_parse_token_entry(e) {
            Some(t) => SpecStep::Done { result: Ok(t.0) },
            None => SpecStep::HttpGet { url: spec_token_url(c) },
        },
        None => SpecStep::HttpGet { url: spec_token_url(c) },
    }
}

/// A credential fit to hand out and cache: a non-empty value with a
/// positive declared lifetime.
pub open spec fn spec_valid_credential(t: SpecTokenResponse) -> bool {
    t.access_token.len() > 0 && t.expires_in > 0
}

/// What the credential flow does with the refresh outcome: a parsed,
/// valid credential is written back under the shared key; any failure,
/// and any answer violating the credential invariants, ends the flow
/// with `TokenUnavailable` and no retry.
pub open spec fn spec_token_on_response(p: Result<SpecTokenResponse, WechatError>) -> SpecStep<
    Seq<char>,
> {
    match p {
        Ok(t) => if spec_valid_credential(t) {
            SpecStep::CacheSetEx {
                key: "GLOBAL_TOKEN"@,
                ttl_seconds: spec_token_ttl(t.expires_in),
                value: spec_token_entry(t.access_token, t.expires_in),
            }
        } else {
            SpecStep::Done { result: Err(WechatError::TokenUnavailable) }
        },
        Err(_) => SpecStep::Done { result: Err(WechatError::TokenUnavailable) },
    }
}

impl OfficialAccount {
    /// The first step of the credential flow: read the shared key.
    pub fn token_request(&self) -> (s: Step<String>)
        ensures
            s@ == (SpecStep::CacheGet::<Seq<char>> { key: "GLOBAL_TOKEN"@ }),
    {
        Step::CacheGet { key: GLOBAL_TOKEN.to_owned() }
    }

    /// The second step: decide on the store's answer.
    pub fn token_on_cache(&self, cached: Option<String>) -> (s: Step<String>)
        ensures
            s@ == spec_token_on_cache(self.config@, cached.deep_view()),
    {
        match cached {
            Some(e) => match parse_token_entry(e.as_str()) {
                Some((tok, _exp)) => Step::Done { result: Ok(tok) },
                None => Step::HttpGet { url: self.token_url() },
            },
            None => Step::HttpGet { url: self.token_url() },
        }
    }

    /// The credential endpoint URL of this account.
    pub fn token_url(&self) -> (r: String)
        ensures
            r@ == spec_token_url(self.config@),
    {
        let mut url = String::from_str("https://api.weixin.qq.com/cgi-bin/token?appid=");
        let ea = url_encode(self.config.appid.as_str());
        url.append(ea.as_str());
        url.append("&secret=");
        let es = url_encode(self.config.app_secret.as_str());
        url.append(es.as_str());
        url.append("&grant_type=client_credential");
        url
    }

    /// The third step: decide on the parsed refresh outcome.
    pub fn token_on_response(&self, parsed: Result<TokenResponse, WechatError>) -> (s: Step<
        String,
    >)
        ensures
            s@ == spec_token_on_response(
                match parsed {
                    Ok(t) => Ok(t@),
                    Err(e) => Err(e),
                },
            ),
    {
        match parsed {
            Ok(t) => {
                if t.access_token.as_str().is_empty() || t.expires_in == 0 {
                    return Step::Done { result: Err(WechatError::TokenUnavailable) };
                }
                let ttl = if t.expires_in > TOKEN_TTL_MARGIN {
                    t.expires_in - TOKEN_TTL_MARGIN
                } else {
                    t.expires_in
                };
                let value = encode_token_entry(&t);
                Step::CacheSetEx { key: GLOBAL_TOKEN.to_owned(), ttl_seconds: ttl, value }
            },
            Err(_) => Step::Done { result: Err(WechatError::TokenUnavailable) },
        }
    }

    /// The last step after a successful write: hand the fresh credential
    /// out.
    pub fn token_after_store(&self, stored: &TokenResponse) -> (s: Step<String>)
        ensures
            s@ == (SpecStep::Done::<Seq<char>> { result: Ok(stored.access_token@) }),
    {
        Step::Done { result: Ok(stored.access_token.clone()) }
    }
}

/// Parses the credential endpoint's answer: a non-success HTTP status
/// is a remote error carrying the status code; otherwise the error
/// envelope is tried first and a non-zero code surfaced unmodified,
/// else the success shape must hold, with a non-empty token and a
/// positive declared lifetime.  The flow maps every failure here to
/// `TokenUnavailable`.
pub fn parse_token_body(status: u16, body: &str) -> (r: Result<TokenResponse, WechatError>)
    ensures
        !(200 <= status < 300) ==> (r matches Err(e) && e matches WechatError::RemoteApiError {
            code,
            message,
        } && code == status as i64 && message@ == "http error"@),
        (200 <= status < 300) ==> match json_i64_field(body@, "errcode"@) {
            Some(c) => if c != 0 {
                remote_error_shape(r, c, json_string_field(body@, "errmsg"@))
            } else {
                token_success_shape(
                    r,
                    json_string_field(body@, "access_token"@),
                    json_u64_field(body@, "expires_in"@),
                )
            },
            None => token_success_shape(
                r,
                json_string_field(body@, "access_token"@),
                json_u64_field(body@, "expires_in"@),
            ),
        },
{
    if status < 200 || status >= 300 {
        return Err(
            WechatError::RemoteApiError { code: status as i64, message: "http error".to_owned() },
        );
    }
    assemble_token_response(
        json_get_string(body, "access_token"),
        json_get_u64(body, "expires_in"),
        json_get_i64(body, "errcode"),
        json_get_string(body, "errmsg"),
    )
}

/// Decides what a credential response means, given its extracted fields:
/// a non-zero error code is a `RemoteApiError` carrying the platform's
/// code and message unmodified; otherwise both success fields must be
/// present, the token non-empty and the lifetime positive; anything
/// else is a `DecodeError`.
pub fn assemble_token_response(
    access_token: Option<String>,
    expires_in: Option<u64>,
    errcode: Option<i64>,
    errmsg: Option<String>,
) -> (r: Result<TokenResponse, WechatError>)
    ensures
        match errcode {
            Some(c) => if c != 0 {
                remote_error_shape(r, c, errmsg.deep_view())
            } else {
                token_success_shape(r, access_token.deep_view(), expires_in)
            },
            None => token_success_shape(r, access_token.deep_view(), expires_in),
        },
{
    let failed = match errcode {
        Some(c) => c != 0,
        None => false,
    };
    if failed {
        let c = match errcode {
            Some(c) => c,
            None => 0,
        };
        let message = match errmsg {
            Some(m) => m,
            None => String::new(),
        };
        return Err(WechatError::RemoteApiError { code: c, message });
    }
    match (access_token, expires_in) {
        (Some(t), Some(x)) => {
            if t.as_str().is_empty() || x == 0 {
                Err(
                    WechatError::DecodeError {
                        detail: "credential response with empty token or no lifetime".to_owned(),
                    },
                )
            } else {
                Ok(TokenResponse { access_token: t, expires_in: x })
            }
        },
        _ => Err(
            WechatError::DecodeError { detail: "credential response missing fields".to_owned() },
        ),
    }
}

/// The successful shape of an assembled credential response: both
/// fields present and carried unchanged, the token non-empty and the
/// lifetime positive; anything else a decode error.
pub open spec fn token_success_shape(
    r: Result<TokenResponse, WechatError>,
    access_token: Option<Seq<char>>,
    expires_in: Option<u64>,
) -> bool {
    match (access_token, expires_in) {
        (Some(t), Some(x)) => if t.len() > 0 && x > 0 {
            r matches Ok(tr) && tr.access_token@ == t && tr.expires_in == x
        } else {
            r matches Err(e) && e is DecodeError
        },
        _ => r matches Err(e) && e is DecodeError,
    }
}

/// A store pre-populated with a live, well-formed credential is answered
/// from the cache: the flow ends at once with the cached value unchanged
/// and performs no remote call.
pub proof fn lemma_token_cached_no_remote_call(c: SpecConfig, st: SpecStore, now: int)
    requires
        store_get(st, "GLOBAL_TOKEN"@, now) matches Some(e) && spec_parse_token_entry(e) is Some,
    ensures
        spec_token_on_cache(c, store_get(st, "GLOBAL_TOKEN"@, now)) == (SpecStep::Done::<
            Seq<char>,
        > {
            result: Ok(
                spec_parse_token_entry(store_get(st, "GLOBAL_TOKEN"@, now)->Some_0)->Some_0.0,
            ),
        }),
{
}

/// On an empty store the flow makes exactly one remote call, writes the
/// refreshed credential back, and every later read before the entry's
/// expiry is answered from the cache with the same token and no further
/// remote call.
pub proof fn lemma_token_refresh_then_cached(
    c: SpecConfig,
    st: SpecStore,
    t: SpecTokenResponse,
    now1: int,
    now2: int,
)
    requires
        store_get(st, "GLOBAL_TOKEN"@, now1) is None,
        spec_valid_credential(t),
        now1 <= now2 < now1 + spec_token_ttl(t.expires_in),
    ensures
        spec_token_on_cache(c, store_get(st, "GLOBAL_TOKEN"@, now1)) == (SpecStep::HttpGet::<
            Seq<char>,
        > { url: spec_token_url(c) }),
        spec_token_on_response(Ok(t)) == (SpecStep::CacheSetEx::<Seq<char>> {
            key: "GLOBAL_TOKEN"@,
            ttl_seconds: spec_token_ttl(t.expires_in),
            value: spec_token_entry(t.access_token, t.expires_in),
        }),
        spec_token_on_cache(
            c,
            store_get(
                store_setex(
                    st,
                    "GLOBAL_TOKEN"@,
                    spec_token_entry(t.access_token, t.expires_in),
                    spec_token_ttl(t.expires_in),
                    now1,
                ),
                "GLOBAL_TOKEN"@,
                now2,
            ),
        ) == (SpecStep::Done::<Seq<char>> { result: Ok(t.access_token) }),
{
    let entry = spec_token_entry(t.access_token, t.expires_in);
    let st2 = store_setex(st, "GLOBAL_TOKEN"@, entry, spec_token_ttl(t.expires_in), now1);
    assert(st2.entries.dom().contains("GLOBAL_TOKEN"@));
    assert(st2.entries["GLOBAL_TOKEN"@] == (entry, now1 + spec_token_ttl(t.expires_in)));
    assert(store_get(st2, "GLOBAL_TOKEN"@, now2) == Some(entry));
    lemma_token_entry_round_trip(t.access_token, t.expires_in);
}

/// The credential invariants hold of everything the flow does: a token
/// handed out from the cache is non-empty, and every store write the
/// flow fixes carries a positive time-to-live and an entry denoting a
/// non-empty token.
pub proof fn lemma_credential_invariants(
    c: SpecConfig,
    cached: Option<Seq<char>>,
    p: Result<SpecTokenResponse, WechatError>,
)
    ensures
        match spec_token_on_cache(c, cached) {
            SpecStep::Done { result } => match result {
                Ok(tok) => tok.len() > 0,
                Err(_) => true,
            },
            _ => true,
        },
        match spec_token_on_response(p) {
            SpecStep::CacheSetEx { key, ttl_seconds, value } => ttl_seconds > 0 && (
            spec_parse_token_entry(value) matches Some(t) && t.0.len() > 0),
            _ => true,
        },
{
    if p matches Ok(t) && spec_valid_credential(t) {
        let t = p->Ok_0;
        lemma_token_entry_round_trip(t.access_token, t.expires_in);
    }
}

} // verus!
