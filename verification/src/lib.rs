//! Client-side logic for a messaging platform's "official account" API
//! family: webhook signature verification, inbound message decoding and
//! reply encoding, the shared access-credential lifecycle, and the
//! OAuth-style user authorization flows.
//!
//! All decision logic lives here and is verified; network and cache I/O is
//! expressed as explicit [`flow::Step`] values that an unverified driver
//! performs.
use vstd::prelude::*;

pub mod errors;
pub mod flow;
pub mod json;
pub mod mini_program;
pub mod model;
pub mod official_account;
pub mod open_platform;
pub mod text;
pub mod urlquery;

pub use official_account::token::TokenResponse;

verus! {

/// Static configuration of one official account.
pub struct Config {
    pub appid: String,
    pub app_secret: String,
    pub token: String,
    pub encoding_aes_key: Option<String>,
}

/// The mathematical image of a [`Config`].
pub struct SpecConfig {
    pub appid: Seq<char>,
    pub app_secret: Seq<char>,
    pub token: Seq<char>,
    pub encoding_aes_key: Option<Seq<char>>,
}

impl View for Config {
    type V = SpecConfig;

    open spec fn view(&self) -> SpecConfig {
        SpecConfig {
            appid: self.appid@,
            app_secret: self.app_secret@,
            token: self.token@,
            encoding_aes_key: self.encoding_aes_key.deep_view(),
        }
    }
}

/// The verified core of an official-account client: it holds the account
/// configuration and computes every request, cache and decoding decision.
/// The unverified driver owns the HTTP client and the cache connection.
pub struct OfficialAccount {
    pub config: Config,
}

impl OfficialAccount {
    /// Creates a new official-account core from its configuration.
    pub fn new(conf: Config) -> (r: Self)
        ensures
            r.config == conf,
    {
        OfficialAccount { config: conf }
    }
}

} // verus!
