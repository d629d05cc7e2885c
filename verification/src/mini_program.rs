//! The mini-program client core: configuration only, for the flows the
//! platform shares with the other variants.
use vstd::prelude::*;

verus! {

/// The verified core of a mini-program client.
pub struct MiniProgram {
    pub appid: String,
    pub app_secret: String,
}

impl MiniProgram {
    /// Creates a new mini-program core.
    pub fn new(appid: String, app_secret: String) -> (r: Self)
        ensures
            r.appid@ == appid@,
            r.app_secret@ == app_secret@,
    {
        MiniProgram { appid, app_secret }
    }
}

} // verus!
