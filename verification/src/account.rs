//! The user account behind the desktop app: the tokens and profile the
//! auth service returns.

use vstd::prelude::*;
use crate::text::{contains, str_chars, contains_chars};

verus! {

/// The auth service's project URL. Public configuration, not a secret.
pub const SUPABASE_URL: &'static str = "https://zwkapibxhxakavnujtzy.supabase.co";

/// The publishable key, which only permits what row-level security allows.
pub const SUPABASE_PUBLISHABLE_KEY: &'static str = "sb_publishable_SPFZCc8di3q468V555mlwA_6W1lcBuP";

/// Tokens returned after a successful authentication.
pub struct AuthTokens {
    pub access_token: String,
    pub refresh_token: String,
    pub expires_in: Option<u64>,
}

/// A user's profile.
pub struct UserProfile {
    pub id: String,
    pub email: Option<String>,
    pub tier: String,
}

/// Whether a URL and key are real configuration rather than placeholders.
pub open spec fn configured(url: Seq<char>, key: Seq<char>) -> bool {
    !contains(url, "YOUR_PROJECT"@) && !contains(key, "YOUR_"@)
}

/// Whether the given service URL and key are not placeholders.
pub fn is_configured_with(url: &str, key: &str) -> (b: bool)
    ensures
        b == configured(url@, key@),
{
    !contains_chars(&str_chars(url), &str_chars("YOUR_PROJECT")) && !contains_chars(&str_chars(key), &str_chars("YOUR_"))
}

/// Whether the built-in service configuration is real.
pub fn is_configured() -> (b: bool)
    ensures
        b == configured(SUPABASE_URL@, SUPABASE_PUBLISHABLE_KEY@),
{
    is_configured_with(SUPABASE_URL, SUPABASE_PUBLISHABLE_KEY)
}

/// The profile of the signed-in user: the first row returned.
pub fn first_profile(profiles: Vec<UserProfile>) -> (r: Result<UserProfile, String>)
    ensures
        profiles@.len() > 0 ==> r == Ok::<UserProfile, String>(profiles@[0]),
        profiles@.len() == 0 ==> (r matches Err(e) && e@ == "No profile found for this user"@),
{
    let mut profiles = profiles;
    if profiles.len() == 0 {
        Err("No profile found for this user".to_owned())
    } else {
        Ok(profiles.remove(0))
    }
}

} // verus!
