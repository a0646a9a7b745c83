//! The configured application URL and the test on its scheme.

use vstd::prelude::*;

verus! {

/// Name of the environment variable that selects the remote page.
pub const APP_URL_VAR: &'static str = "APP_URL";

/// The page loaded when `APP_URL` is not set.
pub const DEFAULT_APP_URL: &'static str = "http://marcadas.arpb.mil";

/// The URL in force: the configured value when there is one, else the default.
pub open spec fn resolved_app_url(configured: Option<Seq<char>>) -> Seq<char> {
    match configured {
        Some(s) => s,
        None => DEFAULT_APP_URL@,
    }
}

/// Whether `s` begins with the characters `http`.
pub open spec fn starts_with_http(s: Seq<char>) -> bool {
    &&& s.len() >= 4
    &&& s[0] == 'h'
    &&& s[1] == 't'
    &&& s[2] == 't'
    &&& s[3] == 'p'
}

/// Picks the configured URL, or the default when none was configured.
pub fn resolve_app_url(configured: Option<String>) -> (r: String)
    ensures
        r@ == resolved_app_url(
            match configured {
                Some(s) => Some(s@),
                None => None,
            },
        ),
{
    match configured {
        Some(s) => s,
        None => String::from_str(DEFAULT_APP_URL),
    }
}

/// Whether the main window is to be sent to `s`: true exactly when `s`
/// begins with `http`.
pub fn is_http_url(s: &str) -> (r: bool)
    ensures
        r == starts_with_http(s@),
{
    if s.unicode_len() < 4 {
        return false;
    }
    s.get_char(0) == 'h' && s.get_char(1) == 't' && s.get_char(2) == 't' && s.get_char(3) == 'p'
}

/// The line written to standard output before the launch: `APP_URL: ` and
/// the URL in force.
pub fn diagnostic_line(app_url: &str) -> (r: String)
    ensures
        r@ == "APP_URL: "@ + app_url@,
{
    let mut line = String::from_str("APP_URL: ");
    line.append(app_url);
    line
}

} // verus!
