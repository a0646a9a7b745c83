//! The launch decision: navigate the main window to a parsed URL, or leave
//! it on the bundled content.

use crate::config::{is_http_url, starts_with_http};
use vstd::prelude::*;

verus! {

#[verifier::external_type_specification]
#[verifier::external_body]
pub struct ExUrl(url::Url);

#[verifier::external_type_specification]
#[verifier::external_body]
pub struct ExParseError(url::ParseError);

/// Label of the window that the navigation targets.
pub const MAIN_WINDOW_LABEL: &'static str = "main";

/// Whether `url::Url::parse` accepts `s` as an absolute URL.
pub uninterp spec fn url_parses(s: Seq<char>) -> bool;

/// Relies on `url::Url::parse`: it returns `Ok` exactly on the strings that
/// hold an absolute URL, and which those are depends on the string alone.
#[verifier::external_body]
fn parse_url(s: &str) -> (r: Result<url::Url, url::ParseError>)
    ensures
        r is Ok <==> url_parses(s@),
{
    url::Url::parse(s)
}

/// How the main window starts.
#[derive(Debug)]
pub enum LaunchPlan {
    /// Send the main window to this URL once the application is set up.
    Navigate(url::Url),
    /// Leave the main window on the content bundled with the application.
    BundledContent,
}

/// Why the application cannot start.
#[derive(Clone, Copy, Debug, PartialEq, Eq, Structural)]
pub enum BootstrapError {
    /// No window carries the label `main`.
    WindowNotFound,
    /// The configured URL is not an absolute URL.
    UrlParse,
    /// The windowing runtime failed to start.
    RuntimeStart,
}

/// The plan that follows from the outcome of parsing the configured URL:
/// navigate to the parsed URL, or fail with `UrlParse`.
pub fn navigation_plan(parsed: Result<url::Url, url::ParseError>) -> (r: Result<
    LaunchPlan,
    BootstrapError,
>)
    ensures
        match parsed {
            Ok(u) => r == Ok::<LaunchPlan, BootstrapError>(LaunchPlan::Navigate(u)),
            Err(_) => r == Err::<LaunchPlan, BootstrapError>(BootstrapError::UrlParse),
        },
{
    match parsed {
        Ok(u) => Ok(LaunchPlan::Navigate(u)),
        Err(_) => Err(BootstrapError::UrlParse),
    }
}

/// Decides how the main window starts from the URL in force. A URL that
/// begins with `http` is parsed and navigated to; any other leaves the window
/// on the bundled content, without parsing.
pub fn plan_launch(app_url: &str) -> (r: Result<LaunchPlan, BootstrapError>)
    ensures
        starts_with_http(app_url@) <==> !(r matches Ok(LaunchPlan::BundledContent)),
        starts_with_http(app_url@) && url_parses(app_url@) ==> r matches Ok(
            LaunchPlan::Navigate(_),
        ),
        starts_with_http(app_url@) && !url_parses(app_url@) ==> r == Err::<
            LaunchPlan,
            BootstrapError,
        >(BootstrapError::UrlParse),
{
    if is_http_url(app_url) {
        navigation_plan(parse_url(app_url))
    } else {
        Ok(LaunchPlan::BundledContent)
    }
}

/// The main window found under `MAIN_WINDOW_LABEL`, or `WindowNotFound`.
pub fn require_main_window<W>(window: Option<W>) -> (r: Result<W, BootstrapError>)
    ensures
        match window {
            Some(w) => r == Ok::<W, BootstrapError>(w),
            None => r == Err::<W, BootstrapError>(BootstrapError::WindowNotFound),
        },
{
    match window {
        Some(w) => Ok(w),
        None => Err(BootstrapError::WindowNotFound),
    }
}

/// The outcome of running the windowing runtime: success, or `RuntimeStart`.
pub fn runtime_outcome<E>(outcome: Result<(), E>) -> (r: Result<(), BootstrapError>)
    ensures
        outcome is Ok <==> r is Ok,
        outcome is Err ==> r == Err::<(), BootstrapError>(BootstrapError::RuntimeStart),
{
    match outcome {
        Ok(()) => Ok(()),
        Err(_) => Err(BootstrapError::RuntimeStart),
    }
}

} // verus!
