//! The sign-in surface: the window that shows the identity provider's page.

use crate::error::FlowError;
use vstd::prelude::*;
use vstd::string::StringExecFns;

verus! {

/// Name of the sign-in surface. Opening and closing both go by this name,
/// so that the cleanup after a wait finds the window that was opened.
pub const SURFACE_LABEL: &'static str = "oauth-popup";

/// Title of the sign-in surface.
pub const SURFACE_TITLE: &'static str = "Google Sign In";

/// Inner width of the sign-in surface.
pub const SURFACE_WIDTH: u32 = 500;

/// Inner height of the sign-in surface.
pub const SURFACE_HEIGHT: u32 = 600;

/// What `url::Url::parse` makes of `input`: the text of the absolute URL it
/// reads, or the text of its reason for rejecting the input.
pub uninterp spec fn parsed_url(input: Seq<char>) -> Result<Seq<char>, Seq<char>>;

/// Parses `input` with `url::Url::parse`.
///
/// Trusted: the result is the parser's, which depends on `input` alone. On
/// success it is the text the parsed URL serialises to, on failure the text
/// the parser's error displays as.
#[verifier::external_body]
fn parse_url(input: &str) -> (parsed: Result<String, String>)
    ensures
        parsed_url(input@) == (match parsed {
            Ok(text) => Ok::<Seq<char>, Seq<char>>(text@),
            Err(reason) => Err::<Seq<char>, Seq<char>>(reason@),
        }),
{
    match url::Url::parse(input) {
        Ok(url) => Ok(String::from(url)),
        Err(reason) => Err(reason.to_string()),
    }
}

/// A window to open: named, of fixed size, centred, showing one address.
#[derive(Debug, Clone, PartialEq, Eq)]
pub struct SignInSurface {
    pub label: String,
    pub title: String,
    pub url: String,
    pub width: u32,
    pub height: u32,
    pub resizable: bool,
    pub centered: bool,
}

impl SignInSurface {
    /// Whether this is the sign-in surface showing `url`.
    pub open spec fn shows(self, url: Seq<char>) -> bool {
        &&& self.label@ == SURFACE_LABEL@
        &&& self.title@ == SURFACE_TITLE@
        &&& self.url@ == url
        &&& self.width == SURFACE_WIDTH
        &&& self.height == SURFACE_HEIGHT
        &&& !self.resizable
        &&& self.centered
    }
}

/// The surface to open for a parsed sign-in address, or the failure for a
/// rejected one.
pub fn surface_for(parsed: Result<String, String>) -> (request: Result<SignInSurface, FlowError>)
    ensures
        match parsed {
            Ok(url) => request matches Ok(surface) && surface.shows(url@) && surface.url == url,
            Err(reason) => request == Err::<SignInSurface, FlowError>(
                FlowError::InvalidURL(reason),
            ),
        },
{
    match parsed {
        Ok(url) => Ok(
            SignInSurface {
                label: String::from_str(SURFACE_LABEL),
                title: String::from_str(SURFACE_TITLE),
                url,
                width: SURFACE_WIDTH,
                height: SURFACE_HEIGHT,
                resizable: false,
                centered: true,
            },
        ),
        Err(reason) => Err(FlowError::InvalidURL(reason)),
    }
}

/// Checks the sign-in address and describes the window to open for it.
///
/// The address must be an absolute URL. No window is described for one that
/// is not: the call fails with `InvalidURL` and the parser's reason.
pub fn open_oauth_window(oauth_url: String) -> (request: Result<SignInSurface, FlowError>)
    ensures
        match parsed_url(oauth_url@) {
            Ok(url) => request matches Ok(surface) && surface.shows(url),
            Err(reason) => request matches Err(FlowError::InvalidURL(text)) && text@ == reason,
        },
{
    surface_for(parse_url(oauth_url.as_str()))
}

/// What opening the surface comes to, given the windowing layer's answer:
/// a refusal fails with `SurfaceCreationFailed` and the layer's reason.
pub fn surface_opened(created: Result<(), String>) -> (opened: Result<(), FlowError>)
    ensures
        opened == (match created {
            Ok(_) => Ok::<(), FlowError>(()),
            Err(reason) => Err(FlowError::SurfaceCreationFailed(reason)),
        }),
{
    match created {
        Ok(_) => Ok(()),
        Err(reason) => Err(FlowError::SurfaceCreationFailed(reason)),
    }
}

} // verus!
