use vstd::prelude::*;

verus! {

/// What the embedding program states about its webview, as read from its
/// metadata.
pub struct Metadata {
    /// The page to open first; a local `index.html` when absent.
    pub webview_url: Option<String>,
    /// The title of the first window; `Webview` when absent.
    pub title: Option<String>,
    pub decorations: bool,
    pub transparent: bool,
    pub dev_tools: bool,
}

/// The settings shared by every window of one run, fixed before the event loop
/// starts.
pub struct WebViewConfig {
    pub default_title: String,
    pub default_url: String,
    pub decorations: Option<bool>,
    pub transparent: Option<bool>,
    pub dev_tools: Option<bool>,
}

/// How one window is built.
#[derive(PartialEq, Eq, Structural, Clone, Copy, Debug)]
pub struct WindowSettings {
    pub decorations: bool,
    pub transparent: bool,
    pub dev_tools: bool,
    /// Initial inner width, in logical pixels.
    pub width: u16,
    /// Initial inner height, in logical pixels.
    pub height: u16,
}

/// Initial inner width of a window, in logical pixels.
pub const WINDOW_WIDTH: u16 = 1680;

/// Initial inner height of a window, in logical pixels.
pub const WINDOW_HEIGHT: u16 = 840;

/// The url or path that the first window opens, before it is resolved.
pub open spec fn source_spec(m: Option<Seq<char>>) -> Seq<char> {
    match m {
        Some(u) => u,
        None => "./index.html"@,
    }
}

/// The title of the first window.
pub open spec fn title_spec(m: Option<Seq<char>>) -> Seq<char> {
    match m {
        Some(t) => t,
        None => "Webview"@,
    }
}

/// The view of an optional string.
pub open spec fn opt_view(o: Option<String>) -> Option<Seq<char>> {
    match o {
        Some(s) => Some(s@),
        None => None,
    }
}

/// The url or path that the first window opens, before it is resolved to a url:
/// the one the metadata names, else `./index.html`.
pub fn source_specifier(metadata: &Metadata) -> (r: String)
    ensures
        r@ == source_spec(opt_view(metadata.webview_url)),
{
    match &metadata.webview_url {
        Some(u) => u.clone(),
        None => "./index.html".to_owned(),
    }
}

/// The configuration of a run, from the metadata and the url that
/// [`source_specifier`] resolved to.
pub fn create_webview_config(metadata: &Metadata, resolved_url: String) -> (r: WebViewConfig)
    ensures
        r.default_url@ == resolved_url@,
        r.default_title@ == title_spec(opt_view(metadata.title)),
        r.decorations == Some(metadata.decorations),
        r.transparent == Some(metadata.transparent),
        r.dev_tools == Some(metadata.dev_tools),
{
    let title = match &metadata.title {
        Some(t) => t.clone(),
        None => "Webview".to_owned(),
    };
    WebViewConfig {
        default_title: title,
        default_url: resolved_url,
        decorations: Some(metadata.decorations),
        transparent: Some(metadata.transparent),
        dev_tools: Some(metadata.dev_tools),
    }
}

/// How every window of a run is built: decorated unless the configuration says
/// otherwise, opaque and without developer tools unless it asks for them, at a
/// fixed initial size.
pub fn window_settings(config: &WebViewConfig) -> (r: WindowSettings)
    ensures
        r.decorations == match config.decorations {
            Some(b) => b,
            None => true,
        },
        r.transparent == match config.transparent {
            Some(b) => b,
            None => false,
        },
        r.dev_tools == match config.dev_tools {
            Some(b) => b,
            None => false,
        },
        r.width == WINDOW_WIDTH,
        r.height == WINDOW_HEIGHT,
{
    WindowSettings {
        decorations: match config.decorations {
            Some(b) => b,
            None => true,
        },
        transparent: match config.transparent {
            Some(b) => b,
            None => false,
        },
        dev_tools: match config.dev_tools {
            Some(b) => b,
            None => false,
        },
        width: WINDOW_WIDTH,
        height: WINDOW_HEIGHT,
    }
}

} // verus!
