//! The manifest that describes an application bundle: its entry document and
//! the geometry of the window that shows it.
use vstd::prelude::*;

verus! {

/// Window width used when the manifest gives none.
pub const DEFAULT_WIDTH: u32 = 832;

/// Window height used when the manifest gives none.
pub const DEFAULT_HEIGHT: u32 = 624;

/// Loopback port that the bundle is served on.
pub const SERVER_PORT: u16 = 3000;

/// Entry document used when the manifest names none.
pub open spec fn default_main_spec() -> Seq<char> {
    "index.html"@
}

/// Origin of every URL that the bundle is served under.
pub open spec fn server_origin() -> Seq<char> {
    "http://127.0.0.1:3000/"@
}

/// The URL that the window navigates to for entry document `main`.
pub open spec fn entry_url_of(main: Seq<char>) -> Seq<char> {
    server_origin() + main
}

/// Declarative window geometry and chrome.
#[derive(Clone, Debug)]
pub struct WindowSpec {
    pub width: u32,
    pub height: u32,
    pub title: Option<String>,
    pub position: Option<String>,
    /// Accepted but not applied.
    pub icon: Option<String>,
}

/// The bundle's manifest: its entry document and optional window geometry.
#[derive(Clone, Debug)]
pub struct Manifest {
    pub main: String,
    pub window: Option<WindowSpec>,
}

/// The entry document used when the manifest names none.
pub fn default_main() -> (r: String)
    ensures
        r@ == default_main_spec(),
{
    "index.html".to_owned()
}

/// The window width used when the manifest gives none.
pub fn default_width() -> (r: u32)
    ensures
        r == DEFAULT_WIDTH,
{
    DEFAULT_WIDTH
}

/// The window height used when the manifest gives none.
pub fn default_height() -> (r: u32)
    ensures
        r == DEFAULT_HEIGHT,
{
    DEFAULT_HEIGHT
}

impl WindowSpec {
    /// A window section with every field at its default.
    pub fn new() -> (r: WindowSpec)
        ensures
            r.width == DEFAULT_WIDTH,
            r.height == DEFAULT_HEIGHT,
            r.title is None,
            r.position is None,
            r.icon is None,
    {
        WindowSpec {
            width: default_width(),
            height: default_height(),
            title: None,
            position: None,
            icon: None,
        }
    }

    /// Whether the window asks to be centred on its display.
    pub open spec fn centered_spec(&self) -> bool {
        match self.position {
            Some(p) => p@ == "center"@,
            None => false,
        }
    }

    /// Whether the window asks to be centred on its display.
    pub fn is_centered(&self) -> (r: bool)
        ensures
            r == self.centered_spec(),
    {
        match &self.position {
            Some(p) => {
                let center = "center".to_owned();
                *p == center
            },
            None => false,
        }
    }
}

impl Manifest {
    /// A manifest that names only its entry document.
    pub fn new(main: String) -> (r: Manifest)
        ensures
            r.main == main,
            r.window is None,
    {
        Manifest { main, window: None }
    }

    /// A manifest in which every field is at its default.
    pub fn with_defaults() -> (r: Manifest)
        ensures
            r.main@ == default_main_spec(),
            r.window is None,
    {
        Manifest { main: default_main(), window: None }
    }

    /// The window geometry that applies: the manifest's own, or the defaults.
    pub fn effective_window(&self) -> (r: WindowSpec)
        ensures
            match self.window {
                Some(w) => r == w,
                None => r.width == DEFAULT_WIDTH && r.height == DEFAULT_HEIGHT && r.title is None
                    && r.position is None && r.icon is None,
            },
    {
        match &self.window {
            Some(w) => WindowSpec {
                width: w.width,
                height: w.height,
                title: w.title.clone(),
                position: w.position.clone(),
                icon: w.icon.clone(),
            },
            None => WindowSpec::new(),
        }
    }

    /// The loopback URL of the entry document.
    pub fn entry_url(&self) -> (r: String)
        ensures
            r@ == entry_url_of(self.main@),
    {
        let mut url = "http://127.0.0.1:3000/".to_owned();
        url.append(self.main.as_str());
        url
    }
}

/// The script that makes the displayed page navigate to `url`.
pub open spec fn navigation_script_of(url: Seq<char>) -> Seq<char> {
    "window.location.href = \""@ + url + "\";"@
}

/// The script that makes the displayed page navigate to `url`.
pub fn navigation_script(url: &str) -> (r: String)
    ensures
        r@ == navigation_script_of(url@),
{
    let mut script = "window.location.href = \"".to_owned();
    script.append(url);
    script.append("\";");
    script
}

} // verus!
