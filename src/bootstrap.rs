//! The startup sequence: load the manifest, serve the bundle, navigate to its
//! entry document, apply the window geometry, then reveal the window.
//!
//! The decisions are a state machine: [`Bootstrap::step`] takes the outcome of
//! the last action and gives the next state and the next action. The host
//! performs each action and reports back. Without a manifest, or with one that
//! does not parse, the window is revealed at once on its bundled page; the one
//! fatal outcome is a document root that cannot be resolved.
use vstd::prelude::*;
use crate::geometry::{center_position, centered_origin, fits_i32, MonitorGeometry};
use crate::manifest::{entry_url_of, Manifest, SERVER_PORT};

verus! {

/// Pause between starting the server and navigating to it.
pub const GRACE_PERIOD_MS: u64 = 500;

/// Pause after a resize before the window is positioned.
pub const SETTLE_PERIOD_MS: u64 = 100;

/// Exit status of the process when the document root cannot be resolved.
pub const ROOT_FAILURE_EXIT_CODE: i32 = 1;

/// Where the startup sequence stands; each phase waits for the outcome of the
/// action that led into it.
#[derive(Clone, Copy, Debug, PartialEq, Eq, Structural)]
pub enum Phase {
    Loading,
    ResolvingRoot,
    StartingServer,
    Waiting,
    Navigating,
    Titling,
    Sizing,
    Settling,
    Centering,
    Positioning,
    Revealing,
    Ready,
    Failed,
}

/// What looking for the manifest gave.
#[derive(Clone, Debug)]
pub enum ManifestOutcome {
    Loaded(Manifest),
    NotFound,
    /// The manifest exists but does not parse; the parser's diagnostic.
    Invalid(String),
}

/// The outcome of the last action.
#[derive(Clone, Debug)]
pub enum Event {
    Manifest(ManifestOutcome),
    RootResolved,
    RootUnavailable,
    /// The action was carried out, or failed in a way that is only logged.
    Completed,
    /// The geometry of the window's current display, where one was found.
    Monitor(Option<MonitorGeometry>),
}

/// What the host is to do next.
#[derive(Clone, Debug)]
pub enum Action {
    LoadManifest,
    ResolveRoot,
    StartServer { port: u16 },
    Sleep { millis: u64 },
    Navigate { url: String },
    SetTitle { title: String },
    SetSize { width: u32, height: u32 },
    QueryMonitor,
    SetPosition { x: i32, y: i32 },
    Reveal,
    Exit { code: i32 },
    Idle,
}

/// The state of the startup sequence.
#[derive(Clone, Debug)]
pub struct Bootstrap {
    pub phase: Phase,
    pub manifest: Option<Manifest>,
}

/// Move to `phase`, keeping the manifest, and ask for `a`.
pub open spec fn goes(b: Bootstrap, nb: Bootstrap, a: Action, phase: Phase, action: Action) -> bool {
    nb.phase == phase && nb.manifest == b.manifest && a == action
}

/// Reveal the window next.
pub open spec fn reveals(b: Bootstrap, nb: Bootstrap, a: Action) -> bool {
    goes(b, nb, a, Phase::Revealing, Action::Reveal)
}

/// An event that the phase does not wait for changes nothing.
pub open spec fn ignores(b: Bootstrap, nb: Bootstrap, a: Action) -> bool {
    nb == b && a == Action::Idle
}

/// The first window step once the page is navigated: the title, else the size.
pub open spec fn configures(b: Bootstrap, nb: Bootstrap, a: Action) -> bool {
    match b.manifest {
        Some(m) => match m.window {
            Some(w) => match w.title {
                Some(t) => goes(b, nb, a, Phase::Titling, Action::SetTitle { title: t }),
                None => goes(b, nb, a, Phase::Sizing, Action::SetSize { width: w.width, height: w.height }),
            },
            None => reveals(b, nb, a),
        },
        None => reveals(b, nb, a),
    }
}

/// The requested size, once the title is set.
pub open spec fn resizes(b: Bootstrap, nb: Bootstrap, a: Action) -> bool {
    match b.manifest {
        Some(m) => match m.window {
            Some(w) => goes(b, nb, a, Phase::Sizing, Action::SetSize { width: w.width, height: w.height }),
            None => reveals(b, nb, a),
        },
        None => reveals(b, nb, a),
    }
}

/// After the resize has settled: look up the display where centring is asked.
pub open spec fn after_settling(b: Bootstrap, nb: Bootstrap, a: Action) -> bool {
    match b.manifest {
        Some(m) => match m.window {
            Some(w) => if w.centered_spec() {
                goes(b, nb, a, Phase::Centering, Action::QueryMonitor)
            } else {
                reveals(b, nb, a)
            },
            None => reveals(b, nb, a),
        },
        None => reveals(b, nb, a),
    }
}

/// Centre on `g` by the requested size (not the size the host reports).
pub open spec fn centers(b: Bootstrap, g: MonitorGeometry, nb: Bootstrap, a: Action) -> bool {
    match b.manifest {
        Some(m) => match m.window {
            Some(w) => {
                let x = centered_origin(g.x as int, g.width as int, w.width as int);
                let y = centered_origin(g.y as int, g.height as int, w.height as int);
                if fits_i32(x) && fits_i32(y) {
                    goes(b, nb, a, Phase::Positioning, Action::SetPosition { x: x as i32, y: y as i32 })
                } else {
                    reveals(b, nb, a)
                }
            },
            None => reveals(b, nb, a),
        },
        None => reveals(b, nb, a),
    }
}

/// One step of the startup sequence: from `b`, on event `e`, to `nb`, asking
/// for action `a`.
pub open spec fn transition(b: Bootstrap, e: Event, nb: Bootstrap, a: Action) -> bool {
    match b.phase {
        Phase::Loading => match e {
            Event::Manifest(ManifestOutcome::Loaded(m)) => {
                nb.phase == Phase::ResolvingRoot && nb.manifest == Some(m) && a == Action::ResolveRoot
            },
            Event::Manifest(_) => reveals(b, nb, a),
            _ => ignores(b, nb, a),
        },
        Phase::ResolvingRoot => match e {
            Event::RootResolved => goes(b, nb, a, Phase::StartingServer, Action::StartServer { port: SERVER_PORT }),
            Event::RootUnavailable => goes(b, nb, a, Phase::Failed, Action::Exit { code: ROOT_FAILURE_EXIT_CODE }),
            _ => ignores(b, nb, a),
        },
        Phase::StartingServer => match e {
            Event::Completed => goes(b, nb, a, Phase::Waiting, Action::Sleep { millis: GRACE_PERIOD_MS }),
            _ => ignores(b, nb, a),
        },
        Phase::Waiting => match e {
            Event::Completed => match b.manifest {
                Some(m) => nb.phase == Phase::Navigating && nb.manifest == b.manifest
                    && (a matches Action::Navigate { url } && url@ == entry_url_of(m.main@)),
                None => reveals(b, nb, a),
            },
            _ => ignores(b, nb, a),
        },
        Phase::Navigating => match e {
            Event::Completed => configures(b, nb, a),
            _ => ignores(b, nb, a),
        },
        Phase::Titling => match e {
            Event::Completed => resizes(b, nb, a),
            _ => ignores(b, nb, a),
        },
        Phase::Sizing => match e {
            Event::Completed => goes(b, nb, a, Phase::Settling, Action::Sleep { millis: SETTLE_PERIOD_MS }),
            _ => ignores(b, nb, a),
        },
        Phase::Settling => match e {
            Event::Completed => after_settling(b, nb, a),
            _ => ignores(b, nb, a),
        },
        Phase::Centering => match e {
            Event::Monitor(Some(g)) => centers(b, g, nb, a),
            Event::Monitor(None) => reveals(b, nb, a),
            _ => ignores(b, nb, a),
        },
        Phase::Positioning => match e {
            Event::Completed => reveals(b, nb, a),
            _ => ignores(b, nb, a),
        },
        Phase::Revealing => match e {
            Event::Completed => goes(b, nb, a, Phase::Ready, Action::Idle),
            _ => ignores(b, nb, a),
        },
        Phase::Ready | Phase::Failed => ignores(b, nb, a),
    }
}


/// Without a usable manifest the window is still revealed: a manifest that is
/// missing or does not parse leads straight to revealing the window, and the
/// sequence is ready once that is done.
pub proof fn missing_manifest_still_reveals(
    b: Bootstrap,
    outcome: ManifestOutcome,
    nb: Bootstrap,
    a: Action,
    nb2: Bootstrap,
    a2: Action,
)
    requires
        b.phase == Phase::Loading,
        !(outcome is Loaded),
        transition(b, Event::Manifest(outcome), nb, a),
        transition(nb, Event::Completed, nb2, a2),
    ensures
        a == Action::Reveal,
        nb2.phase == Phase::Ready,
{
}

/// A window that asks to be centred is sized to the requested dimensions and
/// then placed at the origin that centres those requested dimensions on the
/// current display, whatever size the host reports afterwards.
pub proof fn centering_uses_requested_size(
    b: Bootstrap,
    m: Manifest,
    w: crate::manifest::WindowSpec,
    g: MonitorGeometry,
    nb: Bootstrap,
    a: Action,
)
    requires
        b.manifest == Some(m),
        m.window == Some(w),
        w.centered_spec(),
        b.phase == Phase::Centering,
        transition(b, Event::Monitor(Some(g)), nb, a),
        fits_i32(centered_origin(g.x as int, g.width as int, w.width as int)),
        fits_i32(centered_origin(g.y as int, g.height as int, w.height as int)),
    ensures
        a == (Action::SetPosition {
            x: centered_origin(g.x as int, g.width as int, w.width as int) as i32,
            y: centered_origin(g.y as int, g.height as int, w.height as int) as i32,
        }),
{
}

/// Once the title is applied, or right after navigation where no title is
/// given, the window is resized to exactly the requested dimensions.
pub proof fn sizing_uses_requested_size(
    b: Bootstrap,
    m: Manifest,
    w: crate::manifest::WindowSpec,
    nb: Bootstrap,
    a: Action,
)
    requires
        b.manifest == Some(m),
        m.window == Some(w),
        b.phase == Phase::Titling || (b.phase == Phase::Navigating && w.title is None),
        transition(b, Event::Completed, nb, a),
    ensures
        a == (Action::SetSize { width: w.width, height: w.height }),
        nb.phase == Phase::Sizing,
{
}

impl Bootstrap {
    /// The sequence before anything is done: it first asks for the manifest.
    pub fn start() -> (r: (Bootstrap, Action))
        ensures
            r.0.phase == Phase::Loading,
            r.0.manifest is None,
            r.1 == Action::LoadManifest,
    {
        (Bootstrap { phase: Phase::Loading, manifest: None }, Action::LoadManifest)
    }

    fn go(self, phase: Phase, action: Action) -> (r: (Bootstrap, Action))
        ensures
            goes(self, r.0, r.1, phase, action),
    {
        (Bootstrap { phase, manifest: self.manifest }, action)
    }

    fn show_window(self) -> (r: (Bootstrap, Action))
        ensures
            reveals(self, r.0, r.1),
    {
        self.go(Phase::Revealing, Action::Reveal)
    }

    fn configure(self) -> (r: (Bootstrap, Action))
        ensures
            configures(self, r.0, r.1),
    {
        let action = match &self.manifest {
            Some(m) => match &m.window {
                Some(w) => match &w.title {
                    Some(t) => Some((Phase::Titling, Action::SetTitle { title: t.clone() })),
                    None => Some((Phase::Sizing, Action::SetSize { width: w.width, height: w.height })),
                },
                None => None,
            },
            None => None,
        };
        match action {
            Some((phase, action)) => self.go(phase, action),
            None => self.show_window(),
        }
    }

    fn resize(self) -> (r: (Bootstrap, Action))
        ensures
            resizes(self, r.0, r.1),
    {
        let size = match &self.manifest {
            Some(m) => match &m.window {
                Some(w) => Some((w.width, w.height)),
                None => None,
            },
            None => None,
        };
        match size {
            Some((width, height)) => self.go(Phase::Sizing, Action::SetSize { width, height }),
            None => self.show_window(),
        }
    }

    fn settle(self) -> (r: (Bootstrap, Action))
        ensures
            after_settling(self, r.0, r.1),
    {
        let centered = match &self.manifest {
            Some(m) => match &m.window {
                Some(w) => w.is_centered(),
                None => false,
            },
            None => false,
        };
        if centered {
            self.go(Phase::Centering, Action::QueryMonitor)
        } else {
            self.show_window()
        }
    }

    fn center(self, g: MonitorGeometry) -> (r: (Bootstrap, Action))
        ensures
            centers(self, g, r.0, r.1),
    {
        let position = match &self.manifest {
            Some(m) => match &m.window {
                Some(w) => center_position(&g, w.width, w.height),
                None => None,
            },
            None => None,
        };
        match position {
            Some((x, y)) => self.go(Phase::Positioning, Action::SetPosition { x, y }),
            None => self.show_window(),
        }
    }

    fn navigate(self) -> (r: (Bootstrap, Action))
        ensures
            match self.manifest {
                Some(m) => r.0.phase == Phase::Navigating && r.0.manifest == self.manifest
                    && (r.1 matches Action::Navigate { url } && url@ == entry_url_of(m.main@)),
                None => reveals(self, r.0, r.1),
            },
    {
        let url = match &self.manifest {
            Some(m) => Some(m.entry_url()),
            None => None,
        };
        match url {
            Some(url) => self.go(Phase::Navigating, Action::Navigate { url }),
            None => self.show_window(),
        }
    }

    /// The next state and action, given the outcome `event` of the last
    /// action.
    pub fn step(self, event: Event) -> (r: (Bootstrap, Action))
        ensures
            transition(self, event, r.0, r.1),
    {
        match self.phase {
            Phase::Loading => match event {
                Event::Manifest(ManifestOutcome::Loaded(m)) => {
                    (Bootstrap { phase: Phase::ResolvingRoot, manifest: Some(m) }, Action::ResolveRoot)
                },
                Event::Manifest(_) => self.show_window(),
                _ => (self, Action::Idle),
            },
            Phase::ResolvingRoot => match event {
                Event::RootResolved => self.go(Phase::StartingServer, Action::StartServer { port: SERVER_PORT }),
                Event::RootUnavailable => self.go(Phase::Failed, Action::Exit { code: ROOT_FAILURE_EXIT_CODE }),
                _ => (self, Action::Idle),
            },
            Phase::StartingServer => match event {
                Event::Completed => self.go(Phase::Waiting, Action::Sleep { millis: GRACE_PERIOD_MS }),
                _ => (self, Action::Idle),
            },
            Phase::Waiting => match event {
                Event::Completed => self.navigate(),
                _ => (self, Action::Idle),
            },
            Phase::Navigating => match event {
                Event::Completed => self.configure(),
                _ => (self, Action::Idle),
            },
            Phase::Titling => match event {
                Event::Completed => self.resize(),
                _ => (self, Action::Idle),
            },
            Phase::Sizing => match event {
                Event::Completed => self.go(Phase::Settling, Action::Sleep { millis: SETTLE_PERIOD_MS }),
                _ => (self, Action::Idle),
            },
            Phase::Settling => match event {
                Event::Completed => self.settle(),
                _ => (self, Action::Idle),
            },
            Phase::Centering => match event {
                Event::Monitor(Some(g)) => self.center(g),
                Event::Monitor(None) => self.show_window(),
                _ => (self, Action::Idle),
            },
            Phase::Positioning => match event {
                Event::Completed => self.show_window(),
                _ => (self, Action::Idle),
            },
            Phase::Revealing => match event {
                Event::Completed => self.go(Phase::Ready, Action::Idle),
                _ => (self, Action::Idle),
            },
            Phase::Ready | Phase::Failed => (self, Action::Idle),
        }
    }
}

} // verus!
