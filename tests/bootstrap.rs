use app_shell::bootstrap::{Action, Bootstrap, Event, ManifestOutcome, Phase};
use app_shell::geometry::{center_origin, center_position, MonitorGeometry};
use app_shell::manifest::{Manifest, WindowSpec};

#[test]
fn center_origin_exact_values() {
    assert_eq!(center_origin(0, 1920, 1024), Some(448));
    assert_eq!(center_origin(0, 1080, 768), Some(156));
    assert_eq!(center_origin(1920, 1920, 1024), Some(2368));
    assert_eq!(center_origin(0, 100, 201), Some(-50));
    assert_eq!(center_origin(i32::MAX, u32::MAX, 0), None);
}

#[test]
fn center_position_on_a_display() {
    let g = MonitorGeometry { x: -1280, y: 0, width: 1280, height: 1024 };
    assert_eq!(center_position(&g, 832, 624), Some((-1056, 200)));
}

#[test]
fn missing_manifest_reveals_window() {
    let (b, a) = Bootstrap::start();
    assert!(matches!(a, Action::LoadManifest));
    let (b, a) = b.step(Event::Manifest(ManifestOutcome::NotFound));
    assert!(matches!(a, Action::Reveal));
    let (b, a) = b.step(Event::Completed);
    assert_eq!(b.phase, Phase::Ready);
    assert!(matches!(a, Action::Idle));
}

#[test]
fn invalid_manifest_reveals_window() {
    let (b, _) = Bootstrap::start();
    let (b, a) = b.step(Event::Manifest(ManifestOutcome::Invalid("expected value".to_string())));
    assert!(matches!(a, Action::Reveal));
    assert_eq!(b.phase, Phase::Revealing);
}

#[test]
fn unresolvable_root_exits_with_failure() {
    let (b, _) = Bootstrap::start();
    let (b, a) = b.step(Event::Manifest(ManifestOutcome::Loaded(Manifest::new("app.html".to_string()))));
    assert!(matches!(a, Action::ResolveRoot));
    let (b, a) = b.step(Event::RootUnavailable);
    assert!(matches!(a, Action::Exit { code: 1 }));
    assert_eq!(b.phase, Phase::Failed);
}

#[test]
fn manifest_without_window_navigates_then_reveals() {
    let (b, _) = Bootstrap::start();
    let (b, _) = b.step(Event::Manifest(ManifestOutcome::Loaded(Manifest::new("app.html".to_string()))));
    let (b, a) = b.step(Event::RootResolved);
    assert!(matches!(a, Action::StartServer { port: 3000 }));
    let (b, a) = b.step(Event::Completed);
    assert!(matches!(a, Action::Sleep { millis: 500 }));
    let (b, a) = b.step(Event::Completed);
    match a {
        Action::Navigate { url } => assert_eq!(url, "http://127.0.0.1:3000/app.html"),
        _ => panic!("expected navigation"),
    }
    let (b, a) = b.step(Event::Completed);
    assert!(matches!(a, Action::Reveal));
    let (b, _) = b.step(Event::Completed);
    assert_eq!(b.phase, Phase::Ready);
}

#[test]
fn centered_window_uses_requested_size() {
    let mut w = WindowSpec::new();
    w.width = 1024;
    w.height = 768;
    w.position = Some("center".to_string());
    w.title = Some("Demo".to_string());
    let m = Manifest { main: "index.html".to_string(), window: Some(w) };
    let (b, _) = Bootstrap::start();
    let (b, _) = b.step(Event::Manifest(ManifestOutcome::Loaded(m)));
    let (b, _) = b.step(Event::RootResolved);
    let (b, _) = b.step(Event::Completed);
    let (b, _) = b.step(Event::Completed);
    let (b, a) = b.step(Event::Completed);
    match a {
        Action::SetTitle { title } => assert_eq!(title, "Demo"),
        _ => panic!("expected title"),
    }
    let (b, a) = b.step(Event::Completed);
    assert!(matches!(a, Action::SetSize { width: 1024, height: 768 }));
    let (b, a) = b.step(Event::Completed);
    assert!(matches!(a, Action::Sleep { millis: 100 }));
    let (b, a) = b.step(Event::Completed);
    assert!(matches!(a, Action::QueryMonitor));
    let g = MonitorGeometry { x: 0, y: 0, width: 1920, height: 1080 };
    let (b, a) = b.step(Event::Monitor(Some(g)));
    assert!(matches!(a, Action::SetPosition { x: 448, y: 156 }));
    let (b, a) = b.step(Event::Completed);
    assert!(matches!(a, Action::Reveal));
    let (b, _) = b.step(Event::Completed);
    assert_eq!(b.phase, Phase::Ready);
}

#[test]
fn no_monitor_skips_centering_and_reveals() {
    let mut w = WindowSpec::new();
    w.position = Some("center".to_string());
    let m = Manifest { main: "index.html".to_string(), window: Some(w) };
    let mut b = Bootstrap { phase: Phase::Centering, manifest: Some(m) };
    let (nb, a) = b.step(Event::Monitor(None));
    assert!(matches!(a, Action::Reveal));
    b = nb;
    assert_eq!(b.phase, Phase::Revealing);
}

#[test]
fn unexpected_event_changes_nothing() {
    let (b, _) = Bootstrap::start();
    let (b, a) = b.step(Event::Completed);
    assert_eq!(b.phase, Phase::Loading);
    assert!(matches!(a, Action::Idle));
}
