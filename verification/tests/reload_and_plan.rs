//! Live-reload signalling and rebuild planning.

use wazzup::plan::css_mode;
use wazzup::plan::full_build_plan;
use wazzup::plan::rebuild_plan;
use wazzup::plan::BuildStep;
use wazzup::plan::CssMode;
use wazzup::server::ws_step;
use wazzup::server::WsAction;
use wazzup::server::WsEvent;
use wazzup::ChangeType;
use wazzup::FsPath;
use wazzup::ReloadClient;
use wazzup::ReloadSignal;

fn path_of(segs: &[&str]) -> FsPath {
    FsPath::from_segments(segs.iter().map(|s| (*s).to_owned()).collect())
}

#[test]
fn late_client_gets_no_stale_reload() {
    let mut signal = ReloadSignal::new();
    signal.notify();
    // a client attaching after that rebuild sees nothing until the next one
    let mut client = ReloadClient::attach(&signal);
    assert!(!client.poll(&signal));
    signal.notify();
    assert!(client.poll(&signal));
    assert!(!client.poll(&signal));
}

#[test]
fn notifications_between_polls_collapse() {
    let mut signal = ReloadSignal::new();
    let mut client = ReloadClient::attach(&signal);
    signal.notify();
    signal.notify();
    signal.notify();
    assert!(client.poll(&signal));
    assert!(!client.poll(&signal));
}

#[test]
fn every_client_sees_each_advance() {
    let mut signal = ReloadSignal::new();
    let mut one = ReloadClient::attach(&signal);
    let mut two = ReloadClient::attach(&signal);
    signal.notify();
    assert!(one.poll(&signal));
    assert!(two.poll(&signal));
}

#[test]
fn connection_reactions() {
    assert_eq!(ws_step(WsEvent::Shutdown), WsAction::Stop);
    assert_eq!(ws_step(WsEvent::ReloadChanged), WsAction::SendReload);
    assert_eq!(ws_step(WsEvent::ReloadClosed), WsAction::Stop);
    // a push that timed out or failed marks the connection broken
    assert_eq!(ws_step(WsEvent::SendTimedOut), WsAction::Stop);
    assert_eq!(ws_step(WsEvent::SendFailed), WsAction::Stop);
    assert_eq!(ws_step(WsEvent::ClientMessage), WsAction::Continue);
    assert_eq!(ws_step(WsEvent::ClientClosed), WsAction::Stop);
}

#[test]
fn versioned_attach_and_poll() {
    let mut client = ReloadClient::attach_at(3);
    assert!(!client.poll_at(3));
    assert!(client.poll_at(4));
    assert!(!client.poll_at(4));
}

#[test]
fn detect_css_mode() {
    assert_eq!(css_mode(true), CssMode::Tailwind);
    assert_eq!(css_mode(false), CssMode::Sass);
}

fn project() -> FsPath {
    path_of(&["home", "me", "app"])
}

#[test]
fn markup_change_rebuilds_index() {
    let steps = rebuild_plan(CssMode::Sass, &ChangeType::Html, &project()).unwrap();
    assert_eq!(steps.len(), 1);
    assert!(
        matches!(&steps[0], BuildStep::Index { release: false, base_url, dev: true } if base_url == "/")
    );
}

#[test]
fn tailwind_reruns_for_markup_and_source() {
    for change in [ChangeType::Html, ChangeType::Css, ChangeType::Rust] {
        let steps = rebuild_plan(CssMode::Tailwind, &change, &project()).unwrap();
        assert!(matches!(steps[0], BuildStep::Tailwind { release: false }));
    }
    let asset = ChangeType::Static(path_of(&["home", "me", "app", "assets", "x.png"]));
    let steps = rebuild_plan(CssMode::Tailwind, &asset, &project()).unwrap();
    assert_eq!(steps.len(), 1);
    assert!(matches!(&steps[0], BuildStep::Asset { .. }));
}

#[test]
fn stylesheet_change_by_mode() {
    let steps = rebuild_plan(CssMode::Sass, &ChangeType::Css, &project()).unwrap();
    assert_eq!(steps.len(), 1);
    assert!(matches!(steps[0], BuildStep::Sass { release: false }));
    let steps = rebuild_plan(CssMode::Tailwind, &ChangeType::Css, &project()).unwrap();
    assert_eq!(steps.len(), 1);
    assert!(matches!(steps[0], BuildStep::Tailwind { release: false }));
}

#[test]
fn asset_change_rebuilds_one_asset() {
    let full = path_of(&["home", "me", "app", "assets", "img", "logo.png"]);
    let steps = rebuild_plan(CssMode::Sass, &ChangeType::Static(full), &project()).unwrap();
    assert_eq!(steps.len(), 1);
    match &steps[0] {
        BuildStep::Asset { path } => {
            assert_eq!(path.segs, vec!["assets".to_owned(), "img".to_owned(), "logo.png".to_owned()]);
        }
        other => panic!("expected an asset step, got {other:?}"),
    }
}

#[test]
fn asset_outside_project_yields_no_plan() {
    let stray = ChangeType::Static(path_of(&["elsewhere", "x.png"]));
    assert!(rebuild_plan(CssMode::Sass, &stray, &project()).is_none());
}

#[test]
fn source_change_recompiles() {
    let steps = rebuild_plan(CssMode::Sass, &ChangeType::Rust, &project()).unwrap();
    assert_eq!(steps.len(), 1);
    assert!(
        matches!(&steps[0], BuildStep::Rust { release: false, profile } if profile == "release")
    );
}

#[test]
fn full_build_order() {
    let steps = full_build_plan(CssMode::Sass, false, "/", "release", true);
    assert_eq!(steps.len(), 4);
    assert!(matches!(&steps[0], BuildStep::Index { release: false, dev: true, .. }));
    assert!(matches!(steps[1], BuildStep::Sass { release: false }));
    assert!(matches!(steps[2], BuildStep::Assets));
    assert!(matches!(&steps[3], BuildStep::Rust { release: false, .. }));
}

#[test]
fn release_build_minifies() {
    let steps = full_build_plan(CssMode::Tailwind, true, "/sub", "fast", false);
    assert_eq!(steps.len(), 7);
    assert!(
        matches!(&steps[0], BuildStep::Index { release: true, base_url, dev: false } if base_url == "/sub")
    );
    assert!(matches!(steps[1], BuildStep::Tailwind { release: true }));
    assert!(matches!(&steps[3], BuildStep::Rust { release: true, profile } if profile == "fast"));
    assert!(matches!(steps[4], BuildStep::MinifyHtml));
    assert!(matches!(steps[5], BuildStep::MinifyJs));
    assert!(matches!(steps[6], BuildStep::MinifyWasm));
}
