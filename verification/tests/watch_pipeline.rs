//! The watch pipeline end to end: classification, watch-set maintenance
//! against a real OS watcher, ignore filtering, and event normalization.

use wazzup::watch::debouncer::Debouncer;
use wazzup::watch::to_build_trigger;
use wazzup::watch::watcher::EventKind;
use wazzup::watch::watcher::IgnoreFilter;
use wazzup::watch::watcher::PathInfo;
use wazzup::watch::watcher::ProjectWatcher;
use wazzup::ChangeType;
use wazzup::FsPath;

fn path_of(segs: &[&str]) -> FsPath {
    FsPath::from_segments(segs.iter().map(|s| (*s).to_owned()).collect())
}

fn fs_path_from(p: &std::path::Path) -> FsPath {
    let mut segs: Vec<String> = Vec::new();
    for c in p.components() {
        if let std::path::Component::Normal(os) = c {
            segs.push(os.to_string_lossy().into_owned());
        }
    }
    FsPath::from_segments(segs)
}

fn project() -> FsPath {
    path_of(&["home", "me", "app"])
}

fn under(rel: &[&str]) -> FsPath {
    let mut segs = vec!["home", "me", "app"];
    segs.extend_from_slice(rel);
    path_of(&segs)
}

#[test]
fn classify_markup() {
    let c = to_build_trigger(&project(), &under(&["index.html"])).unwrap();
    assert_eq!(c, ChangeType::Html);
}

#[test]
fn classify_main_stylesheets() {
    for name in ["main.sass", "main.scss", "main.css"] {
        let c = to_build_trigger(&project(), &under(&["assets", name])).unwrap();
        assert_eq!(c, ChangeType::Css);
    }
}

#[test]
fn classify_stylesheet_subtrees() {
    for dir in ["sass", "scss", "css"] {
        let c = to_build_trigger(&project(), &under(&["assets", dir, "deep", "x.scss"])).unwrap();
        assert_eq!(c, ChangeType::Css);
    }
}

#[test]
fn classify_static_asset_keeps_path() {
    let full = under(&["assets", "logo.png"]);
    let c = to_build_trigger(&project(), &full).unwrap();
    assert_eq!(c, ChangeType::Static(full));
}

#[test]
fn classify_nested_static_asset() {
    let full = under(&["assets", "img", "main.scss"]);
    let c = to_build_trigger(&project(), &full).unwrap();
    // `main.scss` below a non-stylesheet subdirectory is an asset, not a
    // stylesheet: the stylesheet names are recognized directly under assets.
    assert_eq!(c, ChangeType::Static(full));
}

#[test]
fn classify_source_fallback() {
    assert_eq!(
        to_build_trigger(&project(), &under(&["src", "main.rs"])).unwrap(),
        ChangeType::Rust
    );
    assert_eq!(
        to_build_trigger(&project(), &under(&["Cargo.toml"])).unwrap(),
        ChangeType::Rust
    );
    assert_eq!(to_build_trigger(&project(), &project()).unwrap(), ChangeType::Rust);
}

#[test]
fn change_labels() {
    assert_eq!(ChangeType::Html.label(), "html");
    assert_eq!(ChangeType::Css.label(), "css");
    assert_eq!(ChangeType::Rust.label(), "rust");
    assert_eq!(
        ChangeType::Static(path_of(&["p", "assets", "a.png"])).label(),
        "static:/p/assets/a.png"
    );
}

#[test]
fn classify_outside_project() {
    assert!(to_build_trigger(&project(), &path_of(&["elsewhere", "file"])).is_none());
}

#[test]
fn ignore_filter_rules() {
    let temp = tempfile::tempdir().unwrap();
    let root = fs_path_from(temp.path());
    let filter = IgnoreFilter::from_lines(&root, &vec!["*.log".to_owned()]).unwrap();
    assert!(filter.matched(&root.child("debug.log"), false));
    assert!(!filter.matched(&root.child("debug.txt"), false));
    // the built-in rule excludes version-control metadata, directories only
    assert!(filter.matched(&root.child(".git"), true));
    assert!(!filter.matched(&root.child(".git"), false));
}

#[test]
fn ignore_filter_accepts_comments_and_blanks() {
    let temp = tempfile::tempdir().unwrap();
    let root = fs_path_from(temp.path());
    let lines = vec!["# build output".to_owned(), String::new(), "*.log".to_owned()];
    let filter = IgnoreFilter::from_lines(&root, &lines).unwrap();
    assert!(filter.matched(&root.child("debug.log"), false));
    assert!(!filter.matched(&root.child("notes.txt"), false));
}

#[test]
fn ignore_filters_from_same_rules_agree() {
    let temp = tempfile::tempdir().unwrap();
    let root = fs_path_from(temp.path());
    let lines = vec!["target/".to_owned(), "*.tmp".to_owned()];
    let one = IgnoreFilter::from_lines(&root, &lines).unwrap();
    let two = IgnoreFilter::from_lines(&root, &lines).unwrap();
    for (path, is_dir) in [
        (root.child("target"), true),
        (root.child("target"), false),
        (root.child("scratch.tmp"), false),
        (root.child("src").child("main.rs"), false),
    ] {
        assert_eq!(one.matched(&path, is_dir), two.matched(&path, is_dir));
    }
}

#[test]
fn ignore_filter_bad_rule_is_fatal() {
    let temp = tempfile::tempdir().unwrap();
    let root = fs_path_from(temp.path());
    assert!(IgnoreFilter::from_lines(&root, &vec!["a{b,c".to_owned()]).is_err());
}

fn raw_watcher() -> notify::RecommendedWatcher {
    notify::recommended_watcher(|_res: Result<notify::Event, notify::Error>| {}).unwrap()
}

#[test]
fn watch_set_add_remove() {
    let temp = tempfile::tempdir().unwrap();
    let root = fs_path_from(temp.path());
    let filter = IgnoreFilter::from_lines(&root, &Vec::new()).unwrap();
    let mut watcher = ProjectWatcher::new(root.duplicate(), filter, raw_watcher());

    // an existing path registers; registering it again does not error
    assert!(watcher.add(&root, true));
    assert!(watcher.add(&root, true));
    // after remove the path is absent: a second remove finds nothing
    assert!(watcher.remove(&root));
    assert!(!watcher.remove(&root));
    // a path that does not exist cannot be registered; the run continues
    assert!(!watcher.add(&root.child("missing"), false));
}

#[test]
fn watch_set_skips_ignored() {
    let temp = tempfile::tempdir().unwrap();
    let root = fs_path_from(temp.path());
    let file = tempfile::NamedTempFile::new_in(temp.path()).unwrap();
    let file_path = fs_path_from(file.path());
    let name = file.path().file_name().unwrap().to_string_lossy().into_owned();
    let filter = IgnoreFilter::from_lines(&root, &vec![name]).unwrap();
    let mut watcher = ProjectWatcher::new(root.duplicate(), filter, raw_watcher());
    // the file exists, but the ignore filter excludes it
    assert!(!watcher.add(&file_path, false));
}

#[test]
fn seed_registers_existing_paths() {
    let temp = tempfile::tempdir().unwrap();
    let root = fs_path_from(temp.path());
    let file = tempfile::NamedTempFile::new_in(temp.path()).unwrap();
    let filter = IgnoreFilter::from_lines(&root, &Vec::new()).unwrap();
    let mut watcher = ProjectWatcher::new(root.duplicate(), filter, raw_watcher());
    let seeds = vec![root.duplicate(), fs_path_from(file.path())];
    assert!(watcher.seed(&seeds).is_ok());
}

fn event_watcher(temp: &tempfile::TempDir) -> ProjectWatcher {
    let root = fs_path_from(temp.path());
    let filter = IgnoreFilter::from_lines(&root, &Vec::new()).unwrap();
    ProjectWatcher::new(root, filter, raw_watcher())
}

#[test]
fn create_under_assets_forwards_static() {
    let temp = tempfile::tempdir().unwrap();
    let root = fs_path_from(temp.path());
    let mut watcher = event_watcher(&temp);
    let asset = root.child("assets").child("logo.png");
    let out = watcher.handle_event(
        EventKind::Create,
        &vec![PathInfo { path: asset.duplicate(), is_dir: false }],
    );
    assert_eq!(out, vec![ChangeType::Static(asset)]);
}

#[test]
fn paired_rename_forwards_both_sides() {
    let temp = tempfile::tempdir().unwrap();
    let root = fs_path_from(temp.path());
    let mut watcher = event_watcher(&temp);
    let out = watcher.handle_event(
        EventKind::RenameBoth,
        &vec![
            PathInfo { path: root.child("a"), is_dir: true },
            PathInfo { path: root.child("b"), is_dir: true },
        ],
    );
    assert_eq!(out, vec![ChangeType::Rust, ChangeType::Rust]);
}

#[test]
fn cross_category_rename_reports_both_categories() {
    let temp = tempfile::tempdir().unwrap();
    let root = fs_path_from(temp.path());
    let mut watcher = event_watcher(&temp);
    let new_path = root.child("assets").child("logo.png");
    let out = watcher.handle_event(
        EventKind::RenameBoth,
        &vec![
            PathInfo { path: root.child("logo.png"), is_dir: false },
            PathInfo { path: new_path.duplicate(), is_dir: false },
        ],
    );
    assert_eq!(out, vec![ChangeType::Rust, ChangeType::Static(new_path)]);
}

#[test]
fn unpaired_rename_count_still_forwards() {
    let temp = tempfile::tempdir().unwrap();
    let root = fs_path_from(temp.path());
    let mut watcher = event_watcher(&temp);
    // a paired rename should carry two paths; with any other count the
    // watch set is left alone, but the paths are still classified
    let out = watcher.handle_event(
        EventKind::RenameBoth,
        &vec![PathInfo { path: root.child("index.html"), is_dir: false }],
    );
    assert_eq!(out, vec![ChangeType::Html]);
}

#[test]
fn seed_fails_on_missing_path() {
    let temp = tempfile::tempdir().unwrap();
    let root = fs_path_from(temp.path());
    let filter = IgnoreFilter::from_lines(&root, &Vec::new()).unwrap();
    let mut watcher = ProjectWatcher::new(root.duplicate(), filter, raw_watcher());
    let seeds = vec![root.child("missing")];
    assert!(watcher.seed(&seeds).is_err());
}

#[test]
fn remove_under_assets_forwards_static() {
    let temp = tempfile::tempdir().unwrap();
    let root = fs_path_from(temp.path());
    let mut watcher = event_watcher(&temp);
    let asset = root.child("assets").child("logo.png");
    let out = watcher.handle_event(
        EventKind::Remove,
        &vec![PathInfo { path: asset.duplicate(), is_dir: false }],
    );
    assert_eq!(out, vec![ChangeType::Static(asset)]);
}

#[test]
fn noise_events_are_dropped() {
    let temp = tempfile::tempdir().unwrap();
    let root = fs_path_from(temp.path());
    let mut watcher = event_watcher(&temp);
    for kind in [
        EventKind::Access,
        EventKind::ModifyMetadata,
        EventKind::RenameFrom,
        EventKind::RenameTo,
        EventKind::RenameOther,
        EventKind::Other,
    ] {
        let out = watcher.handle_event(
            kind,
            &vec![PathInfo { path: root.child("index.html"), is_dir: false }],
        );
        assert!(out.is_empty());
    }
}

#[test]
fn ignored_paths_are_not_forwarded() {
    let temp = tempfile::tempdir().unwrap();
    let root = fs_path_from(temp.path());
    let filter = IgnoreFilter::from_lines(&root, &vec!["*.tmp".to_owned()]).unwrap();
    let mut watcher = ProjectWatcher::new(root.duplicate(), filter, raw_watcher());
    let out = watcher.handle_event(
        EventKind::ModifyData,
        &vec![
            PathInfo { path: root.child("scratch.tmp"), is_dir: false },
            PathInfo { path: root.child("index.html"), is_dir: false },
        ],
    );
    assert_eq!(out, vec![ChangeType::Html]);
}

#[test]
fn editing_markup_once_emits_one_change() {
    let temp = tempfile::tempdir().unwrap();
    let root = fs_path_from(temp.path());
    let mut watcher = event_watcher(&temp);
    let changes = watcher.handle_event(
        EventKind::ModifyData,
        &vec![PathInfo { path: root.child("index.html"), is_dir: false }],
    );

    let mut debouncer = Debouncer::new(2000);
    let mut at: u64 = 100;
    for change in changes {
        debouncer.record(change, at);
        at += 1;
    }
    assert!(debouncer.sweep(2000).is_empty());
    assert_eq!(debouncer.sweep(2100), vec![ChangeType::Html]);
    assert!(debouncer.sweep(4200).is_empty());
}

#[test]
fn rapid_stylesheet_edits_emit_once() {
    let temp = tempfile::tempdir().unwrap();
    let root = fs_path_from(temp.path());
    let mut watcher = event_watcher(&temp);
    let sheet = root.child("assets").child("main.scss");

    let mut debouncer = Debouncer::new(2000);
    for at in [0u64, 50, 100, 150, 200] {
        let changes = watcher.handle_event(
            EventKind::ModifyData,
            &vec![PathInfo { path: sheet.duplicate(), is_dir: false }],
        );
        assert_eq!(changes, vec![ChangeType::Css]);
        for change in changes {
            debouncer.record(change, at);
        }
    }
    assert_eq!(debouncer.sweep(2000), vec![ChangeType::Css]);
    assert!(debouncer.sweep(9000).is_empty());
}

#[test]
fn burst_collapses_to_one_emission() {
    let mut debouncer = Debouncer::new(2000);
    for t in [0u64, 50, 100, 150, 200] {
        debouncer.record(ChangeType::Css, t);
    }
    assert!(debouncer.sweep(1999).is_empty());
    assert_eq!(debouncer.sweep(2000), vec![ChangeType::Css]);
    assert!(debouncer.sweep(10_000).is_empty());
}

#[test]
fn separated_changes_emit_twice() {
    let mut debouncer = Debouncer::new(2000);
    debouncer.record(ChangeType::Html, 0);
    assert_eq!(debouncer.sweep(2000), vec![ChangeType::Html]);
    debouncer.record(ChangeType::Html, 5000);
    assert!(debouncer.sweep(6999).is_empty());
    assert_eq!(debouncer.sweep(7000), vec![ChangeType::Html]);
}

#[test]
fn distinct_categories_stay_distinct() {
    let mut debouncer = Debouncer::new(2000);
    debouncer.record(ChangeType::Html, 0);
    debouncer.record(ChangeType::Css, 0);
    debouncer.record(ChangeType::Rust, 100);
    let out = debouncer.sweep(2100);
    assert_eq!(out, vec![ChangeType::Html, ChangeType::Css, ChangeType::Rust]);
}

#[test]
fn distinct_asset_paths_are_distinct_keys() {
    let a = ChangeType::Static(path_of(&["p", "assets", "a.png"]));
    let b = ChangeType::Static(path_of(&["p", "assets", "b.png"]));
    let mut debouncer = Debouncer::new(2000);
    debouncer.record(a.duplicate(), 0);
    debouncer.record(b.duplicate(), 0);
    debouncer.record(a.duplicate(), 10);
    assert_eq!(debouncer.sweep(2000), vec![a, b]);
}

#[test]
fn young_entries_stay_pending() {
    let mut debouncer = Debouncer::new(2000);
    debouncer.record(ChangeType::Html, 0);
    debouncer.record(ChangeType::Css, 1500);
    assert_eq!(debouncer.sweep(2000), vec![ChangeType::Html]);
    assert!(debouncer.sweep(3400).is_empty());
    assert_eq!(debouncer.sweep(3500), vec![ChangeType::Css]);
}
