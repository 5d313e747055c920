//! Tool command lines, output minification, file status, path handling, and
//! argument defaults.

use wazzup::cli::BuildArgs;
use wazzup::cli::DevArgs;
use wazzup::minify::html_document;
use wazzup::minify::Reduction;
use wazzup::status::project_file_status;
use wazzup::status::FileProbe;
use wazzup::tools::Cargo;
use wazzup::tools::LockPackage;
use wazzup::tools::Rustup;
use wazzup::tools::Sass;
use wazzup::tools::Tailwind;
use wazzup::tools::WasmBindgen;
use wazzup::tools::WasmOpt;
use wazzup::FsPath;

fn path_of(segs: &[&str]) -> FsPath {
    FsPath::from_segments(segs.iter().map(|s| (*s).to_owned()).collect())
}

fn strings(args: &[&str]) -> Vec<String> {
    args.iter().map(|s| (*s).to_owned()).collect()
}

#[test]
fn path_display() {
    assert_eq!(path_of(&["home", "me", "app"]).display_string(), "/home/me/app");
    assert_eq!(path_of(&[]).display_string(), "/");
}

#[test]
fn path_relations() {
    let root = path_of(&["home", "me"]);
    let deep = path_of(&["home", "me", "app", "src"]);
    assert!(deep.starts_with(&root));
    assert!(root.starts_with(&root));
    assert!(!root.starts_with(&deep));
    assert!(!path_of(&["home", "you"]).starts_with(&root));
    assert!(deep.path_eq(&deep.duplicate()));
    assert!(!deep.path_eq(&root));
    let rel = deep.skip_prefix(root.len());
    assert_eq!(rel.segs, vec!["app".to_owned(), "src".to_owned()]);
    assert_eq!(root.child("app").segs, vec!["home".to_owned(), "me".to_owned(), "app".to_owned()]);
}

#[test]
fn rustup_commands() {
    assert_eq!(Rustup::target_list_args(), strings(&["target", "list", "--installed"]));
    assert_eq!(
        Rustup::target_add_args(),
        strings(&["target", "add", "wasm32-unknown-unknown"])
    );
}

#[test]
fn rustup_target_detection() {
    let lines = strings(&["aarch64-apple-darwin", "wasm32-unknown-unknown"]);
    assert!(Rustup::has_wasm_target(&lines));
    assert!(!Rustup::has_wasm_target(&strings(&["x86_64-unknown-linux-gnu"])));
    assert!(!Rustup::has_wasm_target(&strings(&["wasm32-unknown-unknown-extra"])));
    assert!(!Rustup::has_wasm_target(&Vec::new()));
}

#[test]
fn cargo_build_command() {
    let cargo = Cargo::from_metadata(path_of(&["ws"]), path_of(&["ws", "target"]));
    assert_eq!(cargo.workspace_dir().display_string(), "/ws");
    assert_eq!(cargo.target_dir().display_string(), "/ws/target");
    assert_eq!(
        cargo.build_args(false, "release"),
        strings(&[
            "build",
            "--color",
            "always",
            "--target",
            "wasm32-unknown-unknown",
            "--target-dir",
            "/ws/target/wazzup",
        ])
    );
    assert_eq!(
        cargo.build_args(true, "fast"),
        strings(&[
            "build",
            "--color",
            "always",
            "--target",
            "wasm32-unknown-unknown",
            "--target-dir",
            "/ws/target/wazzup",
            "--profile",
            "fast",
        ])
    );
}

#[test]
fn bindgen_version_discovery() {
    let packages = vec![
        LockPackage { name: "serde".to_owned(), version: "1.0.0".to_owned() },
        LockPackage { name: "wasm-bindgen".to_owned(), version: "0.2.92".to_owned() },
        LockPackage { name: "wasm-bindgen".to_owned(), version: "0.2.0".to_owned() },
    ];
    assert_eq!(WasmBindgen::find_version(&packages).unwrap(), "0.2.92");
    assert!(WasmBindgen::find_version(&Vec::new()).is_none());
    let without = vec![LockPackage { name: "serde".to_owned(), version: "1.0.0".to_owned() }];
    assert!(WasmBindgen::find_version(&without).is_none());
}

#[test]
fn bindgen_cache_layout_and_command() {
    let cache = path_of(&["home", "me", ".cache", "wazzup"]);
    let bindgen = WasmBindgen::new("0.2.92".to_owned(), &cache);
    assert_eq!(
        bindgen.bin_path().display_string(),
        "/home/me/.cache/wazzup/wasm-bindgen/0.2.92/wasm-bindgen"
    );
    let args = bindgen.run_args(&path_of(&["t", "app.wasm"]), &path_of(&["p", "dist"]));
    assert_eq!(
        args,
        strings(&[
            "--target",
            "web",
            "--no-typescript",
            "--omit-default-module-path",
            "--out-dir",
            "/p/dist",
            "/t/app.wasm",
        ])
    );
}

#[test]
fn wasm_opt_command() {
    let args = WasmOpt::run_args(&path_of(&["p", "dist", "app_bg.wasm"]));
    assert_eq!(
        args,
        strings(&["-O4", "--output", "/p/dist/app_bg.wasm", "/p/dist/app_bg.wasm"])
    );
}

#[test]
fn sass_command() {
    let sass = Sass::new(path_of(&["usr", "bin", "sass"]));
    assert_eq!(sass.bin_path().display_string(), "/usr/bin/sass");
    let target = path_of(&["p", "assets", "main.scss"]);
    let out = path_of(&["p", "dist", "main.css"]);
    assert_eq!(
        sass.run_args(&target, &out, false),
        strings(&["--no-source-map", "/p/assets/main.scss", "/p/dist/main.css"])
    );
    assert_eq!(
        sass.run_args(&target, &out, true),
        strings(&[
            "--no-source-map",
            "/p/assets/main.scss",
            "/p/dist/main.css",
            "--style",
            "compressed",
        ])
    );
}

#[test]
fn tailwind_command() {
    let tailwind = Tailwind::new(path_of(&["usr", "bin", "tailwindcss"]));
    let target = path_of(&["p", "assets", "main.css"]);
    let out = path_of(&["p", "dist", "main.css"]);
    assert_eq!(
        tailwind.run_args(&target, &out, false),
        strings(&["--input", "/p/assets/main.css", "--output", "/p/dist/main.css"])
    );
    assert_eq!(
        tailwind.run_args(&target, &out, true),
        strings(&["--input", "/p/assets/main.css", "--output", "/p/dist/main.css", "--minify"])
    );
}

#[test]
fn js_tool_search_path_within_workspace() {
    let root = path_of(&["ws"]);
    let cwd = path_of(&["ws", "app", "sub"]);
    assert_eq!(
        wazzup::tools::js_tool_search_path(&root, &cwd, "/usr/bin:/bin"),
        "/ws/app/sub/node_modules/.bin:/ws/app/node_modules/.bin:/ws/node_modules/.bin:/usr/bin:/bin"
    );
}

#[test]
fn js_tool_search_path_at_root() {
    let root = path_of(&["ws"]);
    assert_eq!(
        wazzup::tools::js_tool_search_path(&root, &root, "/bin"),
        "/ws/node_modules/.bin:/bin"
    );
}

#[test]
fn js_tool_search_path_outside_workspace() {
    let root = path_of(&["ws"]);
    let cwd = path_of(&["elsewhere"]);
    assert_eq!(wazzup::tools::js_tool_search_path(&root, &cwd, "/usr/bin"), "/usr/bin");
}

#[test]
fn reduction_accumulates() {
    let mut reduction = Reduction::default();
    assert_eq!(reduction.saved_permille(), 0);
    reduction.record(600, 300);
    reduction.record(400, 100);
    assert_eq!(reduction.original(), 1000);
    assert_eq!(reduction.minified(), 400);
    // 1000 - 400 * 1000 / 1000: six hundred tenths of a percent saved
    assert_eq!(reduction.saved_permille(), 600);
}

#[test]
fn reduction_growth_goes_negative() {
    let mut reduction = Reduction::default();
    reduction.record(100, 250);
    assert_eq!(reduction.saved_permille(), -1500);
}

#[test]
fn reduction_saturates() {
    let mut reduction = Reduction::default();
    reduction.record(usize::MAX, 0);
    reduction.record(usize::MAX, 0);
    assert_eq!(reduction.original(), u64::MAX);
}

#[test]
fn html_minification_shrinks() {
    let mut reduction = Reduction::default();
    let source = b"<html>  <head>  </head>  <body>  <p>hi</p>  </body>  </html>".to_vec();
    let out = html_document(&mut reduction, &source).unwrap();
    assert_ne!(out, source);
    assert!(out.len() < source.len());
    assert_eq!(reduction.original(), source.len() as u64);
    assert_eq!(reduction.minified(), out.len() as u64);
}

#[test]
fn html_minification_rejects_non_utf8() {
    let mut reduction = Reduction::default();
    let source = vec![b'<', b'p', b'>', 0xff, 0xfe, b'<', b'/', b'p', b'>'];
    assert!(html_document(&mut reduction, &source).is_none());
    assert_eq!(reduction.original(), 0);
    assert_eq!(reduction.minified(), 0);
}

#[test]
fn file_status_picks_first_existing() {
    let probes = vec![
        FileProbe { path: "assets/main.sass".to_owned(), exists: false },
        FileProbe { path: "assets/main.scss".to_owned(), exists: true },
        FileProbe { path: "assets/main.css".to_owned(), exists: true },
    ];
    let status = project_file_status(&probes);
    assert!(status.found);
    assert_eq!(status.path, "assets/main.scss");
}

#[test]
fn file_status_reports_first_missing() {
    let probes = vec![
        FileProbe { path: "index.html".to_owned(), exists: false },
    ];
    let status = project_file_status(&probes);
    assert!(!status.found);
    assert_eq!(status.path, "index.html");
    let none = project_file_status(&Vec::new());
    assert!(!none.found);
    assert_eq!(none.path, "");
}

#[test]
fn default_build_settings() {
    let args = BuildArgs::default();
    assert!(!args.release);
    assert_eq!(args.profile, "release");
    assert_eq!(args.base_url, "/");
}

#[test]
fn default_dev_settings() {
    let args = DevArgs::default();
    assert_eq!(args.port, 8080);
}
