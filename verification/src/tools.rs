//! The external build tools: for each one, the exact command line the
//! orchestrator invokes it with, and the decisions taken on its output.
//!
//! Invoking a process is the caller's business; these functions pin down what
//! is passed to each tool and what is read from what it returned.

use vstd::prelude::*;

use crate::path::lemma_deep_view_index;
use crate::path::seg_eq;
use crate::path::spec_display_of;
use crate::path::FsPath;

verus! {

/// The compilation target for code run in the browser.
pub open spec fn spec_wasm_target() -> Seq<char> {
    "wasm32-unknown-unknown"@
}

/// The toolchain manager, used to check and install the browser target.
pub struct Rustup {}

impl Rustup {
    /// The arguments that list the installed compilation targets.
    pub fn target_list_args() -> (args: Vec<String>)
        ensures
            args.deep_view() == seq!["target"@, "list"@, "--installed"@],
    {
        let mut args: Vec<String> = Vec::new();
        args.push("target".to_owned());
        args.push("list".to_owned());
        args.push("--installed".to_owned());
        proof {
            lemma_deep_view_index(args);
            assert(args.deep_view() =~= seq!["target"@, "list"@, "--installed"@]);
        }
        args
    }

    /// The arguments that install the browser compilation target.
    pub fn target_add_args() -> (args: Vec<String>)
        ensures
            args.deep_view() == seq!["target"@, "add"@, spec_wasm_target()],
    {
        let mut args: Vec<String> = Vec::new();
        args.push("target".to_owned());
        args.push("add".to_owned());
        args.push("wasm32-unknown-unknown".to_owned());
        proof {
            lemma_deep_view_index(args);
            assert(args.deep_view() =~= seq!["target"@, "add"@, spec_wasm_target()]);
        }
        args
    }

    /// Decide from the listing's lines whether the browser target is
    /// installed: it is exactly when some line equals the target name.
    pub fn has_wasm_target(lines: &Vec<String>) -> (r: bool)
        ensures
            r == exists|i: int|
                0 <= i < lines@.len() && #[trigger] lines@[i]@ == spec_wasm_target(),
    {
        let n = lines.len();
        for i in 0..n
            invariant
                n == lines@.len(),
                forall|j: int| 0 <= j < i ==> #[trigger] lines@[j]@ != spec_wasm_target(),
        {
            if seg_eq(&lines[i], "wasm32-unknown-unknown") {
                return true;
            }
        }
        false
    }
}

/// The arguments of a full compilation of the project to the browser target:
/// build artifacts are kept in a dedicated subdirectory of the target
/// directory, and a release build selects the given profile.
pub open spec fn spec_cargo_build_args(
    target_dir: Seq<Seq<char>>,
    release: bool,
    profile: Seq<char>,
) -> Seq<Seq<char>> {
    let base = seq![
        "build"@,
        "--color"@,
        "always"@,
        "--target"@,
        spec_wasm_target(),
        "--target-dir"@,
        spec_display_of(target_dir.push("wazzup"@)),
    ];
    if release {
        base + seq!["--profile"@, profile]
    } else {
        base
    }
}

/// The Rust build tool, which compiles the project into its binary form for
/// the browser.
pub struct Cargo {
    workspace_dir: FsPath,
    target_dir: FsPath,
}

impl Cargo {
    /// The workspace root's components.
    pub closed spec fn spec_workspace_dir(&self) -> Seq<Seq<char>> {
        self.workspace_dir@
    }

    /// The target directory's components.
    pub closed spec fn spec_target_dir(&self) -> Seq<Seq<char>> {
        self.target_dir@
    }

    /// Assemble from the workspace root and target directory that the build
    /// tool reported for the project.
    pub fn from_metadata(workspace_dir: FsPath, target_dir: FsPath) -> (c: Cargo)
        ensures
            c.spec_workspace_dir() == workspace_dir@,
            c.spec_target_dir() == target_dir@,
    {
        Cargo { workspace_dir, target_dir }
    }

    /// The directory of the workspace root, where the lock file and other
    /// mandatory files live.
    pub fn workspace_dir(&self) -> (p: &FsPath)
        ensures
            p@ == self.spec_workspace_dir(),
    {
        &self.workspace_dir
    }

    /// Output directory for compilation artifacts.
    pub fn target_dir(&self) -> (p: &FsPath)
        ensures
            p@ == self.spec_target_dir(),
    {
        &self.target_dir
    }

    /// The exact arguments of a project compilation.
    pub fn build_args(&self, release: bool, profile: &str) -> (args: Vec<String>)
        ensures
            args.deep_view() == spec_cargo_build_args(self.spec_target_dir(), release, profile@),
    {
        let mut args: Vec<String> = Vec::new();
        args.push("build".to_owned());
        args.push("--color".to_owned());
        args.push("always".to_owned());
        args.push("--target".to_owned());
        args.push("wasm32-unknown-unknown".to_owned());
        args.push("--target-dir".to_owned());
        let sub = self.target_dir.child("wazzup");
        args.push(sub.display_string());
        if release {
            args.push("--profile".to_owned());
            args.push(profile.to_owned());
        }
        proof {
            lemma_deep_view_index(args);
            assert(args.deep_view() =~= spec_cargo_build_args(
                self.spec_target_dir(),
                release,
                profile@,
            ));
        }
        args
    }
}

/// One package entry of the project's lock file: its name and version.
pub struct LockPackage {
    pub name: String,
    pub version: String,
}

/// The JavaScript-glue generator, installed per version discovered from the
/// project's lock file.
pub struct WasmBindgen {
    version: String,
    path: FsPath,
}

impl WasmBindgen {
    /// The tool version this instance stands for.
    pub closed spec fn spec_version(&self) -> Seq<char> {
        self.version@
    }

    /// The absolute path of the tool's binary in the cache.
    pub closed spec fn spec_path(&self) -> Seq<Seq<char>> {
        self.path@
    }

    /// Find the generator's version in the project's lock-file packages: the
    /// version of the first package of that name, if any.
    pub fn find_version(packages: &Vec<LockPackage>) -> (r: Option<String>)
        ensures
            r matches Some(v) ==> exists|i: int|
                0 <= i < packages@.len() && #[trigger] packages@[i].name@ == "wasm-bindgen"@
                    && packages@[i].version@ == v@ && (forall|j: int|
                    0 <= j < i ==> #[trigger] packages@[j].name@ != "wasm-bindgen"@),
            r is None ==> forall|i: int|
                0 <= i < packages@.len() ==> #[trigger] packages@[i].name@ != "wasm-bindgen"@,
    {
        let n = packages.len();
        for i in 0..n
            invariant
                n == packages@.len(),
                forall|j: int| 0 <= j < i ==> #[trigger] packages@[j].name@ != "wasm-bindgen"@,
        {
            if seg_eq(&packages[i].name, "wasm-bindgen") {
                return Some(packages[i].version.clone());
            }
        }
        None
    }

    /// An instance for one specific version, whose binary is kept in its own
    /// subdirectory of the application's cache directory; the binary may or
    /// may not exist yet.
    pub fn new(version: String, cache_dir: &FsPath) -> (w: WasmBindgen)
        ensures
            w.spec_version() == version@,
            w.spec_path() == cache_dir@.push("wasm-bindgen"@).push(version@).push(
                "wasm-bindgen"@,
            ),
    {
        let path = cache_dir.child("wasm-bindgen").child(version.as_str()).child("wasm-bindgen");
        WasmBindgen { version, path }
    }

    /// The binary's path, for invocation and for the installation check.
    pub fn bin_path(&self) -> (p: &FsPath)
        ensures
            p@ == self.spec_path(),
    {
        &self.path
    }

    /// The arguments that generate browser-loadable JavaScript glue next to
    /// the compiled binary.
    pub fn run_args(&self, target: &FsPath, out: &FsPath) -> (args: Vec<String>)
        ensures
            args.deep_view() == seq![
                "--target"@,
                "web"@,
                "--no-typescript"@,
                "--omit-default-module-path"@,
                "--out-dir"@,
                spec_display_of(out@),
                spec_display_of(target@),
            ],
    {
        let mut args: Vec<String> = Vec::new();
        args.push("--target".to_owned());
        args.push("web".to_owned());
        args.push("--no-typescript".to_owned());
        args.push("--omit-default-module-path".to_owned());
        args.push("--out-dir".to_owned());
        args.push(out.display_string());
        args.push(target.display_string());
        proof {
            lemma_deep_view_index(args);
            assert(args.deep_view() =~= seq![
                "--target"@,
                "web"@,
                "--no-typescript"@,
                "--omit-default-module-path"@,
                "--out-dir"@,
                spec_display_of(out@),
                spec_display_of(target@),
            ]);
        }
        args
    }
}

/// The binary optimizer, run over the compiled output for size and speed.
pub struct WasmOpt {}

impl WasmOpt {
    /// The arguments that optimize the file in place at the highest level.
    pub fn run_args(target: &FsPath) -> (args: Vec<String>)
        ensures
            args.deep_view() == seq![
                "-O4"@,
                "--output"@,
                spec_display_of(target@),
                spec_display_of(target@),
            ],
    {
        let mut args: Vec<String> = Vec::new();
        args.push("-O4".to_owned());
        args.push("--output".to_owned());
        args.push(target.display_string());
        args.push(target.display_string());
        proof {
            lemma_deep_view_index(args);
            assert(args.deep_view() =~= seq![
                "-O4"@,
                "--output"@,
                spec_display_of(target@),
                spec_display_of(target@),
            ]);
        }
        args
    }
}

/// One entry of the search path for a project-local JavaScript tool: the
/// `node_modules/.bin` directory of the given project directory.
pub open spec fn spec_bin_dir(dir: Seq<Seq<char>>) -> Seq<char> {
    spec_display_of(dir.push("node_modules"@).push(".bin"@))
}

/// The local tool directories of a working directory: its own and every
/// ancestor's up to the workspace root, nearest first; none when the working
/// directory does not lie under the root.
pub open spec fn spec_bin_dirs(root: Seq<Seq<char>>, cwd: Seq<Seq<char>>) -> Seq<Seq<char>>
    decreases cwd.len(),
{
    if !root.is_prefix_of(cwd) {
        Seq::empty()
    } else if cwd.len() == root.len() {
        seq![spec_bin_dir(cwd)]
    } else {
        seq![spec_bin_dir(cwd)] + spec_bin_dirs(root, cwd.drop_last())
    }
}

/// Entries joined by a separator, with no separator around an only entry.
pub open spec fn spec_joined_with(sep: Seq<char>, items: Seq<Seq<char>>) -> Seq<char>
    decreases items.len(),
{
    if items.len() == 0 {
        Seq::empty()
    } else if items.len() == 1 {
        items[0]
    } else {
        spec_joined_with(sep, items.drop_last()) + sep + items.last()
    }
}

/// The shape of the local tool directories: one per ancestor from the
/// working directory down to the root, in that order.
proof fn lemma_bin_dirs_index(root: Seq<Seq<char>>, cwd: Seq<Seq<char>>)
    requires
        root.is_prefix_of(cwd),
    ensures
        spec_bin_dirs(root, cwd).len() == cwd.len() - root.len() + 1,
        forall|i: int|
            0 <= i <= cwd.len() - root.len() ==> #[trigger] spec_bin_dirs(root, cwd)[i]
                == spec_bin_dir(cwd.take(cwd.len() - i)),
    decreases cwd.len(),
{
    if cwd.len() == root.len() {
        assert(cwd.take(cwd.len() as int) =~= cwd);
    } else {
        assert(root.is_prefix_of(cwd.drop_last())) by {
            assert(root =~= cwd.drop_last().subrange(0, root.len() as int));
        }
        lemma_bin_dirs_index(root, cwd.drop_last());
        assert(cwd.take(cwd.len() as int) =~= cwd);
        assert forall|i: int| 1 <= i <= cwd.len() - root.len() implies #[trigger] spec_bin_dirs(
            root,
            cwd,
        )[i] == spec_bin_dir(cwd.take(cwd.len() - i)) by {
            assert(spec_bin_dirs(root, cwd)[i] == spec_bin_dirs(root, cwd.drop_last())[i - 1]);
            assert(cwd.drop_last().take(cwd.drop_last().len() - (i - 1)) =~= cwd.take(
                cwd.len() - i,
            ));
        }
    }
}

/// The search path used to locate a project-local JavaScript tool: the
/// `node_modules/.bin` directory of the working directory and of each of its
/// ancestors within the workspace, nearest first, followed by the
/// environment's own search path, all joined by the path-list separator.
pub fn js_tool_search_path(root: &FsPath, cwd: &FsPath, path_var: &str) -> (s: String)
    ensures
        s@ == spec_joined_with(":"@, spec_bin_dirs(root@, cwd@) + seq![path_var@]),
{
    let mut items: Vec<String> = Vec::new();
    if cwd.starts_with(root) {
        proof {
            lemma_bin_dirs_index(root@, cwd@);
        }
        let n = cwd.len();
        let r = root.len();
        assert(r <= n);
        for j in 0..n - r
            invariant
                root@.is_prefix_of(cwd@),
                n == cwd@.len(),
                r == root@.len(),
                r <= n,
                items@.len() == j,
                forall|i: int|
                    0 <= i <= cwd@.len() - root@.len() ==> #[trigger] spec_bin_dirs(
                        root@,
                        cwd@,
                    )[i] == spec_bin_dir(cwd@.take(cwd@.len() - i)),
                forall|i: int|
                    0 <= i < j ==> #[trigger] items@[i]@ == spec_bin_dirs(root@, cwd@)[i],
        {
            let ancestor = cwd.prefix(n - j);
            let dir = ancestor.child("node_modules").child(".bin");
            items.push(dir.display_string());
        }
        let ancestor = cwd.prefix(r);
        let dir = ancestor.child("node_modules").child(".bin");
        items.push(dir.display_string());
    }
    items.push(path_var.to_owned());
    proof {
        lemma_deep_view_index(items);
        if root@.is_prefix_of(cwd@) {
            lemma_bin_dirs_index(root@, cwd@);
        }
        assert(items.deep_view() =~= spec_bin_dirs(root@, cwd@) + seq![path_var@]);
    }
    join_with_colons(&items)
}

/// Join the entries with the path-list separator.
fn join_with_colons(items: &Vec<String>) -> (s: String)
    ensures
        s@ == spec_joined_with(":"@, items.deep_view()),
{
    proof {
        lemma_deep_view_index(*items);
    }
    let mut s = String::new();
    let n = items.len();
    for i in 0..n
        invariant
            n == items@.len(),
            s@ =~= spec_joined_with(":"@, items.deep_view().take(i as int)),
    {
        if i > 0 {
            s.append(":");
        }
        s.append(items[i].as_str());
        proof {
            lemma_deep_view_index(*items);
            let whole = items.deep_view();
            assert(whole.take(i + 1).drop_last() =~= whole.take(i as int));
            assert(whole.take(i + 1).last() == whole[i as int]);
            if i == 0 {
                assert(whole.take(1).len() == 1);
            }
            assert(s@ =~= spec_joined_with(":"@, whole.take(i + 1)));
        }
    }
    proof {
        assert(items.deep_view().take(n as int) =~= items.deep_view());
    }
    s
}

/// The arguments of a stylesheet compilation: no source maps, and compressed
/// output for a release build.
pub open spec fn spec_sass_args(
    target: Seq<Seq<char>>,
    out: Seq<Seq<char>>,
    release: bool,
) -> Seq<Seq<char>> {
    let base = seq!["--no-source-map"@, spec_display_of(target), spec_display_of(out)];
    if release {
        base + seq!["--style"@, "compressed"@]
    } else {
        base
    }
}

/// The stylesheet compiler, turning the main stylesheet into optimized CSS.
pub struct Sass {
    bin_path: FsPath,
}

impl Sass {
    /// The binary's components.
    pub closed spec fn spec_bin_path(&self) -> Seq<Seq<char>> {
        self.bin_path@
    }

    /// An instance for the binary the caller located.
    pub fn new(bin_path: FsPath) -> (s: Sass)
        ensures
            s.spec_bin_path() == bin_path@,
    {
        Sass { bin_path }
    }

    /// The binary to invoke.
    pub fn bin_path(&self) -> (p: &FsPath)
        ensures
            p@ == self.spec_bin_path(),
    {
        &self.bin_path
    }

    /// The exact arguments of one stylesheet compilation.
    pub fn run_args(&self, target: &FsPath, out: &FsPath, release: bool) -> (args: Vec<String>)
        ensures
            args.deep_view() == spec_sass_args(target@, out@, release),
    {
        let mut args: Vec<String> = Vec::new();
        args.push("--no-source-map".to_owned());
        args.push(target.display_string());
        args.push(out.display_string());
        if release {
            args.push("--style".to_owned());
            args.push("compressed".to_owned());
        }
        proof {
            lemma_deep_view_index(args);
            assert(args.deep_view() =~= spec_sass_args(target@, out@, release));
        }
        args
    }
}

/// The arguments of a utility-stylesheet generation: explicit input and
/// output files, minified for a release build.
pub open spec fn spec_tailwind_args(
    target: Seq<Seq<char>>,
    out: Seq<Seq<char>>,
    release: bool,
) -> Seq<Seq<char>> {
    let base = seq!["--input"@, spec_display_of(target), "--output"@, spec_display_of(out)];
    if release {
        base + seq!["--minify"@]
    } else {
        base
    }
}

/// The utility-stylesheet generator, run over the project's source files.
pub struct Tailwind {
    bin_path: FsPath,
}

impl Tailwind {
    /// The binary's components.
    pub closed spec fn spec_bin_path(&self) -> Seq<Seq<char>> {
        self.bin_path@
    }

    /// An instance for the binary the caller located.
    pub fn new(bin_path: FsPath) -> (t: Tailwind)
        ensures
            t.spec_bin_path() == bin_path@,
    {
        Tailwind { bin_path }
    }

    /// The binary to invoke.
    pub fn bin_path(&self) -> (p: &FsPath)
        ensures
            p@ == self.spec_bin_path(),
    {
        &self.bin_path
    }

    /// The exact arguments of one stylesheet generation.
    pub fn run_args(&self, target: &FsPath, out: &FsPath, release: bool) -> (args: Vec<String>)
        ensures
            args.deep_view() == spec_tailwind_args(target@, out@, release),
    {
        let mut args: Vec<String> = Vec::new();
        args.push("--input".to_owned());
        args.push(target.display_string());
        args.push("--output".to_owned());
        args.push(out.display_string());
        if release {
            args.push("--minify".to_owned());
        }
        proof {
            lemma_deep_view_index(args);
            assert(args.deep_view() =~= spec_tailwind_args(target@, out@, release));
        }
        args
    }
}

} // verus!
