//! The project watcher: ownership of the OS-level watch registrations, the
//! ignore filter, and the normalization of raw filesystem events into
//! classified changes.
//!
//! The watch set lives inside the `notify` watcher: every registered path is
//! watched non-recursively, so directories created later must be added
//! explicitly, and deleted ones removed. The ignore filter is the project's
//! ignore-rule file compiled by the `ignore` crate, extended by a built-in
//! rule for version-control metadata.

use vstd::prelude::*;

use notify::Watcher;

use super::spec_classify;
use super::to_build_trigger;
use super::ChangeType;
use super::ChangeView;
use crate::path::lemma_deep_view_index;
use crate::path::FsPath;

verus! {

#[verifier::external_type_specification]
#[verifier::external_body]
pub struct ExGitignore(ignore::gitignore::Gitignore);

#[verifier::external_type_specification]
#[verifier::external_body]
pub struct ExGitignoreBuilder(ignore::gitignore::GitignoreBuilder);

#[verifier::external_type_specification]
#[verifier::external_body]
pub struct ExWatcher(notify::RecommendedWatcher);

/// The verdict of a compiled ignore-rule set on one path: a pure lookup,
/// determined by the rule set, the path and whether it is a directory.
pub uninterp spec fn ignore_decision(
    g: ignore::gitignore::Gitignore,
    path: Seq<Seq<char>>,
    is_dir: bool,
) -> bool;

/// The root directory a rule builder was created for; rules are matched
/// relative to it.
pub uninterp spec fn builder_root(b: ignore::gitignore::GitignoreBuilder) -> Seq<Seq<char>>;

/// The rule lines a builder has accepted so far, in order. A comment or
/// blank line is accepted and contributes no glob, so it may stand here
/// without changing what the built matcher decides.
pub uninterp spec fn builder_lines(b: ignore::gitignore::GitignoreBuilder) -> Seq<Seq<char>>;

/// Whether one ignore-rule line parses: a property of the line alone.
pub uninterp spec fn rule_parses(line: Seq<char>) -> bool;

/// Whether a rule set compiles into a matcher: with what the verdicts of the
/// compiled set are, one of the two facts that describe the builder's
/// `build`, both functions of the root and the accepted lines alone.
pub uninterp spec fn rules_compile(root: Seq<Seq<char>>, lines: Seq<Seq<char>>) -> bool;

/// The verdict that the matcher compiled from a rule set gives for a path:
/// a function of the root, the accepted lines, the path and `is_dir`, so
/// two matchers built from the same input agree everywhere.
pub uninterp spec fn rules_decision(
    root: Seq<Seq<char>>,
    lines: Seq<Seq<char>>,
    path: Seq<Seq<char>>,
    is_dir: bool,
) -> bool;

/// The project's rule lines with the built-in version-control rule first.
pub open spec fn spec_ignore_lines(lines: Seq<Seq<char>>) -> Seq<Seq<char>> {
    seq![".git/"@] + lines
}

/// The watch set that a watcher holds: the paths whose registration was
/// requested through it and not yet dropped again. The backend itself also
/// drops the registration of a path that disappears from disk, so a path in
/// this set may already be gone from the OS-level state; nothing here relies
/// on the converse.
pub uninterp spec fn watch_targets(w: notify::RecommendedWatcher) -> Set<Seq<Seq<char>>>;

/// Relies on `ignore::gitignore::GitignoreBuilder::new`: a builder for rules
/// matched relative to the given root directory, holding no rules yet.
#[verifier::external_body]
fn builder_new(root: &FsPath) -> (b: ignore::gitignore::GitignoreBuilder)
    ensures
        builder_root(b) == root@,
        builder_lines(b) == Seq::<Seq<char>>::empty(),
{
    let mut pb = std::path::PathBuf::from("/");
    pb.extend(root.segs.iter());
    ignore::gitignore::GitignoreBuilder::new(pb)
}

/// Relies on `ignore::gitignore::GitignoreBuilder::add_line`: parses one
/// ignore-rule line, failing exactly when the line is no valid glob, and on
/// success extends the builder's accepted lines by it.
#[verifier::external_body]
fn builder_add_line(
    b: &mut ignore::gitignore::GitignoreBuilder,
    line: &str,
) -> (r: Result<(), String>)
    ensures
        (r is Ok) == rule_parses(line@),
        r is Ok ==> builder_lines(*final(b)) == builder_lines(*old(b)).push(line@),
        r is Err ==> builder_lines(*final(b)) == builder_lines(*old(b)),
        builder_root(*final(b)) == builder_root(*old(b)),
{
    match b.add_line(None, line) {
        Ok(_) => Ok(()),
        Err(e) => Err(e.to_string()),
    }
}

/// Relies on `ignore::gitignore::GitignoreBuilder::build`: compiles the
/// accepted rules into a matcher. Success, and every verdict of the built
/// matcher, are functions of the root and the accepted lines alone.
#[verifier::external_body]
fn builder_build(
    b: &ignore::gitignore::GitignoreBuilder,
) -> (r: Result<ignore::gitignore::Gitignore, String>)
    ensures
        (r is Ok) == rules_compile(builder_root(*b), builder_lines(*b)),
        r matches Ok(g) ==> forall|p: Seq<Seq<char>>, d: bool|
            #[trigger] ignore_decision(g, p, d) == rules_decision(
                builder_root(*b),
                builder_lines(*b),
                p,
                d,
            ),
{
    match b.build() {
        Ok(g) => Ok(g),
        Err(e) => Err(e.to_string()),
    }
}

/// Relies on `ignore::gitignore::Gitignore::matched`: a pure, infallible
/// lookup of the compiled rules for one path; `is_dir` is supplied by the
/// caller, so the lookup itself touches no filesystem state.
#[verifier::external_body]
fn matched_raw(g: &ignore::gitignore::Gitignore, path: &FsPath, is_dir: bool) -> (r: bool)
    ensures
        r == ignore_decision(*g, path@, is_dir),
{
    let mut pb = std::path::PathBuf::from("/");
    pb.extend(path.segs.iter());
    g.matched(&pb, is_dir).is_ignore()
}

/// Relies on `notify::Watcher::watch` of the inotify backend, in
/// non-recursive mode: on success the path joins the tracked registrations;
/// on failure (path vanished, watch limit) they are unchanged. The call
/// panics only if the watcher's event loop died, which the crate itself
/// rules out while the watcher is alive.
#[verifier::external_body]
fn watch_raw(w: &mut notify::RecommendedWatcher, path: &FsPath) -> (ok: bool)
    ensures
        ok ==> watch_targets(*final(w)) == watch_targets(*old(w)).insert(path@),
        !ok ==> watch_targets(*final(w)) == watch_targets(*old(w)),
{
    let mut pb = std::path::PathBuf::from("/");
    pb.extend(path.segs.iter());
    w.watch(&pb, notify::RecursiveMode::NonRecursive).is_ok()
}

/// Relies on `notify::Watcher::unwatch` of the inotify backend: the path's
/// registration is dropped whatever the outcome, since the backend forgets
/// the path before any of its errors can surface. `WatchNotFound` reports a
/// path the backend no longer knew, which can also happen to a once-watched
/// path that disappeared from disk, so the report is tied to nothing. The
/// call panics only if the watcher's event loop died, which the crate itself
/// rules out while the watcher is alive.
#[verifier::external_body]
fn unwatch_raw(w: &mut notify::RecommendedWatcher, path: &FsPath) -> (not_found: bool)
    ensures
        watch_targets(*final(w)) == watch_targets(*old(w)).remove(path@),
{
    let mut pb = std::path::PathBuf::from("/");
    pb.extend(path.segs.iter());
    matches!(
        w.unwatch(&pb),
        Err(notify::Error { kind: notify::ErrorKind::WatchNotFound, .. })
    )
}

/// The project's ignore rules, compiled once at startup; later lookups are
/// infallible.
pub struct IgnoreFilter {
    gi: ignore::gitignore::Gitignore,
}

impl IgnoreFilter {
    /// The filter's verdict on a path: `true` means excluded.
    pub closed spec fn decision(&self, path: Seq<Seq<char>>, is_dir: bool) -> bool {
        ignore_decision(self.gi, path, is_dir)
    }

    /// Compile a filter from the project's ignore-rule lines, rooted at the
    /// project directory, with the built-in rule excluding version-control
    /// metadata added first. It succeeds exactly when every line parses and
    /// the rule set compiles; a failure is a fatal startup error, surfaced to
    /// the caller with the offending rule's message. The verdicts of the
    /// returned filter are a fixed function of the root and the lines, so
    /// two filters built from the same input agree on every path.
    pub fn from_lines(root: &FsPath, lines: &Vec<String>) -> (r: Result<IgnoreFilter, String>)
        ensures
            (r is Ok) == ({
                &&& rule_parses(".git/"@)
                &&& forall|i: int| 0 <= i < lines@.len() ==> #[trigger] rule_parses(lines@[i]@)
                &&& rules_compile(root@, spec_ignore_lines(lines.deep_view()))
            }),
            r matches Ok(f) ==> forall|p: Seq<Seq<char>>, d: bool|
                #[trigger] f.decision(p, d) == rules_decision(
                    root@,
                    spec_ignore_lines(lines.deep_view()),
                    p,
                    d,
                ),
    {
        proof {
            lemma_deep_view_index(*lines);
        }
        let mut b = builder_new(root);
        if let Err(e) = builder_add_line(&mut b, ".git/") {
            return Err(e);
        }
        proof {
            assert(builder_lines(b) =~= spec_ignore_lines(lines.deep_view().take(0)));
        }
        let n = lines.len();
        for i in 0..n
            invariant
                n == lines.len(),
                builder_root(b) == root@,
                builder_lines(b) == spec_ignore_lines(lines.deep_view().take(i as int)),
                rule_parses(".git/"@),
                forall|j: int| 0 <= j < i ==> #[trigger] rule_parses(lines@[j]@),
        {
            if let Err(e) = builder_add_line(&mut b, lines[i].as_str()) {
                proof {
                    lemma_deep_view_index(*lines);
                    assert(!rule_parses(lines@[i as int]@));
                }
                return Err(e);
            }
            proof {
                lemma_deep_view_index(*lines);
                assert(builder_lines(b) =~= spec_ignore_lines(lines.deep_view().take(i + 1)));
            }
        }
        proof {
            lemma_deep_view_index(*lines);
            assert(lines.deep_view().take(n as int) =~= lines.deep_view());
        }
        match builder_build(&b) {
            Ok(gi) => Ok(IgnoreFilter { gi }),
            Err(e) => Err(e),
        }
    }

    /// Is this path excluded from watching and classification?
    pub fn matched(&self, path: &FsPath, is_dir: bool) -> (r: bool)
        ensures
            r == self.decision(path@, is_dir),
    {
        matched_raw(&self.gi, path, is_dir)
    }
}

/// One affected path of a filesystem event, together with whether it names a
/// directory at the time the event was observed.
pub struct PathInfo {
    pub path: FsPath,
    pub is_dir: bool,
}

impl View for PathInfo {
    type V = (Seq<Seq<char>>, bool);

    open spec fn view(&self) -> (Seq<Seq<char>>, bool) {
        (self.path@, self.is_dir)
    }
}

/// The kind of a raw filesystem notification, as far as the watcher cares:
/// which of them mutate the watch set, which are forwarded, and which are
/// noise.
#[derive(Clone, Copy, Debug, PartialEq, Eq, Structural)]
pub enum EventKind {
    /// A file was only accessed; noise.
    Access,
    /// Files or directories were created.
    Create,
    /// File contents changed.
    ModifyData,
    /// An unspecific modification.
    ModifyAny,
    /// Some other modification.
    ModifyOther,
    /// Only metadata changed; noise.
    ModifyMetadata,
    /// The lone "from" half of a rename; the paired event follows.
    RenameFrom,
    /// The lone "to" half of a rename; the paired event follows.
    RenameTo,
    /// A paired rename: both paths delivered together.
    RenameBoth,
    /// An unclassified rename; noise.
    RenameOther,
    /// Files or directories were removed.
    Remove,
    /// An unclassified or aggregate event; noise.
    Other,
}

/// Does an event of this kind forward its paths as classified changes?
pub open spec fn forwards_changes(kind: EventKind) -> bool {
    match kind {
        EventKind::Create => true,
        EventKind::ModifyData => true,
        EventKind::ModifyAny => true,
        EventKind::ModifyOther => true,
        EventKind::RenameBoth => true,
        EventKind::Remove => true,
        _ => false,
    }
}

/// The classified changes that one event's paths produce: every path the
/// ignore filter admits and the project root leads, classified in order.
pub open spec fn spec_forwards(
    filter: IgnoreFilter,
    project: Seq<Seq<char>>,
    paths: Seq<PathInfo>,
) -> Seq<ChangeView> {
    paths.filter_map(
        |pi: PathInfo|
            if !filter.decision(pi.path@, pi.is_dir) && project.is_prefix_of(pi.path@) {
                Some(spec_classify(pi.path@.skip(project.len() as int), pi.path@))
            } else {
                None
            },
    )
}

/// A paired rename forwards exactly two classified changes, one per path,
/// also when the two paths fall into different categories: either side of a
/// cross-category rename triggers its own rebuild.
pub proof fn lemma_paired_rename_forwards_two(
    filter: IgnoreFilter,
    project: Seq<Seq<char>>,
    paths: Seq<PathInfo>,
)
    requires
        paths.len() == 2,
        !filter.decision(paths[0].path@, paths[0].is_dir),
        !filter.decision(paths[1].path@, paths[1].is_dir),
        project.is_prefix_of(paths[0].path@),
        project.is_prefix_of(paths[1].path@),
    ensures
        spec_forwards(filter, project, paths).len() == 2,
        spec_forwards(filter, project, paths)[0] == spec_classify(
            paths[0].path@.skip(project.len() as int),
            paths[0].path@,
        ),
        spec_forwards(filter, project, paths)[1] == spec_classify(
            paths[1].path@.skip(project.len() as int),
            paths[1].path@,
        ),
{
    let f = |pi: PathInfo|
        if !filter.decision(pi.path@, pi.is_dir) && project.is_prefix_of(pi.path@) {
            Some(spec_classify(pi.path@.skip(project.len() as int), pi.path@))
        } else {
            None
        };
    let c0 = spec_classify(paths[0].path@.skip(project.len() as int), paths[0].path@);
    let c1 = spec_classify(paths[1].path@.skip(project.len() as int), paths[1].path@);
    assert(f(paths[0]) == Some(c0));
    assert(f(paths[1]) == Some(c1));
    assert(paths.drop_last() =~= seq![paths[0]]);
    assert(paths.last() == paths[1]);
    Seq::<PathInfo>::lemma_filter_map_singleton(paths[0], f);
    assert(paths.filter_map(f) == paths.drop_last().filter_map(f) + seq![c1]);
    assert(paths.filter_map(f) == seq![c0] + seq![c1]);
    assert((seq![c0] + seq![c1]).len() == 2);
    assert((seq![c0] + seq![c1])[0] == c0);
    assert((seq![c0] + seq![c1])[1] == c1);
}

/// Membership of the watch set behaves as a set: a removed path is absent, an
/// added path is present, and adding a present path changes nothing, so the
/// addition is idempotent.
pub proof fn lemma_watch_set_membership(targets: Set<Seq<Seq<char>>>, p: Seq<Seq<char>>)
    ensures
        !targets.remove(p).contains(p),
        targets.insert(p).contains(p),
        targets.insert(p).insert(p) == targets.insert(p),
{
    assert(targets.insert(p).insert(p) =~= targets.insert(p));
}

/// The project watcher: owns the watch registrations and the ignore filter,
/// and turns raw filesystem events into classified changes.
pub struct ProjectWatcher {
    project: FsPath,
    filter: IgnoreFilter,
    watcher: notify::RecommendedWatcher,
}

impl ProjectWatcher {
    /// The project root's components.
    pub closed spec fn spec_project(&self) -> Seq<Seq<char>> {
        self.project@
    }

    /// The ignore filter in use.
    pub closed spec fn spec_filter(&self) -> IgnoreFilter {
        self.filter
    }

    /// The filter's verdict on a path.
    pub open spec fn decision(&self, path: Seq<Seq<char>>, is_dir: bool) -> bool {
        self.spec_filter().decision(path, is_dir)
    }

    /// The current watch set.
    pub closed spec fn targets(&self) -> Set<Seq<Seq<char>>> {
        watch_targets(self.watcher)
    }

    /// Assemble a watcher from its parts: the project root, the compiled
    /// ignore filter, and a fresh OS watcher whose events the caller
    /// receives.
    pub fn new(project: FsPath, filter: IgnoreFilter, watcher: notify::RecommendedWatcher) -> (w:
        ProjectWatcher)
        ensures
            w.spec_project() == project@,
            w.spec_filter() == filter,
            w.targets() == watch_targets(watcher),
    {
        ProjectWatcher { project, filter, watcher }
    }

    /// Register a watch for one path, unless the ignore filter excludes it.
    /// A failure to register is recoverable: the watch set is simply left
    /// unchanged, and the run continues.
    pub fn add(&mut self, path: &FsPath, is_dir: bool) -> (added: bool)
        ensures
            final(self).spec_project() == old(self).spec_project(),
            final(self).spec_filter() == old(self).spec_filter(),
            old(self).decision(path@, is_dir) ==> !added && final(self).targets() == old(
                self,
            ).targets(),
            !old(self).decision(path@, is_dir) && added ==> final(self).targets() == old(
                self,
            ).targets().insert(path@),
            !old(self).decision(path@, is_dir) && !added ==> final(self).targets() == old(
                self,
            ).targets(),
            added ==> final(self).targets().contains(path@),
    {
        if self.filter.matched(path, is_dir) {
            return false;
        }
        watch_raw(&mut self.watcher, path)
    }

    /// Drop the watch registration for one path. After the call the path is
    /// absent from the watch set, whether or not it was present before. The
    /// result tells whether the backend still knew the path, as a deleted
    /// path's registration may already have been dropped; it carries no
    /// guarantee and serves diagnostics alone.
    pub fn remove(&mut self, path: &FsPath) -> (was_watched: bool)
        ensures
            final(self).spec_project() == old(self).spec_project(),
            final(self).spec_filter() == old(self).spec_filter(),
            final(self).targets() == old(self).targets().remove(path@),
            !final(self).targets().contains(path@),
    {
        let not_found = unwatch_raw(&mut self.watcher, path);
        !not_found
    }

    /// Register the initial watch set: every path of the seed scan, which the
    /// caller walked with the ignore rules already applied. Any registration
    /// failure here is fatal, and the watch set may then hold only part of
    /// the seed.
    pub fn seed(&mut self, paths: &Vec<FsPath>) -> (r: Result<(), ()>)
        ensures
            final(self).spec_project() == old(self).spec_project(),
            final(self).spec_filter() == old(self).spec_filter(),
            r is Ok ==> forall|q: Seq<Seq<char>>|
                final(self).targets().contains(q) <==> old(self).targets().contains(q) || (
                exists|i: int| 0 <= i < paths@.len() && #[trigger] paths@[i]@ == q),
            r is Ok ==> forall|i: int|
                0 <= i < paths@.len() ==> final(self).targets().contains(#[trigger] paths@[i]@),
            r is Err ==> forall|q: Seq<Seq<char>>|
                old(self).targets().contains(q) ==> final(self).targets().contains(q),
            r is Err ==> forall|q: Seq<Seq<char>>|
                final(self).targets().contains(q) ==> old(self).targets().contains(q) || (
                exists|i: int| 0 <= i < paths@.len() && #[trigger] paths@[i]@ == q),
    {
        let n = paths.len();
        for i in 0..n
            invariant
                n == paths@.len(),
                self.spec_project() == old(self).spec_project(),
                self.spec_filter() == old(self).spec_filter(),
                forall|q: Seq<Seq<char>>|
                    self.targets().contains(q) <==> old(self).targets().contains(q) || (
                    exists|j: int| 0 <= j < i && #[trigger] paths@[j]@ == q),
        {
            let ghost prev = self.targets();
            if !watch_raw(&mut self.watcher, &paths[i]) {
                return Err(());
            }
            proof {
                assert forall|q: Seq<Seq<char>>| self.targets().contains(q) implies old(
                    self,
                ).targets().contains(q) || (exists|j: int|
                    0 <= j < i + 1 && #[trigger] paths@[j]@ == q) by {
                    if q == paths@[i as int]@ {
                        assert(paths@[i as int]@ == q);
                    } else {
                        assert(prev.contains(q));
                    }
                }
                assert forall|q: Seq<Seq<char>>|
                    old(self).targets().contains(q) || (exists|j: int|
                        0 <= j < i + 1 && #[trigger] paths@[j]@ == q) implies self.targets()
                    .contains(q) by {
                    if old(self).targets().contains(q) {
                        assert(prev.contains(q));
                    } else {
                        let j = choose|j: int| 0 <= j < i + 1 && #[trigger] paths@[j]@ == q;
                        if j < i {
                            assert(prev.contains(q));
                        }
                    }
                }
            }
        }
        Ok(())
    }

    /// Register watches for the paths of one event, skipping those the
    /// ignore filter excludes; a failed registration is logged upstream and
    /// skipped, so a single unwatchable path never aborts the run.
    pub fn add_paths(&mut self, paths: &Vec<PathInfo>)
        ensures
            final(self).spec_project() == old(self).spec_project(),
            final(self).spec_filter() == old(self).spec_filter(),
            forall|q: Seq<Seq<char>>|
                old(self).targets().contains(q) ==> final(self).targets().contains(q),
            forall|q: Seq<Seq<char>>|
                final(self).targets().contains(q) ==> old(self).targets().contains(q) || (
                exists|i: int|
                    0 <= i < paths@.len() && #[trigger] paths@[i].path@ == q && !old(
                        self,
                    ).decision(paths@[i].path@, paths@[i].is_dir)),
    {
        let n = paths.len();
        for i in 0..n
            invariant
                n == paths@.len(),
                self.spec_project() == old(self).spec_project(),
                self.spec_filter() == old(self).spec_filter(),
                forall|q: Seq<Seq<char>>|
                    old(self).targets().contains(q) ==> self.targets().contains(q),
                forall|q: Seq<Seq<char>>|
                    self.targets().contains(q) ==> old(self).targets().contains(q) || (
                    exists|j: int|
                        0 <= j < i && #[trigger] paths@[j].path@ == q && !old(self).decision(
                            paths@[j].path@,
                            paths@[j].is_dir,
                        )),
        {
            let ghost prev = self.targets();
            self.add(&paths[i].path, paths[i].is_dir);
            proof {
                assert forall|q: Seq<Seq<char>>| self.targets().contains(q) implies old(
                    self,
                ).targets().contains(q) || (exists|j: int|
                    0 <= j < i + 1 && #[trigger] paths@[j].path@ == q && !old(self).decision(
                        paths@[j].path@,
                        paths@[j].is_dir,
                    )) by {
                    if prev.contains(q) {
                    } else {
                        assert(q == paths@[i as int].path@ && !old(self).decision(
                            paths@[i as int].path@,
                            paths@[i as int].is_dir,
                        ));
                    }
                }
            }
        }
    }

    /// Drop the watch registrations for the paths of one event. The paths
    /// may already be gone; afterwards none of them is in the watch set.
    pub fn remove_paths(&mut self, paths: &Vec<PathInfo>)
        ensures
            final(self).spec_project() == old(self).spec_project(),
            final(self).spec_filter() == old(self).spec_filter(),
            forall|q: Seq<Seq<char>>|
                final(self).targets().contains(q) <==> old(self).targets().contains(q) && !(
                exists|i: int| 0 <= i < paths@.len() && #[trigger] paths@[i].path@ == q),
            forall|i: int|
                0 <= i < paths@.len() ==> !final(self).targets().contains(
                    #[trigger] paths@[i].path@,
                ),
    {
        let n = paths.len();
        for i in 0..n
            invariant
                n == paths@.len(),
                self.spec_project() == old(self).spec_project(),
                self.spec_filter() == old(self).spec_filter(),
                forall|q: Seq<Seq<char>>|
                    self.targets().contains(q) <==> old(self).targets().contains(q) && !(
                    exists|j: int| 0 <= j < i && #[trigger] paths@[j].path@ == q),
        {
            let ghost prev = self.targets();
            self.remove(&paths[i].path);
            proof {
                assert forall|q: Seq<Seq<char>>| self.targets().contains(q) <==> (old(
                    self,
                ).targets().contains(q) && !(exists|j: int|
                    0 <= j < i + 1 && #[trigger] paths@[j].path@ == q)) by {
                    if self.targets().contains(q) {
                        assert(prev.contains(q));
                        assert(q != paths@[i as int].path@);
                    } else {
                        if old(self).targets().contains(q) && !(exists|j: int|
                            0 <= j < i + 1 && #[trigger] paths@[j].path@ == q) {
                            assert(!(exists|j: int| 0 <= j < i && #[trigger] paths@[j].path@ == q));
                            assert(prev.contains(q));
                            assert(q != paths@[i as int].path@);
                            assert(false);
                        }
                    }
                }
            }
        }
    }

    /// Handle one raw filesystem event: adjust the watch set to creations,
    /// removals and renames, then classify and forward the affected paths
    /// that the ignore filter admits. Noise (access, metadata-only changes,
    /// lone rename halves, unclassified events) is dropped without effect.
    ///
    /// For a path's own lifecycle the watch-set change happens before its
    /// classified change is returned; a rename removes its old path and adds
    /// its new one, and both paths are forwarded, since their categories may
    /// differ.
    pub fn handle_event(&mut self, kind: EventKind, paths: &Vec<PathInfo>) -> (out: Vec<
        ChangeType,
    >)
        ensures
            final(self).spec_project() == old(self).spec_project(),
            final(self).spec_filter() == old(self).spec_filter(),
            out.deep_view() == if forwards_changes(kind) {
                spec_forwards(old(self).spec_filter(), old(self).spec_project(), paths@)
            } else {
                Seq::<ChangeView>::empty()
            },
            !forwards_changes(kind) ==> final(self).targets() == old(self).targets(),
            (kind == EventKind::ModifyData || kind == EventKind::ModifyAny || kind
                == EventKind::ModifyOther) ==> final(self).targets() == old(self).targets(),
            kind == EventKind::Create ==> (forall|q: Seq<Seq<char>>|
                old(self).targets().contains(q) ==> final(self).targets().contains(q)) && (
            forall|q: Seq<Seq<char>>|
                final(self).targets().contains(q) ==> old(self).targets().contains(q) || (
                exists|i: int|
                    0 <= i < paths@.len() && #[trigger] paths@[i].path@ == q && !old(
                        self,
                    ).decision(paths@[i].path@, paths@[i].is_dir))),
            kind == EventKind::Remove ==> (forall|q: Seq<Seq<char>>|
                final(self).targets().contains(q) <==> old(self).targets().contains(q) && !(
                exists|i: int| 0 <= i < paths@.len() && #[trigger] paths@[i].path@ == q)),
            kind == EventKind::RenameBoth && paths@.len() != 2 ==> final(self).targets() == old(
                self,
            ).targets(),
            kind == EventKind::RenameBoth && paths@.len() == 2 ==> ({
                let moved = old(self).targets().remove(paths@[0].path@);
                if old(self).decision(paths@[1].path@, paths@[1].is_dir) {
                    final(self).targets() == moved
                } else {
                    final(self).targets() == moved || final(self).targets() == moved.insert(
                        paths@[1].path@,
                    )
                }
            }),
    {
        match kind {
            EventKind::Access | EventKind::ModifyMetadata | EventKind::RenameFrom
            | EventKind::RenameTo | EventKind::RenameOther | EventKind::Other => {
                let out: Vec<ChangeType> = Vec::new();
                proof {
                    assert(out.deep_view() =~= Seq::<ChangeView>::empty());
                }
                return out;
            },
            EventKind::Create => {
                self.add_paths(paths);
            },
            EventKind::ModifyData | EventKind::ModifyAny | EventKind::ModifyOther => {},
            EventKind::RenameBoth => {
                if paths.len() == 2 {
                    self.remove(&paths[0].path);
                    self.add(&paths[1].path, paths[1].is_dir);
                }
            },
            EventKind::Remove => {
                self.remove_paths(paths);
            },
        }
        let ghost filter = self.spec_filter();
        let ghost project = self.spec_project();
        let ghost f = |pi: PathInfo|
            if !filter.decision(pi.path@, pi.is_dir) && project.is_prefix_of(pi.path@) {
                Some(spec_classify(pi.path@.skip(project.len() as int), pi.path@))
            } else {
                None
            };
        let mut out: Vec<ChangeType> = Vec::new();
        let n = paths.len();
        proof {
            assert(out.deep_view() =~= paths@.take(0).filter_map(f)) by {
                assert(paths@.take(0).len() == 0);
            }
        }
        for i in 0..n
            invariant
                n == paths@.len(),
                filter == self.spec_filter(),
                project == self.spec_project(),
                f == (|pi: PathInfo|
                    if !filter.decision(pi.path@, pi.is_dir) && project.is_prefix_of(pi.path@) {
                        Some(spec_classify(pi.path@.skip(project.len() as int), pi.path@))
                    } else {
                        None
                    }),
                out.deep_view() =~= paths@.take(i as int).filter_map(f),
        {
            let pi = &paths[i];
            let ghost out_before = out.deep_view();
            if !self.filter.matched(&pi.path, pi.is_dir) {
                match to_build_trigger(&self.project, &pi.path) {
                    Some(c) => {
                        proof {
                            assert(f(paths@[i as int]) == Some(c@));
                        }
                        out.push(c);
                        proof {
                            assert(out.deep_view() =~= out_before.push(c@));
                        }
                    },
                    None => {
                        proof {
                            assert(f(paths@[i as int]) is None);
                        }
                    },
                }
            } else {
                proof {
                    assert(f(paths@[i as int]) is None);
                }
            }
            proof {
                paths@.lemma_filter_map_take_succ(f, i as int);
                assert(out.deep_view() =~= paths@.take(i + 1).filter_map(f));
            }
        }
        proof {
            assert(paths@.take(n as int) =~= paths@);
            assert(out.deep_view() =~= spec_forwards(filter, project, paths@));
        }
        out
    }
}

} // verus!
