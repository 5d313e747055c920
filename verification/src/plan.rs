//! What to rebuild: the mapping from a classified change, and from a full
//! build request, to the ordered build steps the orchestrator runs.
//!
//! The utility-stylesheet generator scans the project's source files for the
//! class names in use, so it runs not only for stylesheet changes but for
//! markup and source changes as well.

use vstd::prelude::*;

use crate::path::FsPath;
use crate::watch::ChangeType;
use crate::watch::ChangeView;

verus! {

/// The CSS framework a project uses, deciding which tools run for a build.
#[derive(Clone, Copy, Debug, PartialEq, Eq, Structural)]
pub enum CssMode {
    /// The SASS/SCSS framework.
    Sass,
    /// The TailwindCSS framework.
    Tailwind,
}

/// Detect the CSS framework: a project carrying a utility-stylesheet
/// configuration file uses that framework, every other one the stylesheet
/// compiler.
pub fn css_mode(has_tailwind_config: bool) -> (m: CssMode)
    ensures
        m == if has_tailwind_config {
            CssMode::Tailwind
        } else {
            CssMode::Sass
        },
{
    if has_tailwind_config {
        CssMode::Tailwind
    } else {
        CssMode::Sass
    }
}

/// One build step the orchestrator is to run, in order.
#[derive(Debug)]
pub enum BuildStep {
    /// Assemble the HTML entry file.
    Index { release: bool, base_url: String, dev: bool },
    /// Compile the main stylesheet.
    Sass { release: bool },
    /// Generate the utility stylesheet.
    Tailwind { release: bool },
    /// Copy the whole assets tree.
    Assets,
    /// Copy or delete one asset, named relative to the project root.
    Asset { path: FsPath },
    /// Compile the project and generate its JavaScript glue.
    Rust { release: bool, profile: String },
    /// Minify the HTML output.
    MinifyHtml,
    /// Minify the JavaScript output.
    MinifyJs,
    /// Optimize the binary output.
    MinifyWasm,
}

/// The mathematical shape of a [`BuildStep`].
pub enum StepView {
    Index { release: bool, base_url: Seq<char>, dev: bool },
    Sass { release: bool },
    Tailwind { release: bool },
    Assets,
    Asset { path: Seq<Seq<char>> },
    Rust { release: bool, profile: Seq<char> },
    MinifyHtml,
    MinifyJs,
    MinifyWasm,
}

impl View for BuildStep {
    type V = StepView;

    open spec fn view(&self) -> StepView {
        match self {
            BuildStep::Index { release, base_url, dev } => StepView::Index {
                release: *release,
                base_url: base_url@,
                dev: *dev,
            },
            BuildStep::Sass { release } => StepView::Sass { release: *release },
            BuildStep::Tailwind { release } => StepView::Tailwind { release: *release },
            BuildStep::Assets => StepView::Assets,
            BuildStep::Asset { path } => StepView::Asset { path: path@ },
            BuildStep::Rust { release, profile } => StepView::Rust {
                release: *release,
                profile: profile@,
            },
            BuildStep::MinifyHtml => StepView::MinifyHtml,
            BuildStep::MinifyJs => StepView::MinifyJs,
            BuildStep::MinifyWasm => StepView::MinifyWasm,
        }
    }
}

impl DeepView for BuildStep {
    type V = StepView;

    open spec fn deep_view(&self) -> StepView {
        self.view()
    }
}

/// The full build, from scratch: the entry file, the stylesheets of the
/// project's framework, the assets, the compiled project, and for a release
/// build the three minification passes.
pub open spec fn spec_full_plan(
    mode: CssMode,
    release: bool,
    base_url: Seq<char>,
    profile: Seq<char>,
    dev: bool,
) -> Seq<StepView> {
    let css: StepView = if mode == CssMode::Sass {
        StepView::Sass { release }
    } else {
        StepView::Tailwind { release }
    };
    let base = seq![
        StepView::Index { release, base_url, dev },
        css,
        StepView::Assets,
        StepView::Rust { release, profile },
    ];
    if release {
        base + seq![StepView::MinifyHtml, StepView::MinifyJs, StepView::MinifyWasm]
    } else {
        base
    }
}

/// The steps that run before a change's own rebuild: the utility-stylesheet
/// generator reruns for markup, stylesheet and source changes.
pub open spec fn spec_pre_steps(mode: CssMode, c: ChangeView) -> Seq<StepView> {
    if mode == CssMode::Tailwind && (c == ChangeView::Html || c == ChangeView::Css || c
        == ChangeView::Rust) {
        seq![StepView::Tailwind { release: false }]
    } else {
        Seq::empty()
    }
}

/// The change's own rebuild step: the entry file for markup, the stylesheet
/// compiler for stylesheet changes under that framework, the one touched
/// asset, or the compiled project. Undefined only for an asset path that the
/// project root does not lead, which the watcher never forwards.
pub open spec fn spec_main_steps(mode: CssMode, c: ChangeView, project: Seq<Seq<char>>) -> Option<
    Seq<StepView>,
> {
    match c {
        ChangeView::Html => Some(
            seq![StepView::Index { release: false, base_url: "/"@, dev: true }],
        ),
        ChangeView::Css => if mode == CssMode::Sass {
            Some(seq![StepView::Sass { release: false }])
        } else {
            Some(Seq::empty())
        },
        ChangeView::Static(p) => if project.is_prefix_of(p) {
            Some(seq![StepView::Asset { path: p.skip(project.len() as int) }])
        } else {
            None
        },
        ChangeView::Rust => Some(
            seq![StepView::Rust { release: false, profile: "release"@ }],
        ),
    }
}

/// Everything a change triggers, in order.
pub open spec fn spec_rebuild_plan(mode: CssMode, c: ChangeView, project: Seq<Seq<char>>) -> Option<
    Seq<StepView>,
> {
    match spec_main_steps(mode, c, project) {
        Some(main) => Some(spec_pre_steps(mode, c) + main),
        None => None,
    }
}

/// The build steps of a full project build.
pub fn full_build_plan(
    mode: CssMode,
    release: bool,
    base_url: &str,
    profile: &str,
    dev: bool,
) -> (steps: Vec<BuildStep>)
    ensures
        steps.deep_view() == spec_full_plan(mode, release, base_url@, profile@, dev),
{
    let mut steps: Vec<BuildStep> = Vec::new();
    steps.push(BuildStep::Index { release, base_url: base_url.to_owned(), dev });
    match mode {
        CssMode::Sass => steps.push(BuildStep::Sass { release }),
        CssMode::Tailwind => steps.push(BuildStep::Tailwind { release }),
    }
    steps.push(BuildStep::Assets);
    steps.push(BuildStep::Rust { release, profile: profile.to_owned() });
    if release {
        steps.push(BuildStep::MinifyHtml);
        steps.push(BuildStep::MinifyJs);
        steps.push(BuildStep::MinifyWasm);
    }
    proof {
        assert(steps.deep_view() =~= spec_full_plan(mode, release, base_url@, profile@, dev));
    }
    steps
}

/// The build steps that one classified change triggers. An asset path that
/// the project root does not lead yields no plan; the caller reports it and
/// carries on, as with any per-event failure.
pub fn rebuild_plan(mode: CssMode, change: &ChangeType, project: &FsPath) -> (r: Option<
    Vec<BuildStep>,
>)
    ensures
        r matches Some(steps) ==> spec_rebuild_plan(mode, change@, project@) == Some(
            steps.deep_view(),
        ),
        (r is None) == (spec_rebuild_plan(mode, change@, project@) is None),
{
    let mut steps: Vec<BuildStep> = Vec::new();
    let tailwind_first = match (mode, change) {
        (CssMode::Tailwind, ChangeType::Html) => true,
        (CssMode::Tailwind, ChangeType::Css) => true,
        (CssMode::Tailwind, ChangeType::Rust) => true,
        _ => false,
    };
    if tailwind_first {
        steps.push(BuildStep::Tailwind { release: false });
    }
    match change {
        ChangeType::Html => {
            steps.push(
                BuildStep::Index { release: false, base_url: "/".to_owned(), dev: true },
            );
        },
        ChangeType::Css => {
            if matches!(mode, CssMode::Sass) {
                steps.push(BuildStep::Sass { release: false });
            }
        },
        ChangeType::Static(asset) => {
            if !asset.starts_with(project) {
                return None;
            }
            let rel = asset.skip_prefix(project.len());
            steps.push(BuildStep::Asset { path: rel });
        },
        ChangeType::Rust => {
            steps.push(BuildStep::Rust { release: false, profile: "release".to_owned() });
        },
    }
    proof {
        assert(steps.deep_view() =~= spec_pre_steps(mode, change@) + spec_main_steps(
            mode,
            change@,
            project@,
        ).unwrap());
    }
    Some(steps)
}

} // verus!
