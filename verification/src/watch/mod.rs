//! Watching a project's source files and assets to determine which part of
//! the application has to be rebuilt.
//!
//! A changed path is classified, in order and first match wins, as:
//! - the HTML entry file `index.html` at the project root;
//! - a stylesheet: `assets/main.{sass,scss,css}`, or anything under
//!   `assets/{sass,scss,css}`;
//! - a static asset: anything else under `assets`, carrying its exact path;
//! - Rust source, the fallback for every remaining file, since any file may
//!   be pulled into the build through an include or a procedural macro.

use vstd::prelude::*;

use crate::path::lemma_deep_view_index;
use crate::path::seg_eq;
use crate::path::FsPath;

pub mod debouncer;
pub mod watcher;

verus! {

/// Identifier for the part of the project that a filesystem change touched,
/// used to rebuild only that part instead of the whole project.
#[derive(Debug)]
pub enum ChangeType {
    /// The `index.html` file.
    Html,
    /// The main stylesheet or a file referenced by it.
    Css,
    /// A static file, copied as-is without processing; carries the file's
    /// absolute path so that distinct assets stay distinct.
    Static(FsPath),
    /// Rust source, or any remaining file that the build may pull in.
    Rust,
}

/// The mathematical shape of a [`ChangeType`]: the tag, plus the path for
/// the static-asset case.
pub enum ChangeView {
    Html,
    Css,
    Static(Seq<Seq<char>>),
    Rust,
}

impl View for ChangeType {
    type V = ChangeView;

    open spec fn view(&self) -> ChangeView {
        match self {
            ChangeType::Html => ChangeView::Html,
            ChangeType::Css => ChangeView::Css,
            ChangeType::Static(p) => ChangeView::Static(p@),
            ChangeType::Rust => ChangeView::Rust,
        }
    }
}

impl DeepView for ChangeType {
    type V = ChangeView;

    open spec fn deep_view(&self) -> ChangeView {
        self.view()
    }
}

impl PartialEq for ChangeType {
    fn eq(&self, other: &ChangeType) -> (r: bool) {
        match (self, other) {
            (ChangeType::Html, ChangeType::Html) => true,
            (ChangeType::Css, ChangeType::Css) => true,
            (ChangeType::Static(a), ChangeType::Static(b)) => a.path_eq(b),
            (ChangeType::Rust, ChangeType::Rust) => true,
            _ => false,
        }
    }
}

impl vstd::std_specs::cmp::PartialEqSpecImpl for ChangeType {
    open spec fn obeys_eq_spec() -> bool {
        true
    }

    open spec fn eq_spec(&self, other: &ChangeType) -> bool {
        self@ == other@
    }
}

impl ChangeType {
    /// An independent copy with the same view.
    pub fn duplicate(&self) -> (c: ChangeType)
        ensures
            c@ == self@,
    {
        match self {
            ChangeType::Html => ChangeType::Html,
            ChangeType::Css => ChangeType::Css,
            ChangeType::Static(p) => ChangeType::Static(p.duplicate()),
            ChangeType::Rust => ChangeType::Rust,
        }
    }

    /// The category's textual tag, with a static asset's path attached.
    pub fn label(&self) -> (s: String)
        ensures
            s@ == match self@ {
                ChangeView::Html => "html"@,
                ChangeView::Css => "css"@,
                ChangeView::Static(p) => "static:"@ + crate::path::spec_display_of(p),
                ChangeView::Rust => "rust"@,
            },
    {
        match self {
            ChangeType::Html => "html".to_owned(),
            ChangeType::Css => "css".to_owned(),
            ChangeType::Static(p) => {
                let mut s: String = "static:".to_owned();
                let rendered = p.display_string();
                s.append(rendered.as_str());
                s
            },
            ChangeType::Rust => "rust".to_owned(),
        }
    }
}

/// The relative path is exactly the HTML entry file at the project root.
pub open spec fn is_markup(rel: Seq<Seq<char>>) -> bool {
    rel == seq!["index.html"@]
}

/// The relative path is the main stylesheet at its fixed location, or lies
/// under one of the recognized stylesheet subtrees of the assets tree.
pub open spec fn is_stylesheet(rel: Seq<Seq<char>>) -> bool {
    ||| rel == seq!["assets"@, "main.sass"@]
    ||| rel == seq!["assets"@, "main.scss"@]
    ||| rel == seq!["assets"@, "main.css"@]
    ||| (rel.len() >= 2 && rel[0] == "assets"@ && (rel[1] == "sass"@ || rel[1] == "scss"@
        || rel[1] == "css"@))
}

/// The relative path lies under the assets tree.
pub open spec fn is_asset_path(rel: Seq<Seq<char>>) -> bool {
    rel.len() >= 1 && rel[0] == "assets"@
}

/// Classification of a path relative to the project root; `full` is the
/// original absolute path, carried into the static-asset case. Total: every
/// path falls into exactly one category, with Rust source as the fallback.
pub open spec fn spec_classify(rel: Seq<Seq<char>>, full: Seq<Seq<char>>) -> ChangeView {
    if is_markup(rel) {
        ChangeView::Html
    } else if is_stylesheet(rel) {
        ChangeView::Css
    } else if is_asset_path(rel) {
        ChangeView::Static(full)
    } else {
        ChangeView::Rust
    }
}

/// Classification of an absolute path against a project root: defined
/// whenever the root leads the path, and a pure function of the two paths.
pub open spec fn spec_trigger(project: Seq<Seq<char>>, full: Seq<Seq<char>>) -> Option<
    ChangeView,
> {
    if project.is_prefix_of(full) {
        Some(spec_classify(full.skip(project.len() as int), full))
    } else {
        None
    }
}

/// Decide what part of the project to rebuild, given a changed absolute path.
/// Paths outside the project directory yield no trigger; the watcher only
/// registers paths inside it, so that case never fires in normal operation.
pub fn to_build_trigger(project: &FsPath, full: &FsPath) -> (r: Option<ChangeType>)
    ensures
        (r is Some) == project@.is_prefix_of(full@),
        r matches Some(c) ==> c@ == spec_classify(
            full@.skip(project@.len() as int),
            full@,
        ),
{
    if !full.starts_with(project) {
        return None;
    }
    let rel = full.skip_prefix(project.len());
    proof {
        lemma_deep_view_index(rel.segs);
    }
    let n = rel.segs.len();
    if n == 1 && seg_eq(&rel.segs[0], "index.html") {
        proof {
            assert(rel@ =~= seq!["index.html"@]);
        }
        return Some(ChangeType::Html);
    }
    proof {
        assert(rel@ != seq!["index.html"@]) by {
            if n == 1 {
                assert(rel@[0] != "index.html"@);
            } else {
                assert(rel@.len() != 1);
            }
        }
    }
    if n >= 1 && seg_eq(&rel.segs[0], "assets") {
        if n == 2 && (seg_eq(&rel.segs[1], "main.sass") || seg_eq(&rel.segs[1], "main.scss")
            || seg_eq(&rel.segs[1], "main.css")) {
            proof {
                if rel@[1] == "main.sass"@ {
                    assert(rel@ =~= seq!["assets"@, "main.sass"@]);
                } else if rel@[1] == "main.scss"@ {
                    assert(rel@ =~= seq!["assets"@, "main.scss"@]);
                } else {
                    assert(rel@ =~= seq!["assets"@, "main.css"@]);
                }
            }
            return Some(ChangeType::Css);
        }
        if n >= 2 && (seg_eq(&rel.segs[1], "sass") || seg_eq(&rel.segs[1], "scss") || seg_eq(
            &rel.segs[1],
            "css",
        )) {
            return Some(ChangeType::Css);
        }
        proof {
            lemma_not_stylesheet(rel@);
        }
        return Some(ChangeType::Static(full.duplicate()));
    }
    proof {
        assert(!is_stylesheet(rel@)) by {
            if n >= 1 {
                assert(rel@[0] != "assets"@);
            }
            assert(rel@ != seq!["assets"@, "main.sass"@]);
            assert(rel@ != seq!["assets"@, "main.scss"@]);
            assert(rel@ != seq!["assets"@, "main.css"@]);
        }
    }
    Some(ChangeType::Rust)
}

/// An assets path whose second component is neither a main stylesheet name
/// nor a stylesheet subtree name is no stylesheet.
proof fn lemma_not_stylesheet(rel: Seq<Seq<char>>)
    requires
        rel.len() >= 1,
        rel[0] == "assets"@,
        rel.len() >= 2 ==> rel[1] != "sass"@ && rel[1] != "scss"@ && rel[1] != "css"@,
        rel.len() == 2 ==> rel[1] != "main.sass"@ && rel[1] != "main.scss"@ && rel[1]
            != "main.css"@,
    ensures
        !is_stylesheet(rel),
{
    if rel.len() < 2 {
        assert(rel != seq!["assets"@, "main.sass"@]);
        assert(rel != seq!["assets"@, "main.scss"@]);
        assert(rel != seq!["assets"@, "main.css"@]);
    } else {
        assert(rel != seq!["assets"@, "main.sass"@]) by {
            assert(seq!["assets"@, "main.sass"@][1] == "main.sass"@);
        }
        assert(rel != seq!["assets"@, "main.scss"@]) by {
            assert(seq!["assets"@, "main.scss"@][1] == "main.scss"@);
        }
        assert(rel != seq!["assets"@, "main.css"@]) by {
            assert(seq!["assets"@, "main.css"@][1] == "main.css"@);
        }
    }
}

/// Classification preserves static-asset paths exactly: every path under the
/// assets tree that is not the main stylesheet and does not lie under a
/// stylesheet subtree classifies as a static asset carrying that very path.
pub proof fn lemma_assets_classified_static(project: Seq<Seq<char>>, full: Seq<Seq<char>>)
    requires
        project.is_prefix_of(full),
        is_asset_path(full.skip(project.len() as int)),
        !is_stylesheet(full.skip(project.len() as int)),
    ensures
        spec_trigger(project, full) == Some(ChangeView::Static(full)),
{
    let rel = full.skip(project.len() as int);
    assert(!is_markup(rel)) by {
        reveal_strlit("assets");
        reveal_strlit("index.html");
        assert(seq!["index.html"@][0] == "index.html"@);
        assert("assets"@.len() != "index.html"@.len());
    }
}

} // verus!
