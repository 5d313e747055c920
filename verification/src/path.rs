//! Filesystem paths, modeled as their sequence of components.
//!
//! The watcher's classification and watch-set rules only ever look at path
//! components (equality, prefixes), so an absolute path is held as the list
//! of its components below the filesystem root. The view of a path is the
//! sequence of the views of its components.

use vstd::prelude::*;

verus! {

/// An absolute filesystem path: its components below the root, in order.
#[derive(Debug)]
pub struct FsPath {
    /// Path components, without separators; `["home", "me", "index.html"]`
    /// stands for `/home/me/index.html`.
    pub segs: Vec<String>,
}

/// The deep view of a component vector indexes to the view of each component.
pub proof fn lemma_deep_view_index(v: Vec<String>)
    ensures
        v.deep_view().len() == v@.len(),
        forall|j: int| 0 <= j < v@.len() ==> #[trigger] v.deep_view()[j] == v@[j]@,
{
}

impl View for FsPath {
    type V = Seq<Seq<char>>;

    open spec fn view(&self) -> Seq<Seq<char>> {
        self.segs.deep_view()
    }
}

impl DeepView for FsPath {
    type V = Seq<Seq<char>>;

    open spec fn deep_view(&self) -> Seq<Seq<char>> {
        self.view()
    }
}

/// The text of a non-empty component sequence: every component led by a
/// separator.
pub open spec fn spec_joined(segs: Seq<Seq<char>>) -> Seq<char>
    decreases segs.len(),
{
    if segs.len() == 0 {
        Seq::empty()
    } else {
        spec_joined(segs.drop_last()) + "/"@ + segs.last()
    }
}

/// The textual form of a component sequence: each component led by a
/// separator, or the bare root when there is none.
pub open spec fn spec_display_of(segs: Seq<Seq<char>>) -> Seq<char> {
    if segs.len() == 0 {
        "/"@
    } else {
        spec_joined(segs)
    }
}

/// Compare one path component against a literal.
pub fn seg_eq(seg: &String, lit: &str) -> (r: bool)
    ensures
        r == (seg@ == lit@),
{
    let owned: String = lit.to_owned();
    *seg == owned
}

impl FsPath {
    /// Wrap a list of components as a path.
    pub fn from_segments(segs: Vec<String>) -> (p: FsPath)
        ensures
            p@ == segs.deep_view(),
    {
        FsPath { segs }
    }

    /// The number of components.
    pub fn len(&self) -> (n: usize)
        ensures
            n == self@.len(),
    {
        proof {
            lemma_deep_view_index(self.segs);
        }
        self.segs.len()
    }

    /// An independent copy with the same components.
    pub fn duplicate(&self) -> (p: FsPath)
        ensures
            p@ == self@,
    {
        let mut segs: Vec<String> = Vec::new();
        let n = self.segs.len();
        for i in 0..n
            invariant
                n == self.segs.len(),
                segs@.len() == i,
                forall|j: int| 0 <= j < i ==> segs@[j]@ == self.segs@[j]@,
        {
            segs.push(self.segs[i].clone());
        }
        proof {
            lemma_deep_view_index(segs);
            lemma_deep_view_index(self.segs);
            assert(segs.deep_view() =~= self@);
        }
        FsPath { segs }
    }

    /// Component-wise equality.
    pub fn path_eq(&self, other: &FsPath) -> (r: bool)
        ensures
            r == (self@ == other@),
    {
        proof {
            lemma_deep_view_index(self.segs);
            lemma_deep_view_index(other.segs);
        }
        if self.segs.len() != other.segs.len() {
            assert(self@.len() != other@.len());
            return false;
        }
        let n = self.segs.len();
        for i in 0..n
            invariant
                n == self.segs.len() == other.segs.len(),
                forall|j: int| 0 <= j < i ==> self.segs@[j]@ == other.segs@[j]@,
        {
            if !(self.segs[i] == other.segs[i]) {
                proof {
                    lemma_deep_view_index(self.segs);
                    lemma_deep_view_index(other.segs);
                    assert(self@[i as int] != other@[i as int]);
                }
                return false;
            }
        }
        proof {
            lemma_deep_view_index(self.segs);
            lemma_deep_view_index(other.segs);
            assert(self@ =~= other@);
        }
        true
    }

    /// Does `prefix` lead this path? A path is a prefix of itself.
    pub fn starts_with(&self, prefix: &FsPath) -> (r: bool)
        ensures
            r == prefix@.is_prefix_of(self@),
    {
        proof {
            lemma_deep_view_index(self.segs);
            lemma_deep_view_index(prefix.segs);
        }
        if prefix.segs.len() > self.segs.len() {
            return false;
        }
        let n = prefix.segs.len();
        for i in 0..n
            invariant
                n == prefix.segs.len() <= self.segs.len(),
                forall|j: int| 0 <= j < i ==> prefix.segs@[j]@ == self.segs@[j]@,
        {
            if !(prefix.segs[i] == self.segs[i]) {
                proof {
                    lemma_deep_view_index(self.segs);
                    lemma_deep_view_index(prefix.segs);
                    assert(prefix@[i as int] != self@[i as int]);
                    assert(!prefix@.is_prefix_of(self@));
                }
                return false;
            }
        }
        proof {
            lemma_deep_view_index(self.segs);
            lemma_deep_view_index(prefix.segs);
            assert(prefix@ =~= self@.subrange(0, n as int));
        }
        true
    }

    /// The path extended by one more component.
    pub fn child(&self, seg: &str) -> (p: FsPath)
        ensures
            p@ == self@.push(seg@),
    {
        let mut p = self.duplicate();
        p.segs.push(seg.to_owned());
        proof {
            lemma_deep_view_index(p.segs);
            assert(p@ =~= self@.push(seg@));
        }
        p
    }

    /// The textual form of this path: each component led by a separator, or
    /// the bare root for an empty path.
    pub open spec fn spec_display(&self) -> Seq<char> {
        spec_display_of(self@)
    }

    /// Render the path as text.
    pub fn display_string(&self) -> (s: String)
        ensures
            s@ == self.spec_display(),
    {
        proof {
            lemma_deep_view_index(self.segs);
        }
        let n = self.segs.len();
        if n == 0 {
            let s: String = "/".to_owned();
            return s;
        }
        let mut s = String::new();
        for i in 0..n
            invariant
                n == self.segs.len(),
                n >= 1,
                s@ =~= spec_joined(self@.take(i as int)),
        {
            s.append("/");
            s.append(self.segs[i].as_str());
            proof {
                lemma_deep_view_index(self.segs);
                assert(self@.take(i + 1).drop_last() =~= self@.take(i as int));
                assert(self@.take(i + 1).last() == self@[i as int]);
                assert(s@ =~= spec_joined(self@.take(i + 1)));
            }
        }
        proof {
            assert(self@.take(n as int) =~= self@);
        }
        s
    }

    /// The path's first `upto` components.
    pub fn prefix(&self, upto: usize) -> (p: FsPath)
        requires
            upto <= self@.len(),
        ensures
            p@ == self@.take(upto as int),
    {
        proof {
            lemma_deep_view_index(self.segs);
        }
        let mut segs: Vec<String> = Vec::new();
        for i in 0..upto
            invariant
                upto <= self.segs.len(),
                segs@.len() == i,
                forall|j: int| 0 <= j < i ==> segs@[j]@ == self.segs@[j]@,
        {
            segs.push(self.segs[i].clone());
        }
        proof {
            lemma_deep_view_index(segs);
            lemma_deep_view_index(self.segs);
            assert(segs.deep_view() =~= self@.take(upto as int));
        }
        FsPath { segs }
    }

    /// The components from `from` onward, as a path relative to the root.
    pub fn skip_prefix(&self, from: usize) -> (p: FsPath)
        requires
            from <= self@.len(),
        ensures
            p@ == self@.skip(from as int),
    {
        proof {
            lemma_deep_view_index(self.segs);
        }
        let mut segs: Vec<String> = Vec::new();
        let n = self.segs.len();
        let mut i = from;
        while i < n
            invariant
                from <= i <= n,
                n == self.segs.len(),
                segs@.len() == i - from,
                forall|j: int| 0 <= j < i - from ==> segs@[j]@ == self.segs@[from + j]@,
            decreases n - i,
        {
            segs.push(self.segs[i].clone());
            i = i + 1;
        }
        proof {
            lemma_deep_view_index(segs);
            lemma_deep_view_index(self.segs);
            assert(segs.deep_view() =~= self@.skip(from as int));
        }
        FsPath { segs }
    }
}

} // verus!
