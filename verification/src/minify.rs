//! Minification of the build output for release builds, and the bookkeeping
//! of how much each pass saved.
//!
//! Walking the output directory and rewriting files is the caller's
//! business; one document's bytes go in, the minified bytes come out, and
//! the size reduction is accumulated. The JavaScript minifier itself stays
//! with the caller: its minify passes can panic on syntactically valid
//! modules, so no contract of this library can stand on it; the caller
//! catches such a failure and records the outcome through [`Reduction`].

use vstd::prelude::*;

verus! {

/// Accumulated sizes of one minification pass: total bytes before and after.
pub struct Reduction {
    original: u64,
    minified: u64,
}

impl Reduction {
    /// Total bytes before minification.
    pub closed spec fn spec_original(&self) -> u64 {
        self.original
    }

    /// Total bytes after minification.
    pub closed spec fn spec_minified(&self) -> u64 {
        self.minified
    }

    /// Total bytes before minification.
    pub fn original(&self) -> (n: u64)
        ensures
            n == self.spec_original(),
    {
        self.original
    }

    /// Total bytes after minification.
    pub fn minified(&self) -> (n: u64)
        ensures
            n == self.spec_minified(),
    {
        self.minified
    }

    /// Count one file's sizes before and after minification. The counters
    /// saturate instead of overflowing, which no realistic build output
    /// reaches.
    pub fn record(&mut self, original_len: usize, minified_len: usize)
        ensures
            final(self).spec_original() == if old(self).spec_original() + original_len
                <= u64::MAX {
                old(self).spec_original() + original_len
            } else {
                u64::MAX as int
            },
            final(self).spec_minified() == if old(self).spec_minified() + minified_len
                <= u64::MAX {
                old(self).spec_minified() + minified_len
            } else {
                u64::MAX as int
            },
    {
        let add_original = original_len as u64;
        if self.original <= u64::MAX - add_original {
            self.original = self.original + add_original;
        } else {
            self.original = u64::MAX;
        }
        let add_minified = minified_len as u64;
        if self.minified <= u64::MAX - add_minified {
            self.minified = self.minified + add_minified;
        } else {
            self.minified = u64::MAX;
        }
    }

    /// The saved share in tenths of a percent: a thousand times one minus
    /// the size ratio, rounded towards the original size, and zero for an
    /// empty input. Negative when minification grew the output.
    pub fn saved_permille(&self) -> (r: i128)
        ensures
            r == if self.spec_original() == 0 {
                0int
            } else {
                1000 - (self.spec_minified() * 1000) / (self.spec_original() as int)
            },
    {
        if self.original == 0 {
            return 0;
        }
        let ratio = (self.minified as u128 * 1000) / (self.original as u128);
        1000i128 - (ratio as i128)
    }
}

impl Default for Reduction {
    /// No bytes counted yet.
    fn default() -> (d: Reduction)
        ensures
            d.spec_original() == 0,
            d.spec_minified() == 0,
    {
        Reduction { original: 0, minified: 0 }
    }
}

/// Whether a byte sequence is valid UTF-8, as the standard library's
/// validator decides it.
pub uninterp spec fn is_utf8(bytes: Seq<u8>) -> bool;

/// Relies on `std::str::from_utf8`: by its documentation it returns `Ok`
/// exactly when the bytes are valid UTF-8, a property of the bytes alone.
#[verifier::external_body]
fn utf8_check(bytes: &Vec<u8>) -> (r: bool)
    ensures
        r == is_utf8(bytes@),
{
    std::str::from_utf8(bytes).is_ok()
}

/// What the HTML minifier returns for a document under the given options: a
/// pure function of the bytes and the options.
pub uninterp spec fn html_minified(
    source: Seq<u8>,
    keep_doctype: bool,
    minify_css: bool,
) -> Seq<u8>;

/// Relies on `minify_html::minify` with embedded-script minification off:
/// the result depends on the document bytes and the configuration alone, and
/// the call returns normally on its documented domain, UTF-8 documents. The
/// embedded-script option stays off because it runs the JavaScript
/// minifier's passes, which can panic on syntactically valid modules, and no
/// short precondition excludes those.
#[verifier::external_body]
fn minify_html_raw(source: &Vec<u8>, keep_doctype: bool, minify_css: bool) -> (r: Vec<u8>)
    requires
        is_utf8(source@),
    ensures
        r@ == html_minified(source@, keep_doctype, minify_css),
{
    let cfg = minify_html::Cfg {
        minify_doctype: !keep_doctype,
        minify_css,
        minify_js: false,
        ..minify_html::Cfg::default()
    };
    minify_html::minify(source, &cfg)
}

/// Minify one HTML document, keeping its doctype and minifying embedded
/// styles, and count its sizes. A document that is not valid UTF-8 lies
/// outside the minifier's domain and yields none, with the counters left
/// untouched; embedded scripts are kept as they are, since script files get
/// their own pass.
pub fn html_document(reduction: &mut Reduction, source: &Vec<u8>) -> (r: Option<Vec<u8>>)
    ensures
        (r is Some) == is_utf8(source@),
        r matches Some(out) ==> out@ == html_minified(source@, true, true),
        r matches Some(out) ==> final(reduction).spec_original() == (if old(
            reduction,
        ).spec_original() + source@.len() <= u64::MAX {
            old(reduction).spec_original() + source@.len()
        } else {
            u64::MAX as int
        }) && final(reduction).spec_minified() == (if old(reduction).spec_minified()
            + out@.len() <= u64::MAX {
            old(reduction).spec_minified() + out@.len()
        } else {
            u64::MAX as int
        }),
        r is None ==> *final(reduction) == *old(reduction),
{
    if !utf8_check(source) {
        return None;
    }
    let out = minify_html_raw(source, true, true);
    reduction.record(source.len(), out.len());
    Some(out)
}

} // verus!
