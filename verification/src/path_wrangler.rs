//! Normalizing asset paths to the platform's separator convention.
use vstd::prelude::*;
use vstd::string::StrSliceExecFns;
use vstd::string::StringExecFns;

verus! {

/// A character that separates path components on some platform.
pub open spec fn is_path_separator(c: char) -> bool {
    c == '/' || c == '\\'
}

/// `dst` is `src` with every separator rewritten to `sep` and every other
/// character kept.
pub open spec fn normalized_to(src: Seq<char>, dst: Seq<char>, sep: char) -> bool {
    &&& dst.len() == src.len()
    &&& forall|i: int| 0 <= i < src.len() ==> #[trigger] dst[i] == (if is_path_separator(src[i]) {
        sep
    } else {
        src[i]
    })
}

/// Relies on `std::path::MAIN_SEPARATOR`: the platform's primary path
/// separator — a slash on Unix-family targets, a backslash on Windows.
#[verifier::external_body]
fn main_separator() -> (c: char)
    ensures
        c == '/' || c == '\\',
{
    std::path::MAIN_SEPARATOR
}

/// Relies on `String::push`: appends one character at the end.
#[verifier::external_body]
fn push_char(s: &mut String, c: char)
    ensures
        final(s)@ == old(s)@.push(c),
{
    s.push(c)
}

/// Builds a path string, normalizing the separators to the platform's
/// convention on request.
pub struct PathWrangler {
    path: String,
}

impl PathWrangler {
    /// The characters of the path built so far.
    pub closed spec fn spec_path(self) -> Seq<char> {
        self.path@
    }

    /// Starts from the given path text.
    pub fn new(path: &str) -> (r: PathWrangler)
        ensures
            r.spec_path() == path@,
    {
        PathWrangler { path: String::from_str(path) }
    }

    /// Rewrites every separator to the platform's convention: one
    /// separator character — the platform's — receives every separator of
    /// the path, and every other character is kept. Applying this twice
    /// gives the same path as applying it once, the platform being fixed.
    pub fn with_os_convention(self) -> (r: PathWrangler)
        ensures
            r.spec_path().len() == self.spec_path().len(),
            (exists|sep: char| (sep == '/' || sep == '\\') && #[trigger] normalized_to(
                self.spec_path(),
                r.spec_path(),
                sep,
            )),
    {
        let sep = main_separator();
        let other: char = if sep == '/' {
            '\\'
        } else {
            '/'
        };
        let n = self.path.as_str().unicode_len();
        let mut out = String::from_str("");
        proof {
            reveal_strlit("");
        }
        let mut i: usize = 0;
        while i < n
            invariant
                0 <= i <= n,
                n == self.path@.len(),
                out@.len() == i,
                sep == '/' || sep == '\\',
                other == (if sep == '/' {
                    '\\'
                } else {
                    '/'
                }),
                forall|k: int| 0 <= k < i ==> out@[k] == (if self.path@[k] == other {
                    sep
                } else {
                    self.path@[k]
                }),
            decreases n - i,
        {
            let c = self.path.as_str().get_char(i);
            let c2: char = if c == other {
                sep
            } else {
                c
            };
            push_char(&mut out, c2);
            i += 1;
        }
        proof {
            assert forall|k: int| 0 <= k < self.path@.len() implies #[trigger] out@[k] == (
            if is_path_separator(self.path@[k]) {
                sep
            } else {
                self.path@[k]
            }) by {
                if is_path_separator(self.path@[k]) && self.path@[k] != other {
                    assert(self.path@[k] == sep);
                }
            }
            assert(normalized_to(self.path@, out@, sep));
        }
        let r = PathWrangler { path: out };
        proof {
            assert(normalized_to(self.spec_path(), r.spec_path(), sep));
        }
        r
    }

    /// The finished path.
    pub fn finish(self) -> (r: String)
        ensures
            r@ == self.spec_path(),
    {
        self.path
    }
}

} // verus!
