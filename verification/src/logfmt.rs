//! Log output configuration and the text helpers the formatters use.

use vstd::prelude::*;
use vstd::string::StrSliceExecFns;

verus! {

/// Log output styles.
#[derive(Debug, Copy, Clone, PartialEq, Eq, Structural)]
pub enum LogStyle {
    Default,
    Compact,
    Json,
}

/// How trace events are formatted.
#[derive(Debug, Copy, Clone, PartialEq, Eq, Structural)]
pub struct LogFormat {
    /// Whether to colour the output.
    pub ansi: bool,
    /// Overall output style.
    pub style: LogStyle,
    /// Whether to show the date next to the time of day.
    pub show_date: bool,
    /// Whether to prefix each line with the host name.
    pub show_host: bool,
}

impl LogFormat {
    /// A format with every choice explicit.
    pub fn new(ansi: bool, style: LogStyle, show_date: bool, show_host: bool) -> (r: LogFormat)
        ensures
            r == (LogFormat { ansi, style, show_date, show_host }),
    {
        LogFormat { ansi, style, show_date, show_host }
    }
}

impl Default for LogFormat {
    /// The default style: plain output with the date shown and no host
    /// prefix.  Whether a terminal wants colour is for the caller to
    /// decide and set.
    fn default() -> (r: LogFormat)
        ensures
            r == (LogFormat {
                ansi: false,
                style: LogStyle::Default,
                show_date: true,
                show_host: false,
            }),
    {
        LogFormat { ansi: false, style: LogStyle::Default, show_date: true, show_host: false }
    }
}

/// Shortens a line to `w` characters, ending it with an ellipsis; short
/// lines, and widths too small for an ellipsis, are kept whole.
pub fn ellipsis(s: &str, w: usize) -> (r: String)
    requires
        s.is_ascii(),
    ensures
        w < 8 || s@.len() <= w ==> r@ == s@,
        !(w < 8 || s@.len() <= w) ==> r@ == s@.subrange(0, w - 3) + "..."@,
{
    let n = s.unicode_len();
    if w < 8 || n <= w {
        s.to_owned()
    } else {
        s.substring_ascii(0, w - 3).to_owned().concat("...")
    }
}

/// The file name at the end of a path: everything after the last `/`, or
/// the whole path when it holds none.
pub fn basename<'a>(path: &'a str) -> (r: &'a str)
    requires
        path.is_ascii(),
    ensures
        exists|k: int|
            {
                &&& 0 <= k <= path@.len()
                &&& r@ == path@.subrange(k, path@.len() as int)
                &&& (k == 0 || path@[k - 1] == '/')
                &&& forall|j: int| k <= j < path@.len() ==> path@[j] != '/'
            },
{
    let n = path.unicode_len();
    let mut i: usize = n;
    while i > 0
        invariant
            path.is_ascii(),
            0 <= i <= n,
            n == path@.len(),
            forall|j: int| i <= j < n ==> path@[j] != '/',
        decreases i,
    {
        if path.get_char(i - 1) == '/' {
            let r = path.substring_ascii(i, n);
            proof {
                assert(0 <= i as int <= path@.len() && r@ == path@.subrange(
                    i as int,
                    path@.len() as int,
                ) && (i as int == 0 || path@[i as int - 1] == '/') && forall|j: int|
                    i as int <= j < path@.len() ==> path@[j] != '/');
            }
            return r;
        }
        i = i - 1;
    }
    let r = path.substring_ascii(0, n);
    proof {
        assert(0 <= 0int <= path@.len() && r@ == path@.subrange(0, path@.len() as int) && (0int
            == 0 || path@[0int - 1] == '/') && forall|j: int|
            0 <= j < path@.len() ==> path@[j] != '/');
    }
    r
}

} // verus!
