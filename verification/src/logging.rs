//! Path and naming computations of the log configuration. Where the log
//! files go and what they are called is decided here; opening, rotating and
//! writing them is the driver's.
//!
//! The chosen directory — the explicitly configured one, or the directory
//! the executable runs from — has every Windows verbatim path prefix
//! (`\\?\`) removed, since the logging backend cannot digest it.

use vstd::prelude::*;
use vstd::string::{StrSliceExecFns, StringExecFns};

verus! {

/// Whether the four characters of the verbatim prefix `\\?\` stand at
/// position `i` of `s`.
pub open spec fn verbatim_prefix_at(s: Seq<char>, i: int) -> bool {
    &&& i + 4 <= s.len()
    &&& s[i] == '\\'
    &&& s[i + 1] == '\\'
    &&& s[i + 2] == '?'
    &&& s[i + 3] == '\\'
}

/// `s` from position `i` on, with every occurrence of the verbatim prefix
/// removed, scanning left to right without overlap — the semantics of
/// replacing the pattern by the empty string.
pub open spec fn spec_strip_verbatim(s: Seq<char>, i: int) -> Seq<char>
    decreases s.len() - i,
{
    if i >= s.len() {
        Seq::empty()
    } else if verbatim_prefix_at(s, i) {
        spec_strip_verbatim(s, i + 4)
    } else {
        seq![s[i]] + spec_strip_verbatim(s, i + 1)
    }
}

/// Remove every occurrence of the verbatim prefix `\\?\` from `s`.
pub fn strip_verbatim(s: &str) -> (r: String)
    ensures
        r@ == spec_strip_verbatim(s@, 0),
{
    let n = s.unicode_len();
    let mut r = String::new();
    let mut i: usize = 0;
    while i < n
        invariant
            i <= n,
            n == s@.len(),
            spec_strip_verbatim(s@, 0) == r@ + spec_strip_verbatim(s@, i as int),
        decreases n - i,
    {
        let prefix = n - i >= 4 && s.get_char(i) == '\\' && s.get_char(i + 1) == '\\'
            && s.get_char(i + 2) == '?' && s.get_char(i + 3) == '\\';
        if prefix {
            i = i + 4;
        } else {
            let ghost r0 = r@;
            let piece = s.substring_char(i, i + 1);
            proof {
                assert(piece@ =~= seq![s@[i as int]]);
            }
            r.append(piece);
            proof {
                let a = seq![s@[i as int]];
                let b = spec_strip_verbatim(s@, i + 1);
                assert(spec_strip_verbatim(s@, i as int) == a + b);
                assert((r0 + a) + b =~= r0 + (a + b));
            }
            i = i + 1;
        }
    }
    r
}

/// The directory the log files go to: the explicitly configured one if any,
/// else the directory the executable runs from — in both cases with every
/// verbatim prefix removed.
pub fn resolve_log_dir(explicit: Option<&String>, exe_dir: &str) -> (r: String)
    ensures
        explicit matches Some(d) ==> r@ == spec_strip_verbatim(d@, 0),
        explicit is None ==> r@ == spec_strip_verbatim(exe_dir@, 0),
{
    match explicit {
        Some(d) => strip_verbatim(d.as_str()),
        None => strip_verbatim(exe_dir),
    }
}

/// The discriminant that tells this service's own log files apart when no
/// explicit base name is configured: `for_` followed by the service name.
pub fn log_discriminant(name: &str) -> (r: String)
    ensures
        r@ == "for_"@ + name@,
{
    let mut r = String::from_str("for_");
    r.append(name);
    r
}

} // verus!
