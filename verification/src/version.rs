//! The version that the program reports.
use vstd::prelude::*;
use vstd::string::*;

verus! {

/// The text of a version. A release reports its version, and with a pre-release tag the commit
/// too; anything else is work in progress.
pub open spec fn version_of(pkg: Seq<char>, is_release: bool, hash: Seq<char>) -> Seq<char> {
    if is_release {
        if pkg.contains('-') {
            pkg + " ("@ + hash + ")"@
        } else {
            pkg
        }
    } else {
        pkg + " WIP ("@ + hash + ")"@
    }
}

/// Whether a text has a dash.
pub fn has_dash(s: &str) -> (r: bool)
    ensures
        r == s@.contains('-'),
{
    let n: usize = s.unicode_len();
    let mut i: usize = 0;
    while i < n
        invariant
            i <= n,
            n == s@.len(),
            forall|j: int| 0 <= j < i ==> s@[j] != '-',
        decreases n - i,
    {
        if s.get_char(i) == '-' {
            assert(s@[i as int] == '-');
            return true;
        }
        i = i + 1;
    }
    false
}

/// The text of a version.
pub fn compute_version(pkg: &str, is_release: bool, hash: &str) -> (r: String)
    ensures
        r@ == version_of(pkg@, is_release, hash@),
{
    let mut text: String = pkg.to_owned();
    if is_release {
        if has_dash(pkg) {
            text.append(" (");
            text.append(hash);
            text.append(")");
        }
    } else {
        text.append(" WIP (");
        text.append(hash);
        text.append(")");
    }
    text
}

} // verus!
