//! Output-path computation for buildable units.
//!
//! A unit's artifacts land in `root/name/out_dir`; the dispatcher registers
//! that joined path, and the per-crate summary recorded for the user shows
//! it lexically normalized.

use vstd::prelude::*;
use vstd::string::StringExecFns;

use crate::config::CrateView;

verus! {

/// The lexical normalization that `path_clean::clean` performs on a path:
/// redundant separators and `.` / `..` elements are reduced without touching
/// the filesystem. The exact result is fixed by the crate's algorithm; this
/// library only carries it through.
pub uninterp spec fn clean_of(path: Seq<char>) -> Seq<char>;

/// Relies on `path_clean::clean`: a lexical normalization of its argument,
/// depending on the characters of the path alone.
#[verifier::external_body]
fn clean_path(path: &str) -> (r: String)
    ensures
        r@ == clean_of(path@),
{
    path_clean::clean(path).to_string_lossy().to_string()
}

/// The joined output path of a unit: `root/name/out_dir`.
pub open spec fn out_path_of(c: CrateView) -> Seq<char> {
    c.root + "/"@ + c.name + "/"@ + c.out_dir
}

/// Computes the output path `root/name/out_dir` of a unit.
pub fn crate_out_path(root: &String, name: &String, out_dir: &String) -> (r: String)
    ensures
        r@ == root@ + "/"@ + name@ + "/"@ + out_dir@,
{
    let mut s = root.clone();
    s.append("/");
    s.append(name.as_str());
    s.append("/");
    s.append(out_dir.as_str());
    proof {
        assert(s@ =~= root@ + "/"@ + name@ + "/"@ + out_dir@);
    }
    s
}

/// The summary line recorded for one unit: its name and its lexically
/// normalized output path.
pub open spec fn info_line_of(c: CrateView) -> Seq<char> {
    c.name + " :~> "@ + clean_of(out_path_of(c))
}

/// Computes the summary line `name :~> cleaned-path` for one unit.
pub fn crate_info_line(root: &String, name: &String, out_dir: &String) -> (r: String)
    ensures
        r@ == name@ + " :~> "@ + clean_of(root@ + "/"@ + name@ + "/"@ + out_dir@),
{
    let joined = crate_out_path(root, name, out_dir);
    let cleaned = clean_path(joined.as_str());
    let mut s = name.clone();
    s.append(" :~> ");
    s.append(cleaned.as_str());
    proof {
        assert(s@ =~= name@ + " :~> "@ + clean_of(root@ + "/"@ + name@ + "/"@ + out_dir@));
    }
    s
}

} // verus!
