use vstd::prelude::*;
use vstd::string::StrSliceExecFns;
use vstd::string::StringExecFns;

verus! {

/// The version label as shown to users: the release version with a leading
/// `v`, added only when the version does not already start with one.
pub open spec fn version_label(v: Seq<char>) -> Seq<char> {
    if v.len() > 0 && v[0] == 'v' {
        v
    } else {
        seq!['v'] + v
    }
}

/// Formats the package version for display, prefixing `v` unless present.
pub fn get_app_version(version: &str) -> (r: String)
    ensures
        r@ == version_label(version@),
{
    let n = version.unicode_len();
    if n > 0 && version.get_char(0) == 'v' {
        String::from_str(version)
    } else {
        proof {
            reveal_strlit("v");
        }
        let mut r = String::from_str("v");
        r.append(version);
        assert(r@ == seq!['v'] + version@);
        r
    }
}

} // verus!
