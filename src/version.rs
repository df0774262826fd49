//! The version string, from what git reports about tags and HEAD.
use vstd::prelude::*;
use vstd::string::*;

verus! {

/// The version used when the repository has no tag.
pub open spec fn base_version() -> Seq<char> {
    "v0.1.0"@
}

/// The version string: the latest tag when HEAD carries it, else the tag and
/// the short hash of HEAD; without a tag, the base version and the hash.
pub fn version_label(tag: Option<String>, hash: Option<String>, head_is_tagged: bool) -> (r: String)
    ensures
        r@ == match (tag, hash) {
            (Some(t), Some(h)) => if head_is_tagged {
                t@
            } else {
                t@ + "-"@ + h@
            },
            (Some(t), None) => t@,
            (None, Some(h)) => base_version() + "-"@ + h@,
            (None, None) => base_version(),
        },
{
    match (tag, hash) {
        (Some(t), Some(h)) => {
            if head_is_tagged {
                t
            } else {
                t.concat("-").concat(h.as_str())
            }
        },
        (Some(t), None) => t,
        (None, Some(h)) => {
            proof {
                reveal_strlit("v0.1.0-");
                reveal_strlit("v0.1.0");
                reveal_strlit("-");
                assert("v0.1.0-"@ =~= "v0.1.0"@ + "-"@);
            }
            String::from_str("v0.1.0-").concat(h.as_str())
        },
        (None, None) => String::from_str("v0.1.0"),
    }
}

} // verus!
