//! The version identifier of the library.

use vstd::prelude::*;
use vstd::string::*;
use crate::text::has_nul;

verus! {

/// The text of the version identifier.
pub open spec fn version_text() -> Seq<char> {
    "rsip-wrapper-0.1.0"@
}

/// The version identifier: one fixed, non-empty text that lives as long as
/// the process does, so every call returns the same value. It has no NUL
/// inside and can be handed over as a NUL-terminated string.
pub fn rsip_version() -> (version: &'static str)
    ensures
        version@ == version_text(),
        version@.len() == 18,
        version.is_ascii(),
        !has_nul(version@),
{
    proof {
        reveal_strlit("rsip-wrapper-0.1.0");
        if has_nul(version_text()) {
            let i = choose|i: int| 0 <= i < version_text().len() && version_text()[i] == '\0';
            assert(version_text()[i] == '\0');
        }
    }
    "rsip-wrapper-0.1.0"
}

} // verus!
