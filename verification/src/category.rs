//! Category-name validation for the upsert operations: names are trimmed,
//! and a blank name either means "no category" (optional input) or is
//! refused (required input). Uniqueness up to case is the record store's
//! invariant; the library only normalizes what is handed to it.

use vstd::prelude::*;
use vstd::string::StrSliceExecFns;
use vstd::string::StringExecFns;
use crate::text::{spec_trim, trim_str};

verus! {

/// The trimmed name, or nothing when the input is absent or blank.
pub open spec fn spec_normalize_category_name(n: Option<Seq<char>>) -> Option<Seq<char>> {
    match n {
        Some(s) => if spec_trim(s).len() > 0 {
            Some(spec_trim(s))
        } else {
            None
        },
        None => None,
    }
}

/// Normalizes an optional category name: trimmed, blank meaning none.
pub fn normalize_category_name(name: &Option<String>) -> (r: Option<String>)
    ensures
        r.deep_view() == spec_normalize_category_name(name.deep_view()),
{
    match name {
        Some(s) => {
            let t = trim_str(s.as_str());
            if t.as_str().unicode_len() > 0 {
                Some(t)
            } else {
                None
            }
        },
        None => None,
    }
}

/// Validates a required category name: the trimmed name, or the error
/// message for a blank one — exactly when the trimmed name is empty.
pub fn validate_category_name(name: &str) -> (r: Result<String, String>)
    ensures
        spec_trim(name@).len() > 0 ==> (r matches Ok(t) && t@ == spec_trim(name@)),
        spec_trim(name@).len() == 0 ==> (r matches Err(e) && e@
            == "Category name cannot be empty"@),
{
    let t = trim_str(name);
    if t.as_str().unicode_len() > 0 {
        Ok(t)
    } else {
        Err(String::from_str("Category name cannot be empty"))
    }
}

} // verus!
