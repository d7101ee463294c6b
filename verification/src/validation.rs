//! Request-shape validation: the outcome of checking a request body or query
//! against its declared field rules.
use vstd::prelude::*;

use crate::text::chars_of;

verus! {

/// One failed rule: the field it concerns (`__all__` for a cross-field rule)
/// and the rule's code.
#[derive(Debug, Clone, Copy)]
pub struct ValidationIssue {
    pub field: &'static str,
    pub code: &'static str,
}

/// The `length` rule on a character count: `equal` when given (it overrides
/// `min` and `max`), otherwise the inclusive bounds that are given.
pub open spec fn spec_length_ok(len: nat, min: Option<u64>, max: Option<u64>, equal: Option<u64>) -> bool {
    match equal {
        Some(eq) => len == eq,
        None => (match min {
            Some(m) => len >= m,
            None => true,
        }) && (match max {
            Some(m) => len <= m,
            None => true,
        }),
    }
}

/// Checks the `length` rule on the number of characters of `s`.
pub fn length_ok(s: &str, min: Option<u64>, max: Option<u64>, equal: Option<u64>) -> (r: bool)
    ensures
        r == spec_length_ok(s@.len(), min, max, equal),
{
    let n = chars_of(s).len() as u64;
    match equal {
        Some(eq) => n == eq,
        None => {
            let min_ok = match min {
                Some(m) => n >= m,
                None => true,
            };
            let max_ok = match max {
                Some(m) => n <= m,
                None => true,
            };
            min_ok && max_ok
        },
    }
}

/// The issue for a failed `length` rule on `field`.
pub fn length_issue(field: &'static str) -> (i: ValidationIssue)
    ensures
        i.field@ == field@,
        i.code@ == "length"@,
{
    ValidationIssue { field, code: "length" }
}

} // verus!
