//! Requirement kinds and statuses.
use vstd::prelude::*;

use crate::text::{concat3, str_eq};

verus! {

#[derive(Debug, Clone, Copy, PartialEq, Eq, Structural)]
pub enum RequirementKind {
    Product,
    General,
}

impl RequirementKind {
    /// The stored (database and API) name.
    pub open spec fn spec_as_str(self) -> Seq<char> {
        match self {
            RequirementKind::Product => "PRODUCT"@,
            RequirementKind::General => "GENERAL"@,
        }
    }

    /// The value whose stored name is `value`, if any.
    pub open spec fn spec_parse(value: Seq<char>) -> Option<RequirementKind> {
        if value == "PRODUCT"@ {
            Some(RequirementKind::Product)
        } else if value == "GENERAL"@ {
            Some(RequirementKind::General)
        } else {
            None
        }
    }

    pub fn as_str(self) -> (s: &'static str)
        ensures
            s@ == self.spec_as_str(),
    {
        match self {
            RequirementKind::Product => "PRODUCT",
            RequirementKind::General => "GENERAL",
        }
    }

    /// Parses a stored name; the error names the unknown value.
    pub fn parse(value: &str) -> (r: Result<RequirementKind, String>)
        ensures
            r matches Ok(s) ==> RequirementKind::spec_parse(value@) == Some(s),
            r matches Err(m) ==> RequirementKind::spec_parse(value@) is None && m@ == "unknown requirement kind `"@ + value@ + "`"@,
    {
        if str_eq(value, "PRODUCT") {
            Ok(RequirementKind::Product)
        } else if str_eq(value, "GENERAL") {
            Ok(RequirementKind::General)
        } else {
            Err(concat3("unknown requirement kind `", value, "`"))
        }
    }
}

impl std::str::FromStr for RequirementKind {
    type Err = String;

    fn from_str(value: &str) -> (r: Result<RequirementKind, String>)
        ensures
            r matches Ok(s) ==> RequirementKind::spec_parse(value@) == Some(s),
            r matches Err(m) ==> RequirementKind::spec_parse(value@) is None && m@ == "unknown requirement kind `"@
                + value@ + "`"@,
    {
        RequirementKind::parse(value)
    }
}

/// Parsing the stored name of a requirement kind gives it back.
pub proof fn requirement_kind_string_round_trip(value: RequirementKind)
    ensures
        RequirementKind::spec_parse(value.spec_as_str()) == Some(value),
{
    reveal_strlit("PRODUCT");
    assert("PRODUCT"@.len() == 7 && "PRODUCT"@[0] == 'P' && "PRODUCT"@[1] == 'R');
    reveal_strlit("GENERAL");
    assert("GENERAL"@.len() == 7 && "GENERAL"@[0] == 'G' && "GENERAL"@[1] == 'E');
}

#[derive(Debug, Clone, Copy, PartialEq, Eq, Structural)]
pub enum RequirementStatus {
    Submitted,
    UnderReview,
    Sourcing,
    Quoted,
    Closed,
    Cancelled,
}

impl RequirementStatus {
    /// The stored (database and API) name.
    pub open spec fn spec_as_str(self) -> Seq<char> {
        match self {
            RequirementStatus::Submitted => "SUBMITTED"@,
            RequirementStatus::UnderReview => "UNDER_REVIEW"@,
            RequirementStatus::Sourcing => "SOURCING"@,
            RequirementStatus::Quoted => "QUOTED"@,
            RequirementStatus::Closed => "CLOSED"@,
            RequirementStatus::Cancelled => "CANCELLED"@,
        }
    }

    /// The value whose stored name is `value`, if any.
    pub open spec fn spec_parse(value: Seq<char>) -> Option<RequirementStatus> {
        if value == "SUBMITTED"@ {
            Some(RequirementStatus::Submitted)
        } else if value == "UNDER_REVIEW"@ {
            Some(RequirementStatus::UnderReview)
        } else if value == "SOURCING"@ {
            Some(RequirementStatus::Sourcing)
        } else if value == "QUOTED"@ {
            Some(RequirementStatus::Quoted)
        } else if value == "CLOSED"@ {
            Some(RequirementStatus::Closed)
        } else if value == "CANCELLED"@ {
            Some(RequirementStatus::Cancelled)
        } else {
            None
        }
    }

    pub fn as_str(self) -> (s: &'static str)
        ensures
            s@ == self.spec_as_str(),
    {
        match self {
            RequirementStatus::Submitted => "SUBMITTED",
            RequirementStatus::UnderReview => "UNDER_REVIEW",
            RequirementStatus::Sourcing => "SOURCING",
            RequirementStatus::Quoted => "QUOTED",
            RequirementStatus::Closed => "CLOSED",
            RequirementStatus::Cancelled => "CANCELLED",
        }
    }

    /// Parses a stored name; the error names the unknown value.
    pub fn parse(value: &str) -> (r: Result<RequirementStatus, String>)
        ensures
            r matches Ok(s) ==> RequirementStatus::spec_parse(value@) == Some(s),
            r matches Err(m) ==> RequirementStatus::spec_parse(value@) is None && m@ == "unknown requirement status `"@ + value@ + "`"@,
    {
        if str_eq(value, "SUBMITTED") {
            Ok(RequirementStatus::Submitted)
        } else if str_eq(value, "UNDER_REVIEW") {
            Ok(RequirementStatus::UnderReview)
        } else if str_eq(value, "SOURCING") {
            Ok(RequirementStatus::Sourcing)
        } else if str_eq(value, "QUOTED") {
            Ok(RequirementStatus::Quoted)
        } else if str_eq(value, "CLOSED") {
            Ok(RequirementStatus::Closed)
        } else if str_eq(value, "CANCELLED") {
            Ok(RequirementStatus::Cancelled)
        } else {
            Err(concat3("unknown requirement status `", value, "`"))
        }
    }
}

impl std::str::FromStr for RequirementStatus {
    type Err = String;

    fn from_str(value: &str) -> (r: Result<RequirementStatus, String>)
        ensures
            r matches Ok(s) ==> RequirementStatus::spec_parse(value@) == Some(s),
            r matches Err(m) ==> RequirementStatus::spec_parse(value@) is None && m@ == "unknown requirement status `"@
                + value@ + "`"@,
    {
        RequirementStatus::parse(value)
    }
}

/// Parsing the stored name of a requirement status gives it back.
pub proof fn requirement_status_string_round_trip(value: RequirementStatus)
    ensures
        RequirementStatus::spec_parse(value.spec_as_str()) == Some(value),
{
    reveal_strlit("SUBMITTED");
    assert("SUBMITTED"@.len() == 9 && "SUBMITTED"@[0] == 'S' && "SUBMITTED"@[1] == 'U');
    reveal_strlit("UNDER_REVIEW");
    assert("UNDER_REVIEW"@.len() == 12 && "UNDER_REVIEW"@[0] == 'U' && "UNDER_REVIEW"@[1] == 'N');
    reveal_strlit("SOURCING");
    assert("SOURCING"@.len() == 8 && "SOURCING"@[0] == 'S' && "SOURCING"@[1] == 'O');
    reveal_strlit("QUOTED");
    assert("QUOTED"@.len() == 6 && "QUOTED"@[0] == 'Q' && "QUOTED"@[1] == 'U');
    reveal_strlit("CLOSED");
    assert("CLOSED"@.len() == 6 && "CLOSED"@[0] == 'C' && "CLOSED"@[1] == 'L');
    reveal_strlit("CANCELLED");
    assert("CANCELLED"@.len() == 9 && "CANCELLED"@[0] == 'C' && "CANCELLED"@[1] == 'A');
}

} // verus!
