//! The quotation status machine.
use vstd::prelude::*;

use crate::text::{concat3, str_eq};

verus! {

#[derive(Debug, Clone, Copy, PartialEq, Eq, Structural)]
pub enum QuotationStatus {
    Draft,
    Sent,
    Accepted,
    Rejected,
    Expired,
    Cancelled,
}

impl QuotationStatus {
    /// The stored (database and API) name.
    pub open spec fn spec_as_str(self) -> Seq<char> {
        match self {
            QuotationStatus::Draft => "DRAFT"@,
            QuotationStatus::Sent => "SENT"@,
            QuotationStatus::Accepted => "ACCEPTED"@,
            QuotationStatus::Rejected => "REJECTED"@,
            QuotationStatus::Expired => "EXPIRED"@,
            QuotationStatus::Cancelled => "CANCELLED"@,
        }
    }

    /// The value whose stored name is `value`, if any.
    pub open spec fn spec_parse(value: Seq<char>) -> Option<QuotationStatus> {
        if value == "DRAFT"@ {
            Some(QuotationStatus::Draft)
        } else if value == "SENT"@ {
            Some(QuotationStatus::Sent)
        } else if value == "ACCEPTED"@ {
            Some(QuotationStatus::Accepted)
        } else if value == "REJECTED"@ {
            Some(QuotationStatus::Rejected)
        } else if value == "EXPIRED"@ {
            Some(QuotationStatus::Expired)
        } else if value == "CANCELLED"@ {
            Some(QuotationStatus::Cancelled)
        } else {
            None
        }
    }

    pub fn as_str(self) -> (s: &'static str)
        ensures
            s@ == self.spec_as_str(),
    {
        match self {
            QuotationStatus::Draft => "DRAFT",
            QuotationStatus::Sent => "SENT",
            QuotationStatus::Accepted => "ACCEPTED",
            QuotationStatus::Rejected => "REJECTED",
            QuotationStatus::Expired => "EXPIRED",
            QuotationStatus::Cancelled => "CANCELLED",
        }
    }

    /// Parses a stored name; the error names the unknown value.
    pub fn parse(value: &str) -> (r: Result<QuotationStatus, String>)
        ensures
            r matches Ok(s) ==> QuotationStatus::spec_parse(value@) == Some(s),
            r matches Err(m) ==> QuotationStatus::spec_parse(value@) is None && m@ == "unknown quotation status `"@ + value@ + "`"@,
    {
        if str_eq(value, "DRAFT") {
            Ok(QuotationStatus::Draft)
        } else if str_eq(value, "SENT") {
            Ok(QuotationStatus::Sent)
        } else if str_eq(value, "ACCEPTED") {
            Ok(QuotationStatus::Accepted)
        } else if str_eq(value, "REJECTED") {
            Ok(QuotationStatus::Rejected)
        } else if str_eq(value, "EXPIRED") {
            Ok(QuotationStatus::Expired)
        } else if str_eq(value, "CANCELLED") {
            Ok(QuotationStatus::Cancelled)
        } else {
            Err(concat3("unknown quotation status `", value, "`"))
        }
    }
}

impl std::str::FromStr for QuotationStatus {
    type Err = String;

    fn from_str(value: &str) -> (r: Result<QuotationStatus, String>)
        ensures
            r matches Ok(s) ==> QuotationStatus::spec_parse(value@) == Some(s),
            r matches Err(m) ==> QuotationStatus::spec_parse(value@) is None && m@ == "unknown quotation status `"@
                + value@ + "`"@,
    {
        QuotationStatus::parse(value)
    }
}

/// Parsing the stored name of a quotation status gives it back.
pub proof fn quotation_status_string_round_trip(value: QuotationStatus)
    ensures
        QuotationStatus::spec_parse(value.spec_as_str()) == Some(value),
{
    reveal_strlit("DRAFT");
    assert("DRAFT"@.len() == 5 && "DRAFT"@[0] == 'D' && "DRAFT"@[1] == 'R');
    reveal_strlit("SENT");
    assert("SENT"@.len() == 4 && "SENT"@[0] == 'S' && "SENT"@[1] == 'E');
    reveal_strlit("ACCEPTED");
    assert("ACCEPTED"@.len() == 8 && "ACCEPTED"@[0] == 'A' && "ACCEPTED"@[1] == 'C');
    reveal_strlit("REJECTED");
    assert("REJECTED"@.len() == 8 && "REJECTED"@[0] == 'R' && "REJECTED"@[1] == 'E');
    reveal_strlit("EXPIRED");
    assert("EXPIRED"@.len() == 7 && "EXPIRED"@[0] == 'E' && "EXPIRED"@[1] == 'X');
    reveal_strlit("CANCELLED");
    assert("CANCELLED"@.len() == 9 && "CANCELLED"@[0] == 'C' && "CANCELLED"@[1] == 'A');
}

impl QuotationStatus {
    /// ```text
    /// DRAFT ─► SENT ─► ACCEPTED
    ///   │        ├───► REJECTED
    ///   │        ├───► EXPIRED
    ///   └────────┴───► CANCELLED
    /// ```
    pub open spec fn spec_can_transition_to(self, next: QuotationStatus) -> bool {
        match (self, next) {
            (QuotationStatus::Draft, QuotationStatus::Sent) => true,
            (QuotationStatus::Draft, QuotationStatus::Cancelled) => true,
            (QuotationStatus::Sent, QuotationStatus::Accepted) => true,
            (QuotationStatus::Sent, QuotationStatus::Rejected) => true,
            (QuotationStatus::Sent, QuotationStatus::Expired) => true,
            (QuotationStatus::Sent, QuotationStatus::Cancelled) => true,
            _ => false,
        }
    }

    pub open spec fn spec_is_terminal(self) -> bool {
        self == QuotationStatus::Accepted || self == QuotationStatus::Rejected || self
            == QuotationStatus::Expired || self == QuotationStatus::Cancelled
    }

    pub fn can_transition_to(self, next: QuotationStatus) -> (r: bool)
        ensures
            r == self.spec_can_transition_to(next),
    {
        matches!(
            (self, next),
            (QuotationStatus::Draft, QuotationStatus::Sent) | (
                QuotationStatus::Draft,
                QuotationStatus::Cancelled,
            ) | (QuotationStatus::Sent, QuotationStatus::Accepted) | (
                QuotationStatus::Sent,
                QuotationStatus::Rejected,
            ) | (QuotationStatus::Sent, QuotationStatus::Expired) | (
                QuotationStatus::Sent,
                QuotationStatus::Cancelled,
            )
        )
    }

    pub fn is_terminal(self) -> (r: bool)
        ensures
            r == self.spec_is_terminal(),
    {
        matches!(
            self,
            QuotationStatus::Accepted | QuotationStatus::Rejected | QuotationStatus::Expired
                | QuotationStatus::Cancelled
        )
    }
}

/// A quotation status is terminal exactly when no change leads out of it.
pub proof fn quotation_terminal_iff_no_transitions(status: QuotationStatus)
    ensures
        status.spec_is_terminal() <==> (forall|next: QuotationStatus|
            !#[trigger] status.spec_can_transition_to(next)),
{
    if !status.spec_is_terminal() {
        if status == QuotationStatus::Draft {
            assert(status.spec_can_transition_to(QuotationStatus::Sent));
        } else {
            assert(status.spec_can_transition_to(QuotationStatus::Accepted));
        }
    }
}

/// Only a SENT quotation can be accepted (a draft must be sent first).
pub proof fn quotation_accepted_only_from_sent(status: QuotationStatus)
    ensures
        status.spec_can_transition_to(QuotationStatus::Accepted) <==> status == QuotationStatus::Sent,
{
}

/// The quotation changes are exactly: DRAFT→SENT, DRAFT→CANCELLED, and from
/// SENT to ACCEPTED, REJECTED, EXPIRED or CANCELLED.
pub proof fn quotation_transitions_are_the_life_cycle_edges(from: QuotationStatus, to: QuotationStatus)
    ensures
        from.spec_can_transition_to(to) <==> {
            ||| from == QuotationStatus::Draft && (to == QuotationStatus::Sent || to
                == QuotationStatus::Cancelled)
            ||| from == QuotationStatus::Sent && (to == QuotationStatus::Accepted || to
                == QuotationStatus::Rejected || to == QuotationStatus::Expired || to
                == QuotationStatus::Cancelled)
        },
        from.spec_is_terminal() <==> (from == QuotationStatus::Accepted || from
            == QuotationStatus::Rejected || from == QuotationStatus::Expired || from
            == QuotationStatus::Cancelled),
{
}

} // verus!
