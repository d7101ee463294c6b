//! Quotation charge kinds.
use vstd::prelude::*;

use crate::text::{concat3, str_eq};

verus! {

/// Taxes, shipping, fees and discounts. A charge's amount is always positive;
/// the kind decides whether it adds to or subtracts from the total.
#[derive(Debug, Clone, Copy, PartialEq, Eq, Structural)]
pub enum ChargeKind {
    Tax,
    Shipping,
    Fee,
    Discount,
    Other,
}

impl ChargeKind {
    /// The stored (database and API) name.
    pub open spec fn spec_as_str(self) -> Seq<char> {
        match self {
            ChargeKind::Tax => "TAX"@,
            ChargeKind::Shipping => "SHIPPING"@,
            ChargeKind::Fee => "FEE"@,
            ChargeKind::Discount => "DISCOUNT"@,
            ChargeKind::Other => "OTHER"@,
        }
    }

    /// The value whose stored name is `value`, if any.
    pub open spec fn spec_parse(value: Seq<char>) -> Option<ChargeKind> {
        if value == "TAX"@ {
            Some(ChargeKind::Tax)
        } else if value == "SHIPPING"@ {
            Some(ChargeKind::Shipping)
        } else if value == "FEE"@ {
            Some(ChargeKind::Fee)
        } else if value == "DISCOUNT"@ {
            Some(ChargeKind::Discount)
        } else if value == "OTHER"@ {
            Some(ChargeKind::Other)
        } else {
            None
        }
    }

    pub fn as_str(self) -> (s: &'static str)
        ensures
            s@ == self.spec_as_str(),
    {
        match self {
            ChargeKind::Tax => "TAX",
            ChargeKind::Shipping => "SHIPPING",
            ChargeKind::Fee => "FEE",
            ChargeKind::Discount => "DISCOUNT",
            ChargeKind::Other => "OTHER",
        }
    }

    /// Parses a stored name; the error names the unknown value.
    pub fn parse(value: &str) -> (r: Result<ChargeKind, String>)
        ensures
            r matches Ok(s) ==> ChargeKind::spec_parse(value@) == Some(s),
            r matches Err(m) ==> ChargeKind::spec_parse(value@) is None && m@ == "unknown charge kind `"@ + value@ + "`"@,
    {
        if str_eq(value, "TAX") {
            Ok(ChargeKind::Tax)
        } else if str_eq(value, "SHIPPING") {
            Ok(ChargeKind::Shipping)
        } else if str_eq(value, "FEE") {
            Ok(ChargeKind::Fee)
        } else if str_eq(value, "DISCOUNT") {
            Ok(ChargeKind::Discount)
        } else if str_eq(value, "OTHER") {
            Ok(ChargeKind::Other)
        } else {
            Err(concat3("unknown charge kind `", value, "`"))
        }
    }
}

impl std::str::FromStr for ChargeKind {
    type Err = String;

    fn from_str(value: &str) -> (r: Result<ChargeKind, String>)
        ensures
            r matches Ok(s) ==> ChargeKind::spec_parse(value@) == Some(s),
            r matches Err(m) ==> ChargeKind::spec_parse(value@) is None && m@ == "unknown charge kind `"@
                + value@ + "`"@,
    {
        ChargeKind::parse(value)
    }
}

/// Parsing the stored name of a charge kind gives it back.
pub proof fn charge_kind_string_round_trip(value: ChargeKind)
    ensures
        ChargeKind::spec_parse(value.spec_as_str()) == Some(value),
{
    reveal_strlit("TAX");
    assert("TAX"@.len() == 3 && "TAX"@[0] == 'T' && "TAX"@[1] == 'A');
    reveal_strlit("SHIPPING");
    assert("SHIPPING"@.len() == 8 && "SHIPPING"@[0] == 'S' && "SHIPPING"@[1] == 'H');
    reveal_strlit("FEE");
    assert("FEE"@.len() == 3 && "FEE"@[0] == 'F' && "FEE"@[1] == 'E');
    reveal_strlit("DISCOUNT");
    assert("DISCOUNT"@.len() == 8 && "DISCOUNT"@[0] == 'D' && "DISCOUNT"@[1] == 'I');
    reveal_strlit("OTHER");
    assert("OTHER"@.len() == 5 && "OTHER"@[0] == 'O' && "OTHER"@[1] == 'T');
}

impl ChargeKind {
    /// Discounts are subtracted from the total; every other charge is added.
    pub open spec fn spec_is_deduction(self) -> bool {
        self == ChargeKind::Discount
    }

    pub fn is_deduction(self) -> (r: bool)
        ensures
            r == self.spec_is_deduction(),
    {
        matches!(self, ChargeKind::Discount)
    }
}

} // verus!
