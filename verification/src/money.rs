//! Currencies and amounts of money.
use vstd::prelude::*;

use crate::decimal::DecimalValue;
use crate::text::{chars_of, concat3};

verus! {

/// `s` has the shape of an ISO 4217 alphabetic code: three letters `A`-`Z`.
pub open spec fn is_currency_code(s: Seq<char>) -> bool {
    s.len() == 3 && forall|i: int|
        0 <= i < 3 ==> 65 <= (#[trigger] s[i] as u32) && (s[i] as u32) <= 90
}

/// The message refusing `value` as a currency.
pub open spec fn unknown_currency(value: Seq<char>) -> Seq<char> {
    "unknown currency `"@ + value + "`"@
}

/// A currency, named by its ISO 4217 code.
pub struct Currency {
    code: String,
}

impl View for Currency {
    type V = Seq<char>;

    closed spec fn view(&self) -> Seq<char> {
        self.code@
    }
}

impl Currency {
    #[verifier::type_invariant]
    closed spec fn holds_a_code(self) -> bool {
        is_currency_code(self.code@)
    }

    /// The currency whose code is `value`; anything that is not a currency
    /// code is refused.
    pub fn parse(value: &str) -> (r: Result<Currency, String>)
        ensures
            r is Ok <==> is_currency_code(value@),
            r matches Ok(c) ==> c@ == value@,
            r matches Err(m) ==> m@ == unknown_currency(value@),
    {
        let v = chars_of(value);
        let mut ok = v.len() == 3;
        let mut i: usize = 0;
        while i < v.len()
            invariant
                i <= v.len(),
                v@ == value@,
                ok == (v.len() == 3 && forall|j: int|
                    0 <= j < i ==> 65 <= (#[trigger] v@[j] as u32) && (v@[j] as u32) <= 90),
            decreases v.len() - i,
        {
            let c = v[i] as u32;
            ok = ok && 65 <= c && c <= 90;
            i += 1;
        }
        if ok {
            Ok(Currency { code: value.to_owned() })
        } else {
            Err(concat3("unknown currency `", value, "`"))
        }
    }

    /// The currency's code, three letters `A`-`Z`.
    pub fn as_str(&self) -> (r: &str)
        ensures
            r@ == self@,
            is_currency_code(r@),
    {
        proof {
            use_type_invariant(self);
        }
        self.code.as_str()
    }

    /// The same currency.
    pub fn copy(&self) -> (r: Currency)
        ensures
            r@ == self@,
    {
        proof {
            use_type_invariant(self);
        }
        Currency { code: self.code.clone() }
    }
}

/// An amount in a currency.
pub struct Money {
    pub amount: DecimalValue,
    pub currency: Currency,
}

} // verus!
