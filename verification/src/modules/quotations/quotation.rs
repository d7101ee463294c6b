//! The quotation entity, its totals and its life-cycle rules (send, accept,
//! reject, expiry).
//!
//! Instants are microseconds since the Unix epoch (UTC). Amounts are decimal
//! values in the quotation's currency.
use vstd::prelude::*;

use super::charges::ChargeKind;
use super::errors::{MoneyError, QuotationError};
use super::status::QuotationStatus;
use crate::decimal::{
    checked_add, checked_mul, checked_sub, decimal_checked_add, decimal_checked_mul,
    decimal_checked_sub, decimal_round_dp, is_exact_sum, round_dp, spec_zero, sum_fits,
    DecimalValue,
};
use crate::ids::{CustomerId, OrderId, QuotationId, SupplierId, UserId};
use crate::money::Currency;
use crate::modules::orders::create::{NewOrderFromQuotation, NewOrderItem};

verus! {

/// Amounts are kept in minor units of the currency: two decimal places.
pub const MINOR_UNIT_PLACES: u32 = 2;

/// The error of a monetary computation that left the range of `Decimal`.
pub open spec fn overflow() -> QuotationError {
    QuotationError::Money(MoneyError::Overflow)
}

pub struct QuotationItem {
    pub line_number: i32,
    pub product_id: Option<u128>,
    pub supplier_id: Option<SupplierId>,
    pub description: String,
    pub quantity: DecimalValue,
    pub unit_of_measure: String,
    pub unit_price: DecimalValue,
}

impl QuotationItem {
    /// Unit price times quantity, rounded to minor units.
    pub open spec fn spec_line_total(self) -> Result<DecimalValue, QuotationError> {
        match decimal_checked_mul(self.unit_price, self.quantity) {
            Some(product) => Ok(decimal_round_dp(product, MINOR_UNIT_PLACES)),
            None => Err(overflow()),
        }
    }

    pub fn line_total(&self) -> (r: Result<DecimalValue, QuotationError>)
        ensures
            r == self.spec_line_total(),
    {
        match checked_mul(self.unit_price, self.quantity) {
            Some(product) => Ok(round_dp(product, MINOR_UNIT_PLACES)),
            None => Err(QuotationError::Money(MoneyError::Overflow)),
        }
    }
}

/// Taxes, shipping, fees and discounts. `amount` is always positive; the kind
/// decides whether it adds to or subtracts from the total.
pub struct QuotationCharge {
    pub kind: ChargeKind,
    pub description: String,
    pub amount: DecimalValue,
}

#[derive(Debug, Clone, Copy, PartialEq, Eq, Structural)]
pub struct QuotationTotals {
    pub subtotal: DecimalValue,
    /// Net of discounts; may be negative.
    pub charges_total: DecimalValue,
    pub grand_total: DecimalValue,
}

/// The line totals of `items`, in order, or the error of the first line whose
/// total cannot be computed.
pub open spec fn spec_line_totals(items: Seq<QuotationItem>) -> Result<Seq<DecimalValue>, QuotationError>
    decreases items.len(),
{
    if items.len() == 0 {
        Ok(Seq::empty())
    } else {
        match spec_line_totals(items.drop_last()) {
            Err(e) => Err(e),
            Ok(totals) => match items.last().spec_line_total() {
                Err(e) => Err(e),
                Ok(t) => Ok(totals.push(t)),
            },
        }
    }
}

/// The sum of `amounts` from zero, left to right, with `Decimal` addition;
/// `None` when an addition fails.
pub open spec fn spec_sum(amounts: Seq<DecimalValue>) -> Option<DecimalValue>
    decreases amounts.len(),
{
    if amounts.len() == 0 {
        Some(spec_zero())
    } else {
        match spec_sum(amounts.drop_last()) {
            Some(acc) => decimal_checked_add(acc, amounts.last()),
            None => None,
        }
    }
}

/// The signed sum of `charges` from zero, left to right: a discount is
/// subtracted, every other charge added; `None` when a step fails.
pub open spec fn spec_charges_total(charges: Seq<QuotationCharge>) -> Option<DecimalValue>
    decreases charges.len(),
{
    if charges.len() == 0 {
        Some(spec_zero())
    } else {
        match spec_charges_total(charges.drop_last()) {
            Some(acc) => if charges.last().kind.spec_is_deduction() {
                decimal_checked_sub(acc, charges.last().amount)
            } else {
                decimal_checked_add(acc, charges.last().amount)
            },
            None => None,
        }
    }
}

proof fn lemma_line_totals_ok(items: Seq<QuotationItem>, i: int)
    requires
        spec_line_totals(items) is Ok,
        0 <= i < items.len(),
    ensures
        items[i].spec_line_total() is Ok,
        spec_line_totals(items)->Ok_0.len() == items.len(),
        spec_line_totals(items)->Ok_0[i] == items[i].spec_line_total()->Ok_0,
    decreases items.len(),
{
    if i < items.len() - 1 {
        lemma_line_totals_ok(items.drop_last(), i);
    } else if items.len() > 1 {
        lemma_line_totals_ok(items.drop_last(), 0);
    } else {
        assert(items.drop_last().len() == 0);
    }
}

fn line_totals(items: &Vec<QuotationItem>) -> (r: Result<Vec<DecimalValue>, QuotationError>)
    ensures
        match (r, spec_line_totals(items@)) {
            (Ok(v), Ok(s)) => v@ == s,
            (Err(e), Err(f)) => e == f,
            _ => false,
        },
{
    let mut acc: Result<Vec<DecimalValue>, QuotationError> = Ok(Vec::new());
    let mut i: usize = 0;
    assert(items@.take(0) =~= Seq::<QuotationItem>::empty());
    while i < items.len()
        invariant
            i <= items.len(),
            match (acc, spec_line_totals(items@.take(i as int))) {
                (Ok(v), Ok(s)) => v@ == s,
                (Err(e), Err(f)) => e == f,
                _ => false,
            },
        decreases items.len() - i,
    {
        assert(items@.take(i + 1).drop_last() =~= items@.take(i as int));
        assert(items@.take(i + 1).last() == items@[i as int]);
        acc = match acc {
            Ok(mut v) => match items[i].line_total() {
                Ok(t) => {
                    v.push(t);
                    Ok(v)
                },
                Err(e) => Err(e),
            },
            Err(e) => Err(e),
        };
        i += 1;
    }
    assert(items@.take(items.len() as int) =~= items@);
    acc
}

fn sum_amounts(amounts: &Vec<DecimalValue>) -> (r: Option<DecimalValue>)
    ensures
        r == spec_sum(amounts@),
        r matches Some(x) ==> x.is_valid(),
{
    let mut acc: Option<DecimalValue> = Some(DecimalValue { mantissa: 0, scale: 0 });
    let mut i: usize = 0;
    assert(amounts@.take(0) =~= Seq::<DecimalValue>::empty());
    while i < amounts.len()
        invariant
            i <= amounts.len(),
            acc == spec_sum(amounts@.take(i as int)),
            acc matches Some(x) ==> x.is_valid(),
        decreases amounts.len() - i,
    {
        assert(amounts@.take(i + 1).drop_last() =~= amounts@.take(i as int));
        assert(amounts@.take(i + 1).last() == amounts@[i as int]);
        acc = match acc {
            Some(a) => checked_add(a, amounts[i]),
            None => None,
        };
        i += 1;
    }
    assert(amounts@.take(amounts.len() as int) =~= amounts@);
    acc
}

fn charges_total(charges: &Vec<QuotationCharge>) -> (r: Option<DecimalValue>)
    ensures
        r == spec_charges_total(charges@),
        r matches Some(x) ==> x.is_valid(),
{
    let mut acc: Option<DecimalValue> = Some(DecimalValue { mantissa: 0, scale: 0 });
    let mut i: usize = 0;
    assert(charges@.take(0) =~= Seq::<QuotationCharge>::empty());
    while i < charges.len()
        invariant
            i <= charges.len(),
            acc == spec_charges_total(charges@.take(i as int)),
            acc matches Some(x) ==> x.is_valid(),
        decreases charges.len() - i,
    {
        assert(charges@.take(i + 1).drop_last() =~= charges@.take(i as int));
        assert(charges@.take(i + 1).last() == charges@[i as int]);
        let charge = &charges[i];
        acc = match acc {
            Some(a) => if charge.kind.is_deduction() {
                checked_sub(a, charge.amount)
            } else {
                checked_add(a, charge.amount)
            },
            None => None,
        };
        i += 1;
    }
    assert(charges@.take(charges.len() as int) =~= charges@);
    acc
}

pub struct Quotation {
    pub id: QuotationId,
    pub quotation_number: String,
    pub customer_id: CustomerId,
    pub requirement_id: Option<u128>,
    /// The currency of every amount.
    pub currency: Currency,
    pub status: QuotationStatus,
    pub items: Vec<QuotationItem>,
    pub charges: Vec<QuotationCharge>,
    pub valid_until: Option<i64>,
    pub sent_at: Option<i64>,
    pub responded_at: Option<i64>,
    pub rejection_reason: Option<String>,
    /// Optimistic-concurrency version as loaded from the database.
    pub version: i32,
}

impl Quotation {
    /// The totals derived from the lines and charges: the sum of the line
    /// totals, the signed sum of the charges and their sum, refused when any
    /// step fails or the grand total is below zero.
    pub open spec fn spec_totals(&self) -> Result<QuotationTotals, QuotationError> {
        match spec_line_totals(self.items@) {
            Err(e) => Err(e),
            Ok(lines) => match spec_sum(lines) {
                None => Err(overflow()),
                Some(subtotal) => match spec_charges_total(self.charges@) {
                    None => Err(overflow()),
                    Some(charges_total) => match decimal_checked_add(subtotal, charges_total) {
                        None => Err(overflow()),
                        Some(grand_total) => if grand_total.spec_is_negative() {
                            Err(QuotationError::NegativeTotal)
                        } else {
                            Ok(QuotationTotals { subtotal, charges_total, grand_total })
                        },
                    },
                },
            },
        }
    }

    /// Totals are always derived from lines and charges, never trusted from
    /// input. When the subtotal and the charges total fit side by side, the
    /// grand total is exactly their sum.
    pub fn totals(&self) -> (r: Result<QuotationTotals, QuotationError>)
        ensures
            r == self.spec_totals(),
            r matches Ok(t) ==> (sum_fits(t.subtotal, t.charges_total, 1) ==> is_exact_sum(
                t.grand_total,
                t.subtotal,
                t.charges_total,
                1,
            )),
    {
        let lines = line_totals(&self.items)?;
        let subtotal = match sum_amounts(&lines) {
            Some(s) => s,
            None => {
                return Err(QuotationError::Money(MoneyError::Overflow));
            },
        };
        let charges = match charges_total(&self.charges) {
            Some(c) => c,
            None => {
                return Err(QuotationError::Money(MoneyError::Overflow));
            },
        };
        let grand_total = match checked_add(subtotal, charges) {
            Some(g) => g,
            None => {
                return Err(QuotationError::Money(MoneyError::Overflow));
            },
        };
        if grand_total.is_negative() {
            return Err(QuotationError::NegativeTotal);
        }
        Ok(QuotationTotals { subtotal, charges_total: charges, grand_total })
    }

    /// The quotation's validity ended at or before `now`.
    pub open spec fn spec_is_expired_at(&self, now: i64) -> bool {
        match self.valid_until {
            Some(valid_until) => valid_until <= now,
            None => false,
        }
    }

    /// Why `send` refuses, checked in this order; `None` when it succeeds.
    pub open spec fn spec_send_refusal(&self, now: i64, valid_until: i64) -> Option<QuotationError> {
        if !self.status.spec_can_transition_to(QuotationStatus::Sent) {
            Some(QuotationError::InvalidTransition { from: self.status, to: QuotationStatus::Sent })
        } else if self.items@.len() == 0 {
            Some(QuotationError::NoItems)
        } else if valid_until <= now {
            Some(QuotationError::InvalidValidity)
        } else {
            match self.spec_totals() {
                Err(e) => Some(e),
                Ok(_) => None,
            }
        }
    }

    /// Why `accept` refuses, checked in this order; `None` when it succeeds.
    pub open spec fn spec_accept_refusal(&self, now: i64) -> Option<QuotationError> {
        if !self.status.spec_can_transition_to(QuotationStatus::Accepted) {
            Some(
                QuotationError::InvalidTransition {
                    from: self.status,
                    to: QuotationStatus::Accepted,
                },
            )
        } else if self.spec_is_expired_at(now) {
            Some(QuotationError::Expired)
        } else {
            None
        }
    }

    pub fn is_expired_at(&self, now: i64) -> (r: bool)
        ensures
            r == self.spec_is_expired_at(now),
    {
        match self.valid_until {
            Some(valid_until) => valid_until <= now,
            None => false,
        }
    }

    fn ensure_transition(&self, next: QuotationStatus) -> (r: Result<(), QuotationError>)
        ensures
            r is Ok <==> self.status.spec_can_transition_to(next),
            r matches Err(e) ==> e == (QuotationError::InvalidTransition {
                from: self.status,
                to: next,
            }),
    {
        if self.status.can_transition_to(next) {
            Ok(())
        } else {
            Err(QuotationError::InvalidTransition { from: self.status, to: next })
        }
    }

    /// Sends a draft quotation, valid until `valid_until`. A quotation without
    /// lines, with a validity that is not in the future, or whose totals cannot
    /// be computed or are negative is refused. On refusal nothing changes.
    pub fn send(&mut self, now: i64, valid_until: i64) -> (r: Result<(), QuotationError>)
        ensures
            match old(self).spec_send_refusal(now, valid_until) {
                Some(e) => r == Err::<(), QuotationError>(e) && *final(self) == *old(self),
                None => r is Ok && *final(self) == (Quotation {
                    status: QuotationStatus::Sent,
                    sent_at: Some(now),
                    valid_until: Some(valid_until),
                    ..*old(self)
                }),
            },
    {
        self.ensure_transition(QuotationStatus::Sent)?;
        if self.items.len() == 0 {
            return Err(QuotationError::NoItems);
        }
        if valid_until <= now {
            return Err(QuotationError::InvalidValidity);
        }
        self.totals()?;
        self.status = QuotationStatus::Sent;
        self.sent_at = Some(now);
        self.valid_until = Some(valid_until);
        Ok(())
    }

    /// Business rule: a quotation can be accepted only while SENT and not past
    /// validity. On refusal nothing changes.
    pub fn accept(&mut self, now: i64) -> (r: Result<(), QuotationError>)
        ensures
            match old(self).spec_accept_refusal(now) {
                Some(e) => r == Err::<(), QuotationError>(e) && *final(self) == *old(self),
                None => r is Ok && *final(self) == (Quotation {
                    status: QuotationStatus::Accepted,
                    responded_at: Some(now),
                    ..*old(self)
                }),
            },
    {
        self.ensure_transition(QuotationStatus::Accepted)?;
        if self.is_expired_at(now) {
            return Err(QuotationError::Expired);
        }
        self.status = QuotationStatus::Accepted;
        self.responded_at = Some(now);
        Ok(())
    }

    /// Rejects a sent quotation, recording the optional reason.
    pub fn reject(&mut self, now: i64, reason: Option<String>) -> (r: Result<(), QuotationError>)
        ensures
            old(self).status.spec_can_transition_to(QuotationStatus::Rejected) ==> r is Ok
                && *final(self) == (Quotation {
                status: QuotationStatus::Rejected,
                responded_at: Some(now),
                rejection_reason: reason,
                ..*old(self)
            }),
            !old(self).status.spec_can_transition_to(QuotationStatus::Rejected) ==> r
                == Err::<(), QuotationError>(
                QuotationError::InvalidTransition {
                    from: old(self).status,
                    to: QuotationStatus::Rejected,
                },
            ) && *final(self) == *old(self),
    {
        self.ensure_transition(QuotationStatus::Rejected)?;
        self.status = QuotationStatus::Rejected;
        self.responded_at = Some(now);
        self.rejection_reason = reason;
        Ok(())
    }

    /// Acceptance by the customer owning `customer_id`. A quotation of another
    /// customer is reported as not found, so that quotation IDs cannot be probed.
    pub fn accept_for_customer(&mut self, customer_id: CustomerId, now: i64) -> (r: Result<
        (),
        QuotationError,
    >)
        ensures
            old(self).customer_id != customer_id ==> r == Err::<(), QuotationError>(
                QuotationError::NotFound,
            ) && *final(self) == *old(self),
            old(self).customer_id == customer_id ==> match old(self).spec_accept_refusal(now) {
                Some(e) => r == Err::<(), QuotationError>(e) && *final(self) == *old(self),
                None => r is Ok && *final(self) == (Quotation {
                    status: QuotationStatus::Accepted,
                    responded_at: Some(now),
                    ..*old(self)
                }),
            },
    {
        if self.customer_id != customer_id {
            return Err(QuotationError::NotFound);
        }
        self.accept(now)
    }
}

/// `line` is the order's copy of the quotation line `item`, with its line total.
pub open spec fn copies_line(line: NewOrderItem, item: QuotationItem) -> bool {
    &&& line.line_number == item.line_number
    &&& line.product_id == item.product_id
    &&& line.supplier_id == item.supplier_id
    &&& line.description@ == item.description@
    &&& line.quantity == item.quantity
    &&& line.unit_of_measure@ == item.unit_of_measure@
    &&& line.unit_price == item.unit_price
    &&& item.spec_line_total() == Ok::<DecimalValue, QuotationError>(line.line_total)
}

/// The order placed by `created_by` accepting `quotation`: a copy of its lines
/// with their line totals, and its totals; refused when the totals are.
pub fn order_input(quotation: &Quotation, created_by: UserId) -> (r: Result<
    NewOrderFromQuotation,
    QuotationError,
>)
    ensures
        match quotation.spec_totals() {
            Err(e) => r matches Err(f) && f == e,
            Ok(t) => r matches Ok(o) && o.customer_id == quotation.customer_id && o.quotation_id
                == quotation.id.0 && o.currency@ == quotation.currency@ && o.subtotal == t.subtotal
                && o.charges_total == t.charges_total && o.grand_total == t.grand_total
                && o.created_by == created_by && o.items@.len() == quotation.items@.len() && forall|
                i: int,
            |
                0 <= i < o.items@.len() ==> copies_line(#[trigger] o.items@[i], quotation.items@[i]),
        },
{
    let totals = quotation.totals()?;
    let mut items: Vec<NewOrderItem> = Vec::new();
    let mut i: usize = 0;
    while i < quotation.items.len()
        invariant
            i <= quotation.items.len(),
            spec_line_totals(quotation.items@) is Ok,
            items@.len() == i,
            forall|j: int| 0 <= j < i ==> copies_line(#[trigger] items@[j], quotation.items@[j]),
        decreases quotation.items.len() - i,
    {
        let item = &quotation.items[i];
        proof {
            lemma_line_totals_ok(quotation.items@, i as int);
        }
        let line_total = match item.line_total() {
            Ok(t) => t,
            Err(e) => {
                return Err(e);
            },
        };
        items.push(
            NewOrderItem {
                line_number: item.line_number,
                product_id: item.product_id,
                supplier_id: item.supplier_id,
                description: item.description.clone(),
                quantity: item.quantity,
                unit_of_measure: item.unit_of_measure.clone(),
                unit_price: item.unit_price,
                line_total,
            },
        );
        i += 1;
    }
    Ok(
        NewOrderFromQuotation {
            customer_id: quotation.customer_id,
            quotation_id: quotation.id.0,
            currency: quotation.currency.copy(),
            subtotal: totals.subtotal,
            charges_total: totals.charges_total,
            grand_total: totals.grand_total,
            items,
            created_by,
        },
    )
}

/// Result of accepting a quotation: the quotation and the order created from it.
#[derive(Debug, Clone, Copy, PartialEq, Eq, Structural)]
pub struct AcceptedQuotation {
    pub quotation_id: QuotationId,
    pub order_id: OrderId,
}

/// Body of the `201 Created` answer to `POST /quotations/{id}/accept`.
#[derive(Debug, Clone, Copy, PartialEq, Eq, Structural)]
pub struct AcceptQuotationResponse {
    pub quotation_id: QuotationId,
    pub order_id: OrderId,
}

/// Persisting a status change succeeds only when no other request changed the
/// row first (optimistic concurrency on `version`).
pub fn check_version_update(updated: bool) -> (r: Result<(), QuotationError>)
    ensures
        updated ==> r is Ok,
        !updated ==> r == Err::<(), QuotationError>(QuotationError::ConcurrentModification),
{
    if updated {
        Ok(())
    } else {
        Err(QuotationError::ConcurrentModification)
    }
}

/// A quotation sent at `now` and valid until `valid_until` can be accepted at
/// any instant before `valid_until`, and from `valid_until` on it is expired.
pub proof fn sent_quotation_acceptable_exactly_until_validity(
    q: Quotation,
    now: i64,
    valid_until: i64,
    at: i64,
)
    requires
        q.spec_send_refusal(now, valid_until) is None,
    ensures
        ({
            let sent = Quotation {
                status: QuotationStatus::Sent,
                sent_at: Some(now),
                valid_until: Some(valid_until),
                ..q
            };
            &&& at < valid_until ==> sent.spec_accept_refusal(at) is None
            &&& at >= valid_until ==> sent.spec_accept_refusal(at) == Some(QuotationError::Expired)
        }),
{
}

/// Only a discount lowers the charges total: each further charge subtracts its
/// amount when it is a discount, and adds it when it is a tax, shipping, a fee
/// or any other charge. With no charges the total is zero.
pub proof fn charges_add_except_discounts(charges: Seq<QuotationCharge>, charge: QuotationCharge)
    ensures
        spec_charges_total(Seq::empty()) == Some(DecimalValue { mantissa: 0, scale: 0 }),
        charge.kind == ChargeKind::Discount ==> spec_charges_total(charges.push(charge)) == match spec_charges_total(charges) {
            Some(acc) => decimal_checked_sub(acc, charge.amount),
            None => None::<DecimalValue>,
        },
        (charge.kind == ChargeKind::Tax || charge.kind == ChargeKind::Shipping || charge.kind
            == ChargeKind::Fee || charge.kind == ChargeKind::Other) ==> spec_charges_total(
            charges.push(charge),
        ) == match spec_charges_total(charges) {
            Some(acc) => decimal_checked_add(acc, charge.amount),
            None => None::<DecimalValue>,
        },
{
    assert(charges.push(charge).drop_last() =~= charges);
}

/// The subtotal adds the line totals one after the other, starting at zero.
pub proof fn subtotal_adds_every_line(amounts: Seq<DecimalValue>, line: DecimalValue)
    ensures
        spec_sum(Seq::empty()) == Some(DecimalValue { mantissa: 0, scale: 0 }),
        spec_sum(amounts.push(line)) == match spec_sum(amounts) {
            Some(acc) => decimal_checked_add(acc, line),
            None => None::<DecimalValue>,
        },
{
    assert(amounts.push(line).drop_last() =~= amounts);
}

/// A quotation can be sent only with lines and with totals, derived from its
/// own lines and charges, whose grand total is not negative.
pub proof fn sent_quotation_has_its_own_totals(q: Quotation, now: i64, valid_until: i64)
    requires
        q.spec_send_refusal(now, valid_until) is None,
    ensures
        q.items@.len() > 0,
        q.spec_totals() matches Ok(t) && !t.grand_total.spec_is_negative(),
{
}

/// An accepted quotation stays accepted: no later change is possible.
pub proof fn accepted_quotation_is_final(q: Quotation, now: i64)
    requires
        q.status == QuotationStatus::Accepted,
    ensures
        q.spec_accept_refusal(now) is Some,
        q.spec_send_refusal(now, now) is Some,
        !q.status.spec_can_transition_to(QuotationStatus::Rejected),
{
}

} // verus!
