//! Decoding of stored quotations. The rows are read by the application under
//! a row lock; turning them into a `Quotation` is decided here.
use vstd::prelude::*;

use super::charges::ChargeKind;
use super::quotation::{Quotation, QuotationCharge, QuotationItem};
use super::status::QuotationStatus;
use crate::decimal::DecimalValue;
use crate::ids::{CustomerId, QuotationId, SupplierId};
use crate::money::{is_currency_code, unknown_currency, Currency};

verus! {

/// A row of `quotations`: currency and status as stored text, instants in microseconds
/// since the Unix epoch.
pub struct QuotationRow {
    pub id: QuotationId,
    pub quotation_number: String,
    pub customer_id: CustomerId,
    pub requirement_id: Option<u128>,
    pub currency: String,
    pub status: String,
    pub valid_until: Option<i64>,
    pub sent_at: Option<i64>,
    pub responded_at: Option<i64>,
    pub rejection_reason: Option<String>,
    pub version: i32,
}

/// A row of `quotation_items`.
pub struct QuotationItemRow {
    pub line_number: i32,
    pub product_id: Option<u128>,
    pub supplier_id: Option<SupplierId>,
    pub description: String,
    pub quantity: DecimalValue,
    pub unit_of_measure: String,
    pub unit_price: DecimalValue,
}

/// A row of `quotation_charges`: the kind as stored text.
pub struct QuotationChargeRow {
    pub kind: String,
    pub description: String,
    pub amount: DecimalValue,
}

/// The kinds of `rows`, in order, or the message naming the first unknown one.
pub open spec fn spec_charge_kinds(rows: Seq<QuotationChargeRow>) -> Result<Seq<ChargeKind>, Seq<char>>
    decreases rows.len(),
{
    if rows.len() == 0 {
        Ok(Seq::empty())
    } else {
        match spec_charge_kinds(rows.drop_last()) {
            Err(m) => Err(m),
            Ok(kinds) => match ChargeKind::spec_parse(rows.last().kind@) {
                Some(k) => Ok(kinds.push(k)),
                None => Err("unknown charge kind `"@ + rows.last().kind@ + "`"@),
            },
        }
    }
}

/// `item` is the line that `row` stores.
pub open spec fn decodes_item(item: QuotationItem, row: QuotationItemRow) -> bool {
    &&& item.line_number == row.line_number
    &&& item.product_id == row.product_id
    &&& item.supplier_id == row.supplier_id
    &&& item.description@ == row.description@
    &&& item.quantity == row.quantity
    &&& item.unit_of_measure@ == row.unit_of_measure@
    &&& item.unit_price == row.unit_price
}

/// `q` holds the header fields that `row` stores, with `status`.
pub open spec fn decodes_header(q: Quotation, row: QuotationRow, status: QuotationStatus) -> bool {
    &&& q.id == row.id
    &&& q.quotation_number@ == row.quotation_number@
    &&& q.customer_id == row.customer_id
    &&& q.requirement_id == row.requirement_id
    &&& q.currency@ == row.currency@
    &&& q.status == status
    &&& q.valid_until == row.valid_until
    &&& q.sent_at == row.sent_at
    &&& q.responded_at == row.responded_at
    &&& match (q.rejection_reason, row.rejection_reason) {
        (Some(a), Some(b)) => a@ == b@,
        (None, None) => true,
        _ => false,
    }
    &&& q.version == row.version
}

fn copy_items(rows: &Vec<QuotationItemRow>) -> (r: Vec<QuotationItem>)
    ensures
        r@.len() == rows@.len(),
        forall|i: int| 0 <= i < r@.len() ==> decodes_item(#[trigger] r@[i], rows@[i]),
{
    let mut items: Vec<QuotationItem> = Vec::new();
    let mut i: usize = 0;
    while i < rows.len()
        invariant
            i <= rows.len(),
            items@.len() == i,
            forall|j: int| 0 <= j < i ==> decodes_item(#[trigger] items@[j], rows@[j]),
        decreases rows.len() - i,
    {
        let row = &rows[i];
        items.push(
            QuotationItem {
                line_number: row.line_number,
                product_id: row.product_id,
                supplier_id: row.supplier_id,
                description: row.description.clone(),
                quantity: row.quantity,
                unit_of_measure: row.unit_of_measure.clone(),
                unit_price: row.unit_price,
            },
        );
        i += 1;
    }
    items
}

fn decode_charges(rows: &Vec<QuotationChargeRow>) -> (r: Result<Vec<QuotationCharge>, String>)
    ensures
        match (r, spec_charge_kinds(rows@)) {
            (Ok(v), Ok(kinds)) => v@.len() == rows@.len() && forall|i: int|
                0 <= i < v@.len() ==> (#[trigger] v@[i]).kind == kinds[i] && v@[i].description@
                    == rows@[i].description@ && v@[i].amount == rows@[i].amount,
            (Err(m), Err(n)) => m@ == n,
            _ => false,
        },
{
    let mut charges: Vec<QuotationCharge> = Vec::new();
    let mut i: usize = 0;
    assert(rows@.take(0) =~= Seq::<QuotationChargeRow>::empty());
    while i < rows.len()
        invariant
            i <= rows.len(),
            spec_charge_kinds(rows@.take(i as int)) matches Ok(kinds) && kinds.len() == i
                && charges@.len() == i && forall|j: int|
                0 <= j < i ==> (#[trigger] charges@[j]).kind == kinds[j] && charges@[j].description@
                    == rows@[j].description@ && charges@[j].amount == rows@[j].amount,
        decreases rows.len() - i,
    {
        let row = &rows[i];
        assert(rows@.take(i + 1).drop_last() =~= rows@.take(i as int));
        assert(rows@.take(i + 1).last() == rows@[i as int]);
        let kind = match ChargeKind::parse(row.kind.as_str()) {
            Ok(k) => k,
            Err(m) => {
                proof {
                    lemma_charge_kinds_err_stays(rows@, i + 1);
                }
                return Err(m);
            },
        };
        let ghost before = spec_charge_kinds(rows@.take(i as int))->Ok_0;
        charges.push(
            QuotationCharge { kind, description: row.description.clone(), amount: row.amount },
        );
        proof {
            let after = spec_charge_kinds(rows@.take(i + 1))->Ok_0;
            assert(after == before.push(kind));
            assert forall|j: int| 0 <= j < i + 1 implies (#[trigger] charges@[j]).kind == after[j]
                && charges@[j].description@ == rows@[j].description@ && charges@[j].amount
                == rows@[j].amount by {
                if j < i {
                    assert(after[j] == before[j]);
                }
            }
        }
        i += 1;
    }
    assert(rows@.take(rows.len() as int) =~= rows@);
    Ok(charges)
}

proof fn lemma_charge_kinds_err_stays(rows: Seq<QuotationChargeRow>, k: int)
    requires
        0 <= k <= rows.len(),
        spec_charge_kinds(rows.take(k)) is Err,
    ensures
        spec_charge_kinds(rows) == spec_charge_kinds(rows.take(k)),
    decreases rows.len() - k,
{
    if k < rows.len() {
        assert(rows.take(k + 1).drop_last() =~= rows.take(k));
        lemma_charge_kinds_err_stays(rows, k + 1);
    } else {
        assert(rows.take(k) =~= rows);
    }
}

/// Builds the quotation stored in `row`, `items` and `charges`; an unknown
/// currency, status or charge kind is reported with the parser's message
/// (currency first, then status, then the charges in order).
pub fn quotation_from_rows(
    row: QuotationRow,
    items: Vec<QuotationItemRow>,
    charges: Vec<QuotationChargeRow>,
) -> (r: Result<Quotation, String>)
    ensures
        !is_currency_code(row.currency@) ==> (r matches Err(m) && m@ == unknown_currency(
            row.currency@,
        )),
        is_currency_code(row.currency@) ==> match QuotationStatus::spec_parse(row.status@) {
            None => r matches Err(m) && m@ == "unknown quotation status `"@ + row.status@ + "`"@,
            Some(status) => match spec_charge_kinds(charges@) {
                Err(n) => r matches Err(m) && m@ == n,
                Ok(kinds) => r matches Ok(q) && decodes_header(q, row, status) && q.items@.len()
                    == items@.len() && (forall|i: int|
                    0 <= i < q.items@.len() ==> decodes_item(#[trigger] q.items@[i], items@[i]))
                    && q.charges@.len() == charges@.len() && forall|i: int|
                    0 <= i < q.charges@.len() ==> (#[trigger] q.charges@[i]).kind == kinds[i]
                        && q.charges@[i].description@ == charges@[i].description@
                        && q.charges@[i].amount == charges@[i].amount,
            },
        },
{
    let currency = Currency::parse(row.currency.as_str())?;
    let status = QuotationStatus::parse(row.status.as_str())?;
    let decoded_items = copy_items(&items);
    let decoded_charges = decode_charges(&charges)?;
    Ok(
        Quotation {
            id: row.id,
            quotation_number: row.quotation_number,
            customer_id: row.customer_id,
            requirement_id: row.requirement_id,
            currency,
            status,
            items: decoded_items,
            charges: decoded_charges,
            valid_until: row.valid_until,
            sent_at: row.sent_at,
            responded_at: row.responded_at,
            rejection_reason: row.rejection_reason,
            version: row.version,
        },
    )
}

} // verus!
