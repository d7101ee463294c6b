use miracle_backend::decimal::DecimalValue;
use miracle_backend::ids::{CustomerId, QuotationId};
use miracle_backend::money::Currency;
use miracle_backend::modules::quotations::{
    ChargeKind, Quotation, QuotationCharge, QuotationError, QuotationItem, QuotationStatus,
};

const DAY: i64 = 86_400_000_000;
const NOW: i64 = 1_767_225_600_000_000;

/// `value` written as a decimal literal, e.g. `"2.345"`.
fn dec(value: &str) -> DecimalValue {
    let (int, frac) = value.split_once('.').unwrap_or((value, ""));
    DecimalValue { mantissa: format!("{int}{frac}").parse().unwrap(), scale: frac.len() as u32 }
}

fn quotation(status: QuotationStatus) -> Quotation {
    Quotation {
        id: QuotationId(1),
        quotation_number: "QT-2026-000001".into(),
        customer_id: CustomerId(7),
        requirement_id: None,
        currency: Currency::parse("USD").unwrap(),
        status,
        items: vec![QuotationItem {
            line_number: 1,
            product_id: None,
            supplier_id: None,
            description: "Cotton fabric".into(),
            quantity: dec("1000"),
            unit_of_measure: "m".into(),
            unit_price: dec("2.345"),
        }],
        charges: vec![
            QuotationCharge {
                kind: ChargeKind::Shipping,
                description: "Sea freight".into(),
                amount: dec("150"),
            },
            QuotationCharge {
                kind: ChargeKind::Discount,
                description: "Volume".into(),
                amount: dec("45"),
            },
        ],
        valid_until: None,
        sent_at: None,
        responded_at: None,
        rejection_reason: None,
        version: 1,
    }
}

#[test]
fn totals_are_exact_and_apply_discounts() {
    let totals = quotation(QuotationStatus::Draft).totals().unwrap();
    assert_eq!(totals.subtotal, dec("2345.00"));
    assert_eq!(totals.charges_total, dec("105"));
    assert_eq!(totals.grand_total, dec("2450.00"));
}

#[test]
fn cannot_accept_after_expiry() {
    let now = NOW;
    let mut quotation = quotation(QuotationStatus::Draft);
    quotation.send(now, now + 7 * DAY).unwrap();

    let result = quotation.accept(now + 8 * DAY);
    assert!(matches!(result, Err(QuotationError::Expired)));
    assert_eq!(quotation.status, QuotationStatus::Sent);
}

#[test]
fn accepts_sent_quotation_within_validity() {
    let now = NOW;
    let mut quotation = quotation(QuotationStatus::Draft);
    quotation.send(now, now + 7 * DAY).unwrap();
    quotation.accept(now + DAY).unwrap();
    assert_eq!(quotation.status, QuotationStatus::Accepted);
}

#[test]
fn cannot_accept_draft() {
    let result = quotation(QuotationStatus::Draft).accept(NOW);
    assert!(matches!(
        result,
        Err(QuotationError::InvalidTransition { .. })
    ));
}

#[test]
fn line_totals_round_to_minor_units() {
    let item = QuotationItem {
        line_number: 2,
        product_id: None,
        supplier_id: None,
        description: "Buttons".into(),
        quantity: dec("3"),
        unit_price: dec("0.125"),
        unit_of_measure: "pcs".into(),
    };
    // 0.375 rounds half to even: 0.38.
    assert_eq!(item.line_total().unwrap(), dec("0.38"));
}

#[test]
fn a_negative_total_refuses_sending() {
    let mut q = quotation(QuotationStatus::Draft);
    q.charges.push(QuotationCharge {
        kind: ChargeKind::Discount,
        description: "Goodwill".into(),
        amount: dec("3000"),
    });
    assert_eq!(q.totals(), Err(QuotationError::NegativeTotal));
    assert_eq!(q.send(NOW, NOW + DAY), Err(QuotationError::NegativeTotal));
    assert_eq!(q.status, QuotationStatus::Draft);
}

#[test]
fn amounts_out_of_range_are_money_errors() {
    let mut q = quotation(QuotationStatus::Draft);
    q.items[0].quantity = DecimalValue { mantissa: 79_228_162_514_264_337_593_543_950_335, scale: 0 };
    q.items[0].unit_price = dec("10");
    assert!(matches!(q.totals(), Err(QuotationError::Money(_))));
}
