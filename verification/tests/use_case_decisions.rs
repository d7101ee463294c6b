use miracle_backend::error::AppError;
use miracle_backend::ids::{CustomerId, OrderId, QuotationId, SupplierId, UserId};
use miracle_backend::jobs::worker::{job_outcome, JobOutcome};
use miracle_backend::jobs::Job;
use miracle_backend::modules::audit::Actor;
use miracle_backend::modules::health::{liveness, readiness, CheckStatus};
use miracle_backend::modules::notifications::EmailMessage;
use miracle_backend::modules::orders::{
    OrderError, OrderPermission, OrderStatus, OrderStatusResponse, StatusChanged, UpdateOrderStatus,
};
use miracle_backend::modules::payments::{PaymentError, PaymentStatus, RecordedEvent};
use miracle_backend::modules::quotations::quotation::check_version_update;
use miracle_backend::decimal::DecimalValue;
use miracle_backend::money::Currency;
use miracle_backend::modules::orders::{check_new_order, order_insert_refusal};
use miracle_backend::modules::quotations::{
    order_input, quotation_from_rows, ChargeKind, MoneyError, Quotation, QuotationCharge,
    QuotationChargeRow, QuotationError, QuotationItem, QuotationItemRow, QuotationRow, QuotationStatus,
};
use miracle_backend::modules::suppliers::{
    RecordVerificationDecision, SupplierError, VerificationDecisionResponse, VerificationOutcome,
    VerificationStatus,
};

fn update(status: OrderStatus, note: Option<&str>) -> UpdateOrderStatus {
    UpdateOrderStatus {
        order_id: OrderId(9),
        status,
        note: note.map(|n| n.to_string()),
        is_public: true,
    }
}

#[test]
fn cancelling_needs_its_own_permission_and_a_reason() {
    let cancel = update(OrderStatus::Cancelled, Some("   "));
    assert_eq!(cancel.required_permission(), OrderPermission::OrderCancel);
    assert!(matches!(cancel.check_reason(), Err(OrderError::CancellationReasonRequired)));
    assert!(matches!(update(OrderStatus::Cancelled, None).check_reason(), Err(OrderError::CancellationReasonRequired)));
    let with_reason = update(OrderStatus::Cancelled, Some("customer withdrew"));
    assert!(with_reason.check_reason().is_ok());
    assert_eq!(with_reason.cancellation_reason(), Some("customer withdrew".to_string()));

    let ship = update(OrderStatus::Shipped, Some("on the way"));
    assert_eq!(ship.required_permission(), OrderPermission::OrderUpdate);
    assert!(ship.check_reason().is_ok());
    assert_eq!(ship.cancellation_reason(), None);
}

#[test]
fn status_change_follows_the_machine() {
    let ship = update(OrderStatus::Shipped, None);
    assert_eq!(
        ship.transition_from(OrderStatus::Importing).unwrap(),
        StatusChanged { order_id: OrderId(9), from: OrderStatus::Importing, to: OrderStatus::Shipped }
    );
    match ship.transition_from(OrderStatus::Pending) {
        Err(OrderError::InvalidTransition { from, to }) => {
            assert_eq!(from, OrderStatus::Pending);
            assert_eq!(to, OrderStatus::Shipped);
        }
        _ => panic!("expected an invalid transition"),
    }
    let response = OrderStatusResponse::from_change(ship.transition_from(OrderStatus::Procurement).unwrap());
    assert_eq!(response.previous_status, OrderStatus::Procurement);
    assert_eq!(response.status, OrderStatus::Shipped);
}

#[test]
fn order_errors_are_reported_with_codes() {
    match AppError::from_order_error(OrderError::InvalidTransition {
        from: OrderStatus::Shipped,
        to: OrderStatus::Cancelled,
    }) {
        AppError::BusinessRule { code, message } => {
            assert_eq!(code, "ORDER_INVALID_STATUS_TRANSITION");
            assert_eq!(message, "cannot change order status from SHIPPED to CANCELLED");
        }
        other => panic!("unexpected {other:?}"),
    }
    assert!(matches!(AppError::from_order_error(OrderError::NotFound), AppError::NotFound { code: "ORDER_NOT_FOUND", .. }));
    assert!(matches!(
        AppError::from_order_error(OrderError::AlreadyExistsForQuotation),
        AppError::Conflict { code: "ORDER_ALREADY_EXISTS_FOR_QUOTATION", .. }
    ));
    assert_eq!(OrderError::NoItems.message(), "an order must contain at least one item");
    assert_eq!(OrderError::CancellationReasonRequired.message(), "a cancellation reason is required");
}

#[test]
fn unknown_statuses_are_named_in_the_error() {
    assert_eq!("LOST".parse::<OrderStatus>(), Err("unknown order status `LOST`".to_string()));
    assert_eq!(QuotationStatus::parse("sent"), Err("unknown quotation status `sent`".to_string()));
    assert_eq!(QuotationStatus::parse("SENT"), Ok(QuotationStatus::Sent));
    assert_eq!(ChargeKind::parse("DISCOUNT"), Ok(ChargeKind::Discount));
    assert!(ChargeKind::Discount.is_deduction());
    assert!(!ChargeKind::Tax.is_deduction());
    assert_eq!(ChargeKind::Shipping.as_str(), "SHIPPING");
    assert_eq!(VerificationStatus::parse("PENDING_REVIEW"), Ok(VerificationStatus::PendingReview));
}

#[test]
fn payment_errors_use_debug_names() {
    let error = PaymentError::InvalidTransition { from: PaymentStatus::Failed, to: PaymentStatus::Paid };
    assert_eq!(error.message(), "payment cannot change from Failed to Paid");
    match AppError::from_payment_error(PaymentError::UnknownProvider("payhere".to_string())) {
        AppError::NotFound { code, message } => {
            assert_eq!(code, "PAYMENT_PROVIDER_NOT_FOUND");
            assert_eq!(message, "unknown payment provider `payhere`");
        }
        other => panic!("unexpected {other:?}"),
    }
    assert!(matches!(
        AppError::from_payment_error(PaymentError::InvalidSignature),
        AppError::BadRequest { code: "PAYMENT_WEBHOOK_INVALID_SIGNATURE", .. }
    ));
    assert_eq!(RecordedEvent::from_inserted(Some(5)), RecordedEvent::New(5));
    assert_eq!(RecordedEvent::from_inserted(None), RecordedEvent::Duplicate);
}

#[test]
fn supplier_decisions_must_be_review_decisions_and_valid_transitions() {
    let submit = RecordVerificationDecision {
        supplier_id: SupplierId(3),
        decision: VerificationStatus::PendingReview,
        notes: None,
    };
    assert!(matches!(
        submit.check_decision(),
        Err(SupplierError::NotAReviewDecision(VerificationStatus::PendingReview))
    ));
    match AppError::from_supplier_error(submit.check_decision().unwrap_err()) {
        AppError::BadRequest { code, message } => {
            assert_eq!(code, "SUPPLIER_INVALID_REVIEW_DECISION");
            assert_eq!(message, "PENDING_REVIEW is not a review decision");
        }
        other => panic!("unexpected {other:?}"),
    }

    let verify = RecordVerificationDecision {
        supplier_id: SupplierId(3),
        decision: VerificationStatus::Verified,
        notes: Some("documents checked".to_string()),
    };
    assert!(verify.check_decision().is_ok());
    assert!(verify.stamps_verified_at());
    assert_eq!(
        verify.decide(VerificationStatus::PendingReview).unwrap(),
        VerificationOutcome {
            supplier_id: SupplierId(3),
            previous: VerificationStatus::PendingReview,
            current: VerificationStatus::Verified,
        }
    );
    let response =
        VerificationDecisionResponse::from_outcome(verify.decide(VerificationStatus::Suspended).unwrap());
    assert_eq!(
        response,
        VerificationDecisionResponse {
            supplier_id: SupplierId(3),
            previous_status: VerificationStatus::Suspended,
            status: VerificationStatus::Verified,
        }
    );
    assert!(matches!(
        verify.decide(VerificationStatus::Unverified),
        Err(SupplierError::InvalidVerificationTransition {
            from: VerificationStatus::Unverified,
            to: VerificationStatus::Verified
        })
    ));
}

fn sent_quotation() -> Quotation {
    Quotation {
        id: QuotationId(1),
        quotation_number: "QT-2026-000002".into(),
        customer_id: CustomerId(7),
        requirement_id: Some(11),
        currency: Currency::parse("LKR").unwrap(),
        status: QuotationStatus::Draft,
        items: vec![QuotationItem {
            line_number: 1,
            product_id: Some(5),
            supplier_id: Some(SupplierId(9)),
            description: "Steel bolts".into(),
            quantity: DecimalValue { mantissa: 40, scale: 0 },
            unit_of_measure: "box".into(),
            unit_price: DecimalValue { mantissa: 1250, scale: 2 },
        }],
        charges: vec![QuotationCharge {
            kind: ChargeKind::Tax,
            description: "VAT".into(),
            amount: DecimalValue { mantissa: 90, scale: 0 },
        }],
        valid_until: None,
        sent_at: None,
        responded_at: None,
        rejection_reason: None,
        version: 3,
    }
}

#[test]
fn sending_checks_items_validity_and_totals() {
    let mut empty = sent_quotation();
    empty.items.clear();
    assert_eq!(empty.send(10, 20), Err(QuotationError::NoItems));
    let mut q = sent_quotation();
    assert_eq!(q.send(10, 10), Err(QuotationError::InvalidValidity));
    assert_eq!(q.status, QuotationStatus::Draft);
    q.send(10, 20).unwrap();
    assert_eq!((q.status, q.sent_at, q.valid_until), (QuotationStatus::Sent, Some(10), Some(20)));
    assert!(!q.is_expired_at(19));
    assert!(q.is_expired_at(20));
}

#[test]
fn accepted_quotation_becomes_an_order_input() {
    let q = sent_quotation();
    let input = order_input(&q, UserId(4)).unwrap();
    assert_eq!(input.customer_id, CustomerId(7));
    assert_eq!(input.quotation_id, 1);
    assert_eq!(input.currency.as_str(), "LKR");
    assert_eq!(input.subtotal, DecimalValue { mantissa: 50000, scale: 2 });
    assert_eq!(input.charges_total, DecimalValue { mantissa: 90, scale: 0 });
    assert_eq!(input.grand_total, DecimalValue { mantissa: 59000, scale: 2 });
    assert_eq!(input.created_by, UserId(4));
    assert_eq!(input.items.len(), 1);
    let line = &input.items[0];
    assert_eq!((line.line_number, line.product_id, line.supplier_id), (1, Some(5), Some(SupplierId(9))));
    assert_eq!((line.description.as_str(), line.unit_of_measure.as_str()), ("Steel bolts", "box"));
    assert_eq!(line.line_total, DecimalValue { mantissa: 50000, scale: 2 });
    assert!(check_new_order(&input).is_ok());

    let mut without_lines = input;
    without_lines.items.clear();
    assert!(matches!(check_new_order(&without_lines), Err(OrderError::NoItems)));
    assert!(matches!(
        order_insert_refusal(Some("orders_quotation_id_key")),
        Some(OrderError::AlreadyExistsForQuotation)
    ));
    assert!(order_insert_refusal(Some("orders_pkey")).is_none());
    assert!(order_insert_refusal(None).is_none());
}

#[test]
fn stored_quotations_are_decoded() {
    let row = |status: &str| QuotationRow {
        id: QuotationId(1),
        quotation_number: "QT-2026-000003".into(),
        customer_id: CustomerId(7),
        requirement_id: None,
        currency: "USD".into(),
        status: status.into(),
        valid_until: Some(99),
        sent_at: Some(10),
        responded_at: None,
        rejection_reason: None,
        version: 2,
    };
    let items = || {
        vec![QuotationItemRow {
            line_number: 1,
            product_id: None,
            supplier_id: None,
            description: "Yarn".into(),
            quantity: DecimalValue { mantissa: 5, scale: 0 },
            unit_of_measure: "kg".into(),
            unit_price: DecimalValue { mantissa: 700, scale: 2 },
        }]
    };
    let charge = |kind: &str| QuotationChargeRow {
        kind: kind.into(),
        description: "x".into(),
        amount: DecimalValue { mantissa: 1, scale: 0 },
    };
    let q = quotation_from_rows(row("SENT"), items(), vec![charge("FEE"), charge("DISCOUNT")]).unwrap();
    assert_eq!(q.status, QuotationStatus::Sent);
    assert_eq!((q.valid_until, q.sent_at, q.version), (Some(99), Some(10), 2));
    assert_eq!(q.items[0].description, "Yarn");
    assert_eq!(q.charges[1].kind, ChargeKind::Discount);

    let mut bad_currency = row("OPEN");
    bad_currency.currency = "???".into();
    let refused = quotation_from_rows(bad_currency, items(), vec![charge("BRIBE")]);
    assert_eq!(refused.err().unwrap(), "unknown currency `???`");
    let bad_status = quotation_from_rows(row("OPEN"), items(), vec![charge("BRIBE")]);
    assert_eq!(bad_status.err().unwrap(), "unknown quotation status `OPEN`");
    let bad_kind = quotation_from_rows(row("SENT"), items(), vec![charge("FEE"), charge("BRIBE"), charge("X")]);
    assert_eq!(bad_kind.err().unwrap(), "unknown charge kind `BRIBE`");
}

#[test]
fn money_errors_are_business_rule_violations() {
    match AppError::from_quotation_error(QuotationError::Money(MoneyError::Overflow)) {
        AppError::BusinessRule { code, message } => {
            assert_eq!(code, "MONEY_INVALID");
            assert_eq!(message, "amount is out of range");
        }
        other => panic!("unexpected {other:?}"),
    }
}

#[test]
fn another_customers_quotation_is_not_found() {
    let mut q = sent_quotation();
    q.send(10, 20).unwrap();
    assert_eq!(q.accept_for_customer(CustomerId(8), 15), Err(QuotationError::NotFound));
    assert_eq!(q.status, QuotationStatus::Sent);
    q.accept_for_customer(CustomerId(7), 15).unwrap();
    assert_eq!((q.status, q.responded_at), (QuotationStatus::Accepted, Some(15)));
    assert!(matches!(q.reject(16, None), Err(QuotationError::InvalidTransition { .. })));
}

#[test]
fn rejection_records_the_reason() {
    let mut q = sent_quotation();
    q.send(10, 20).unwrap();
    q.reject(12, Some("too expensive".to_string())).unwrap();
    assert_eq!(q.status, QuotationStatus::Rejected);
    assert_eq!(q.rejection_reason, Some("too expensive".to_string()));
    assert_eq!(check_version_update(false), Err(QuotationError::ConcurrentModification));
    assert!(check_version_update(true).is_ok());
    match AppError::from_quotation_error(QuotationError::ConcurrentModification) {
        AppError::Conflict { code, message } => {
            assert_eq!(code, "QUOTATION_CONCURRENT_MODIFICATION");
            assert_eq!(message, "quotation was modified by another request; reload and retry");
        }
        other => panic!("unexpected {other:?}"),
    }
}

#[test]
fn failed_jobs_retry_with_backoff_until_the_last_attempt() {
    assert_eq!(job_outcome(true, 5, 5), JobOutcome::Succeeded);
    assert_eq!(job_outcome(false, 3, 5), JobOutcome::Retry { backoff_seconds: 120 });
    assert_eq!(job_outcome(false, 5, 5), JobOutcome::Dead);
    let job = Job::QuotationAccepted { quotation_id: 1, order_id: 2 };
    assert_eq!(job.kind(), "quotation_accepted");
}

#[test]
fn readiness_needs_every_dependency() {
    let (code, body) = readiness(CheckStatus::Available, CheckStatus::Available);
    assert_eq!((code, body.status), (200, CheckStatus::Available));
    let (code, body) = readiness(CheckStatus::Available, CheckStatus::Unavailable);
    assert_eq!((code, body.status, body.redis), (503, CheckStatus::Unavailable, CheckStatus::Unavailable));
    let live = liveness("1.2.3");
    assert_eq!((live.status, live.version), ("ok", "1.2.3"));
}

#[test]
fn small_builders_keep_their_inputs() {
    let message = EmailMessage::from_template("a@example.com", "welcome");
    assert_eq!(message.to, "a@example.com");
    assert_eq!(message.subject, "welcome");
    assert!(message.html_body.is_empty() && message.text_body.is_empty());
    assert_eq!(Actor::User(UserId(4)).columns(), ("USER", Some(UserId(4))));
    assert_eq!(Actor::System.columns(), ("SYSTEM", None));
    assert_eq!(Actor::External.columns(), ("EXTERNAL", None));
}
