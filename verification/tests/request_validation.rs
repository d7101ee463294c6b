use miracle_backend::decimal::DecimalValue;
use miracle_backend::money::Currency;
use miracle_backend::ids::{OrderId, RequirementId, SupplierId};
use miracle_backend::error::AppError;
use miracle_backend::modules::auth::dto::normalize_email;
use miracle_backend::modules::auth::{
    AuthError, IssuedTokens, LoginRequest, RegisterRequest, RegistrationAccountType, TokenResponse,
};
use miracle_backend::modules::orders::{default_true, OrderStatus, UpdateOrderStatusRequest};
use miracle_backend::modules::requirements::dto::{RequirementSummaryResponse, RequirementSummaryRow};
use miracle_backend::modules::requirements::repository::FilterClause;
use miracle_backend::modules::requirements::{
    push_filters, validate_submit_request, ListRequirementsQuery, RequirementKind, RequirementStatus,
    SubmitRequirementRequest,
};
use miracle_backend::modules::suppliers::{VerificationDecisionRequest, VerificationStatus};
use miracle_backend::validation::ValidationIssue;

fn pairs(issues: Vec<ValidationIssue>) -> Vec<(String, String)> {
    issues.into_iter().map(|i| (i.field.to_string(), i.code.to_string())).collect()
}

fn submit() -> SubmitRequirementRequest {
    SubmitRequirementRequest {
        kind: RequirementKind::Product,
        title: "Cotton fabric".into(),
        description: "Plain weave cotton, 150 gsm".into(),
        quantity: Some(DecimalValue { mantissa: 5000, scale: 0 }),
        unit_of_measure: Some("m".into()),
        target_unit_price: Some(DecimalValue { mantissa: 235, scale: 2 }),
        target_currency: Some(Currency::parse("USD").unwrap()),
        destination_country: "LK".into(),
        preferred_origin: None,
        required_by: None,
    }
}

#[test]
fn product_requirements_need_quantity_unit_and_a_positive_amount() {
    assert!(submit().validate().is_ok());
    let mut no_unit = submit();
    no_unit.unit_of_measure = None;
    assert_eq!(validate_submit_request(&no_unit), Err("product_requires_quantity_and_unit"));
    let mut zero = submit();
    zero.quantity = Some(DecimalValue { mantissa: 0, scale: 3 });
    assert_eq!(validate_submit_request(&zero), Err("quantity_must_be_positive"));
    let mut no_currency = submit();
    no_currency.target_currency = None;
    assert_eq!(
        pairs(no_currency.validate().unwrap_err()),
        vec![("__all__".to_string(), "target_price_requires_currency".to_string())]
    );
    let mut general = submit();
    general.kind = RequirementKind::General;
    general.quantity = None;
    general.unit_of_measure = None;
    assert!(general.validate().is_ok());
}

#[test]
fn field_rules_are_reported_before_cross_field_rules() {
    let mut bad = submit();
    bad.title = "ab".into();
    bad.destination_country = "LKA".into();
    bad.unit_of_measure = None;
    assert_eq!(
        pairs(bad.validate().unwrap_err()),
        vec![
            ("title".to_string(), "length".to_string()),
            ("destination_country".to_string(), "length".to_string()),
        ]
    );
}

fn query() -> ListRequirementsQuery {
    ListRequirementsQuery {
        status: None,
        kind: None,
        destination_country: None,
        created_from: None,
        created_to: None,
        search: None,
        page: None,
        limit: None,
    }
}

#[test]
fn listing_filters_bind_normalised_values() {
    let mut q = query();
    q.status = Some(RequirementStatus::Quoted);
    q.destination_country = Some("lk".into());
    q.created_to = Some(99);
    q.search = Some("50%_off".into());
    let clauses = push_filters(Some(miracle_backend::ids::CustomerId(5)), &q);
    assert_eq!(clauses.len(), 5);
    assert!(matches!(clauses[0], FilterClause::CustomerIs(miracle_backend::ids::CustomerId(5))));
    assert!(matches!(clauses[1], FilterClause::StatusIs(RequirementStatus::Quoted)));
    match &clauses[2] {
        FilterClause::DestinationCountryIs(c) => assert_eq!(c, "LK"),
        _ => panic!("expected the country clause"),
    }
    assert!(matches!(clauses[3], FilterClause::CreatedBefore(99)));
    match &clauses[4] {
        FilterClause::TitleLike(p) => assert_eq!(p, r"%50\%\_off%"),
        _ => panic!("expected the search clause"),
    }
    assert!(push_filters(None, &query()).is_empty());
}

#[test]
fn listing_query_limits_country_and_search_length() {
    let mut q = query();
    q.destination_country = Some("L".into());
    q.search = Some("x".into());
    assert_eq!(
        pairs(q.validate().unwrap_err()),
        vec![
            ("destination_country".to_string(), "length".to_string()),
            ("search".to_string(), "length".to_string()),
        ]
    );
    let mut ok = query();
    ok.search = Some("ab".into());
    assert!(ok.validate().is_ok());
}

#[test]
fn summary_rows_decode_kind_and_status() {
    let row = RequirementSummaryRow {
        id: RequirementId(1),
        requirement_number: "REQ-2026-000001".into(),
        kind: "GENERAL".into(),
        title: "Packaging".into(),
        status: "UNDER_REVIEW".into(),
        destination_country: "LK".into(),
        required_by: Some(20_000),
        created_at: 5,
    };
    let response = RequirementSummaryResponse::try_from_row(row).unwrap();
    assert_eq!(response.kind, RequirementKind::General);
    assert_eq!(response.status, RequirementStatus::UnderReview);
    let bad = RequirementSummaryRow {
        id: RequirementId(1),
        requirement_number: "REQ".into(),
        kind: "GENERAL".into(),
        title: "t".into(),
        status: "OPEN".into(),
        destination_country: "LK".into(),
        required_by: None,
        created_at: 0,
    };
    assert_eq!(
        RequirementSummaryResponse::try_from_row(bad).err(),
        Some("unknown requirement status `OPEN`".to_string())
    );
}

#[test]
fn registration_checks_email_password_and_name() {
    let ok = RegisterRequest {
        email: " Ana@Example.COM ".trim().into(),
        password: "correct horse battery".into(),
        full_name: "  Ana Perera ".into(),
        account_type: RegistrationAccountType::Customer,
    };
    assert!(ok.validate().is_ok());
    let command = ok.into_command();
    assert_eq!(command.email, "ana@example.com");
    assert_eq!(command.full_name, "Ana Perera");
    assert_eq!(command.account_type, RegistrationAccountType::Customer);

    let bad = RegisterRequest {
        email: "not-an-email".into(),
        password: "short".into(),
        full_name: "".into(),
        account_type: RegistrationAccountType::Supplier,
    };
    assert_eq!(
        pairs(bad.validate().unwrap_err()),
        vec![
            ("email".to_string(), "email".to_string()),
            ("password".to_string(), "length".to_string()),
            ("full_name".to_string(), "length".to_string()),
        ]
    );
    let login = LoginRequest { email: "ana@example.com".into(), password: "".into() };
    assert_eq!(pairs(login.validate().unwrap_err()), vec![("password".to_string(), "length".to_string())]);
    assert_eq!(normalize_email("  ÅSA@Example.com "), "åsa@example.com");
}

#[test]
fn login_answers_with_a_bearer_token() {
    let response = TokenResponse::from_tokens(IssuedTokens {
        access_token: "access".into(),
        access_token_expires_in: 900,
        refresh_token: "refresh".into(),
        refresh_token_expires_in: 2_592_000,
    });
    assert_eq!(response.token_type, "Bearer");
    assert_eq!(response.expires_in, 900);
    assert_eq!(response.refresh_token, Some("refresh".to_string()));
}

#[test]
fn auth_failures_do_not_reveal_which_check_failed() {
    assert!(matches!(
        AppError::from_auth_error(AuthError::InvalidCredentials),
        AppError::Unauthenticated { code: "INVALID_CREDENTIALS" }
    ));
    match AppError::from_auth_error(AuthError::AccountLocked) {
        AppError::BusinessRule { code, message } => {
            assert_eq!(code, "ACCOUNT_LOCKED");
            assert_eq!(message, "account is temporarily locked");
        }
        other => panic!("unexpected {other:?}"),
    }
    assert!(matches!(
        AppError::from_auth_error(AuthError::EmailAlreadyRegistered),
        AppError::Conflict { code: "EMAIL_ALREADY_REGISTERED", .. }
    ));
}

#[test]
fn notes_are_length_limited() {
    let long = "x".repeat(1001);
    let request = UpdateOrderStatusRequest { status: OrderStatus::Confirmed, note: Some(long), is_public: default_true() };
    assert_eq!(pairs(request.validate().unwrap_err()), vec![("note".to_string(), "length".to_string())]);
    let command = UpdateOrderStatusRequest { status: OrderStatus::Confirmed, note: None, is_public: true }
        .into_command(OrderId(2));
    assert_eq!(command.order_id, OrderId(2));
    let decision = VerificationDecisionRequest { decision: VerificationStatus::Verified, notes: Some("x".repeat(2000)) };
    assert!(decision.validate().is_ok());
    let command = decision.into_command(SupplierId(1));
    assert_eq!(command.decision, VerificationStatus::Verified);
}

#[test]
fn currencies_are_three_capital_letters() {
    assert_eq!(Currency::parse("LKR").unwrap().as_str(), "LKR");
    for bad in ["", "US", "usd", "USDT", "U$D", "???"] {
        assert_eq!(Currency::parse(bad).err().unwrap(), format!("unknown currency `{bad}`"));
    }
}
