use miracle_backend::config::Secret;
use miracle_backend::jobs::worker::{backoff_seconds, MAX_BACKOFF_SECONDS};
use miracle_backend::modules::orders::OrderStatus;
use miracle_backend::modules::payments::PaymentStatus;
use miracle_backend::modules::quotations::QuotationStatus;
use miracle_backend::modules::quotations::QuotationStatus::{Accepted, Cancelled, Draft, Expired, Rejected, Sent};
use miracle_backend::modules::requirements::escape_like;
use miracle_backend::modules::suppliers::VerificationStatus;

#[test]
fn debug_output_is_redacted() {
    let secret = Secret::new("super-secret".to_owned());
    assert_eq!(secret.debug_repr(), "Secret([REDACTED])");
}

#[test]
fn backoff_grows_and_caps() {
    assert_eq!(backoff_seconds(1), 30);
    assert_eq!(backoff_seconds(2), 60);
    assert_eq!(backoff_seconds(50), MAX_BACKOFF_SECONDS);
}

#[test]
fn terminal_states_are_final() {
    for terminal in [OrderStatus::Delivered, OrderStatus::Cancelled] {
        assert!(
            OrderStatus::ALL
                .iter()
                .all(|next| !terminal.can_transition_to(*next))
        );
    }
}

#[test]
fn cannot_skip_confirmation_or_cancel_in_transit() {
    assert!(!OrderStatus::Pending.can_transition_to(OrderStatus::Shipped));
    assert!(!OrderStatus::Shipped.can_transition_to(OrderStatus::Cancelled));
    assert!(OrderStatus::Procurement.can_transition_to(OrderStatus::Cancelled));
}

#[test]
fn string_round_trip() {
    for status in OrderStatus::ALL {
        assert_eq!(status.as_str().parse::<OrderStatus>().unwrap(), status);
    }
}

#[test]
fn refunds_require_a_paid_payment() {
    assert!(PaymentStatus::Paid.can_transition_to(PaymentStatus::Refunded));
    assert!(!PaymentStatus::Pending.can_transition_to(PaymentStatus::Refunded));
    assert!(!PaymentStatus::Failed.can_transition_to(PaymentStatus::Paid));
}

#[test]
fn terminal_states_have_no_transitions() {
    for terminal in [Accepted, Rejected, Expired, Cancelled] {
        assert!(terminal.is_terminal());
        for next in [Draft, Sent, Accepted, Rejected, Expired, Cancelled] {
            assert!(!terminal.can_transition_to(next));
        }
    }
}

#[test]
fn draft_cannot_be_accepted_directly() {
    assert!(!QuotationStatus::Draft.can_transition_to(QuotationStatus::Accepted));
    assert!(QuotationStatus::Sent.can_transition_to(QuotationStatus::Accepted));
}

#[test]
fn escapes_like_wildcards() {
    assert_eq!(escape_like(r"50%_off\"), r"50\%\_off\\");
}

#[test]
fn verification_requires_review_first() {
    assert!(!VerificationStatus::Unverified.can_transition_to(VerificationStatus::Verified));
    assert!(VerificationStatus::Unverified.can_transition_to(VerificationStatus::PendingReview));
    assert!(VerificationStatus::PendingReview.can_transition_to(VerificationStatus::Verified));
}

#[test]
fn suspension_only_applies_to_verified_suppliers() {
    assert!(VerificationStatus::Verified.can_transition_to(VerificationStatus::Suspended));
    assert!(!VerificationStatus::PendingReview.can_transition_to(VerificationStatus::Suspended));
    assert!(VerificationStatus::Suspended.can_transition_to(VerificationStatus::Verified));
}

#[test]
fn open_orders_can_always_progress() {
    for status in OrderStatus::ALL {
        let has_next = OrderStatus::ALL.into_iter().any(|next| status.can_transition_to(next));
        assert_eq!(has_next, !status.is_terminal(), "{}", status.as_str());
    }
}
