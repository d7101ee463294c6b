//! Provider-neutral shapes exchanged with a payment gateway.
use vstd::prelude::*;

use crate::money::Money;

verus! {

/// A payment to collect through a provider's hosted checkout.
pub struct PaymentIntent {
    /// Our payment ID, echoed back by the provider in webhooks.
    pub reference: String,
    pub amount: Money,
    pub description: String,
    pub customer_email: String,
    pub return_url: String,
}

/// A verified, provider-neutral webhook event.
pub struct GatewayEvent {
    pub provider_event_id: String,
    pub event_type: String,
    /// Our payment reference, when the event concerns a payment.
    pub payment_reference: Option<String>,
    pub provider_reference: Option<String>,
    pub amount: Option<Money>,
    pub succeeded: bool,
    pub raw_payload: serde_json::Value,
}

/// A hosted checkout opened at the provider.
pub struct CheckoutSession {
    pub provider_reference: String,
    pub redirect_url: String,
    pub expires_in_secs: u64,
}

} // verus!
