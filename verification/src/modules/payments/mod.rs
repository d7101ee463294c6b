//! Payments, payment schedules and payment gateway integration.
pub mod domain;
pub mod gateway;
pub mod webhooks;

pub use domain::{PaymentError, PaymentStatus, PaymentType, ScheduleStatus};
pub use webhooks::RecordedEvent;
pub use gateway::{CheckoutSession, GatewayEvent, PaymentIntent};
