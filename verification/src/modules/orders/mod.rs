//! Wholesale orders and order tracking (status timeline).
pub mod create;
pub mod errors;
pub mod status;
pub mod update_status;

pub use create::{check_new_order, order_insert_refusal, NewOrderFromQuotation, NewOrderItem};
pub use errors::OrderError;
pub use status::OrderStatus;
pub use update_status::{
    default_true, OrderPermission, OrderStatusResponse, StatusChanged, UpdateOrderStatus,
    UpdateOrderStatusRequest,
};
