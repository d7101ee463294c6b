//! The order status machine.
use vstd::prelude::*;

use crate::text::{concat3, str_eq};

verus! {

#[derive(Debug, Clone, Copy, PartialEq, Eq, Structural)]
pub enum OrderStatus {
    Pending,
    Confirmed,
    Processing,
    Procurement,
    Importing,
    Shipped,
    OutForDelivery,
    Delivered,
    Cancelled,
}

impl OrderStatus {
    pub const ALL: [OrderStatus; 9] = [
        OrderStatus::Pending,
        OrderStatus::Confirmed,
        OrderStatus::Processing,
        OrderStatus::Procurement,
        OrderStatus::Importing,
        OrderStatus::Shipped,
        OrderStatus::OutForDelivery,
        OrderStatus::Delivered,
        OrderStatus::Cancelled,
    ];

    /// The stored (database and API) name of the status.
    pub open spec fn spec_as_str(self) -> Seq<char> {
        match self {
            OrderStatus::Pending => "PENDING"@,
            OrderStatus::Confirmed => "CONFIRMED"@,
            OrderStatus::Processing => "PROCESSING"@,
            OrderStatus::Procurement => "PROCUREMENT"@,
            OrderStatus::Importing => "IMPORTING"@,
            OrderStatus::Shipped => "SHIPPED"@,
            OrderStatus::OutForDelivery => "OUT_FOR_DELIVERY"@,
            OrderStatus::Delivered => "DELIVERED"@,
            OrderStatus::Cancelled => "CANCELLED"@,
        }
    }

    /// The status whose stored name is `value`, if any.
    pub open spec fn spec_parse(value: Seq<char>) -> Option<OrderStatus> {
        if value == "PENDING"@ {
            Some(OrderStatus::Pending)
        } else if value == "CONFIRMED"@ {
            Some(OrderStatus::Confirmed)
        } else if value == "PROCESSING"@ {
            Some(OrderStatus::Processing)
        } else if value == "PROCUREMENT"@ {
            Some(OrderStatus::Procurement)
        } else if value == "IMPORTING"@ {
            Some(OrderStatus::Importing)
        } else if value == "SHIPPED"@ {
            Some(OrderStatus::Shipped)
        } else if value == "OUT_FOR_DELIVERY"@ {
            Some(OrderStatus::OutForDelivery)
        } else if value == "DELIVERED"@ {
            Some(OrderStatus::Delivered)
        } else if value == "CANCELLED"@ {
            Some(OrderStatus::Cancelled)
        } else {
            None
        }
    }

    /// The allowed status changes:
    ///
    /// ```text
    /// PENDING ─► CONFIRMED ─► PROCESSING ─► PROCUREMENT ─► IMPORTING ─► SHIPPED
    ///                              │              └──────────────────────► │
    ///                              └─────────────────────────────────────► │
    /// SHIPPED ─► OUT_FOR_DELIVERY ─► DELIVERED        SHIPPED ─► DELIVERED
    /// CANCELLED is reachable from PENDING, CONFIRMED, PROCESSING, PROCUREMENT
    /// ```
    pub open spec fn spec_can_transition_to(self, next: OrderStatus) -> bool {
        match (self, next) {
            (OrderStatus::Pending, OrderStatus::Confirmed) => true,
            (OrderStatus::Confirmed, OrderStatus::Processing) => true,
            (OrderStatus::Processing, OrderStatus::Procurement) | (OrderStatus::Processing, OrderStatus::Shipped) => true,
            (OrderStatus::Procurement, OrderStatus::Importing) | (OrderStatus::Procurement, OrderStatus::Shipped) => true,
            (OrderStatus::Importing, OrderStatus::Shipped) => true,
            (OrderStatus::Shipped, OrderStatus::OutForDelivery) | (OrderStatus::Shipped, OrderStatus::Delivered) => true,
            (OrderStatus::OutForDelivery, OrderStatus::Delivered) => true,
            (OrderStatus::Pending, OrderStatus::Cancelled) | (OrderStatus::Confirmed, OrderStatus::Cancelled) | (OrderStatus::Processing, OrderStatus::Cancelled) | (
                OrderStatus::Procurement,
                OrderStatus::Cancelled,
            ) => true,
            _ => false,
        }
    }

    pub open spec fn spec_is_terminal(self) -> bool {
        self == OrderStatus::Delivered || self == OrderStatus::Cancelled
    }

    /// Position of the status in the order life cycle.
    pub open spec fn rank(self) -> int {
        match self {
            OrderStatus::Pending => 0,
            OrderStatus::Confirmed => 1,
            OrderStatus::Processing => 2,
            OrderStatus::Procurement => 3,
            OrderStatus::Importing => 4,
            OrderStatus::Shipped => 5,
            OrderStatus::OutForDelivery => 6,
            OrderStatus::Delivered => 7,
            OrderStatus::Cancelled => 8,
        }
    }

    pub fn as_str(self) -> (s: &'static str)
        ensures
            s@ == self.spec_as_str(),
    {
        match self {
            OrderStatus::Pending => "PENDING",
            OrderStatus::Confirmed => "CONFIRMED",
            OrderStatus::Processing => "PROCESSING",
            OrderStatus::Procurement => "PROCUREMENT",
            OrderStatus::Importing => "IMPORTING",
            OrderStatus::Shipped => "SHIPPED",
            OrderStatus::OutForDelivery => "OUT_FOR_DELIVERY",
            OrderStatus::Delivered => "DELIVERED",
            OrderStatus::Cancelled => "CANCELLED",
        }
    }

    /// The only allowed status changes. Anything else is rejected.
    pub fn can_transition_to(self, next: OrderStatus) -> (r: bool)
        ensures
            r == self.spec_can_transition_to(next),
    {
        matches!(
            (self, next),
            (OrderStatus::Pending, OrderStatus::Confirmed) | (OrderStatus::Confirmed, OrderStatus::Processing) | (OrderStatus::Processing, OrderStatus::Procurement) | (
                OrderStatus::Processing,
                OrderStatus::Shipped,
            ) | (OrderStatus::Procurement, OrderStatus::Importing) | (OrderStatus::Procurement, OrderStatus::Shipped) | (OrderStatus::Importing, OrderStatus::Shipped) | (
                OrderStatus::Shipped,
                OrderStatus::OutForDelivery,
            ) | (OrderStatus::Shipped, OrderStatus::Delivered) | (OrderStatus::OutForDelivery, OrderStatus::Delivered) | (OrderStatus::Pending, OrderStatus::Cancelled) | (
                OrderStatus::Confirmed,
                OrderStatus::Cancelled,
            ) | (OrderStatus::Processing, OrderStatus::Cancelled) | (OrderStatus::Procurement, OrderStatus::Cancelled)
        )
    }

    pub fn is_terminal(self) -> (r: bool)
        ensures
            r == self.spec_is_terminal(),
    {
        matches!(self, OrderStatus::Delivered | OrderStatus::Cancelled)
    }

    /// Parses a stored status name; the error names the unknown value.
    pub fn parse(value: &str) -> (r: Result<OrderStatus, String>)
        ensures
            r matches Ok(s) ==> OrderStatus::spec_parse(value@) == Some(s),
            r matches Err(m) ==> OrderStatus::spec_parse(value@) is None && m@
                == "unknown order status `"@ + value@ + "`"@,
    {
        if str_eq(value, "PENDING") {
            Ok(OrderStatus::Pending)
        } else if str_eq(value, "CONFIRMED") {
            Ok(OrderStatus::Confirmed)
        } else if str_eq(value, "PROCESSING") {
            Ok(OrderStatus::Processing)
        } else if str_eq(value, "PROCUREMENT") {
            Ok(OrderStatus::Procurement)
        } else if str_eq(value, "IMPORTING") {
            Ok(OrderStatus::Importing)
        } else if str_eq(value, "SHIPPED") {
            Ok(OrderStatus::Shipped)
        } else if str_eq(value, "OUT_FOR_DELIVERY") {
            Ok(OrderStatus::OutForDelivery)
        } else if str_eq(value, "DELIVERED") {
            Ok(OrderStatus::Delivered)
        } else if str_eq(value, "CANCELLED") {
            Ok(OrderStatus::Cancelled)
        } else {
            Err(concat3("unknown order status `", value, "`"))
        }
    }
}

impl std::str::FromStr for OrderStatus {
    type Err = String;

    fn from_str(value: &str) -> (r: Result<OrderStatus, String>)
        ensures
            r matches Ok(s) ==> OrderStatus::spec_parse(value@) == Some(s),
            r matches Err(m) ==> OrderStatus::spec_parse(value@) is None && m@ == "unknown order status `"@
                + value@ + "`"@,
    {
        OrderStatus::parse(value)
    }
}

/// The allowed changes are exactly the edges of the order life cycle:
/// PENDING→CONFIRMED→PROCESSING→PROCUREMENT→IMPORTING→SHIPPED, the shortcuts
/// PROCESSING→SHIPPED and PROCUREMENT→SHIPPED, SHIPPED→OUT_FOR_DELIVERY→
/// DELIVERED and SHIPPED→DELIVERED, and cancellation from PENDING, CONFIRMED,
/// PROCESSING or PROCUREMENT.
pub proof fn order_transitions_are_the_life_cycle_edges(from: OrderStatus, to: OrderStatus)
    ensures
        from.spec_can_transition_to(to) <==> {
            ||| from == OrderStatus::Pending && to == OrderStatus::Confirmed
            ||| from == OrderStatus::Confirmed && to == OrderStatus::Processing
            ||| from == OrderStatus::Processing && to == OrderStatus::Procurement
            ||| from == OrderStatus::Processing && to == OrderStatus::Shipped
            ||| from == OrderStatus::Procurement && to == OrderStatus::Importing
            ||| from == OrderStatus::Procurement && to == OrderStatus::Shipped
            ||| from == OrderStatus::Importing && to == OrderStatus::Shipped
            ||| from == OrderStatus::Shipped && to == OrderStatus::OutForDelivery
            ||| from == OrderStatus::Shipped && to == OrderStatus::Delivered
            ||| from == OrderStatus::OutForDelivery && to == OrderStatus::Delivered
            ||| to == OrderStatus::Cancelled && (from == OrderStatus::Pending || from
                == OrderStatus::Confirmed || from == OrderStatus::Processing || from
                == OrderStatus::Procurement)
        },
{
}

/// Goods are shipped straight from PROCESSING, PROCUREMENT or IMPORTING,
/// and from nowhere else.
pub proof fn order_shipped_from_processing_procurement_or_importing(from: OrderStatus)
    ensures
        from.spec_can_transition_to(OrderStatus::Shipped) <==> (from == OrderStatus::Processing
            || from == OrderStatus::Procurement || from == OrderStatus::Importing),
{
}

/// A delivered or cancelled order can never change status again.
pub proof fn terminal_order_states_are_final(status: OrderStatus, next: OrderStatus)
    requires
        status.spec_is_terminal(),
    ensures
        !status.spec_can_transition_to(next),
{
}

/// An order status is terminal exactly when no change leads out of it: every
/// open order can still make progress.
pub proof fn order_terminal_iff_no_transitions(status: OrderStatus)
    ensures
        status.spec_is_terminal() <==> (forall|next: OrderStatus|
            !#[trigger] status.spec_can_transition_to(next)),
{
    if !status.spec_is_terminal() {
        let next = match status {
            OrderStatus::Pending => OrderStatus::Confirmed,
            OrderStatus::Confirmed => OrderStatus::Processing,
            OrderStatus::Processing => OrderStatus::Procurement,
            OrderStatus::Procurement => OrderStatus::Importing,
            OrderStatus::Importing => OrderStatus::Shipped,
            _ => OrderStatus::Delivered,
        };
        assert(status.spec_can_transition_to(next));
    }
}

/// Every allowed change moves the order forward in its life cycle, so no
/// status can ever be entered twice.
pub proof fn order_transitions_move_forward(status: OrderStatus, next: OrderStatus)
    requires
        status.spec_can_transition_to(next),
    ensures
        status.rank() < next.rank(),
{
}

/// Goods already importing or shipped cannot be cancelled: cancellation is
/// allowed exactly from PENDING, CONFIRMED, PROCESSING and PROCUREMENT.
pub proof fn order_cancellable_exactly_before_importing(status: OrderStatus)
    ensures
        status.spec_can_transition_to(OrderStatus::Cancelled) <==> (status
            == OrderStatus::Pending || status == OrderStatus::Confirmed || status
            == OrderStatus::Processing || status == OrderStatus::Procurement),
{
}

/// Parsing the stored name of a status gives the status back.
pub proof fn order_status_string_round_trip(status: OrderStatus)
    ensures
        OrderStatus::spec_parse(status.spec_as_str()) == Some(status),
{
    reveal_strlit("PENDING");
    assert("PENDING"@.len() == 7 && "PENDING"@[0] == 'P' && "PENDING"@[1] == 'E');
    reveal_strlit("CONFIRMED");
    assert("CONFIRMED"@.len() == 9 && "CONFIRMED"@[0] == 'C' && "CONFIRMED"@[1] == 'O');
    reveal_strlit("PROCESSING");
    assert("PROCESSING"@.len() == 10 && "PROCESSING"@[0] == 'P' && "PROCESSING"@[1] == 'R');
    reveal_strlit("PROCUREMENT");
    assert("PROCUREMENT"@.len() == 11 && "PROCUREMENT"@[0] == 'P' && "PROCUREMENT"@[1] == 'R');
    reveal_strlit("IMPORTING");
    assert("IMPORTING"@.len() == 9 && "IMPORTING"@[0] == 'I' && "IMPORTING"@[1] == 'M');
    reveal_strlit("SHIPPED");
    assert("SHIPPED"@.len() == 7 && "SHIPPED"@[0] == 'S' && "SHIPPED"@[1] == 'H');
    reveal_strlit("OUT_FOR_DELIVERY");
    assert("OUT_FOR_DELIVERY"@.len() == 16 && "OUT_FOR_DELIVERY"@[0] == 'O' && "OUT_FOR_DELIVERY"@[1] == 'U');
    reveal_strlit("DELIVERED");
    assert("DELIVERED"@.len() == 9 && "DELIVERED"@[0] == 'D' && "DELIVERED"@[1] == 'E');
    reveal_strlit("CANCELLED");
    assert("CANCELLED"@.len() == 9 && "CANCELLED"@[0] == 'C' && "CANCELLED"@[1] == 'A');
}

} // verus!
