//! Use case: UpdateOrderStatus. Status can only move along the transitions
//! defined by `OrderStatus::can_transition_to`; there is no "set status" API.
//! The application drives the I/O (row lock, update, history, audit); the
//! decisions are taken here.
use vstd::prelude::*;

use super::errors::OrderError;
use super::status::OrderStatus;
use crate::ids::OrderId;
use crate::modules::requirements::dto::{issue_if, issue_views, opt_length_ok};
use crate::text::{is_blank, trim};
use crate::validation::{length_issue, length_ok, ValidationIssue};

verus! {

/// The permission an order status change needs.
#[derive(Debug, Clone, Copy, PartialEq, Eq, Structural)]
pub enum OrderPermission {
    OrderCancel,
    OrderUpdate,
}

pub struct UpdateOrderStatus {
    pub order_id: OrderId,
    pub status: OrderStatus,
    pub note: Option<String>,
    /// Whether the change is shown on the customer's tracking timeline.
    pub is_public: bool,
}

#[derive(Debug, Clone, Copy, PartialEq, Eq, Structural)]
pub struct StatusChanged {
    pub order_id: OrderId,
    pub from: OrderStatus,
    pub to: OrderStatus,
}

impl UpdateOrderStatus {
    /// The note is absent or holds only whitespace.
    pub open spec fn note_is_blank(&self) -> bool {
        match self.note {
            None => true,
            Some(note) => trim(note@).len() == 0,
        }
    }

    /// Cancelling needs `order.cancel`; every other change needs `order.update`.
    pub fn required_permission(&self) -> (p: OrderPermission)
        ensures
            p == (if self.status == OrderStatus::Cancelled {
                OrderPermission::OrderCancel
            } else {
                OrderPermission::OrderUpdate
            }),
    {
        if self.status == OrderStatus::Cancelled {
            OrderPermission::OrderCancel
        } else {
            OrderPermission::OrderUpdate
        }
    }

    /// A cancellation must carry a non-blank reason.
    pub fn check_reason(&self) -> (r: Result<(), OrderError>)
        ensures
            r is Err <==> (self.status == OrderStatus::Cancelled && self.note_is_blank()),
            r matches Err(e) ==> e == OrderError::CancellationReasonRequired,
    {
        if self.status == OrderStatus::Cancelled {
            let blank = match &self.note {
                None => true,
                Some(note) => is_blank(note.as_str()),
            };
            if blank {
                return Err(OrderError::CancellationReasonRequired);
            }
        }
        Ok(())
    }

    /// Applies the change to the order's current (locked) status.
    pub fn transition_from(&self, from: OrderStatus) -> (r: Result<StatusChanged, OrderError>)
        ensures
            r is Ok <==> from.spec_can_transition_to(self.status),
            r matches Ok(c) ==> c == (StatusChanged {
                order_id: self.order_id,
                from,
                to: self.status,
            }),
            r matches Err(e) ==> e == (OrderError::InvalidTransition { from, to: self.status }),
    {
        if !from.can_transition_to(self.status) {
            return Err(OrderError::InvalidTransition { from, to: self.status });
        }
        Ok(StatusChanged { order_id: self.order_id, from, to: self.status })
    }

    /// The reason stored on the order: the note, when the order is cancelled.
    pub fn cancellation_reason(&self) -> (r: Option<String>)
        ensures
            self.status != OrderStatus::Cancelled ==> r is None,
            self.status == OrderStatus::Cancelled ==> (match (r, self.note) {
                (Some(a), Some(b)) => a@ == b@,
                (None, None) => true,
                _ => false,
            }),
    {
        if self.status == OrderStatus::Cancelled {
            match &self.note {
                Some(note) => Some(note.clone()),
                None => None,
            }
        } else {
            None
        }
    }
}

/// Body of `PATCH /orders/{order_id}/status`.
pub struct UpdateOrderStatusRequest {
    pub status: OrderStatus,
    /// Required when cancelling.
    pub note: Option<String>,
    /// Show this change on the customer's tracking timeline (default `true`).
    pub is_public: bool,
}

/// The default of `UpdateOrderStatusRequest::is_public`.
pub fn default_true() -> (r: bool)
    ensures
        r,
{
    true
}

#[derive(Debug, Clone, Copy, PartialEq, Eq, Structural)]
pub struct OrderStatusResponse {
    pub order_id: OrderId,
    pub previous_status: OrderStatus,
    pub status: OrderStatus,
}

impl OrderStatusResponse {
    pub fn from_change(changed: StatusChanged) -> (r: OrderStatusResponse)
        ensures
            r.order_id == changed.order_id,
            r.previous_status == changed.from,
            r.status == changed.to,
    {
        OrderStatusResponse {
            order_id: changed.order_id,
            previous_status: changed.from,
            status: changed.to,
        }
    }
}

impl UpdateOrderStatusRequest {
    pub open spec fn spec_issues(&self) -> Seq<(Seq<char>, Seq<char>)> {
        issue_if(opt_length_ok(self.note, None, Some(1000), None), "note"@, "length"@)
    }

    /// A note, when given, is at most 1000 characters.
    pub fn validate(&self) -> (r: Result<(), Vec<ValidationIssue>>)
        ensures
            r is Ok <==> self.spec_issues().len() == 0,
            r matches Err(issues) ==> issue_views(issues@) == self.spec_issues(),
    {
        let ok = match &self.note {
            Some(note) => length_ok(note.as_str(), None, Some(1000), None),
            None => true,
        };
        if ok {
            Ok(())
        } else {
            let mut issues: Vec<ValidationIssue> = Vec::new();
            issues.push(length_issue("note"));
            assert(issue_views(issues@) =~= self.spec_issues());
            Err(issues)
        }
    }

    /// The command for the order `order_id`.
    pub fn into_command(self, order_id: OrderId) -> (c: UpdateOrderStatus)
        ensures
            c.order_id == order_id,
            c.status == self.status,
            c.note == self.note,
            c.is_public == self.is_public,
    {
        UpdateOrderStatus {
            order_id,
            status: self.status,
            note: self.note,
            is_public: self.is_public,
        }
    }
}

} // verus!
