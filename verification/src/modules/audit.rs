//! Audit trail for security-relevant and business-critical actions. An entry
//! is written with the same transaction as the change it records.
use vstd::prelude::*;

use crate::ids::UserId;

verus! {

#[derive(Debug, Clone, Copy, PartialEq, Eq, Structural)]
pub enum Actor {
    User(UserId),
    /// Background jobs, schedulers.
    System,
    /// Payment gateway webhooks and other integrations.
    External,
}

impl Actor {
    pub open spec fn spec_actor_type(self) -> Seq<char> {
        match self {
            Actor::User(_) => "USER"@,
            Actor::System => "SYSTEM"@,
            Actor::External => "EXTERNAL"@,
        }
    }

    /// The `actor_type` and `actor_user_id` columns of an audit record.
    pub fn columns(self) -> (r: (&'static str, Option<UserId>))
        ensures
            r.0@ == self.spec_actor_type(),
            r.1 == (match self {
                Actor::User(id) => Some(id),
                _ => None,
            }),
    {
        match self {
            Actor::User(id) => ("USER", Some(id)),
            Actor::System => ("SYSTEM", None),
            Actor::External => ("EXTERNAL", None),
        }
    }
}

/// An empty JSON object, `serde_json::Value::Object(Default::default())`.
#[verifier::external_body]
fn empty_json_object() -> serde_json::Value {
    serde_json::Value::Object(serde_json::Map::new())
}

/// One audit record. `action` uses `<module>.<past_tense_verb>` naming,
/// e.g. `quotation.accepted`, `order.status_changed`, `supplier.verified`.
pub struct AuditEntry {
    pub actor: Actor,
    pub action: &'static str,
    pub entity_type: &'static str,
    pub entity_id: Option<u128>,
    /// Context such as `{"from": "SENT", "to": "ACCEPTED"}`. Never includes
    /// passwords, tokens, card data or full documents.
    pub metadata: serde_json::Value,
}

impl AuditEntry {
    /// An entry about the entity `entity_id`, with empty metadata.
    pub fn new(actor: Actor, action: &'static str, entity_type: &'static str, entity_id: u128) -> (e:
        AuditEntry)
        ensures
            e.actor == actor,
            e.action == action,
            e.entity_type == entity_type,
            e.entity_id == Some(entity_id),
    {
        AuditEntry {
            actor,
            action,
            entity_type,
            entity_id: Some(entity_id),
            metadata: empty_json_object(),
        }
    }

    pub fn with_metadata(self, metadata: serde_json::Value) -> (e: AuditEntry)
        ensures
            e.actor == self.actor,
            e.action == self.action,
            e.entity_type == self.entity_type,
            e.entity_id == self.entity_id,
            e.metadata == metadata,
    {
        AuditEntry { metadata, ..self }
    }
}

} // verus!
