//! Core of a payment orchestration switch: the operation pipeline that drives
//! a payment through its lifecycle operations, with status-transition guards,
//! idempotent creation, per-payment locking, typed update statements and audit
//! emission, together with the card-vault envelope protocol around it.

pub mod audit;
pub mod card;
pub mod create;
pub mod customers;
pub mod enums;
pub mod envelope;
pub mod errors;
pub mod guard;
pub mod ids;
pub mod json;
pub mod lock;
pub mod payment_methods;
pub mod payments;
pub mod pipeline;
pub mod records;
pub mod reject;
pub mod store;
pub mod transformers;
pub mod updates;
pub mod vault;
