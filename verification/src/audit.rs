//! The audit sink: an append-only stream of events, one emitted by every
//! UpdateTracker phase, independent of whether the response has been sent.

use vstd::prelude::*;

use crate::enums::{AttemptStatus, IntentStatus};
use crate::ids::{MerchantId, PaymentId};

verus! {

/// View of an [`AuditEventType`].
pub enum SpecAuditEventType {
    PaymentReject { error_code: Option<Seq<char>>, error_message: Option<Seq<char>> },
}

/// Kind of an audit event, with the outcome's error fields.
#[derive(Debug)]
pub enum AuditEventType {
    PaymentReject { error_code: Option<String>, error_message: Option<String> },
}

impl View for AuditEventType {
    type V = SpecAuditEventType;

    open spec fn view(&self) -> SpecAuditEventType {
        match self {
            AuditEventType::PaymentReject { error_code, error_message } => {
                SpecAuditEventType::PaymentReject {
                    error_code: error_code.deep_view(),
                    error_message: error_message.deep_view(),
                }
            },
        }
    }
}

/// View of an [`AuditEvent`].
pub struct SpecAuditEvent {
    pub event_type: SpecAuditEventType,
    pub payment_id: Seq<char>,
    pub merchant_id: Seq<char>,
    pub intent_status: IntentStatus,
    pub attempt_status: AttemptStatus,
}

/// One immutable audit record: the operation kind with its error fields and
/// a snapshot of the working set it was emitted for.
#[derive(Debug)]
pub struct AuditEvent {
    pub event_type: AuditEventType,
    pub payment_id: PaymentId,
    pub merchant_id: MerchantId,
    pub intent_status: IntentStatus,
    pub attempt_status: AttemptStatus,
}

impl View for AuditEvent {
    type V = SpecAuditEvent;

    open spec fn view(&self) -> SpecAuditEvent {
        SpecAuditEvent {
            event_type: self.event_type@,
            payment_id: self.payment_id@,
            merchant_id: self.merchant_id@,
            intent_status: self.intent_status,
            attempt_status: self.attempt_status,
        }
    }
}

impl DeepView for AuditEvent {
    type V = SpecAuditEvent;

    open spec fn deep_view(&self) -> SpecAuditEvent {
        self.view()
    }
}

/// The append-only event stream.
#[derive(Debug)]
pub struct AuditSink {
    pub events: Vec<AuditEvent>,
}

impl View for AuditSink {
    type V = Seq<SpecAuditEvent>;

    open spec fn view(&self) -> Seq<SpecAuditEvent> {
        self.events.deep_view()
    }
}

impl AuditSink {
    /// An empty sink.
    pub fn new() -> (r: AuditSink)
        ensures
            r@ == Seq::<SpecAuditEvent>::empty(),
    {
        let r = AuditSink { events: Vec::new() };
        proof {
            assert(r@ =~= Seq::<SpecAuditEvent>::empty());
        }
        r
    }

    /// Append one event; everything already emitted stays as it is.
    pub fn emit(&mut self, event: AuditEvent)
        ensures
            final(self)@ == old(self)@.push(event@),
    {
        let ghost pre = self@;
        self.events.push(event);
        proof {
            assert(self@ =~= pre.push(self.events@[pre.len() as int]@));
        }
    }
}

} // verus!
