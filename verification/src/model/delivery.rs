//! One delivery: the single callback that carries one notification to one
//! subscriber, and the record of how it went.
//!
//! A delivery is pending until its callback has been tried. Whatever the
//! callback comes to, the delivery is then attempted: it is recorded and
//! never tried again.

use crate::model::notification::{wire_body, Notification, NotificationView};
use crate::model::subscriber::{Subscriber, SubscriberView};
use vstd::prelude::*;

verus! {

/// The callback request of one delivery: where it goes, how its body is
/// marked, and the body, which is JSON text.
#[derive(Debug, PartialEq, Eq)]
pub struct CallbackRequest {
    pub url: String,
    pub content_type: String,
    pub body: String,
}

/// The mathematical value of a [`CallbackRequest`].
pub struct CallbackRequestView {
    pub url: Seq<char>,
    pub content_type: Seq<char>,
    pub body: Seq<char>,
}

impl View for CallbackRequest {
    type V = CallbackRequestView;

    open spec fn view(&self) -> CallbackRequestView {
        CallbackRequestView { url: self.url@, content_type: self.content_type@, body: self.body@ }
    }
}

/// What a delivery does next: it sends a request, or it has ended already
/// with an outcome.
pub open spec fn plan_view(planned: Result<CallbackRequest, DeliveryOutcome>) -> Result<
    CallbackRequestView,
    DeliveryOutcome,
> {
    match planned {
        Ok(request) => Ok(request@),
        Err(outcome) => Err(outcome),
    }
}

/// The text that an optional string holds.
pub open spec fn text_view(text: Option<String>) -> Option<Seq<char>> {
    match text {
        Some(text) => Some(text@),
        None => None,
    }
}

/// The callback that carries `body` to `url`, marked as JSON. Without a
/// body there is nothing to send, and the delivery ends as unencodable.
pub open spec fn callback_with(url: Seq<char>, body: Option<Seq<char>>) -> Result<
    CallbackRequestView,
    DeliveryOutcome,
> {
    match body {
        Some(text) => Ok(CallbackRequestView { url, content_type: "JSON"@, body: text }),
        None => Err(DeliveryOutcome::Unencodable),
    }
}

/// The callback that carries `payload` to `subscriber`.
pub open spec fn callback_to(subscriber: SubscriberView, payload: NotificationView) -> Result<
    CallbackRequestView,
    DeliveryOutcome,
> {
    callback_with(subscriber.url, wire_body(payload))
}

impl CallbackRequest {
    /// Plans the callback to `url` from what writing the body out gave.
    pub fn plan(url: String, body: Option<String>) -> (planned: Result<
        CallbackRequest,
        DeliveryOutcome,
    >)
        ensures
            plan_view(planned) == callback_with(url@, text_view(body)),
    {
        match body {
            Some(text) => Ok(CallbackRequest { url, content_type: "JSON".to_owned(), body: text }),
            None => Err(DeliveryOutcome::Unencodable),
        }
    }
}

/// What became of a callback request that was sent.
#[derive(Debug, Clone, Copy, PartialEq, Eq, Structural)]
pub enum CallbackResult {
    /// The request did not reach the endpoint, or no answer came back.
    TransportFailed,
    /// The endpoint answered with this HTTP status.
    Responded { status: u16 },
}

/// How a delivery ended.
#[derive(Debug, Clone, Copy, PartialEq, Eq, Structural)]
pub enum DeliveryOutcome {
    /// The endpoint took the callback.
    Delivered,
    /// The body could not be written out; nothing was sent.
    Unencodable,
    /// The endpoint could not be reached.
    Unreachable,
    /// The endpoint answered with a status that is no success.
    Rejected { status: u16 },
}

/// The outcome that a callback result stands for: a delivery succeeds only
/// where the endpoint answers with a status from 200 to 299.
pub open spec fn outcome_of(result: CallbackResult) -> DeliveryOutcome {
    match result {
        CallbackResult::TransportFailed => DeliveryOutcome::Unreachable,
        CallbackResult::Responded { status } => if 200 <= status < 300 {
            DeliveryOutcome::Delivered
        } else {
            DeliveryOutcome::Rejected { status }
        },
    }
}

impl CallbackResult {
    /// Classifies this result.
    pub fn outcome(&self) -> (outcome: DeliveryOutcome)
        ensures
            outcome == outcome_of(*self),
    {
        match self {
            CallbackResult::TransportFailed => DeliveryOutcome::Unreachable,
            CallbackResult::Responded { status } => {
                if 200 <= *status && *status < 300 {
                    DeliveryOutcome::Delivered
                } else {
                    DeliveryOutcome::Rejected { status: *status }
                }
            },
        }
    }
}

impl DeliveryOutcome {
    /// Whether the callback was delivered.
    pub fn is_success(&self) -> (success: bool)
        ensures
            success == (*self == DeliveryOutcome::Delivered),
    {
        match self {
            DeliveryOutcome::Delivered => true,
            _ => false,
        }
    }
}

/// A pending delivery: one subscriber and the payload addressed to it.
#[derive(Debug, PartialEq, Eq)]
pub struct Delivery {
    pub subscriber: Subscriber,
    pub payload: Notification,
}

/// The mathematical value of a [`Delivery`].
pub struct DeliveryView {
    pub subscriber: SubscriberView,
    pub payload: NotificationView,
}

impl View for Delivery {
    type V = DeliveryView;

    open spec fn view(&self) -> DeliveryView {
        DeliveryView { subscriber: self.subscriber@, payload: self.payload@ }
    }
}

impl DeepView for Delivery {
    type V = DeliveryView;

    open spec fn deep_view(&self) -> DeliveryView {
        self@
    }
}

/// The diagnostic record of one attempted delivery.
#[derive(Debug, PartialEq, Eq)]
pub struct DeliveryRecord {
    pub url: String,
    pub status: String,
    pub product_url: String,
    pub product_title: String,
    pub outcome: DeliveryOutcome,
}

/// The mathematical value of a [`DeliveryRecord`].
pub struct DeliveryRecordView {
    pub url: Seq<char>,
    pub status: Seq<char>,
    pub product_url: Seq<char>,
    pub product_title: Seq<char>,
    pub outcome: DeliveryOutcome,
}

impl View for DeliveryRecord {
    type V = DeliveryRecordView;

    open spec fn view(&self) -> DeliveryRecordView {
        DeliveryRecordView {
            url: self.url@,
            status: self.status@,
            product_url: self.product_url@,
            product_title: self.product_title@,
            outcome: self.outcome,
        }
    }
}

/// The record of `delivery` once it has ended with `outcome`.
pub open spec fn record_of(delivery: DeliveryView, outcome: DeliveryOutcome) -> DeliveryRecordView {
    DeliveryRecordView {
        url: delivery.subscriber.url,
        status: delivery.payload.status,
        product_url: delivery.payload.product_url,
        product_title: delivery.payload.product_title,
        outcome,
    }
}

/// Every result of a callback is an outcome, never an error: a success
/// only where the endpoint answered with a status from 200 to 299, and
/// unreachable where the request did not get through. The record of a
/// delivery speaks of that delivery alone, whatever its outcome.
pub proof fn law_every_result_is_recorded(delivery: DeliveryView, result: CallbackResult)
    ensures
        outcome_of(result) == DeliveryOutcome::Delivered <==> (result matches CallbackResult::Responded {
            status,
        } && 200 <= status < 300),
        result == CallbackResult::TransportFailed ==> outcome_of(result) == DeliveryOutcome::Unreachable,
        record_of(delivery, outcome_of(result)).url == delivery.subscriber.url,
        record_of(delivery, outcome_of(result)).outcome == outcome_of(result),
{
}

impl Delivery {
    /// What this delivery does next: the one callback request to send, or
    /// the outcome with which it has ended already.
    pub fn request(&self) -> (planned: Result<CallbackRequest, DeliveryOutcome>)
        ensures
            plan_view(planned) == callback_to(self.subscriber@, self.payload@),
    {
        self.subscriber.update(self.payload.clone())
    }

    /// Ends this delivery with `outcome`. Every outcome, a failure too,
    /// ends it the same way: with a record and no error.
    pub fn attempted(self, outcome: DeliveryOutcome) -> (record: DeliveryRecord)
        ensures
            record@ == record_of(self@, outcome),
    {
        DeliveryRecord {
            url: self.subscriber.url,
            status: self.payload.status,
            product_url: self.payload.product_url,
            product_title: self.payload.product_title,
            outcome,
        }
    }
}

} // verus!
