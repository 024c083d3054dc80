//! A subscriber: the endpoint that receives the callbacks of one product
//! type.

use crate::model::delivery::{callback_to, plan_view, CallbackRequest, DeliveryOutcome};
use crate::model::notification::Notification;
use vstd::prelude::*;

verus! {

/// An endpoint registered to receive callbacks. Within one product type a
/// subscriber is identified by its `url`; `name` is a display label.
#[derive(Debug, PartialEq, Eq)]
pub struct Subscriber {
    pub url: String,
    pub name: String,
}

/// The mathematical value of a [`Subscriber`].
pub struct SubscriberView {
    pub url: Seq<char>,
    pub name: Seq<char>,
}

impl View for Subscriber {
    type V = SubscriberView;

    open spec fn view(&self) -> SubscriberView {
        SubscriberView { url: self.url@, name: self.name@ }
    }
}

impl DeepView for Subscriber {
    type V = SubscriberView;

    open spec fn deep_view(&self) -> SubscriberView {
        self@
    }
}

impl Clone for Subscriber {
    fn clone(&self) -> (copy: Self)
        ensures
            copy@ == self@,
    {
        Subscriber { url: self.url.clone(), name: self.name.clone() }
    }
}

impl Subscriber {
    /// Plans the callback that carries `payload` to this subscriber: a
    /// request to its `url`, marked as JSON, with the payload written out
    /// as its body. Where the body cannot be written the delivery has
    /// ended, as unencodable, and there is nothing to send.
    pub fn update(&self, payload: Notification) -> (planned: Result<
        CallbackRequest,
        DeliveryOutcome,
    >)
        ensures
            plan_view(planned) == callback_to(self@, payload@),
    {
        let body = payload.encode();
        CallbackRequest::plan(self.url.clone(), body)
    }
}

} // verus!
