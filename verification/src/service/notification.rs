//! The notification service: subscribing, unsubscribing, and the fan-out
//! of one product event to the subscribers of its product type.
//!
//! Product types are compared without regard to case: every operation
//! takes the upper-case form of the product type it is given as the key
//! under which the registry is read or changed.

use crate::error::NotificationError;
use crate::model::delivery::{callback_to, Delivery, DeliveryView};
use crate::model::notification::{
    addressed_to, event_payload, lemma_wire_names_differ, wire_members, Notification,
    NotificationView,
};
use crate::model::product::Product;
use crate::model::subscriber::{Subscriber, SubscriberView};
use crate::repository::subscriber::{
    distinct_keys, law_registered_is_listed, registered, subscribers_of, with_subscriber,
    without_subscriber, RegistrationView, SubscriberRepository,
};
use crate::text::{to_uppercase, uppercase};
use vstd::prelude::*;

verus! {

/// The deliveries of one event: one per subscriber, in the order of
/// `subscribers`, each with the payload addressed to that subscriber.
pub open spec fn deliveries_for(
    payload: NotificationView,
    subscribers: Seq<SubscriberView>,
) -> Seq<DeliveryView> {
    Seq::new(
        subscribers.len(),
        |i: int| DeliveryView { subscriber: subscribers[i], payload: addressed_to(payload, subscribers[i].name) },
    )
}

/// Plans one delivery per subscriber of `subscribers`, each with its own
/// copy of `payload`.
pub fn plan_deliveries(
    payload: &Notification,
    subscribers: &Vec<Subscriber>,
) -> (deliveries: Vec<Delivery>)
    ensures
        deliveries.deep_view() == deliveries_for(payload@, subscribers.deep_view()),
{
    let mut deliveries: Vec<Delivery> = Vec::new();
    let mut i: usize = 0;
    while i < subscribers.len()
        invariant
            i <= subscribers.len(),
            deliveries.deep_view() == deliveries_for(payload@, subscribers.deep_view()).take(i as int),
        decreases subscribers.len() - i,
    {
        let ghost planned = deliveries.deep_view();
        let ghost all = deliveries_for(payload@, subscribers.deep_view());
        let subscriber = subscribers[i].clone();
        let addressed = payload.for_recipient(&subscriber);
        deliveries.push(Delivery { subscriber, payload: addressed });
        assert(deliveries.deep_view() =~= planned.push(all[i as int]));
        assert(all.take(i + 1) =~= all.take(i as int).push(all[i as int]));
        i += 1;
    }
    assert(deliveries_for(payload@, subscribers.deep_view()).take(i as int) =~= deliveries_for(
        payload@,
        subscribers.deep_view(),
    ));
    deliveries
}

/// An event on a product type that has no subscriber plans no delivery.
pub proof fn law_no_subscribers_no_deliveries(
    payload: NotificationView,
    entries: Seq<RegistrationView>,
    product_type: Seq<char>,
)
    requires
        subscribers_of(entries, product_type).len() == 0,
    ensures
        deliveries_for(payload, subscribers_of(entries, product_type)).len() == 0,
{
}

/// An event plans exactly one delivery per subscriber, addressed to that
/// subscriber's URL. Any two of its deliveries carry the same payload but
/// for the recipient's name: their wire objects hold the event, the
/// product's identifier and title and the product type of the event under
/// the same names, and differ at most in the member that names the
/// recipient.
pub proof fn law_deliveries_differ_only_in_recipient(
    payload: NotificationView,
    subscribers: Seq<SubscriberView>,
    i: int,
    j: int,
)
    requires
        0 <= i < subscribers.len(),
        0 <= j < subscribers.len(),
    ensures
        ({
            let deliveries = deliveries_for(payload, subscribers);
            let first = wire_members(deliveries[i].payload);
            let second = wire_members(deliveries[j].payload);
            &&& deliveries.len() == subscribers.len()
            &&& deliveries[i].subscriber == subscribers[i]
            &&& addressed_to(deliveries[i].payload, subscribers[j].name) == deliveries[j].payload
            &&& callback_to(deliveries[i].subscriber, deliveries[i].payload) matches Ok(request)
                ==> request.url == subscribers[i].url
            &&& first.remove("subscriber_name"@) == second.remove("subscriber_name"@)
            &&& first["status"@] == payload.status
            &&& first["id"@] == payload.product_url
            &&& first["product_title"@] == payload.product_title
            &&& first["product_type"@] == payload.product_type
            &&& first["subscriber_name"@] == subscribers[i].name
        }),
{
    lemma_wire_names_differ();
    let deliveries = deliveries_for(payload, subscribers);
    let first = wire_members(deliveries[i].payload);
    let second = wire_members(deliveries[j].payload);
    assert(first.remove("subscriber_name"@) =~= second.remove("subscriber_name"@));
}

/// The delivery planned for a subscriber depends on that subscriber and on
/// the event alone: two lists of subscribers that hold the same subscriber
/// at `i` plan the same delivery at `i`, whoever else is in them.
pub proof fn law_delivery_is_independent(
    payload: NotificationView,
    some: Seq<SubscriberView>,
    others: Seq<SubscriberView>,
    i: int,
)
    requires
        0 <= i < some.len(),
        0 <= i < others.len(),
        some[i] == others[i],
    ensures
        deliveries_for(payload, some)[i] == deliveries_for(payload, others)[i],
{
}

/// A subscriber that has just subscribed to a product type gets a delivery
/// of the next event on that product type.
pub proof fn law_subscriber_is_notified(
    entries: Seq<RegistrationView>,
    product_type: Seq<char>,
    subscriber: SubscriberView,
    payload: NotificationView,
)
    ensures
        ({
            let deliveries = deliveries_for(
                payload,
                subscribers_of(with_subscriber(entries, product_type, subscriber), product_type),
            );
            exists|i: int| 0 <= i < deliveries.len() && (#[trigger] deliveries[i]).subscriber == subscriber
        }),
{
    law_registered_is_listed(entries, product_type, subscriber);
    let subscribers = subscribers_of(with_subscriber(entries, product_type, subscriber), product_type);
    let i = choose|i: int| 0 <= i < subscribers.len() && subscribers[i] == subscriber;
    assert(deliveries_for(payload, subscribers)[i].subscriber == subscriber);
}

/// The notification service. It owns the registry of subscribers.
pub struct NotificationService {
    repository: SubscriberRepository,
}

impl View for NotificationService {
    type V = Seq<RegistrationView>;

    closed spec fn view(&self) -> Seq<RegistrationView> {
        self.repository@
    }
}

impl NotificationService {
    /// A service with an empty registry.
    pub fn new() -> (service: Self)
        ensures
            service@ == Seq::<RegistrationView>::empty(),
    {
        NotificationService { repository: SubscriberRepository::new() }
    }

    /// The registry of this service.
    pub fn repository(&self) -> (repository: &SubscriberRepository)
        ensures
            repository@ == self@,
            distinct_keys(self@),
    {
        proof {
            use_type_invariant(&self.repository);
        }
        &self.repository
    }

    /// Registers `subscriber` under the upper-case form of `product_type`
    /// and returns what is now stored. It always succeeds; a registration
    /// of the same URL under that product type is overwritten.
    pub fn subscribe(&mut self, product_type: &str, subscriber: Subscriber) -> (result: Result<
        Subscriber,
        NotificationError,
    >)
        ensures
            distinct_keys(final(self)@),
            final(self)@ == with_subscriber(old(self)@, uppercase(product_type@), subscriber@),
            result matches Ok(stored) && stored@ == subscriber@,
    {
        let product_type_upper = to_uppercase(product_type);
        let stored = self.repository.add(product_type_upper.as_str(), subscriber);
        Ok(stored)
    }

    /// Takes out the subscriber registered with `url` under the upper-case
    /// form of `product_type` and returns it. Where there is none, the
    /// registry stays as it is and the result is `NotFound`.
    pub fn unsubscribe(&mut self, product_type: &str, url: &str) -> (result: Result<
        Subscriber,
        NotificationError,
    >)
        ensures
            distinct_keys(final(self)@),
            final(self)@ == without_subscriber(old(self)@, uppercase(product_type@), url@),
            match result {
                Ok(removed) => registered(old(self)@, uppercase(product_type@), url@) == Some(
                    removed@,
                ),
                Err(error) => {
                    &&& error == NotificationError::NotFound
                    &&& registered(old(self)@, uppercase(product_type@), url@) is None
                    &&& final(self)@ == old(self)@
                },
            },
    {
        let product_type_upper = to_uppercase(product_type);
        match self.repository.delete(product_type_upper.as_str(), url) {
            Some(removed) => Ok(removed),
            None => Err(NotificationError::NotFound),
        }
    }

    /// Plans the deliveries of the event `status` on `product`: one for
    /// each subscriber now registered under the upper-case form of
    /// `product_type`, in registry order. Nothing is sent here and nothing
    /// can fail: the caller hands each delivery to a worker of its own.
    pub fn notify(
        &self,
        product_type: &str,
        status: &str,
        product: Product,
    ) -> (deliveries: Vec<Delivery>)
        ensures
            deliveries.deep_view() == deliveries_for(
                event_payload(product_type@, status@, product@),
                subscribers_of(self@, uppercase(product_type@)),
            ),
            deliveries.len() == subscribers_of(self@, uppercase(product_type@)).len(),
    {
        let payload = Notification::build(product_type, status, &product);
        let product_type_upper = to_uppercase(product_type);
        let subscribers = self.repository.list_all(product_type_upper.as_str());
        let deliveries = plan_deliveries(&payload, &subscribers);
        assert(deliveries.deep_view().len() == deliveries.len());
        deliveries
    }
}

} // verus!
