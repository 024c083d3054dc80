//! The registry of subscribers.
//!
//! A registration ties one subscriber to one product type. The registry
//! holds at most one registration per product type and URL, in the order
//! in which those pairs were first registered.

use crate::model::subscriber::{Subscriber, SubscriberView};
use vstd::prelude::*;

verus! {

/// One registration as the registry stores it.
struct Registration {
    product_type: String,
    subscriber: Subscriber,
}

/// The mathematical value of one registration.
pub struct RegistrationView {
    pub product_type: Seq<char>,
    pub subscriber: SubscriberView,
}

impl View for Registration {
    type V = RegistrationView;

    closed spec fn view(&self) -> RegistrationView {
        RegistrationView { product_type: self.product_type@, subscriber: self.subscriber@ }
    }
}

/// Whether `registration` is the one of `url` under `product_type`.
pub open spec fn keyed(
    registration: RegistrationView,
    product_type: Seq<char>,
    url: Seq<char>,
) -> bool {
    registration.product_type == product_type && registration.subscriber.url == url
}

/// No two registrations share product type and URL.
pub open spec fn distinct_keys(entries: Seq<RegistrationView>) -> bool {
    forall|i: int, j: int|
        0 <= i < j < entries.len() ==> !keyed(
            #[trigger] entries[i],
            (#[trigger] entries[j]).product_type,
            entries[j].subscriber.url,
        )
}

/// Where the registration of `url` under `product_type` stands, if there is
/// one.
pub open spec fn position(
    entries: Seq<RegistrationView>,
    product_type: Seq<char>,
    url: Seq<char>,
) -> Option<int> {
    if exists|i: int| 0 <= i < entries.len() && keyed(#[trigger] entries[i], product_type, url) {
        Some(choose|i: int| 0 <= i < entries.len() && keyed(#[trigger] entries[i], product_type, url))
    } else {
        None
    }
}

/// The subscriber registered with `url` under `product_type`, if there is
/// one.
pub open spec fn registered(
    entries: Seq<RegistrationView>,
    product_type: Seq<char>,
    url: Seq<char>,
) -> Option<SubscriberView> {
    match position(entries, product_type, url) {
        Some(i) => Some(entries[i].subscriber),
        None => None,
    }
}

/// The registry after `subscriber` is registered under `product_type`: a
/// registration of the same URL under that product type is overwritten
/// where it stands, otherwise the new one is added at the end.
pub open spec fn with_subscriber(
    entries: Seq<RegistrationView>,
    product_type: Seq<char>,
    subscriber: SubscriberView,
) -> Seq<RegistrationView> {
    let registration = RegistrationView { product_type, subscriber };
    match position(entries, product_type, subscriber.url) {
        Some(i) => entries.update(i, registration),
        None => entries.push(registration),
    }
}

/// The registry after the registration of `url` under `product_type` is
/// taken out; unchanged where there is none.
pub open spec fn without_subscriber(
    entries: Seq<RegistrationView>,
    product_type: Seq<char>,
    url: Seq<char>,
) -> Seq<RegistrationView> {
    match position(entries, product_type, url) {
        Some(i) => entries.remove(i),
        None => entries,
    }
}

/// The test that picks the registrations of `product_type`.
pub open spec fn of_product_type(product_type: Seq<char>) -> spec_fn(RegistrationView) -> bool {
    |registration: RegistrationView| registration.product_type == product_type
}

/// The projection from a registration to its subscriber.
pub open spec fn to_subscriber() -> spec_fn(RegistrationView) -> SubscriberView {
    |registration: RegistrationView| registration.subscriber
}

/// The subscribers of `product_type`, in registry order.
pub open spec fn subscribers_of(
    entries: Seq<RegistrationView>,
    product_type: Seq<char>,
) -> Seq<SubscriberView> {
    entries.filter(of_product_type(product_type)).map_values(to_subscriber())
}

/// With distinct keys, the registration found at `i` is the one that
/// `position` names.
pub proof fn lemma_position_is(
    entries: Seq<RegistrationView>,
    product_type: Seq<char>,
    url: Seq<char>,
    i: int,
)
    requires
        distinct_keys(entries),
        0 <= i < entries.len(),
        keyed(entries[i], product_type, url),
    ensures
        position(entries, product_type, url) == Some(i),
{
    let j = choose|j: int| 0 <= j < entries.len() && keyed(#[trigger] entries[j], product_type, url);
    if j < i {
        assert(!keyed(entries[j], entries[i].product_type, entries[i].subscriber.url));
    } else if i < j {
        assert(!keyed(entries[i], entries[j].product_type, entries[j].subscriber.url));
    }
}

/// Registering keeps the keys distinct.
pub proof fn lemma_with_subscriber_distinct(
    entries: Seq<RegistrationView>,
    product_type: Seq<char>,
    subscriber: SubscriberView,
)
    requires
        distinct_keys(entries),
    ensures
        distinct_keys(with_subscriber(entries, product_type, subscriber)),
{
    let after = with_subscriber(entries, product_type, subscriber);
    assert forall|i: int, j: int| 0 <= i < j < after.len() implies !keyed(
        #[trigger] after[i],
        (#[trigger] after[j]).product_type,
        after[j].subscriber.url,
    ) by {
        match position(entries, product_type, subscriber.url) {
            Some(k) => {
                assert(keyed(entries[k], product_type, subscriber.url));
                assert(!keyed(entries[i], entries[j].product_type, entries[j].subscriber.url));
            },
            None => {
                if j < entries.len() {
                    assert(!keyed(entries[i], entries[j].product_type, entries[j].subscriber.url));
                } else {
                    assert(!keyed(entries[i], product_type, subscriber.url));
                }
            },
        }
    }
}

/// Taking a registration out keeps the keys distinct.
pub proof fn lemma_without_subscriber_distinct(
    entries: Seq<RegistrationView>,
    product_type: Seq<char>,
    url: Seq<char>,
)
    requires
        distinct_keys(entries),
    ensures
        distinct_keys(without_subscriber(entries, product_type, url)),
{
    let after = without_subscriber(entries, product_type, url);
    assert forall|i: int, j: int| 0 <= i < j < after.len() implies !keyed(
        #[trigger] after[i],
        (#[trigger] after[j]).product_type,
        after[j].subscriber.url,
    ) by {
        match position(entries, product_type, url) {
            Some(k) => {
                let i0 = if i < k { i } else { i + 1 };
                let j0 = if j < k { j } else { j + 1 };
                assert(after[i] == entries[i0]);
                assert(after[j] == entries[j0]);
                assert(!keyed(entries[i0], entries[j0].product_type, entries[j0].subscriber.url));
            },
            None => {},
        }
    }
}

/// A subscriber that has just been registered under a product type stands
/// in the listing of that product type.
pub proof fn law_registered_is_listed(
    entries: Seq<RegistrationView>,
    product_type: Seq<char>,
    subscriber: SubscriberView,
)
    ensures
        subscribers_of(with_subscriber(entries, product_type, subscriber), product_type).contains(
            subscriber,
        ),
{
    let after = with_subscriber(entries, product_type, subscriber);
    let registration = RegistrationView { product_type, subscriber };
    let at = match position(entries, product_type, subscriber.url) {
        Some(i) => i,
        None => entries.len() as int,
    };
    assert(after[at] == registration);
    let chosen = after.filter(of_product_type(product_type));
    after.lemma_filter_contains(of_product_type(product_type), at);
    assert(chosen.contains(registration));
    let k = choose|k: int| 0 <= k < chosen.len() && chosen[k] == registration;
    assert(chosen.map_values(to_subscriber())[k] == subscriber);
}

/// Taking out a URL that is not registered under a product type finds
/// nothing and leaves the registry as it is.
pub proof fn law_unknown_removal_changes_nothing(
    entries: Seq<RegistrationView>,
    product_type: Seq<char>,
    url: Seq<char>,
)
    requires
        forall|i: int| 0 <= i < entries.len() ==> !keyed(#[trigger] entries[i], product_type, url),
    ensures
        registered(entries, product_type, url) is None,
        without_subscriber(entries, product_type, url) == entries,
{
}

/// Registering a subscriber and then taking its URL out again under the
/// same product type hands back that subscriber and removes exactly its
/// registration: the URL is no longer registered or listed there, every
/// other key is registered as before, and a registry that did not hold the
/// URL under that product type is as it was.
pub proof fn law_removal_undoes_registration(
    entries: Seq<RegistrationView>,
    product_type: Seq<char>,
    subscriber: SubscriberView,
)
    requires
        distinct_keys(entries),
    ensures
        ({
            let during = with_subscriber(entries, product_type, subscriber);
            let after = without_subscriber(during, product_type, subscriber.url);
            &&& registered(during, product_type, subscriber.url) == Some(subscriber)
            &&& registered(after, product_type, subscriber.url) is None
            &&& forall|k: int|
                0 <= k < subscribers_of(after, product_type).len() ==> (#[trigger] subscribers_of(
                    after,
                    product_type,
                )[k]).url != subscriber.url
            &&& forall|other_type: Seq<char>, other_url: Seq<char>|
                !(other_type == product_type && other_url == subscriber.url) ==> #[trigger] registered(
                    after,
                    other_type,
                    other_url,
                ) == registered(entries, other_type, other_url)
            &&& registered(entries, product_type, subscriber.url) is None ==> after == entries
        }),
{
    let url = subscriber.url;
    let registration = RegistrationView { product_type, subscriber };
    let during = with_subscriber(entries, product_type, subscriber);
    let after = without_subscriber(during, product_type, url);
    let at = match position(entries, product_type, url) {
        Some(i) => i,
        None => entries.len() as int,
    };
    lemma_with_subscriber_distinct(entries, product_type, subscriber);
    lemma_without_subscriber_distinct(during, product_type, url);
    assert(during[at] == registration);
    lemma_position_is(during, product_type, url, at);
    assert(after == during.remove(at));

    // No registration of the key is left.
    assert forall|i: int| 0 <= i < after.len() implies !keyed(#[trigger] after[i], product_type, url) by {
        let i0 = if i < at { i } else { i + 1 };
        assert(after[i] == during[i0]);
        if i0 < at {
            assert(!keyed(during[i0], during[at].product_type, during[at].subscriber.url));
        } else {
            assert(!keyed(during[at], during[i0].product_type, during[i0].subscriber.url));
        }
    }

    // So the listing holds no subscriber with that URL.
    let chosen = after.filter(of_product_type(product_type));
    assert forall|k: int| 0 <= k < subscribers_of(after, product_type).len() implies (
    #[trigger] subscribers_of(after, product_type)[k]).url != url by {
        assert(chosen.contains(chosen[k]));
        after.lemma_filter_contains_rev(of_product_type(product_type), chosen[k]);
        after.lemma_filter_pred(of_product_type(product_type), k);
        let i = choose|i: int| 0 <= i < after.len() && after[i] == chosen[k];
        assert(!keyed(after[i], product_type, url));
    }

    // Every other key finds what it found before.
    assert forall|other_type: Seq<char>, other_url: Seq<char>|
        !(other_type == product_type && other_url == url) implies #[trigger] registered(
        after,
        other_type,
        other_url,
    ) == registered(entries, other_type, other_url) by {
        match position(entries, other_type, other_url) {
            Some(m) => {
                assert(keyed(entries[m], other_type, other_url));
                assert(m != at);
                assert(during[m] == entries[m]);
                let m1 = if m < at { m } else { m - 1 };
                assert(after[m1] == entries[m]);
                lemma_position_is(after, other_type, other_url, m1);
            },
            None => {
                if position(after, other_type, other_url) is Some {
                    let n = position(after, other_type, other_url)->0;
                    assert(keyed(after[n], other_type, other_url));
                    let n0 = if n < at { n } else { n + 1 };
                    assert(after[n] == during[n0]);
                    assert(during[n0] == entries[n0]);
                    assert(keyed(entries[n0], other_type, other_url));
                }
            },
        }
    }

    if registered(entries, product_type, url) is None {
        assert(after =~= entries);
    }
}

/// The registry of subscribers: at most one registration per product type
/// and URL.
pub struct SubscriberRepository {
    entries: Vec<Registration>,
}

impl View for SubscriberRepository {
    type V = Seq<RegistrationView>;

    closed spec fn view(&self) -> Seq<RegistrationView> {
        self.entries@.map_values(|registration: Registration| registration@)
    }
}

impl SubscriberRepository {
    /// The registry's invariant, which holds of every registry at all
    /// times: its keys are distinct.
    #[verifier::type_invariant]
    pub open spec fn wf(&self) -> bool {
        distinct_keys(self@)
    }

    /// An empty registry.
    pub fn new() -> (repository: Self)
        ensures
            repository@ == Seq::<RegistrationView>::empty(),
    {
        let repository = SubscriberRepository { entries: Vec::new() };
        assert(repository@ =~= Seq::<RegistrationView>::empty());
        repository
    }

    /// Looks for the registration of `url` under `product_type`.
    fn find(&self, product_type: &String, url: &String) -> (found: Option<usize>)
        ensures
            match found {
                Some(i) => position(self@, product_type@, url@) == Some(i as int) && i < self@.len(),
                None => position(self@, product_type@, url@) is None,
            },
    {
        proof {
            use_type_invariant(self);
        }
        let mut i: usize = 0;
        while i < self.entries.len()
            invariant
                i <= self.entries.len(),
                self.wf(),
                forall|j: int| 0 <= j < i ==> !keyed(#[trigger] self@[j], product_type@, url@),
            decreases self.entries.len() - i,
        {
            if self.entries[i].product_type == *product_type && self.entries[i].subscriber.url == *url {
                proof {
                    lemma_position_is(self@, product_type@, url@, i as int);
                }
                return Some(i);
            }
            i += 1;
        }
        None
    }

    /// Registers `subscriber` under `product_type` and returns what is now
    /// stored. A registration of the same URL under that product type is
    /// overwritten.
    pub fn add(&mut self, product_type: &str, subscriber: Subscriber) -> (stored: Subscriber)
        ensures
            distinct_keys(final(self)@),
            final(self)@ == with_subscriber(old(self)@, product_type@, subscriber@),
            stored@ == subscriber@,
    {
        let key = product_type.to_owned();
        let stored = subscriber.clone();
        let found = self.find(&key, &subscriber.url);
        proof {
            use_type_invariant(&*self);
            lemma_with_subscriber_distinct(self@, product_type@, subscriber@);
        }
        let registration = Registration { product_type: key, subscriber };
        // The registrations are taken out while they change, so that the
        // invariant holds of `self` at every step.
        let mut entries: Vec<Registration> = Vec::new();
        assert(entries@.map_values(|registration: Registration| registration@) =~= Seq::<
            RegistrationView,
        >::empty());
        core::mem::swap(&mut self.entries, &mut entries);
        match found {
            Some(i) => {
                entries.set(i, registration);
            },
            None => {
                entries.push(registration);
            },
        }
        assert(entries@.map_values(|registration: Registration| registration@) =~= with_subscriber(
            old(self)@,
            product_type@,
            subscriber@,
        ));
        self.entries = entries;
        stored
    }

    /// Takes out the registration of `url` under `product_type` and returns
    /// its subscriber; `None`, and no change, where there is none.
    pub fn delete(&mut self, product_type: &str, url: &str) -> (removed: Option<Subscriber>)
        ensures
            distinct_keys(final(self)@),
            final(self)@ == without_subscriber(old(self)@, product_type@, url@),
            match removed {
                Some(subscriber) => registered(old(self)@, product_type@, url@) == Some(subscriber@),
                None => registered(old(self)@, product_type@, url@) is None,
            },
    {
        let key = product_type.to_owned();
        let wanted = url.to_owned();
        let found = self.find(&key, &wanted);
        proof {
            use_type_invariant(&*self);
            lemma_without_subscriber_distinct(self@, product_type@, url@);
        }
        match found {
            Some(i) => {
                let mut entries: Vec<Registration> = Vec::new();
                assert(entries@.map_values(|registration: Registration| registration@) =~= Seq::<
                    RegistrationView,
                >::empty());
                core::mem::swap(&mut self.entries, &mut entries);
                let registration = entries.remove(i);
                assert(entries@.map_values(|registration: Registration| registration@)
                    =~= without_subscriber(old(self)@, product_type@, url@));
                self.entries = entries;
                Some(registration.subscriber)
            },
            None => None,
        }
    }

    /// The subscribers of `product_type` as they stand now, in registry
    /// order.
    pub fn list_all(&self, product_type: &str) -> (subscribers: Vec<Subscriber>)
        ensures
            subscribers.deep_view() == subscribers_of(self@, product_type@),
    {
        let key = product_type.to_owned();
        let mut subscribers: Vec<Subscriber> = Vec::new();
        let mut i: usize = 0;
        assert(self@.take(0) =~= Seq::<RegistrationView>::empty());
        assert(subscribers.deep_view() =~= subscribers_of(self@.take(0), product_type@)) by {
            reveal(Seq::filter);
        }
        while i < self.entries.len()
            invariant
                i <= self.entries.len(),
                key@ == product_type@,
                subscribers.deep_view() == subscribers_of(self@.take(i as int), product_type@),
            decreases self.entries.len() - i,
        {
            let ghost before = subscribers.deep_view();
            let ghost seen = self@.take(i as int);
            let ghost current = self@[i as int];
            proof {
                assert(self@.take(i + 1) =~= seen.push(current));
                seen.lemma_filter_push(current, of_product_type(product_type@));
                assert(current == self.entries@[i as int]@);
            }
            if self.entries[i].product_type == key {
                let subscriber = self.entries[i].subscriber.clone();
                subscribers.push(subscriber);
                assert(subscribers.deep_view() =~= before.push(current.subscriber));
                assert(seen.filter(of_product_type(product_type@)).push(current).map_values(
                    to_subscriber(),
                ) =~= before.push(current.subscriber));
            }
            i += 1;
        }
        assert(self@.take(i as int) =~= self@);
        subscribers
    }
}

} // verus!
