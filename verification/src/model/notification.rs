//! The notification: what one callback tells one subscriber about a
//! product event.

use crate::json::{insert_member, members, new_object, object_text, write_object};
use crate::model::product::{Product, ProductView};
use crate::model::subscriber::Subscriber;
use crate::text::{decimal, decimal_string};
use vstd::prelude::*;

verus! {

/// The payload of one callback. It is built once per event; only
/// `subscriber_name` differs between the copies sent to the subscribers.
#[derive(Debug, PartialEq, Eq)]
pub struct Notification {
    pub product_title: String,
    pub product_type: String,
    pub product_url: String,
    pub subscriber_name: String,
    pub status: String,
}

/// The mathematical value of a [`Notification`].
pub struct NotificationView {
    pub product_title: Seq<char>,
    pub product_type: Seq<char>,
    pub product_url: Seq<char>,
    pub subscriber_name: Seq<char>,
    pub status: Seq<char>,
}

impl View for Notification {
    type V = NotificationView;

    open spec fn view(&self) -> NotificationView {
        NotificationView {
            product_title: self.product_title@,
            product_type: self.product_type@,
            product_url: self.product_url@,
            subscriber_name: self.subscriber_name@,
            status: self.status@,
        }
    }
}

impl Clone for Notification {
    fn clone(&self) -> (copy: Self)
        ensures
            copy@ == self@,
    {
        Notification {
            product_title: self.product_title.clone(),
            product_type: self.product_type.clone(),
            product_url: self.product_url.clone(),
            subscriber_name: self.subscriber_name.clone(),
            status: self.status.clone(),
        }
    }
}

/// The payload of the event `status` on `product` under `product_type`,
/// addressed to nobody yet: the product is named by its title and by the
/// decimal numeral of its identifier.
pub open spec fn event_payload(
    product_type: Seq<char>,
    status: Seq<char>,
    product: ProductView,
) -> NotificationView {
    NotificationView {
        product_title: product.title,
        product_type,
        product_url: decimal(product.id),
        subscriber_name: Seq::empty(),
        status,
    }
}

/// `payload` as it goes to the subscriber called `name`.
pub open spec fn addressed_to(payload: NotificationView, name: Seq<char>) -> NotificationView {
    NotificationView { subscriber_name: name, ..payload }
}

/// The members of the JSON object that carries `payload` on the wire: the
/// event, the product's identifier and title, the product type and the
/// recipient's name.
pub open spec fn wire_members(payload: NotificationView) -> Map<Seq<char>, Seq<char>> {
    Map::empty().insert("status"@, payload.status).insert("id"@, payload.product_url).insert(
        "product_title"@,
        payload.product_title,
    ).insert("product_type"@, payload.product_type).insert(
        "subscriber_name"@,
        payload.subscriber_name,
    )
}

/// The body of the callback that carries `payload`: its wire object
/// written out as JSON text; `None` where that cannot be written.
pub open spec fn wire_body(payload: NotificationView) -> Option<Seq<char>> {
    object_text(wire_members(payload))
}

/// The five names of the wire object differ from one another.
pub proof fn lemma_wire_names_differ()
    ensures
        "status"@ != "id"@,
        "status"@ != "product_title"@,
        "status"@ != "product_type"@,
        "status"@ != "subscriber_name"@,
        "id"@ != "product_title"@,
        "id"@ != "product_type"@,
        "id"@ != "subscriber_name"@,
        "product_title"@ != "product_type"@,
        "product_title"@ != "subscriber_name"@,
        "product_type"@ != "subscriber_name"@,
{
    reveal_strlit("status");
    reveal_strlit("id");
    reveal_strlit("product_title");
    reveal_strlit("product_type");
    reveal_strlit("subscriber_name");
    assert("status"@.len() == 6);
    assert("id"@.len() == 2);
    assert("product_title"@.len() == 13);
    assert("product_type"@.len() == 12);
    assert("subscriber_name"@.len() == 15);
}

impl Notification {
    /// Builds the payload of one event, with the recipient's name left
    /// blank. The product type is carried as the caller wrote it.
    pub fn build(product_type: &str, status: &str, product: &Product) -> (payload: Notification)
        ensures
            payload@ == event_payload(product_type@, status@, product@),
    {
        Notification {
            product_title: product.title.clone(),
            product_type: product_type.to_owned(),
            product_url: decimal_string(product.id),
            subscriber_name: String::new(),
            status: status.to_owned(),
        }
    }

    /// Writes this payload out as the body of a callback; `None` where the
    /// JSON text cannot be written.
    pub fn encode(&self) -> (body: Option<String>)
        ensures
            match body {
                Some(text) => wire_body(self@) == Some(text@),
                None => wire_body(self@) is None,
            },
    {
        let mut object = new_object();
        assert(members(object) =~= Map::empty());
        insert_member(&mut object, "status".to_owned(), self.status.clone());
        insert_member(&mut object, "id".to_owned(), self.product_url.clone());
        insert_member(&mut object, "product_title".to_owned(), self.product_title.clone());
        insert_member(&mut object, "product_type".to_owned(), self.product_type.clone());
        insert_member(&mut object, "subscriber_name".to_owned(), self.subscriber_name.clone());
        match write_object(&object) {
            Ok(text) => Some(text),
            Err(_) => None,
        }
    }

    /// The copy of this payload that goes to `subscriber`.
    pub fn for_recipient(&self, subscriber: &Subscriber) -> (copy: Notification)
        ensures
            copy@ == addressed_to(self@, subscriber.name@),
    {
        Notification {
            product_title: self.product_title.clone(),
            product_type: self.product_type.clone(),
            product_url: self.product_url.clone(),
            subscriber_name: subscriber.name.clone(),
            status: self.status.clone(),
        }
    }
}

} // verus!
