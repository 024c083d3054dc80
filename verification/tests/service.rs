use notification_core::error::NotificationError;
use notification_core::model::delivery::{CallbackResult, DeliveryOutcome};
use notification_core::model::product::Product;
use notification_core::model::subscriber::Subscriber;
use notification_core::service::notification::{plan_deliveries, NotificationService};
use notification_core::model::notification::Notification;
use rocket::serde::json::{from_str, Value};

fn subscriber(url: &str, name: &str) -> Subscriber {
    Subscriber { url: url.to_string(), name: name.to_string() }
}

fn product(id: u64, title: &str) -> Product {
    Product { id, title: title.to_string() }
}

fn member(body: &str, name: &str) -> String {
    let object: Value = from_str(body).unwrap();
    object[name].as_str().unwrap().to_string()
}

#[test]
fn two_subscribers_get_one_callback_each() {
    let mut service = NotificationService::new();
    service.subscribe("book", subscriber("http://a", "A")).unwrap();
    service.subscribe("book", subscriber("http://b", "B")).unwrap();

    let deliveries = service.notify("book", "CREATED", product(1, "Systems Design"));
    assert_eq!(deliveries.len(), 2);

    let first = deliveries[0].request().unwrap();
    assert_eq!(first.url, "http://a");
    assert_eq!(first.content_type, "JSON");
    assert_eq!(member(&first.body, "status"), "CREATED");
    assert_eq!(member(&first.body, "id"), "1");
    assert_eq!(member(&first.body, "product_title"), "Systems Design");
    assert_eq!(member(&first.body, "subscriber_name"), "A");

    let second = deliveries[1].request().unwrap();
    assert_eq!(second.url, "http://b");
    assert_eq!(second.content_type, "JSON");
    assert_eq!(member(&second.body, "status"), "CREATED");
    assert_eq!(member(&second.body, "id"), "1");
    assert_eq!(member(&second.body, "product_title"), "Systems Design");
    assert_eq!(member(&second.body, "subscriber_name"), "B");
}

#[test]
fn unsubscribe_on_empty_registry_is_not_found() {
    let mut service = NotificationService::new();
    let result = service.unsubscribe("book", "http://a");
    assert_eq!(result, Err(NotificationError::NotFound));
}

#[test]
fn subscribe_returns_the_stored_subscriber() {
    let mut service = NotificationService::new();
    let result = service.subscribe("book", subscriber("http://a", "A"));
    assert_eq!(result, Ok(subscriber("http://a", "A")));
}

#[test]
fn subscribed_is_listed_under_the_upper_case_product_type() {
    let mut service = NotificationService::new();
    service.subscribe("book", subscriber("http://a", "A")).unwrap();
    assert_eq!(service.repository().list_all("BOOK"), vec![subscriber("http://a", "A")]);
    assert_eq!(service.repository().list_all("book"), Vec::<Subscriber>::new());
}

#[test]
fn product_types_are_compared_without_regard_to_case() {
    let mut service = NotificationService::new();
    service.subscribe("Book", subscriber("http://a", "A")).unwrap();
    service.subscribe("bOOK", subscriber("http://b", "B")).unwrap();
    assert_eq!(service.notify("BOOK", "CREATED", product(7, "T")).len(), 2);
    assert_eq!(service.notify("book", "CREATED", product(7, "T")).len(), 2);
    assert_eq!(service.unsubscribe("booK", "http://a"), Ok(subscriber("http://a", "A")));
    assert_eq!(service.notify("Book", "DELETED", product(7, "T")).len(), 1);
}

#[test]
fn upper_case_reaches_beyond_ascii() {
    let mut service = NotificationService::new();
    service.subscribe("caf\u{e9}", subscriber("http://a", "A")).unwrap();
    assert_eq!(service.repository().list_all("CAF\u{c9}"), vec![subscriber("http://a", "A")]);
    assert_eq!(service.notify("Caf\u{e9}", "CREATED", product(1, "T")).len(), 1);
}

#[test]
fn unsubscribe_of_unknown_url_changes_nothing() {
    let mut service = NotificationService::new();
    service.subscribe("book", subscriber("http://a", "A")).unwrap();
    service.subscribe("toy", subscriber("http://b", "B")).unwrap();

    assert_eq!(service.unsubscribe("book", "http://b"), Err(NotificationError::NotFound));
    assert_eq!(service.unsubscribe("toy", "http://a"), Err(NotificationError::NotFound));
    assert_eq!(service.unsubscribe("book", "http://A"), Err(NotificationError::NotFound));
    assert_eq!(service.unsubscribe("game", "http://a"), Err(NotificationError::NotFound));

    assert_eq!(service.repository().list_all("BOOK"), vec![subscriber("http://a", "A")]);
    assert_eq!(service.repository().list_all("TOY"), vec![subscriber("http://b", "B")]);
}

#[test]
fn unsubscribe_after_subscribe_removes_exactly_that_entry() {
    let mut service = NotificationService::new();
    service.subscribe("book", subscriber("http://a", "A")).unwrap();
    service.subscribe("toy", subscriber("http://c", "C")).unwrap();
    service.subscribe("book", subscriber("http://b", "B")).unwrap();

    assert_eq!(service.unsubscribe("book", "http://b"), Ok(subscriber("http://b", "B")));

    assert_eq!(service.repository().list_all("BOOK"), vec![subscriber("http://a", "A")]);
    assert_eq!(service.repository().list_all("TOY"), vec![subscriber("http://c", "C")]);
    assert_eq!(service.unsubscribe("book", "http://b"), Err(NotificationError::NotFound));
}

#[test]
fn subscribing_a_url_again_overwrites_it() {
    let mut service = NotificationService::new();
    service.subscribe("book", subscriber("http://a", "A")).unwrap();
    service.subscribe("book", subscriber("http://b", "B")).unwrap();
    let stored = service.subscribe("book", subscriber("http://a", "A2"));
    assert_eq!(stored, Ok(subscriber("http://a", "A2")));
    assert_eq!(
        service.repository().list_all("BOOK"),
        vec![subscriber("http://a", "A2"), subscriber("http://b", "B")]
    );
    assert_eq!(service.notify("book", "PROMOTED", product(3, "T")).len(), 2);
}

#[test]
fn same_url_under_two_product_types_is_two_subscriptions() {
    let mut service = NotificationService::new();
    service.subscribe("book", subscriber("http://a", "A")).unwrap();
    service.subscribe("toy", subscriber("http://a", "A")).unwrap();
    assert_eq!(service.unsubscribe("book", "http://a"), Ok(subscriber("http://a", "A")));
    assert_eq!(service.repository().list_all("TOY"), vec![subscriber("http://a", "A")]);
    assert_eq!(service.repository().list_all("BOOK"), Vec::<Subscriber>::new());
}

#[test]
fn notify_without_subscribers_plans_nothing() {
    let mut service = NotificationService::new();
    assert!(service.notify("book", "CREATED", product(1, "T")).is_empty());
    service.subscribe("toy", subscriber("http://a", "A")).unwrap();
    assert!(service.notify("book", "CREATED", product(1, "T")).is_empty());
    service.subscribe("book", subscriber("http://b", "B")).unwrap();
    service.unsubscribe("book", "http://b").unwrap();
    assert!(service.notify("book", "CREATED", product(1, "T")).is_empty());
}

#[test]
fn deliveries_differ_only_in_the_recipient() {
    let mut service = NotificationService::new();
    service.subscribe("book", subscriber("http://a", "A")).unwrap();
    service.subscribe("book", subscriber("http://b", "B")).unwrap();
    let deliveries = service.notify("book", "DELETED", product(42, "Dune"));
    assert_eq!(deliveries.len(), 2);

    assert_eq!(deliveries[0].subscriber, subscriber("http://a", "A"));
    assert_eq!(deliveries[1].subscriber, subscriber("http://b", "B"));

    let expected = |name: &str| Notification {
        product_title: "Dune".to_string(),
        product_type: "book".to_string(),
        product_url: "42".to_string(),
        subscriber_name: name.to_string(),
        status: "DELETED".to_string(),
    };
    assert_eq!(deliveries[0].payload, expected("A"));
    assert_eq!(deliveries[1].payload, expected("B"));

    let first = deliveries[0].request().unwrap();
    let second = deliveries[1].request().unwrap();
    assert_eq!(first.content_type, second.content_type);
    let mut first_body: Value = from_str(&first.body).unwrap();
    let mut second_body: Value = from_str(&second.body).unwrap();
    assert_eq!(first_body.as_object().unwrap().len(), 5);
    assert_eq!(first_body["product_type"], "book");
    assert_ne!(first_body, second_body);
    assert_eq!(first_body.as_object_mut().unwrap().remove("subscriber_name"), Some(Value::from("A")));
    assert_eq!(second_body.as_object_mut().unwrap().remove("subscriber_name"), Some(Value::from("B")));
    assert_eq!(first_body, second_body);
}

#[test]
fn an_unreachable_subscriber_does_not_stop_the_others() {
    let mut service = NotificationService::new();
    service.subscribe("book", subscriber("http://down", "Down")).unwrap();
    service.subscribe("book", subscriber("http://up", "Up")).unwrap();
    let mut deliveries = service.notify("book", "CREATED", product(1, "Systems Design"));
    assert_eq!(deliveries.len(), 2);
    let up = deliveries.pop().unwrap();
    let down = deliveries.pop().unwrap();

    assert_eq!(down.request().unwrap().url, "http://down");
    let failed = down.attempted(CallbackResult::TransportFailed.outcome());
    assert_eq!(failed.url, "http://down");
    assert_eq!(failed.outcome, DeliveryOutcome::Unreachable);
    assert!(!failed.outcome.is_success());

    assert_eq!(up.request().unwrap().url, "http://up");
    let delivered = up.attempted(CallbackResult::Responded { status: 200 }.outcome());
    assert_eq!(delivered.url, "http://up");
    assert_eq!(delivered.outcome, DeliveryOutcome::Delivered);
    assert!(delivered.outcome.is_success());
}

#[test]
fn plan_deliveries_follows_the_order_of_the_subscribers() {
    let payload = Notification::build("toy", "PROMOTED", &product(5, "Kite"));
    let subscribers = vec![
        subscriber("http://c", "C"),
        subscriber("http://a", "A"),
        subscriber("http://b", "B"),
    ];
    let deliveries = plan_deliveries(&payload, &subscribers);
    assert_eq!(deliveries.len(), 3);
    for i in 0..3 {
        assert_eq!(deliveries[i].subscriber, subscribers[i]);
        assert_eq!(deliveries[i].payload.subscriber_name, subscribers[i].name);
        assert_eq!(deliveries[i].payload.product_url, "5");
        assert_eq!(deliveries[i].payload.product_title, "Kite");
        assert_eq!(deliveries[i].payload.product_type, "toy");
        assert_eq!(deliveries[i].payload.status, "PROMOTED");
    }
    assert!(plan_deliveries(&payload, &Vec::new()).is_empty());
}

#[test]
fn not_found_has_its_message() {
    assert_eq!(NotificationError::NotFound.message(), "Subscriber not found.");
}
