use azure_service_bus::error::{interpret_results, AzureRequestError, BuildError};
use azure_service_bus::message::{BrokerProperties, BrokeredMessage};
use azure_service_bus::queue::{QueueClient, DEFAULT_TIMEOUT_SECS};
use azure_service_bus::request::{
    lock_request, message_update_path, message_update_uri, receive_request, send_request, Method,
    BROKER_PROPERTIES_HEADER, CONTENT_TYPE_VAL,
};
use azure_service_bus::sas::generate_sas_at;
use azure_service_bus::subscription::SubscriptionClient;

const CONN: &str = "Endpoint=sb://ns.servicebus.windows.net/;SharedAccessKeyName=RootManageSharedAccessKey;SharedAccessKey=c2VjcmV0LWtleQ==";

fn leased(sequence: Option<u64>, id: Option<&str>, lock: Option<&str>) -> BrokeredMessage {
    BrokeredMessage::with_body_and_props(
        "body",
        BrokerProperties {
            MessageId: id.map(String::from),
            SequenceNumber: sequence,
            LockToken: lock.map(String::from),
        },
    )
}

fn orders() -> QueueClient {
    QueueClient::with_conn_and_queue(CONN, "orders").unwrap()
}

fn is_current_token(token: &str) -> bool {
    let se = token.split("&se=").nth(1).unwrap().split('&').next().unwrap();
    let expiry: u64 = se.parse().unwrap();
    token == generate_sas_at(CONN, expiry - 360, 360).0
}

#[test]
fn status_codes_are_classified() {
    assert!(matches!(interpret_results(200), Ok(())));
    assert!(matches!(interpret_results(201), Ok(())));
    assert!(matches!(interpret_results(400), Err(AzureRequestError::BadRequest)));
    assert!(matches!(
        interpret_results(401),
        Err(AzureRequestError::AuthorizationFailure)
    ));
    assert!(matches!(interpret_results(403), Err(AzureRequestError::ResourceFailure)));
    assert!(matches!(interpret_results(410), Err(AzureRequestError::ResourceNotFound)));
    assert!(matches!(interpret_results(500), Err(AzureRequestError::InternalError)));
    assert!(matches!(
        interpret_results(599),
        Err(AzureRequestError::UnknownError(599))
    ));
    assert!(matches!(
        interpret_results(404),
        Err(AzureRequestError::UnknownError(404))
    ));
    assert!(matches!(
        interpret_results(204),
        Err(AzureRequestError::UnknownError(204))
    ));
}

#[test]
fn failures_describe_themselves() {
    assert_eq!(AzureRequestError::BadRequest.message(), "Remote returned code 400.");
    assert_eq!(
        AzureRequestError::AuthorizationFailure.message(),
        "Remote returned 401. Check your connection string."
    );
    assert_eq!(
        AzureRequestError::ResourceFailure.message(),
        "Message failed to send. The message may be too large or the queue is full."
    );
    assert_eq!(
        AzureRequestError::ResourceNotFound.message(),
        "The requested queue does not exist or could not be found."
    );
    assert_eq!(
        AzureRequestError::InternalError.message(),
        "Remote returned 500 - Internal server error"
    );
    assert_eq!(
        AzureRequestError::UnknownError(599).message(),
        "Something unexpected happened"
    );
    assert_eq!(
        AzureRequestError::LocalMessage.message(),
        "The message doesn't exist on the server. This happens when you try and delete/lock a message you created locally."
    );
    assert_eq!(
        AzureRequestError::EmptyBus.message(),
        "Service Bus Queue/Subscription didn't have any messages before receive timed out."
    );
    assert_eq!(
        AzureRequestError::NonSerializedBody.message(),
        "Parsing the body failed. This happens if the message sender doesn't serialize the message. Call message.get_body_raw() to extract the body."
    );
    assert!(!AzureRequestError::LocalMessage.has_source());
}

#[test]
fn lock_path_prefers_the_sequence_number() {
    let message = leased(Some(42), None, Some("abc"));
    assert_eq!(
        message_update_path("/orders", &message).as_deref(),
        Some("/orders/messages/42/abc")
    );
    let message = leased(Some(42), Some("m1"), Some("abc"));
    assert_eq!(
        message_update_path("/orders", &message).as_deref(),
        Some("/orders/messages/42/abc")
    );
}

#[test]
fn lock_path_falls_back_to_the_message_id() {
    let message = leased(None, Some("m1"), Some("abc"));
    assert_eq!(
        message_update_path("/orders", &message).as_deref(),
        Some("/orders/messages/m1/abc")
    );
}

#[test]
fn lock_path_needs_an_identifier_and_a_lock_token() {
    assert_eq!(message_update_path("/orders", &leased(Some(42), Some("m1"), None)), None);
    assert_eq!(message_update_path("/orders", &leased(None, None, Some("abc"))), None);
    assert_eq!(
        message_update_path("/orders", &BrokeredMessage::with_body("local")),
        None
    );
    assert_eq!(leased(Some(7), None, Some("t")).props.lock_parts(), Some(("7".to_string(), "t".to_string())));
}

#[test]
fn queue_addresses_a_locked_message() {
    let queue = orders();
    assert_eq!(
        queue
            .get_message_update_path(&leased(Some(42), None, Some("abc")))
            .unwrap(),
        "https://ns.servicebus.windows.net/orders/messages/42/abc"
    );
    assert_eq!(
        queue
            .get_message_update_path(&leased(None, Some("m1"), Some("abc")))
            .unwrap(),
        "https://ns.servicebus.windows.net/orders/messages/m1/abc"
    );
}

#[test]
fn local_message_has_no_address() {
    let queue = orders();
    let local = BrokeredMessage::with_body("made here");
    assert!(matches!(
        queue.get_message_update_path(&local),
        Err(AzureRequestError::LocalMessage)
    ));
    assert!(matches!(
        message_update_uri("https://ns.servicebus.windows.net/", "/orders", &local),
        Err(AzureRequestError::LocalMessage)
    ));
}

#[test]
fn lock_operations_refuse_a_local_message() {
    let mut queue = orders();
    assert!(matches!(
        queue.renew_message(&BrokeredMessage::with_body("a")),
        Err(BuildError::Request(AzureRequestError::LocalMessage))
    ));
    assert!(matches!(
        queue.abandon_message(BrokeredMessage::with_body("a")),
        Err(BuildError::Request(AzureRequestError::LocalMessage))
    ));
    assert!(matches!(
        queue.complete_message(BrokeredMessage::with_body("a")),
        Err(BuildError::Request(AzureRequestError::LocalMessage))
    ));
    let mut subscription =
        SubscriptionClient::with_conn_topic_and_subscr(CONN, "news", "mine").unwrap();
    assert!(matches!(
        subscription.renew_message(&BrokeredMessage::with_body("a")),
        Err(BuildError::Request(AzureRequestError::LocalMessage))
    ));
    assert!(matches!(
        subscription.abandon_message(BrokeredMessage::with_body("a")),
        Err(BuildError::Request(AzureRequestError::LocalMessage))
    ));
    assert!(matches!(
        subscription.complete_message(BrokeredMessage::with_body("a")),
        Err(BuildError::Request(AzureRequestError::LocalMessage))
    ));
}

#[test]
fn address_that_is_no_uri_counts_as_local() {
    let message = leased(None, Some("m 1"), Some("abc"));
    assert!(matches!(
        message_update_uri("https://ns.servicebus.windows.net/", "/orders", &message),
        Err(AzureRequestError::LocalMessage)
    ));
}

#[test]
fn queue_client_reads_the_connection_string() {
    let queue = orders();
    assert_eq!(queue.queue(), "orders");
    assert_eq!(queue.endpoint(), "https://ns.servicebus.windows.net/");
}

#[test]
fn queue_client_needs_an_endpoint() {
    assert!(matches!(
        QueueClient::with_conn_and_queue("SharedAccessKey=k", "orders"),
        Err(BuildError::EndpointMissing)
    ));
    assert!(matches!(
        QueueClient::with_conn_and_queue("Endpoint=sb://bad host/", "orders"),
        Err(BuildError::InvalidUri)
    ));
}

#[test]
fn endpoint_must_be_a_uri() {
    assert!(QueueClient::with_conn_and_queue("Endpoint=sb://ns.servicebus.windows.net/", "q").is_ok());
    assert!(matches!(
        QueueClient::with_conn_and_queue("Endpoint=", "q"),
        Err(BuildError::InvalidUri)
    ));
    assert!(matches!(
        QueueClient::with_conn_and_queue("Endpoint", "q"),
        Err(BuildError::InvalidUri)
    ));
    assert_eq!(BROKER_PROPERTIES_HEADER, "BrokerProperties");
    assert_eq!(CONTENT_TYPE_VAL, "application/atom+xml;type=entry;charset=utf-8");
}

#[test]
fn queue_send_message() {
    let mut queue = QueueClient::with_conn_and_queue(CONN, "test1").unwrap();
    let message = BrokeredMessage::with_body("Cats and Dogs");
    let request = queue.send(message, "{}").unwrap();
    assert_eq!(request.method, Method::Post);
    assert_eq!(
        request.uri,
        "https://ns.servicebus.windows.net/test1/messages?timeout=30"
    );
    assert_eq!(
        request.content_type.as_deref(),
        Some("application/atom+xml;type=entry;charset=utf-8")
    );
    assert_eq!(request.broker_properties.as_deref(), Some("{}"));
    assert_eq!(request.body.as_deref(), Some("Cats and Dogs"));
    assert!(is_current_token(&request.authorization));
    assert!(interpret_results(201).is_ok());
}

#[test]
fn queue_receive_message() {
    let mut queue = QueueClient::with_conn_and_queue(CONN, "test1").unwrap();
    let request = queue.receive_and_delete().unwrap();
    assert_eq!(request.method, Method::Delete);
    assert_eq!(
        request.uri,
        "https://ns.servicebus.windows.net/test1/messages/head?timeout=30"
    );
    assert_eq!(request.body, None);
    assert_eq!(request.content_type, None);
    assert_eq!(request.broker_properties, None);
    assert!(is_current_token(&request.authorization));
    assert!(interpret_results(200).is_ok());
}

#[test]
fn queue_complete_message() {
    let mut queue = QueueClient::with_conn_and_queue(CONN, "test1").unwrap();
    let request = queue.receive().unwrap();
    assert_eq!(request.method, Method::Post);
    assert_eq!(
        request.uri,
        "https://ns.servicebus.windows.net/test1/messages/head?timeout=30"
    );
    let message = BrokeredMessage::with_body_and_props(
        "test message",
        BrokerProperties {
            MessageId: Some("m1".to_string()),
            SequenceNumber: Some(3),
            LockToken: Some("lock-1".to_string()),
        },
    );
    let request = queue.complete_message(message).unwrap();
    assert_eq!(request.method, Method::Delete);
    assert_eq!(
        request.uri,
        "https://ns.servicebus.windows.net/test1/messages/3/lock-1"
    );
    assert!(is_current_token(&request.authorization));
    assert!(interpret_results(200).is_ok());
}

#[test]
fn queue_operations_choose_their_methods() {
    let mut queue = orders();
    assert_eq!(DEFAULT_TIMEOUT_SECS, 30);
    let request = queue.receive_with_timeout(5).unwrap();
    assert_eq!(request.method, Method::Post);
    assert_eq!(
        request.uri,
        "https://ns.servicebus.windows.net/orders/messages/head?timeout=5"
    );
    let request = queue.receive_and_delete_with_timeout(0).unwrap();
    assert_eq!(request.method, Method::Delete);
    assert_eq!(
        request.uri,
        "https://ns.servicebus.windows.net/orders/messages/head?timeout=0"
    );
    let request = queue
        .send_with_timeout(BrokeredMessage::with_body("b"), "{\"MessageId\":\"m\"}", 7)
        .unwrap();
    assert_eq!(request.method, Method::Post);
    assert_eq!(
        request.uri,
        "https://ns.servicebus.windows.net/orders/messages?timeout=7"
    );
    assert_eq!(request.broker_properties.as_deref(), Some("{\"MessageId\":\"m\"}"));
    let request = queue
        .abandon_message(leased(Some(42), None, Some("abc")))
        .unwrap();
    assert_eq!(request.method, Method::Put);
    assert_eq!(
        request.uri,
        "https://ns.servicebus.windows.net/orders/messages/42/abc"
    );
    let request = queue.renew_message(&leased(None, Some("m1"), Some("abc"))).unwrap();
    assert_eq!(request.method, Method::Post);
    assert_eq!(
        request.uri,
        "https://ns.servicebus.windows.net/orders/messages/m1/abc"
    );
}

#[test]
fn queue_refreshes_its_token() {
    let mut queue = orders();
    let first = queue.refresh_sas();
    let again = queue.refresh_sas();
    assert_eq!(first, again);
    let later = queue.refresh_sas_at(u64::MAX - 400);
    assert_ne!(later, first);
    assert_eq!(later, generate_sas_at(CONN, u64::MAX - 400, 360).0);
    assert_eq!(queue.refresh_sas_at(u64::MAX - 500), later);
}

#[test]
fn subscription_client_reads_the_connection_string() {
    let subscription =
        SubscriptionClient::with_conn_topic_and_subscr(CONN, "news", "mine").unwrap();
    assert_eq!(subscription.topic(), "news");
    assert_eq!(subscription.subscription(), "mine");
    assert_eq!(subscription.endpoint(), "https://ns.servicebus.windows.net/");
    assert!(matches!(
        SubscriptionClient::with_conn_topic_and_subscr("Endpoint=sb://bad host/", "news", "mine"),
        Err(BuildError::InvalidUri)
    ));
}

#[test]
fn subscription_operations_are_addressed_below_the_topic() {
    let mut subscription =
        SubscriptionClient::with_conn_topic_and_subscr(CONN, "news", "mine").unwrap();
    let request = subscription.receive().unwrap();
    assert_eq!(request.method, Method::Post);
    assert_eq!(
        request.uri,
        "https://ns.servicebus.windows.net/news/subscriptions/mine/messages/head?timeout=30"
    );
    let request = subscription.receive_and_delete().unwrap();
    assert_eq!(request.method, Method::Delete);
    let request = subscription.receive_with_timeout(9).unwrap();
    assert_eq!(
        request.uri,
        "https://ns.servicebus.windows.net/news/subscriptions/mine/messages/head?timeout=9"
    );
    let request = subscription.receive_and_delete_with_timeout(9).unwrap();
    assert_eq!(request.method, Method::Delete);
    let request = subscription
        .complete_message(leased(Some(42), None, Some("abc")))
        .unwrap();
    assert_eq!(request.method, Method::Delete);
    assert_eq!(
        request.uri,
        "https://ns.servicebus.windows.net/news/subscriptions/mine/messages/42/abc"
    );
    assert_eq!(
        subscription
            .get_message_update_path(&leased(None, Some("m1"), Some("abc")))
            .unwrap(),
        "https://ns.servicebus.windows.net/news/subscriptions/mine/messages/m1/abc"
    );
    let request = subscription
        .abandon_message(leased(Some(1), None, Some("l")))
        .unwrap();
    assert_eq!(request.method, Method::Put);
    let request = subscription.renew_message(&leased(Some(1), None, Some("l"))).unwrap();
    assert_eq!(request.method, Method::Post);
    assert!(is_current_token(&subscription.refresh_sas()));
}

#[test]
fn token_that_no_header_can_hold_is_refused() {
    let endpoint = "https://ns.servicebus.windows.net/";
    assert!(matches!(
        receive_request(Method::Post, endpoint, "/orders", 30, "bad\u{1}token".to_string()),
        Err(BuildError::InvalidHeader)
    ));
    assert!(matches!(
        lock_request(
            Method::Put,
            endpoint,
            "/orders",
            &leased(Some(1), None, Some("l")),
            "bad\ntoken".to_string()
        ),
        Err(BuildError::InvalidHeader)
    ));
    assert!(matches!(
        send_request(
            endpoint,
            "/orders",
            "body".to_string(),
            "{\u{7f}}".to_string(),
            30,
            "token".to_string()
        ),
        Err(BuildError::InvalidHeader)
    ));
    let request =
        receive_request(Method::Post, endpoint, "/orders", 30, "tab\tand \u{e9}".to_string())
            .unwrap();
    assert_eq!(request.authorization, "tab\tand \u{e9}");
}

#[test]
fn path_that_is_no_uri_is_refused() {
    assert!(matches!(
        receive_request(
            Method::Post,
            "https://ns.servicebus.windows.net/",
            "/or ders",
            30,
            "token".to_string()
        ),
        Err(BuildError::InvalidUri)
    ));
    assert!(matches!(
        send_request(
            "not a uri",
            "/orders",
            "body".to_string(),
            "{}".to_string(),
            30,
            "token".to_string()
        ),
        Err(BuildError::InvalidUri)
    ));
}

#[test]
fn messages_carry_their_parts() {
    let message = BrokeredMessage::with_body("Cats and Dogs");
    assert_eq!(message.props.MessageId, None);
    assert_eq!(message.props.SequenceNumber, None);
    assert_eq!(message.props.LockToken, None);
    assert_eq!(message.into_body(), "Cats and Dogs");
    let props = BrokerProperties::default();
    assert_eq!(props.lock_parts(), None);
}
