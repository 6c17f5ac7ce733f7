use cr_api::newsletters::get_confirmed_subscribers;
use cr_api::store::{Store, SubscriberRow, SubscriberStatus};
use cr_api::subscriptions::{
    confirm, confirmation_link, generate_subscription_token, get_subscriber_id_from_token,
    subscribe, Parameters, SubscriptionData, TOKEN_LEN,
};

fn form(email: &str, name: &str) -> SubscriptionData {
    SubscriptionData::new(email.to_string(), name.to_string())
}

#[test]
fn tokens_are_25_alphanumeric_characters() {
    let token = generate_subscription_token();
    assert_eq!(token.chars().count(), TOKEN_LEN);
    assert!(token.chars().all(|c| c.is_ascii_alphanumeric()));
    // Two draws agreeing on all 25 characters would be astonishing.
    assert_ne!(token, generate_subscription_token());
}

#[test]
fn subscribe_stores_a_pending_row_and_a_token() {
    let mut store = Store::new();
    let (id, token) = subscribe(&mut store, form("a@example.com", "Ursula"), 1_000).unwrap();

    assert_eq!(store.subscriptions.len(), 1);
    assert_eq!(store.subscriptions[0].id, id);
    assert_eq!(store.subscriptions[0].email, "a@example.com");
    assert_eq!(store.subscriptions[0].name, "Ursula");
    assert_eq!(store.subscriptions[0].subscribed_at, 1_000);
    assert!(matches!(
        store.subscriptions[0].status,
        SubscriberStatus::PendingConfirmation
    ));

    assert_eq!(store.subscription_tokens.len(), 1);
    assert_eq!(store.subscription_tokens[0].subscription_token, token);
    assert_eq!(store.subscription_tokens[0].subscriber_id, id);
}

#[test]
fn subscribe_rejects_an_invalid_email() {
    let mut store = Store::new();
    let err = subscribe(&mut store, form("not-an-address", "Ursula"), 1_000).unwrap_err();
    assert!(matches!(err, cr_api::errors::SubscribeError::ValidationError(_)));
    assert_eq!(store.subscriptions.len(), 0);
    assert_eq!(store.subscription_tokens.len(), 0);
}

#[test]
fn subscribe_rejects_an_invalid_name() {
    let mut store = Store::new();
    let err = subscribe(&mut store, form("a@example.com", "   "), 1_000).unwrap_err();
    assert!(matches!(err, cr_api::errors::SubscribeError::ValidationError(_)));
    let err = subscribe(&mut store, form("a@example.com", "Ursula</script>"), 1_000).unwrap_err();
    assert!(matches!(err, cr_api::errors::SubscribeError::ValidationError(_)));
    assert_eq!(store.subscriptions.len(), 0);
}

#[test]
fn subscribing_the_same_email_twice_fails_the_second_time() {
    let mut store = Store::new();
    subscribe(&mut store, form("a@example.com", "Ursula"), 1_000).unwrap();
    let err = subscribe(&mut store, form("a@example.com", "Ursula"), 2_000).unwrap_err();
    assert!(matches!(err, cr_api::errors::SubscribeError::UnexpectedError(_)));
    assert_eq!(store.subscriptions.len(), 1);
    assert_eq!(store.subscription_tokens.len(), 1);
}

#[test]
fn confirmation_flips_the_subscriber_to_confirmed() {
    let mut store = Store::new();
    let (id, token) = subscribe(&mut store, form("a@example.com", "Ursula"), 1_000).unwrap();

    assert_eq!(get_subscriber_id_from_token(&store, &token), Some(id));
    confirm(
        &mut store,
        &Parameters { subscription_token: token },
    )
    .unwrap();
    assert!(matches!(
        store.subscriptions[0].status,
        SubscriberStatus::Confirmed
    ));
}

#[test]
fn an_unknown_token_is_rejected() {
    let mut store = Store::new();
    subscribe(&mut store, form("a@example.com", "Ursula"), 1_000).unwrap();
    let err = confirm(
        &mut store,
        &Parameters { subscription_token: "nope".to_string() },
    )
    .unwrap_err();
    assert!(matches!(err, cr_api::errors::ConfirmationError::UnknownToken));
    assert!(matches!(
        store.subscriptions[0].status,
        SubscriberStatus::PendingConfirmation
    ));
}

#[test]
fn confirmed_projection_reports_each_stored_address() {
    let mut store = Store::new();
    store.subscriptions.push(SubscriberRow {
        id: 1,
        email: "a@example.com".to_string(),
        name: "A".to_string(),
        subscribed_at: 0,
        status: SubscriberStatus::Confirmed,
    });
    store.subscriptions.push(SubscriberRow {
        id: 2,
        email: "pending@example.com".to_string(),
        name: "B".to_string(),
        subscribed_at: 0,
        status: SubscriberStatus::PendingConfirmation,
    });
    store.subscriptions.push(SubscriberRow {
        id: 3,
        email: "mangled-address".to_string(),
        name: "C".to_string(),
        subscribed_at: 0,
        status: SubscriberStatus::Confirmed,
    });

    let confirmed = get_confirmed_subscribers(&store);
    assert_eq!(confirmed.len(), 2);
    assert_eq!(confirmed[0].as_ref().unwrap().as_ref(), "a@example.com");
    assert_eq!(
        confirmed[1].as_ref().unwrap_err(),
        "mangled-address is not a valid subscriber email."
    );
}

#[test]
fn confirmation_email_is_built_around_the_link() {
    let link = confirmation_link("https://news.example.com", "token123");
    assert_eq!(
        link,
        "https://news.example.com/subscriptions/confirm?subscription_token=token123"
    );
    let plain = cr_api::subscriptions::confirmation_email_text(&link);
    assert_eq!(
        plain,
        format!(
            "Welcome to the Crusty Rustacean newsletter!\nVisit {} to confirm your subscription.",
            link
        )
    );
    let html = cr_api::subscriptions::confirmation_email_html(&link);
    assert!(html.contains(&format!("<a href=\"{}\">here</a>", link)));
    assert!(html.starts_with("<h1>Crusty Rustacean - The Newsletter</h1>"));
}
