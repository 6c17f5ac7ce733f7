//! Subscribing and confirming subscribers.
//!
//! A subscription request is validated, stored as a pending row together
//! with a fresh confirmation token, and confirmed later when the token
//! comes back. Sending the confirmation email is the runner's job: the
//! library hands it the subscriber id and the token.

use vstd::prelude::*;

use rand::distr::SampleString;

use crate::errors::{ConfirmationError, SubscribeError};
use crate::ids::generate_row_id;
use crate::new_subscriber::NewSubscriber;
use crate::store::{
    has_subscriber_email, has_subscriber_id, lemma_token_lookup_at, lemma_token_lookup_none,
    token_lookup, Store, SubscriberRow, SubscriberRowView, SubscriberStatus, TokenRow,
    TokenRowView,
};
use crate::subscriber_email::{is_valid_email, SubscriberEmail};
use crate::subscriber_name::{valid_name, SubscriberName};

verus! {

/// A confirmation token is this many characters long.
pub const TOKEN_LEN: usize = 25;

/// The characters a confirmation token is drawn from.
pub open spec fn alphanumeric_char(c: char) -> bool {
    ('a' <= c && c <= 'z') || ('A' <= c && c <= 'Z') || ('0' <= c && c <= '9')
}

/// Relies on rand's `Alphanumeric` distribution through `SampleString`:
/// the requested number of characters, each drawn from ASCII letters and
/// digits.
#[verifier::external_body]
fn sample_alphanumeric(len: usize) -> (r: String)
    ensures
        r@.len() == len,
        forall|i: int| 0 <= i < r@.len() ==> alphanumeric_char(#[trigger] r@[i]),
{
    rand::distr::Alphanumeric.sample_string(&mut rand::rng(), len)
}

/// A random 25-characters-long case-sensitive subscription token.
pub fn generate_subscription_token() -> (r: String)
    ensures
        r@.len() == TOKEN_LEN,
        forall|i: int| 0 <= i < r@.len() ==> alphanumeric_char(#[trigger] r@[i]),
{
    sample_alphanumeric(TOKEN_LEN)
}

/// The incoming subscription form.
#[derive(Debug, Clone)]
pub struct SubscriptionData {
    pub email: String,
    pub name: String,
}

/// Mathematical value of the form.
#[verifier::ext_equal]
pub struct SubscriptionDataView {
    pub email: Seq<char>,
    pub name: Seq<char>,
}

impl View for SubscriptionData {
    type V = SubscriptionDataView;

    open spec fn view(&self) -> SubscriptionDataView {
        SubscriptionDataView { email: self.email@, name: self.name@ }
    }
}

impl SubscriptionData {
    pub fn new(email: String, name: String) -> (r: SubscriptionData)
        ensures
            r@ == (SubscriptionDataView { email: email@, name: name@ }),
    {
        SubscriptionData { email, name }
    }

    /// Converts the form into the domain type: the name is checked first,
    /// then the address, and the first complaint is returned.
    pub fn try_into_subscriber(self) -> (r: Result<NewSubscriber, String>)
        ensures
            match r {
                Ok(ns) => {
                    &&& valid_name(self@.name)
                    &&& is_valid_email(self@.email)
                    &&& ns.name@ == self@.name
                    &&& ns.email@ == self@.email
                },
                Err(_) => !valid_name(self@.name) || !is_valid_email(self@.email),
            },
    {
        let name = match SubscriberName::parse(self.name) {
            Ok(n) => n,
            Err(m) => {
                return Err(m);
            },
        };
        let email = match SubscriberEmail::parse(self.email) {
            Ok(e) => e,
            Err(m) => {
                return Err(m);
            },
        };
        Ok(NewSubscriber { email, name })
    }
}

/// The subscriber row a subscription inserts.
pub open spec fn pending_subscriber_view(
    id: u128,
    email: Seq<char>,
    name: Seq<char>,
    now: i64,
) -> SubscriberRowView {
    SubscriberRowView {
        id,
        email,
        name,
        subscribed_at: now,
        status: SubscriberStatus::PendingConfirmation,
    }
}

/// Inserts a new subscriber as pending confirmation under the given fresh
/// id. Fails — leaving the store untouched — exactly when the id or the
/// email is already taken, as the table's unique indexes would refuse it.
pub fn insert_subscriber_with_id(
    store: &mut Store,
    new_subscriber: &NewSubscriber,
    subscriber_id: u128,
    now: i64,
) -> (r: Result<(), SubscribeError>)
    ensures
        match r {
            Ok(()) => {
                &&& !has_subscriber_id(old(store)@.subscriptions, subscriber_id)
                &&& !has_subscriber_email(old(store)@.subscriptions, new_subscriber.email@)
                &&& final(store)@ =~= (crate::store::StoreView {
                    subscriptions: old(store)@.subscriptions.push(
                        pending_subscriber_view(
                            subscriber_id,
                            new_subscriber.email@,
                            new_subscriber.name@,
                            now,
                        ),
                    ),
                    ..old(store)@
                })
            },
            Err(SubscribeError::UnexpectedError(_)) => {
                &&& *final(store) == *old(store)
                &&& (has_subscriber_id(old(store)@.subscriptions, subscriber_id)
                    || has_subscriber_email(old(store)@.subscriptions, new_subscriber.email@))
            },
            Err(SubscribeError::ValidationError(_)) => false,
        },
{
    let n = store.subscriptions.len();
    let mut i: usize = 0;
    while i < n
        invariant
            i <= n,
            n == store@.subscriptions.len(),
            forall|j: int|
                0 <= j < i ==> (#[trigger] store@.subscriptions[j]).id != subscriber_id
                    && store@.subscriptions[j].email != new_subscriber.email@,
        decreases n - i,
    {
        let row = &store.subscriptions[i];
        if row.id == subscriber_id || row.email == *new_subscriber.email.as_string() {
            proof {
                assert(store@.subscriptions[i as int].id == subscriber_id
                    || store@.subscriptions[i as int].email == new_subscriber.email@);
            }
            return Err(
                SubscribeError::UnexpectedError(
                    String::from_str("Failed to insert a new subscriber in the database."),
                ),
            );
        }
        i = i + 1;
    }
    let ghost subs_before = store@.subscriptions;
    store.subscriptions.push(
        SubscriberRow {
            id: subscriber_id,
            email: new_subscriber.email.as_string().clone(),
            name: String::from_str(new_subscriber.name.as_ref()),
            subscribed_at: now,
            status: SubscriberStatus::PendingConfirmation,
        },
    );
    proof {
        assert(store@.subscriptions =~= subs_before.push(
            pending_subscriber_view(
                subscriber_id,
                new_subscriber.email@,
                new_subscriber.name@,
                now,
            ),
        ));
    }
    Ok(())
}

/// Inserts a new subscriber as pending confirmation under a freshly
/// generated id and returns it.
///
/// The id is random: on the off chance that it collides with an existing
/// row the insert fails — and the subscriptions table, which the new row
/// has not touched, shows at least one row. A taken email fails it too.
pub fn insert_subscriber(store: &mut Store, new_subscriber: &NewSubscriber, now: i64) -> (r: Result<
    u128,
    SubscribeError,
>)
    ensures
        match r {
            Ok(subscriber_id) => {
                &&& !has_subscriber_id(old(store)@.subscriptions, subscriber_id)
                &&& !has_subscriber_email(old(store)@.subscriptions, new_subscriber.email@)
                &&& final(store)@ =~= (crate::store::StoreView {
                    subscriptions: old(store)@.subscriptions.push(
                        pending_subscriber_view(
                            subscriber_id,
                            new_subscriber.email@,
                            new_subscriber.name@,
                            now,
                        ),
                    ),
                    ..old(store)@
                })
            },
            Err(_) => {
                &&& *final(store) == *old(store)
                &&& (has_subscriber_email(old(store)@.subscriptions, new_subscriber.email@)
                    || old(store)@.subscriptions.len() > 0)
            },
        },
{
    let subscriber_id = generate_row_id();
    match insert_subscriber_with_id(store, new_subscriber, subscriber_id, now) {
        Ok(()) => Ok(subscriber_id),
        Err(e) => {
            proof {
                if has_subscriber_id(old(store)@.subscriptions, subscriber_id) {
                    let k = choose|k: int|
                        0 <= k < old(store)@.subscriptions.len()
                            && old(store)@.subscriptions[k].id == subscriber_id;
                }
            }
            Err(e)
        },
    }
}

/// Stores a subscription token for a subscriber. Fails — leaving the
/// store untouched — exactly when the token is already taken.
pub fn store_token(store: &mut Store, subscriber_id: u128, subscription_token: &str) -> (r: Result<
    (),
    SubscribeError,
>)
    ensures
        match r {
            Ok(()) => {
                &&& token_lookup(old(store)@.subscription_tokens, subscription_token@) is None
                &&& final(store)@ =~= (crate::store::StoreView {
                    subscription_tokens: old(store)@.subscription_tokens.push(
                        TokenRowView {
                            subscription_token: subscription_token@,
                            subscriber_id,
                        },
                    ),
                    ..old(store)@
                })
            },
            Err(SubscribeError::UnexpectedError(_)) => {
                &&& *final(store) == *old(store)
                &&& token_lookup(old(store)@.subscription_tokens, subscription_token@) is Some
            },
            Err(SubscribeError::ValidationError(_)) => false,
        },
{
    let token_string = String::from_str(subscription_token);
    let n = store.subscription_tokens.len();
    let mut i: usize = 0;
    while i < n
        invariant
            i <= n,
            n == store@.subscription_tokens.len(),
            token_string@ == subscription_token@,
            forall|j: int|
                0 <= j < i ==> (#[trigger] store@.subscription_tokens[j]).subscription_token
                    != subscription_token@,
        decreases n - i,
    {
        if store.subscription_tokens[i].subscription_token == token_string {
            proof {
                lemma_token_lookup_at(
                    store@.subscription_tokens,
                    subscription_token@,
                    i as int,
                );
            }
            return Err(
                SubscribeError::UnexpectedError(
                    String::from_str(
                        "Failed to store the confirmation token for a new subscriber.",
                    ),
                ),
            );
        }
        i = i + 1;
    }
    proof {
        lemma_token_lookup_none(store@.subscription_tokens, subscription_token@);
    }
    let ghost tokens_before = store@.subscription_tokens;
    store.subscription_tokens.push(
        TokenRow { subscription_token: token_string, subscriber_id },
    );
    proof {
        assert(store@.subscription_tokens =~= tokens_before.push(
            TokenRowView { subscription_token: subscription_token@, subscriber_id },
        ));
    }
    Ok(())
}


/// The transactional body of a subscription: validates the form and
/// inserts the pending subscriber and its confirmation token together, or
/// writes nothing at all.
///
/// A validation failure reports which field was rejected; a taken id,
/// email or token fails the whole transaction, as the unique indexes
/// would, and the store is untouched.
pub fn subscribe_with_ids(
    store: &mut Store,
    data: SubscriptionData,
    subscriber_id: u128,
    subscription_token: &str,
    now: i64,
) -> (r: Result<(), SubscribeError>)
    ensures
        ({
            let pre = old(store)@;
            match r {
                Ok(()) => {
                    &&& valid_name(data@.name)
                    &&& is_valid_email(data@.email)
                    &&& !has_subscriber_id(pre.subscriptions, subscriber_id)
                    &&& !has_subscriber_email(pre.subscriptions, data@.email)
                    &&& token_lookup(pre.subscription_tokens, subscription_token@) is None
                    &&& final(store)@ =~= (crate::store::StoreView {
                        subscriptions: pre.subscriptions.push(
                            pending_subscriber_view(subscriber_id, data@.email, data@.name, now),
                        ),
                        subscription_tokens: pre.subscription_tokens.push(
                            TokenRowView {
                                subscription_token: subscription_token@,
                                subscriber_id,
                            },
                        ),
                        ..pre
                    })
                    &&& pre.wf() ==> final(store)@.wf()
                },
                Err(SubscribeError::ValidationError(_)) => {
                    &&& *final(store) == *old(store)
                    &&& (!valid_name(data@.name) || !is_valid_email(data@.email))
                },
                Err(SubscribeError::UnexpectedError(_)) => {
                    &&& *final(store) == *old(store)
                    &&& valid_name(data@.name)
                    &&& is_valid_email(data@.email)
                    &&& (has_subscriber_id(pre.subscriptions, subscriber_id)
                        || has_subscriber_email(pre.subscriptions, data@.email)
                        || token_lookup(pre.subscription_tokens, subscription_token@) is Some)
                },
            }
        }),
{
    let new_subscriber = match data.try_into_subscriber() {
        Ok(ns) => ns,
        Err(m) => {
            return Err(SubscribeError::ValidationError(m));
        },
    };

    if get_subscriber_id_from_token(store, subscription_token).is_some() {
        return Err(
            SubscribeError::UnexpectedError(
                String::from_str("Failed to store the confirmation token for a new subscriber."),
            ),
        );
    }

    let ghost pre = store@;
    match insert_subscriber_with_id(store, &new_subscriber, subscriber_id, now) {
        Ok(()) => {},
        Err(e) => {
            return Err(e);
        },
    }

    match store_token(store, subscriber_id, subscription_token) {
        Ok(()) => {},
        Err(_) => {
            proof {
                assert(false);
            }
            return Err(SubscribeError::UnexpectedError(String::new()));
        },
    }

    proof {
        if pre.wf() {
            assert forall|i: int, j: int|
                0 <= i < j < store@.subscriptions.len() implies (
            #[trigger] store@.subscriptions[i]).id != (#[trigger] store@.subscriptions[j]).id
                && store@.subscriptions[i].email != store@.subscriptions[j].email by {
                if j == store@.subscriptions.len() - 1 {
                    assert(!(exists|k: int|
                        0 <= k < pre.subscriptions.len() && pre.subscriptions[k].id
                            == subscriber_id));
                    assert(store@.subscriptions[i] == pre.subscriptions[i]);
                }
            }
            assert forall|i: int, j: int|
                0 <= i < j < store@.subscription_tokens.len() implies (
            #[trigger] store@.subscription_tokens[i]).subscription_token != (
            #[trigger] store@.subscription_tokens[j]).subscription_token by {
                if j == store@.subscription_tokens.len() - 1 {
                    crate::store::lemma_token_lookup_absent(
                        pre.subscription_tokens,
                        subscription_token@,
                    );
                    assert(store@.subscription_tokens[i] == pre.subscription_tokens[i]);
                }
            }
        }
    }
    Ok(())
}

/// The subscribe operation: [`subscribe_with_ids`] under a freshly
/// generated subscriber id and confirmation token, which the caller then
/// uses to send the confirmation email.
///
/// Success is owed on a valid form whose email is new, unless a freshly
/// generated id or token collides with an existing row — which requires
/// the respective table to be non-empty.
pub fn subscribe(store: &mut Store, data: SubscriptionData, now: i64) -> (r: Result<
    (u128, String),
    SubscribeError,
>)
    ensures
        ({
            let pre = old(store)@;
            match r {
                Ok((subscriber_id, token)) => {
                    &&& valid_name(data@.name)
                    &&& is_valid_email(data@.email)
                    &&& token@.len() == TOKEN_LEN
                    &&& !has_subscriber_id(pre.subscriptions, subscriber_id)
                    &&& !has_subscriber_email(pre.subscriptions, data@.email)
                    &&& final(store)@ =~= (crate::store::StoreView {
                        subscriptions: pre.subscriptions.push(
                            pending_subscriber_view(subscriber_id, data@.email, data@.name, now),
                        ),
                        subscription_tokens: pre.subscription_tokens.push(
                            TokenRowView { subscription_token: token@, subscriber_id },
                        ),
                        ..pre
                    })
                    &&& pre.wf() ==> final(store)@.wf()
                },
                Err(SubscribeError::ValidationError(_)) => {
                    &&& *final(store) == *old(store)
                    &&& (!valid_name(data@.name) || !is_valid_email(data@.email))
                },
                Err(SubscribeError::UnexpectedError(_)) => {
                    &&& *final(store) == *old(store)
                    &&& valid_name(data@.name)
                    &&& is_valid_email(data@.email)
                    &&& (has_subscriber_email(pre.subscriptions, data@.email)
                        || pre.subscriptions.len() > 0
                        || pre.subscription_tokens.len() > 0)
                },
            }
        }),
{
    let subscriber_id = generate_row_id();
    let subscription_token = generate_subscription_token();
    match subscribe_with_ids(store, data, subscriber_id, subscription_token.as_str(), now) {
        Ok(()) => Ok((subscriber_id, subscription_token)),
        Err(e) => {
            proof {
                if e is UnexpectedError {
                    if has_subscriber_id(old(store)@.subscriptions, subscriber_id) {
                        let k = choose|k: int|
                            0 <= k < old(store)@.subscriptions.len()
                                && old(store)@.subscriptions[k].id == subscriber_id;
                    }
                    if token_lookup(old(store)@.subscription_tokens, subscription_token@)
                        is Some {
                        assert(old(store)@.subscription_tokens.len() > 0);
                    }
                }
            }
            Err(e)
        },
    }
}

/// The confirmation link sent to a new subscriber.
pub fn confirmation_link(base_url: &str, subscription_token: &str) -> (r: String)
    ensures
        r@ == base_url@ + "/subscriptions/confirm?subscription_token="@ + subscription_token@,
{
    String::from_str(base_url).concat("/subscriptions/confirm?subscription_token=").concat(
        subscription_token,
    )
}

/// The plain-text body of the confirmation email, around the given link.
pub fn confirmation_email_text(confirmation_link: &str) -> (r: String)
    ensures
        r@ == "Welcome to the Crusty Rustacean newsletter!\nVisit "@ + confirmation_link@
            + " to confirm your subscription."@,
{
    String::from_str("Welcome to the Crusty Rustacean newsletter!\nVisit ").concat(
        confirmation_link,
    ).concat(" to confirm your subscription.")
}

/// The HTML body of the confirmation email, around the given link.
pub fn confirmation_email_html(confirmation_link: &str) -> (r: String)
    ensures
        r@ == "<h1>Crusty Rustacean - The Newsletter</h1><h2>A source for all things Rust</h2><h3>Mostly once a month...mostly...</h3><p>Welcome!</p><p>Click <a href=\""@
            + confirmation_link@
            + "\">here</a> to confirm your subscription.</p><p>After clicking, a confirmation page will come up to confirm.</p>"@,
{
    String::from_str(
        "<h1>Crusty Rustacean - The Newsletter</h1><h2>A source for all things Rust</h2><h3>Mostly once a month...mostly...</h3><p>Welcome!</p><p>Click <a href=\"",
    ).concat(confirmation_link).concat(
        "\">here</a> to confirm your subscription.</p><p>After clicking, a confirmation page will come up to confirm.</p>",
    )
}

/// The subscriptions after marking one subscriber confirmed: the rows of
/// `subscriber_id` with status confirmed, every other row untouched.
pub open spec fn confirmed_subscriptions(
    rows: Seq<SubscriberRowView>,
    subscriber_id: u128,
) -> Seq<SubscriberRowView> {
    rows.map_values(
        |r: SubscriberRowView|
            if r.id == subscriber_id {
                SubscriberRowView { status: SubscriberStatus::Confirmed, ..r }
            } else {
                r
            },
    )
}

/// Marks a subscriber as confirmed; rows of other subscribers are
/// untouched, and a missing id changes nothing.
pub fn confirm_subscriber(store: &mut Store, subscriber_id: u128)
    ensures
        final(store)@.subscriptions =~~= confirmed_subscriptions(
            old(store)@.subscriptions,
            subscriber_id,
        ),
        final(store)@.subscription_tokens == old(store)@.subscription_tokens,
        final(store)@.newsletter_issues == old(store)@.newsletter_issues,
        final(store)@.issue_delivery_queue == old(store)@.issue_delivery_queue,
        final(store)@.idempotency == old(store)@.idempotency,
{
    let ghost rows = store@.subscriptions;
    let mut updated: Vec<SubscriberRow> = Vec::new();
    let n = store.subscriptions.len();
    let mut i: usize = 0;
    while i < n
        invariant
            i <= n,
            n == rows.len(),
            rows == store@.subscriptions,
            updated@.len() == i,
            forall|j: int|
                0 <= j < i ==> #[trigger] updated@[j]@ =~= (if rows[j].id == subscriber_id {
                    SubscriberRowView { status: SubscriberStatus::Confirmed, ..rows[j] }
                } else {
                    rows[j]
                }),
        decreases n - i,
    {
        let row = &store.subscriptions[i];
        let status = if row.id == subscriber_id {
            SubscriberStatus::Confirmed
        } else {
            row.status
        };
        updated.push(
            SubscriberRow {
                id: row.id,
                email: row.email.clone(),
                name: row.name.clone(),
                subscribed_at: row.subscribed_at,
                status,
            },
        );
        i = i + 1;
    }
    store.subscriptions = updated;
    proof {
        assert(store@.subscriptions =~~= confirmed_subscriptions(rows, subscriber_id));
    }
}

/// The subscriber a confirmation token belongs to, if the token is known.
pub fn get_subscriber_id_from_token(store: &Store, subscription_token: &str) -> (r: Option<u128>)
    ensures
        match token_lookup(store@.subscription_tokens, subscription_token@) {
            Some(row) => r == Some(row.subscriber_id),
            None => r is None,
        },
{
    let token_string = String::from_str(subscription_token);
    let n = store.subscription_tokens.len();
    let mut i: usize = 0;
    while i < n
        invariant
            i <= n,
            n == store@.subscription_tokens.len(),
            token_string@ == subscription_token@,
            forall|j: int|
                0 <= j < i ==> (#[trigger] store@.subscription_tokens[j]).subscription_token
                    != subscription_token@,
        decreases n - i,
    {
        if store.subscription_tokens[i].subscription_token == token_string {
            proof {
                lemma_token_lookup_at(store@.subscription_tokens, subscription_token@, i as int);
            }
            return Some(store.subscription_tokens[i].subscriber_id);
        }
        i = i + 1;
    }
    proof {
        lemma_token_lookup_none(store@.subscription_tokens, subscription_token@);
    }
    None
}

/// The query parameters of the confirmation link.
#[derive(Debug, Clone)]
pub struct Parameters {
    pub subscription_token: String,
}

/// Confirms the subscriber behind a confirmation token: an unknown token
/// is rejected and changes nothing; a known one marks its subscriber
/// confirmed.
pub fn confirm(store: &mut Store, parameters: &Parameters) -> (r: Result<(), ConfirmationError>)
    ensures
        match token_lookup(
            old(store)@.subscription_tokens,
            parameters.subscription_token@,
        ) {
            None => {
                &&& r matches Err(ConfirmationError::UnknownToken)
                &&& *final(store) == *old(store)
            },
            Some(row) => {
                &&& r is Ok
                &&& final(store)@.subscriptions =~~= confirmed_subscriptions(
                    old(store)@.subscriptions,
                    row.subscriber_id,
                )
                &&& final(store)@.subscription_tokens == old(store)@.subscription_tokens
                &&& final(store)@.newsletter_issues == old(store)@.newsletter_issues
                &&& final(store)@.issue_delivery_queue == old(store)@.issue_delivery_queue
                &&& final(store)@.idempotency == old(store)@.idempotency
            },
        },
{
    let subscriber_id = match get_subscriber_id_from_token(
        store,
        parameters.subscription_token.as_str(),
    ) {
        Some(id) => id,
        None => {
            return Err(ConfirmationError::UnknownToken);
        },
    };
    confirm_subscriber(store, subscriber_id);
    Ok(())
}

} // verus!
