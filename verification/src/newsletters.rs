//! The token-authenticated publish API: its payload shape and the
//! confirmed-subscriber projection it fans out over.
//!
//! Authentication and the sends themselves belong to the process runner;
//! the library computes the fan-out set — the stored email of every
//! confirmed subscriber, each one re-validated at read time, invalid ones
//! reported so the caller can skip them with a warning.

use vstd::prelude::*;

use crate::store::{confirmed_emails, lemma_confirmed_emails_push, Store};
use crate::subscriber_email::{is_valid_email, SubscriberEmail};

verus! {

/// The payload of the publish request.
#[derive(Debug, Clone)]
pub struct BodyData {
    pub title: String,
    pub content: Content,
}

/// The two renderings of the newsletter body.
#[derive(Debug, Clone)]
pub struct Content {
    pub html: String,
    pub text: String,
}

/// Mathematical value of the payload.
#[verifier::ext_equal]
pub struct BodyDataView {
    pub title: Seq<char>,
    pub html: Seq<char>,
    pub text: Seq<char>,
}

impl View for BodyData {
    type V = BodyDataView;

    open spec fn view(&self) -> BodyDataView {
        BodyDataView { title: self.title@, html: self.content.html@, text: self.content.text@ }
    }
}

/// The confirmed subscribers, each stored address re-validated: `Ok` with
/// the parsed address, or `Err` with the parse complaint for a stored
/// address that is no longer acceptable.
pub fn get_confirmed_subscribers(store: &Store) -> (r: Vec<Result<SubscriberEmail, String>>)
    ensures
        r@.len() == confirmed_emails(store@.subscriptions).len(),
        forall|k: int|
            0 <= k < r@.len() ==> match #[trigger] r@[k] {
                Ok(e) => is_valid_email(confirmed_emails(store@.subscriptions)[k]) && e@
                    == confirmed_emails(store@.subscriptions)[k],
                Err(m) => !is_valid_email(confirmed_emails(store@.subscriptions)[k]) && m@
                    == confirmed_emails(store@.subscriptions)[k]
                    + " is not a valid subscriber email."@,
            },
{
    let ghost subs = store@.subscriptions;
    let mut r: Vec<Result<SubscriberEmail, String>> = Vec::new();
    let n = store.subscriptions.len();
    let mut i: usize = 0;
    proof {
        assert(confirmed_emails(subs.take(0)) =~~= Seq::<Seq<char>>::empty());
    }
    while i < n
        invariant
            i <= n,
            n == subs.len(),
            subs == store@.subscriptions,
            r@.len() == confirmed_emails(subs.take(i as int)).len(),
            forall|k: int|
                0 <= k < r@.len() ==> match #[trigger] r@[k] {
                    Ok(e) => is_valid_email(confirmed_emails(subs.take(i as int))[k]) && e@
                        == confirmed_emails(subs.take(i as int))[k],
                    Err(m) => !is_valid_email(confirmed_emails(subs.take(i as int))[k]) && m@
                        == confirmed_emails(subs.take(i as int))[k]
                        + " is not a valid subscriber email."@,
                },
        decreases n - i,
    {
        let sub = &store.subscriptions[i];
        let ghost before = confirmed_emails(subs.take(i as int));
        proof {
            assert(subs.take(i as int + 1) =~= subs.take(i as int).push(subs[i as int]));
            lemma_confirmed_emails_push(subs.take(i as int), subs[i as int]);
        }
        match sub.status {
            crate::store::SubscriberStatus::Confirmed => {
                r.push(SubscriberEmail::parse(sub.email.clone()));
                proof {
                    assert(confirmed_emails(subs.take(i as int + 1)) =~~= before.push(
                        subs[i as int].email,
                    ));
                    assert forall|k: int| 0 <= k < r@.len() implies match #[trigger] r@[k] {
                        Ok(e) => is_valid_email(confirmed_emails(subs.take(i as int + 1))[k]) && e@
                            == confirmed_emails(subs.take(i as int + 1))[k],
                        Err(m) => !is_valid_email(confirmed_emails(subs.take(i as int + 1))[k])
                            && m@ == confirmed_emails(subs.take(i as int + 1))[k]
                            + " is not a valid subscriber email."@,
                    } by {
                        if k < r@.len() - 1 {
                            assert(confirmed_emails(subs.take(i as int + 1))[k] == before[k]);
                        } else {
                            assert(confirmed_emails(subs.take(i as int + 1))[k] == subs[i as int].email);
                        }
                    }
                }
            },
            crate::store::SubscriberStatus::PendingConfirmation => {
                proof {
                    assert(confirmed_emails(subs.take(i as int + 1)) =~~= before);
                    assert forall|k: int| 0 <= k < r@.len() implies match #[trigger] r@[k] {
                        Ok(e) => is_valid_email(confirmed_emails(subs.take(i as int + 1))[k]) && e@
                            == confirmed_emails(subs.take(i as int + 1))[k],
                        Err(m) => !is_valid_email(confirmed_emails(subs.take(i as int + 1))[k])
                            && m@ == confirmed_emails(subs.take(i as int + 1))[k]
                            + " is not a valid subscriber email."@,
                    } by {
                        assert(confirmed_emails(subs.take(i as int + 1))[k] == before[k]);
                    }
                }
            },
        }
        i = i + 1;
    }
    proof {
        assert(subs.take(n as int) =~= subs);
    }
    r
}

} // verus!
