use vstd::prelude::*;
use crate::article::PaywallArticle;
use crate::password::HashingAlgorithm;
use crate::store::{InMemoryDb, User, id_taken, same_user, updated_at_id, user_granted, links_of, users_wf};
use crate::text::{concat_str, owned};
use crate::access::AuthLevel;
use crate::codec::{contains_hash, encoded};
use crate::digest::md5_hex_of;
use crate::session::level_for;
use crate::paywall::PaywallServer;
use crate::envvars::{EnvVarLoader, lookup};
use crate::reference::{decode_purchase_reference, decoded_reference, encode_purchase_reference, reference_text};

verus! {

/// A request to buy the item served under `purchase_target`.
pub struct PurchaseIntent {
    pub purchase_target: String,
}

/// The reference a payment carries, echoed back when it completes: who
/// bought what.
pub struct PurchaseReference {
    pub user_id: usize,
    pub article: PaywallArticle,
}

/// Why a purchase could not go through.
#[derive(Clone, Copy, Debug, PartialEq, Eq, Structural)]
pub enum PurchaseError {
    TargetNotFoundError,
    StripeWebhookEventError,
    StripeEventDataNotFoundError,
}

/// A result that may also be neither success nor failure, only worth noting.
pub enum ResultOrInfo<T, E, I> {
    Success(T),
    Failure(E),
    Info(I),
}

/// What a checkout needs from this library: who buys what, the reference
/// text the payment carries and echoes back, and the page (domain and path)
/// the payment returns to.
pub struct CheckoutRequest {
    pub reference: PurchaseReference,
    pub reference_text: String,
    pub domainpath: String,
}

/// Builds checkout requests for one site.
pub struct PurchaseHandler {
    domain_url: String,
}

impl PurchaseHandler {
    pub closed spec fn domain(&self) -> Seq<char> {
        self.domain_url@
    }

    pub fn new(domain_url: &str) -> (r: PurchaseHandler)
        ensures
            r.domain() == domain_url@,
    {
        PurchaseHandler { domain_url: owned(domain_url) }
    }

    /// The reference and return page for a purchase of `article` by `user_id`.
    pub fn stripe_checkout(&self, user_id: &usize, purchase_intent: &PurchaseIntent, article: &PaywallArticle) -> (r: CheckoutRequest)
        ensures
            r.domainpath@ == self.domain() + purchase_intent.purchase_target@,
            r.reference.user_id == *user_id,
            r.reference.article == *article,
            r.reference_text@ == reference_text(*user_id as nat, article.link_text()),
    {
        let domainpath = concat_str(self.domain_url.as_str(), purchase_intent.purchase_target.as_str());
        let reference_text = encode_purchase_reference(*user_id, article.get_link());
        CheckoutRequest {
            reference: PurchaseReference { user_id: *user_id, article: article.duplicate() },
            reference_text,
            domainpath,
        }
    }
}

/// Keys for the payment provider: the webhook signing secret and the API
/// secret.
pub struct StripeClient {
    stripe_webhook_key: String,
    stripe_secret_key: String,
}

impl StripeClient {
    pub closed spec fn keys(&self) -> (Seq<char>, Seq<char>) {
        (self.stripe_webhook_key@, self.stripe_secret_key@)
    }

    pub fn new(stripe_webhook_key: &str, stripe_secret_key: &str) -> (r: StripeClient)
        ensures
            r.keys() == (stripe_webhook_key@, stripe_secret_key@),
    {
        StripeClient { stripe_webhook_key: owned(stripe_webhook_key), stripe_secret_key: owned(stripe_secret_key) }
    }

    pub fn get_webhook_key(&self) -> (r: &str)
        ensures
            r@ == self.keys().0,
    {
        self.stripe_webhook_key.as_str()
    }

    pub fn get_secret_key(&self) -> (r: &str)
        ensures
            r@ == self.keys().1,
    {
        self.stripe_secret_key.as_str()
    }
}

/// A provider event as the payment library parsed it.
pub enum WebhookEvent {
    /// The payload or its signature did not check out against the webhook key.
    Invalid,
    /// A checkout session completed; the reference it carried, if any.
    CheckoutSessionCompleted(Option<String>),
    /// A completion event whose data is not a checkout session.
    CompletedWithoutSession,
    /// Any other event type, by name.
    Other(String),
}

/// Checkouts and webhook handling for one site and one provider account.
pub struct StripePurchaseHandler {
    client: StripeClient,
    handler: PurchaseHandler,
}

impl StripePurchaseHandler {
    pub closed spec fn client(&self) -> StripeClient {
        self.client
    }

    pub closed spec fn handler(&self) -> PurchaseHandler {
        self.handler
    }

    pub fn new_from_envvars(env_var_loader: &EnvVarLoader) -> (r: StripePurchaseHandler)
        ensures
            Some(r.client().keys().0) == lookup(env_var_loader.vars(), "STRIPE_WEBHOOK_KEY"@),
            Some(r.client().keys().1) == lookup(env_var_loader.vars(), "STRIPE_SECRET_KEY"@),
            Some(r.handler().domain()) == lookup(env_var_loader.vars(), "DOMAIN_URL"@),
    {
        let webhook = env_var_loader.get_stripe_webhook_key();
        let secret = env_var_loader.get_stripe_secret_key();
        let domain = env_var_loader.get_domain_url();
        StripePurchaseHandler {
            client: StripeClient::new(webhook.as_str(), secret.as_str()),
            handler: PurchaseHandler::new(domain.as_str()),
        }
    }

    pub fn get_client(&self) -> (r: &StripeClient)
        ensures
            *r == self.client(),
    {
        &self.client
    }

    pub fn checkout(&self, user_id: &usize, purchase_intent: &PurchaseIntent, article: &PaywallArticle) -> (r: CheckoutRequest)
        ensures
            r.domainpath@ == self.handler().domain() + purchase_intent.purchase_target@,
            r.reference.user_id == *user_id,
            r.reference.article == *article,
            r.reference_text@ == reference_text(*user_id as nat, article.link_text()),
    {
        self.handler.stripe_checkout(user_id, purchase_intent, article)
    }

    /// What a provider event means here: a forged or malformed event is an
    /// error; a completed checkout yields the reference it carried (an error
    /// when it carries none); any other event is only noted.
    pub fn webhook_to_purchase_reference(&self, event: WebhookEvent) -> (r: ResultOrInfo<String, PurchaseError, String>)
        ensures
            event is Invalid ==> r matches ResultOrInfo::Failure(PurchaseError::StripeWebhookEventError),
            event is CompletedWithoutSession ==> r matches ResultOrInfo::Failure(PurchaseError::StripeEventDataNotFoundError),
            event matches WebhookEvent::CheckoutSessionCompleted(None) ==> r matches ResultOrInfo::Failure(PurchaseError::StripeEventDataNotFoundError),
            event matches WebhookEvent::CheckoutSessionCompleted(Some(t)) ==> (r matches ResultOrInfo::Success(s) && s@ == t@),
            event matches WebhookEvent::Other(name) ==> (r matches ResultOrInfo::Info(m) && m@ == "Non checkout event: "@ + name@),
    {
        match event {
            WebhookEvent::Invalid => ResultOrInfo::Failure(PurchaseError::StripeWebhookEventError),
            WebhookEvent::CheckoutSessionCompleted(Some(reference)) => ResultOrInfo::Success(reference),
            WebhookEvent::CheckoutSessionCompleted(None) => ResultOrInfo::Failure(PurchaseError::StripeEventDataNotFoundError),
            WebhookEvent::CompletedWithoutSession => ResultOrInfo::Failure(PurchaseError::StripeEventDataNotFoundError),
            WebhookEvent::Other(name) => ResultOrInfo::Info(concat_str("Non checkout event: ", name.as_str())),
        }
    }
}

/// What handling a payment event did.
#[derive(Clone, Copy, Debug, PartialEq, Eq, Structural)]
pub enum ReconcileOutcome {
    /// The article is now held by the buyer (it may have been before).
    Granted,
    /// The buyer's account does not exist; nothing changed.
    UnknownUser,
    /// The event failed validation; nothing changed.
    Rejected,
    /// Not a completed payment; nothing changed.
    Ignored,
    /// The payment's reference text does not decode; nothing changed.
    MalformedReference,
    /// The reference names no item that is sold; nothing changed.
    UnknownArticle,
}

/// Turns a validated payment event into a durable grant. Only a completed
/// payment changes the store; replaying it changes nothing more.
pub fn reconcile_purchase<T: HashingAlgorithm>(
    db: &mut InMemoryDb<T>,
    event: ResultOrInfo<PurchaseReference, PurchaseError, String>,
) -> (r: ReconcileOutcome)
    requires
        old(db).wf(),
    ensures
        final(db).wf(),
        final(db).next_id() == old(db).next_id(),
        event matches ResultOrInfo::Failure(_) ==> r == ReconcileOutcome::Rejected && final(db).users() == old(db).users(),
        event matches ResultOrInfo::Info(_) ==> r == ReconcileOutcome::Ignored && final(db).users() == old(db).users(),
        event matches ResultOrInfo::Success(p) ==> {
            &&& (r == ReconcileOutcome::Granted <==> id_taken(old(db).users(), p.user_id))
            &&& (r == ReconcileOutcome::UnknownUser <==> !id_taken(old(db).users(), p.user_id))
            &&& updated_at_id(old(db).users(), final(db).users(), p.user_id, |a: User, b: User| user_granted(a, b, p.article))
        },
{
    match event {
        ResultOrInfo::Success(reference) => {
            match db.add_accessible_article_to_id(reference.user_id, reference.article) {
                Ok(()) => ReconcileOutcome::Granted,
                Err(()) => ReconcileOutcome::UnknownUser,
            }
        },
        ResultOrInfo::Failure(_) => ReconcileOutcome::Rejected,
        ResultOrInfo::Info(_) => ReconcileOutcome::Ignored,
    }
}

/// Handles a payment event whose payload is the reference text the payment
/// carried: a completed payment is decoded to a buyer and an item, the item
/// is looked up among those sold, and it is granted to the buyer.
pub fn reconcile_reference<T: HashingAlgorithm>(
    db: &mut InMemoryDb<T>,
    paywall: &PaywallServer,
    event: ResultOrInfo<String, PurchaseError, String>,
) -> (r: ReconcileOutcome)
    requires
        old(db).wf(),
    ensures
        final(db).wf(),
        final(db).next_id() == old(db).next_id(),
        event matches ResultOrInfo::Failure(_) ==> r == ReconcileOutcome::Rejected && final(db).users() == old(db).users(),
        event matches ResultOrInfo::Info(_) ==> r == ReconcileOutcome::Ignored && final(db).users() == old(db).users(),
        event matches ResultOrInfo::Success(text) ==> match decoded_reference(text@) {
            None => r == ReconcileOutcome::MalformedReference && final(db).users() == old(db).users(),
            Some((uid, link)) => match paywall.lookup(link) {
                Some(item) if item.article() is Some => {
                    &&& (r == ReconcileOutcome::Granted <==> id_taken(old(db).users(), uid))
                    &&& (r == ReconcileOutcome::UnknownUser <==> !id_taken(old(db).users(), uid))
                    &&& updated_at_id(old(db).users(), final(db).users(), uid,
                        |a: User, b: User| user_granted(a, b, item.article()->Some_0))
                },
                _ => r == ReconcileOutcome::UnknownArticle && final(db).users() == old(db).users(),
            },
        },
{
    match event {
        ResultOrInfo::Success(text) => {
            match decode_purchase_reference(text.as_str()) {
                None => ReconcileOutcome::MalformedReference,
                Some((user_id, link)) => {
                    match paywall.get_paywall_article(link.as_str()) {
                        Some(article) => reconcile_purchase(db, ResultOrInfo::Success(PurchaseReference { user_id, article })),
                        None => ReconcileOutcome::UnknownArticle,
                    }
                },
            }
        },
        ResultOrInfo::Failure(_) => ReconcileOutcome::Rejected,
        ResultOrInfo::Info(_) => ReconcileOutcome::Ignored,
    }
}

/// Granting an article a second time leaves every record as the first grant
/// left it, so whether the user holds it is the same after one grant or two.
pub proof fn lemma_grant_idempotent(s0: Seq<User>, s1: Seq<User>, s2: Seq<User>, id: usize, a: PaywallArticle)
    requires
        updated_at_id(s0, s1, id, |x: User, y: User| user_granted(x, y, a)),
        updated_at_id(s1, s2, id, |x: User, y: User| user_granted(x, y, a)),
    ensures
        s2.len() == s1.len(),
        forall|i: int| 0 <= i < s1.len() ==> same_user(#[trigger] s1[i], s2[i]),
        forall|i: int| 0 <= i < s1.len() && (#[trigger] s1[i]).id == id ==> links_of(s2[i]).contains(a.link_text()),
{
    assert forall|i: int| 0 <= i < s1.len() implies same_user(#[trigger] s1[i], s2[i]) by {
        if s1[i].id == id {
            assert(s0[i].id == id);
            assert(user_granted(s0[i], s1[i], a));
            assert(user_granted(s1[i], s2[i], a));
            if !links_of(s0[i]).contains(a.link_text()) {
                assert(links_of(s1[i]) == links_of(s0[i]).push(a.link_text()));
                assert(links_of(s1[i]).last() == a.link_text());
            }
            assert(links_of(s1[i]).contains(a.link_text()));
        } else {
            assert(s0[i].id != id);
        }
    }
    assert forall|i: int| 0 <= i < s1.len() && (#[trigger] s1[i]).id == id implies links_of(s2[i]).contains(a.link_text()) by {
        assert(same_user(s1[i], s2[i]));
        assert(links_of(s2[i]) == links_of(s1[i]));
        assert(s0[i].id == id);
        if !links_of(s0[i]).contains(a.link_text()) {
            assert(links_of(s1[i]) == links_of(s0[i]).push(a.link_text()));
            assert(links_of(s1[i]).last() == a.link_text());
        }
    }
}

/// After a deletion succeeded, no record has that id any more, so a second
/// deletion of it finds nothing.
pub proof fn lemma_delete_twice(s0: Seq<User>, next: nat, i: int, id: usize)
    requires
        users_wf(s0, next),
        0 <= i < s0.len(),
        s0[i].id == id,
    ensures
        !id_taken(s0.remove(i), id),
{
    crate::store::lemma_remove_keeps_wf(s0, i, next);
}

/// Once an article is granted, a token issued afterwards lists its digest,
/// so a non-administrator presenting it is served that article at the paid
/// level.
pub proof fn lemma_grant_reaches_next_token(
    s0: Seq<User>,
    s1: Seq<User>,
    i: int,
    id: usize,
    a: PaywallArticle,
    grants: Seq<Seq<char>>,
    confirmed: bool,
)
    requires
        updated_at_id(s0, s1, id, |x: User, y: User| user_granted(x, y, a)),
        0 <= i < s1.len(),
        s1[i].id == id,
        grants == encoded(links_of(s1[i])),
    ensures
        contains_hash(grants, md5_hex_of(a.link_text())),
        level_for(true, false, contains_hash(grants, md5_hex_of(a.link_text())), confirmed) == AuthLevel::PaidAuth,
{
    assert(s0[i].id == id);
    assert(user_granted(s0[i], s1[i], a));
    let links = links_of(s1[i]);
    let k: int = if links_of(s0[i]).contains(a.link_text()) {
        choose|k: int| 0 <= k < links_of(s0[i]).len() && links_of(s0[i])[k] == a.link_text()
    } else {
        links_of(s0[i]).len() as int
    };
    if !links_of(s0[i]).contains(a.link_text()) {
        assert(links == links_of(s0[i]).push(a.link_text()));
    } else {
        assert(links == links_of(s0[i]));
    }
    assert(links[k] == a.link_text());
    assert(grants[k] == md5_hex_of(a.link_text()));
}

} // verus!
