use rust_server::access::AuthLevel;
use rust_server::article::PaywallArticle;
use rust_server::password::NonHashing;
use rust_server::paywall::{PaywallItem, PaywallServer};
use rust_server::price::Price;
use rust_server::purchase::{reconcile_reference, PurchaseError, PurchaseHandler, PurchaseIntent, ReconcileOutcome, ResultOrInfo, StripeClient, StripePurchaseHandler, WebhookEvent};
use rust_server::envvars::EnvVarLoader;
use rust_server::reference::{decode_purchase_reference, encode_purchase_reference};
use rust_server::store::{InMemoryDb, RegisterUser};
use rust_server::variants::AuthLevelConditionalObject;

#[test]
fn reference_round_trip() {
    assert_eq!(encode_purchase_reference(0, "/post.html"), "0:/post.html");
    assert_eq!(encode_purchase_reference(1234, "a:b"), "1234:a:b");
    assert_eq!(decode_purchase_reference("1234:a:b"), Some((1234, "a:b".to_string())));
    assert_eq!(decode_purchase_reference("0:"), Some((0, String::new())));
    let max = encode_purchase_reference(usize::MAX, "/x");
    assert_eq!(decode_purchase_reference(&max), Some((usize::MAX, "/x".to_string())));
}

#[test]
fn malformed_references() {
    assert_eq!(decode_purchase_reference("no colon"), None);
    assert_eq!(decode_purchase_reference(":/x"), None);
    assert_eq!(decode_purchase_reference("12a:/x"), None);
    assert_eq!(decode_purchase_reference("-1:/x"), None);
    assert_eq!(decode_purchase_reference("99999999999999999999999:/x"), None);
}

fn shop() -> PaywallServer {
    let article = PaywallArticle::new(
        "id-1".to_string(),
        "/paid.html".to_string(),
        "Paid".to_string(),
        Price::from_currency_string(300, "USD").unwrap(),
    );
    let paid = AuthLevelConditionalObject::new(vec![
        (AuthLevel::NoAuth, "teaser".to_string()),
        (AuthLevel::PaidAuth, "full".to_string()),
    ])
    .ok()
    .unwrap();
    let free = AuthLevelConditionalObject::new_with_single_level("free".to_string());
    PaywallServer::new_from_paywall_items(vec![
        ("/paid.html".to_string(), PaywallItem::new(paid, Some(article))),
        ("/free.html".to_string(), PaywallItem::new(free, None)),
    ])
}

#[test]
fn checkout_reference_is_granted_on_completion() {
    let mut db = InMemoryDb::new("k".to_string(), NonHashing {});
    let _ = db.create_user(RegisterUser {
        email: "a@test.com".to_string(),
        username: "a".to_string(),
        password: "pw".to_string(),
        password_repeat: "pw".to_string(),
    });
    let paywall = shop();
    let article = paywall.get_paywall_article("/paid.html").unwrap();
    let handler = PurchaseHandler::new("https://test.com");
    let intent = PurchaseIntent { purchase_target: "/paid.html".to_string() };
    let request = handler.stripe_checkout(&0, &intent, &article);
    assert_eq!(request.reference_text, "0:/paid.html");
    assert_eq!(request.domainpath, "https://test.com/paid.html");

    let event = || ResultOrInfo::Success(request.reference_text.clone());
    assert_eq!(reconcile_reference(&mut db, &paywall, event()), ReconcileOutcome::Granted);
    assert_eq!(reconcile_reference(&mut db, &paywall, event()), ReconcileOutcome::Granted);
    assert!(db.user_id_has_access_by_link(0, "/paid.html"));
    assert_eq!(db.get_paywall_articles_for_user_id(0).unwrap().len(), 1);

    let free = ResultOrInfo::Success("0:/free.html".to_string());
    assert_eq!(reconcile_reference(&mut db, &paywall, free), ReconcileOutcome::UnknownArticle);
    let bad = ResultOrInfo::Success("zero:/paid.html".to_string());
    assert_eq!(reconcile_reference(&mut db, &paywall, bad), ReconcileOutcome::MalformedReference);
    let stranger = ResultOrInfo::Success("5:/paid.html".to_string());
    assert_eq!(reconcile_reference(&mut db, &paywall, stranger), ReconcileOutcome::UnknownUser);
    let forged = ResultOrInfo::Failure(PurchaseError::StripeWebhookEventError);
    assert_eq!(reconcile_reference(&mut db, &paywall, forged), ReconcileOutcome::Rejected);
    assert_eq!(db.get_paywall_articles_for_user_id(0).unwrap().len(), 1);
}

fn loader() -> EnvVarLoader {
    let names = [
        "ADMIN_EMAIL", "ADMIN_PASSWORD", "PATH_STATIC_FILES", "STRIPE_SECRET_KEY", "STRIPE_WEBHOOK_KEY",
        "JWT_SECRET_KEY", "MAIL_SECRET_KEY", "DELETION_SECRET_KEY", "DOMAIN_URL", "SMTP_MAIL_ADDRESS",
        "SMTP_SENDER_NAME", "SMTP_HOST", "SMTP_USERNAME", "SMTP_PASSWORD",
    ];
    let pairs = names.iter().map(|n| (n.to_string(), n.to_lowercase())).collect();
    EnvVarLoader::from_pairs(pairs).ok().unwrap()
}

#[test]
fn webhook_events() {
    let h = StripePurchaseHandler::new_from_envvars(&loader());
    assert_eq!(h.get_client().get_webhook_key(), "stripe_webhook_key");
    assert_eq!(h.get_client().get_secret_key(), "stripe_secret_key");
    assert!(matches!(
        h.webhook_to_purchase_reference(WebhookEvent::Invalid),
        ResultOrInfo::Failure(PurchaseError::StripeWebhookEventError)
    ));
    assert!(matches!(
        h.webhook_to_purchase_reference(WebhookEvent::CompletedWithoutSession),
        ResultOrInfo::Failure(PurchaseError::StripeEventDataNotFoundError)
    ));
    assert!(matches!(
        h.webhook_to_purchase_reference(WebhookEvent::CheckoutSessionCompleted(None)),
        ResultOrInfo::Failure(PurchaseError::StripeEventDataNotFoundError)
    ));
    match h.webhook_to_purchase_reference(WebhookEvent::CheckoutSessionCompleted(Some("3:/p".to_string()))) {
        ResultOrInfo::Success(r) => assert_eq!(r, "3:/p"),
        _ => panic!("expected the reference"),
    }
    match h.webhook_to_purchase_reference(WebhookEvent::Other("invoice.paid".to_string())) {
        ResultOrInfo::Info(m) => assert_eq!(m, "Non checkout event: invoice.paid"),
        _ => panic!("expected a note"),
    }
    let intent = PurchaseIntent { purchase_target: "/paid.html".to_string() };
    let article = shop().get_paywall_article("/paid.html").unwrap();
    let request = h.checkout(&4, &intent, &article);
    assert_eq!(request.domainpath, "domain_url/paid.html");
    assert_eq!(request.reference_text, "4:/paid.html");
    let c = StripeClient::new("wk", "sk");
    assert_eq!(c.get_webhook_key(), "wk");
}
