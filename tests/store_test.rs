use rust_server::access::{AuthLevel, Role};
use rust_server::article::PaywallArticle;
use rust_server::codec::{encode_grants, grant_hash, matches_hashed};
use rust_server::password::{HashingAlgorithm, NonHashing, ScryptHashing};
use rust_server::price::Price;
use rust_server::envvars::EnvVarLoader;
use rust_server::mail::UserCommunicator;
use rust_server::purchase::{
    reconcile_purchase, PurchaseError, PurchaseHandler, PurchaseIntent, PurchaseReference, ReconcileOutcome,
    ResultOrInfo, StripePurchaseHandler, WebhookEvent,
};
use rust_server::reference::decode_purchase_reference;
use rust_server::session::{claims_for_user, is_admin, is_authorized, session_status_from_claims, Claims};
use rust_server::store::{AuthenticationError, InMemoryDb, LoginUser, RegisterUser, SignupError};

fn register(email: &str, username: &str, password: &str) -> RegisterUser {
    RegisterUser {
        email: email.to_string(),
        username: username.to_string(),
        password: password.to_string(),
        password_repeat: password.to_string(),
    }
}

fn article(link: &str) -> PaywallArticle {
    PaywallArticle::new(
        "test identifier".to_string(),
        link.to_string(),
        "test title".to_string(),
        Price::from_currency_string(10, "USD").unwrap(),
    )
}

fn new_db() -> InMemoryDb<NonHashing> {
    InMemoryDb::new("123".to_string(), NonHashing {})
}

#[test]
fn simple_userflow_test() {
    let mut db = InMemoryDb::new("test_jwt".to_string(), NonHashing {});
    let create_user = db.create_user(register("test@test.com", "testuser", "testpassword")).ok().unwrap();
    assert_eq!(create_user.user_id, 0);
    assert_eq!(create_user.email, "test@test.com");
    assert_eq!(create_user.username, "testuser");

    let communicator = UserCommunicator::new(
        "test_mail_secret_key".to_string(),
        "test_deletion_secret_key".to_string(),
        "https://test.com".to_string(),
    );
    let mail = communicator.registration_verification_email(&create_user.email, "TOKEN");
    assert_eq!(mail.recipient, "test@test.com");
    assert_eq!(mail.subject, "Please confirm your email address");

    let user_id = create_user.user_id;
    let _ = db.confirm_email_for_user_id(user_id);
    assert!(db.user_id_is_verified(user_id));

    let purchase_intent = PurchaseIntent { purchase_target: "/mock-target".to_string() };
    let article = PaywallArticle::new(
        "test_identifier".to_string(),
        "test_link".to_string(),
        "test_title".to_string(),
        Price::from_currency_string(100, "USD").unwrap(),
    );
    let handler = PurchaseHandler::new("test.com");
    let checkout = handler.stripe_checkout(&user_id, &purchase_intent, &article);
    assert_eq!(checkout.domainpath, "test.com/mock-target");
    assert_eq!(checkout.reference.user_id, user_id);
    assert_eq!(checkout.reference.article, article);
    // The checkout URL comes from the payment provider, which the library
    // does not call; what it hands the provider is checked above instead.

    let names = [
        "ADMIN_EMAIL", "ADMIN_PASSWORD", "PATH_STATIC_FILES", "STRIPE_SECRET_KEY", "STRIPE_WEBHOOK_KEY",
        "JWT_SECRET_KEY", "MAIL_SECRET_KEY", "DELETION_SECRET_KEY", "DOMAIN_URL", "SMTP_MAIL_ADDRESS",
        "SMTP_SENDER_NAME", "SMTP_HOST", "SMTP_USERNAME", "SMTP_PASSWORD",
    ];
    let pairs = names.iter().map(|n| (n.to_string(), "test.com".to_string())).collect();
    let provider = StripePurchaseHandler::new_from_envvars(&EnvVarLoader::from_pairs(pairs).ok().unwrap());
    let event = WebhookEvent::CheckoutSessionCompleted(Some(checkout.reference_text.clone()));
    match provider.webhook_to_purchase_reference(event) {
        ResultOrInfo::Success(text) => {
            assert_eq!(decode_purchase_reference(&text), Some((user_id, "test_link".to_string())));
        }
        _ => panic!("expected the purchase reference"),
    }

    let _ = db.add_accessible_article_to_id(0, article);
    assert!(db.user_id_has_access_by_link(0, "test_link"));
}

#[test]
fn register_login_confirm_flow() {
    let mut db = new_db();
    let created = db.create_user(register("a@test.com", "alice", "pw")).ok().unwrap();
    assert_eq!(created.user_id, 0);

    let id = db.login(&LoginUser { email: "a@test.com".to_string(), password: "pw".to_string() }).unwrap();
    assert_eq!(id, 0);
    let claims = claims_for_user(&db, id, 1_000).unwrap();
    let status = session_status_from_claims(Some(&claims), "/post.html", &db);
    assert_eq!(status.auth_level, AuthLevel::UserUnconfirmed);
    assert_eq!(status.user_id, Some(0));
    assert_eq!(status.username.as_deref(), Some("alice"));

    assert!(db.confirm_email_for_user_id(0).is_ok());
    let fresh = claims_for_user(&db, 0, 2_000).unwrap();
    let status = session_status_from_claims(Some(&fresh), "/post.html", &db);
    assert_eq!(status.auth_level, AuthLevel::UserConfirmed);
}

#[test]
fn login_errors() {
    let mut db = new_db();
    let _ = db.create_user(register("a@test.com", "alice", "pw"));
    let wrong = db.login(&LoginUser { email: "a@test.com".to_string(), password: "nope".to_string() });
    assert_eq!(wrong, Err(AuthenticationError::InvalidCredentialsError));
    let missing = db.login(&LoginUser { email: "b@test.com".to_string(), password: "pw".to_string() });
    assert_eq!(missing, Err(AuthenticationError::UserNotFoundError));
}

#[test]
fn signup_errors() {
    let mut db = new_db();
    assert!(db.create_user(register("a@test.com", "alice", "pw")).is_ok());
    assert!(matches!(db.create_user(register("a@test.com", "bob", "pw")), Err(SignupError::EmailExistsError(e)) if e == "a@test.com"));
    assert!(matches!(db.create_user(register("b@test.com", "alice", "pw")), Err(SignupError::UsernameExistsError(n)) if n == "alice"));
    assert!(matches!(db.create_user(register("not-an-email", "carol", "pw")), Err(SignupError::RegistrationFieldsError(_))));
    assert!(matches!(db.create_user(register("c@test.com", "", "pw")), Err(SignupError::RegistrationFieldsError(_))));
    let mut differing = register("c@test.com", "carol", "pw");
    differing.password_repeat = "other".to_string();
    assert!(matches!(db.create_user(differing), Err(SignupError::RegistrationFieldsError(_))));
    // the verdict of the email check can also be handed in directly
    assert!(matches!(
        db.register_with_email_verdict(register("d@test.com", "dave", "pw"), Role::User, false),
        Err(SignupError::RegistrationFieldsError(_))
    ));
    let dave = db.register_with_email_verdict(register("d@test.com", "dave", "pw"), Role::User, true).ok().unwrap();
    assert_eq!(dave.user_id, 1);
    assert!(db.check_email_exists("a@test.com"));
    assert!(!db.check_email_exists("not@there.com"));
}

#[test]
fn ids_keep_increasing_after_delete() {
    let mut db = new_db();
    let a = db.create_user(register("a@test.com", "a", "pw")).ok().unwrap();
    assert!(db.delete_user_by_id(a.user_id).is_ok());
    let b = db.create_user(register("b@test.com", "b", "pw")).ok().unwrap();
    assert_eq!(b.user_id, 1);
    // the freed email and username can be registered again
    let c = db.create_user(register("a@test.com", "a", "pw")).ok().unwrap();
    assert_eq!(c.user_id, 2);
}

#[test]
fn admin_account() {
    let mut db = new_db();
    let admin = db.create_admin(register("admin@test.com", "admin", "secret")).ok().unwrap();
    let user = db.get_user_by_id(admin.user_id).unwrap();
    assert_eq!(user.role, Role::Admin);
    let claims = claims_for_user(&db, admin.user_id, 0).unwrap();
    assert_eq!(claims.role, "admin");
    let status = session_status_from_claims(Some(&claims), "/any", &db);
    assert_eq!(status.auth_level, AuthLevel::AdminAuth);
}

#[test]
fn grant_twice_is_idempotent() {
    let mut db = new_db();
    let _ = db.create_user(register("a@test.com", "a", "pw"));
    assert!(db.add_accessible_article_to_id(0, article("/test/test-article")).is_ok());
    let once = db.user_id_has_access_by_link(0, "/test/test-article");
    assert!(db.add_accessible_article_to_id(0, article("/test/test-article")).is_ok());
    let twice = db.user_id_has_access_by_link(0, "/test/test-article");
    assert!(once && twice);
    assert_eq!(db.get_paywall_articles_for_user_id(0).unwrap().len(), 1);
    assert!(!db.user_id_has_access_by_link(0, "/other"));
}

#[test]
fn delete_twice_reports_not_found() {
    let mut db = new_db();
    let _ = db.create_user(register("a@test.com", "a", "pw"));
    let _ = db.create_user(register("b@test.com", "b", "pw"));
    assert_eq!(db.delete_user_by_id(0), Ok(()));
    assert_eq!(db.delete_user_by_id(0), Err(()));
    assert!(db.get_user_by_id(0).is_none());
    assert!(db.get_user_by_id(1).is_some());
    assert!(!db.check_email_exists("a@test.com"));
    assert!(db.get_user_by_email("b@test.com").is_some());
}

#[test]
fn unknown_user_operations() {
    let mut db = new_db();
    assert_eq!(db.confirm_email_for_user_id(7), Err(()));
    assert_eq!(db.add_accessible_article_to_id(7, article("/x")), Err(()));
    assert!(!db.user_id_is_verified(7));
    assert!(!db.user_id_has_access_by_link(7, "/x"));
    assert!(db.get_paywall_articles_for_user_id(7).is_none());
    assert!(claims_for_user(&db, 7, 0).is_none());
}

#[test]
fn paid_item_resolves_from_token() {
    let mut db = new_db();
    let _ = db.create_user(register("a@test.com", "a", "pw"));
    let _ = db.add_accessible_article_to_id(0, article("/paid.html"));
    let claims = claims_for_user(&db, 0, 0).unwrap();
    assert_eq!(claims.exp, 604800);
    assert_eq!(claims.accessible_articles, vec![grant_hash("/paid.html")]);
    let paid = session_status_from_claims(Some(&claims), "/paid.html", &db);
    assert_eq!(paid.auth_level, AuthLevel::PaidAuth);
    let other = session_status_from_claims(Some(&claims), "/other.html", &db);
    assert_eq!(other.auth_level, AuthLevel::UserUnconfirmed);
    let none = session_status_from_claims(None, "/paid.html", &db);
    assert_eq!(none.auth_level, AuthLevel::NoAuth);
    assert!(none.user_id.is_none());
}

#[test]
fn stale_token_lacks_later_grant() {
    let mut db = new_db();
    let _ = db.create_user(register("a@test.com", "a", "pw"));
    let before = claims_for_user(&db, 0, 0).unwrap();
    let _ = db.add_accessible_article_to_id(0, article("/paid.html"));
    let stale = session_status_from_claims(Some(&before), "/paid.html", &db);
    assert_eq!(stale.auth_level, AuthLevel::UserUnconfirmed);
    let after = claims_for_user(&db, 0, 0).unwrap();
    let fresh = session_status_from_claims(Some(&after), "/paid.html", &db);
    assert_eq!(fresh.auth_level, AuthLevel::PaidAuth);
}

#[test]
fn hand_built_claims() {
    let db = new_db();
    let claims = Claims {
        sub: "someone".to_string(),
        role: "ADMIN".to_string(),
        user_id: 42,
        accessible_articles: vec![],
        exp: 0,
    };
    let s = session_status_from_claims(Some(&claims), "/x", &db);
    assert_eq!(s.auth_level, AuthLevel::AdminAuth);
    assert!(is_admin("Admin"));
    assert!(!is_admin("user"));
    assert!(is_authorized(Role::User, "admin"));
    assert!(is_authorized(Role::User, "user"));
    assert!(!is_authorized(Role::Admin, "user"));
}

#[test]
fn grants_round_trip() {
    let ids = vec!["/a.html".to_string(), "/b.html".to_string(), "/c.html".to_string()];
    let hashed = encode_grants(&ids);
    assert_eq!(hashed.len(), 3);
    for id in ids.iter() {
        assert!(rust_server::codec::matches(id, &hashed));
        assert_ne!(&hashed[0], id);
    }
    assert!(!rust_server::codec::matches("/d.html", &hashed));
    assert!(!rust_server::codec::matches("/a.htm", &hashed));
    assert!(!rust_server::codec::matches("/a.html", &Vec::new()));
    assert!(matches_hashed(&grant_hash("/b.html"), &hashed));
    assert!(!matches_hashed("/b.html", &hashed));
}

#[test]
fn webhook_replay_grants_once() {
    let mut db = new_db();
    let _ = db.create_user(register("a@test.com", "a", "pw"));
    let event = || ResultOrInfo::Success(PurchaseReference { user_id: 0, article: article("/paid.html") });
    assert_eq!(reconcile_purchase(&mut db, event()), ReconcileOutcome::Granted);
    assert!(db.user_id_has_access_by_link(0, "/paid.html"));
    assert_eq!(reconcile_purchase(&mut db, event()), ReconcileOutcome::Granted);
    assert!(db.user_id_has_access_by_link(0, "/paid.html"));
    assert_eq!(db.get_paywall_articles_for_user_id(0).unwrap().len(), 1);
}

#[test]
fn webhook_other_events() {
    let mut db = new_db();
    let _ = db.create_user(register("a@test.com", "a", "pw"));
    let rejected = reconcile_purchase(&mut db, ResultOrInfo::Failure(PurchaseError::StripeWebhookEventError));
    assert_eq!(rejected, ReconcileOutcome::Rejected);
    let ignored = reconcile_purchase(&mut db, ResultOrInfo::Info("payment_intent.created".to_string()));
    assert_eq!(ignored, ReconcileOutcome::Ignored);
    let unknown = reconcile_purchase(
        &mut db,
        ResultOrInfo::Success(PurchaseReference { user_id: 9, article: article("/paid.html") }),
    );
    assert_eq!(unknown, ReconcileOutcome::UnknownUser);
    assert!(db.get_paywall_articles_for_user_id(0).unwrap().is_empty());
}

#[test]
fn hashing_algorithms() {
    assert_eq!(NonHashing::get_hash("pw"), "pw");
    assert!(NonHashing::verify_hash("pw", "pw"));
    assert!(!NonHashing::verify_hash("pw", "px"));
    // a plain string is no scrypt hash, so it never verifies
    assert!(!ScryptHashing::verify_hash("pw", "pw"));
}
