use rust_server::access::Role;
use rust_server::article::PaywallArticle;
use rust_server::digest::{xor_cipher, xor_hash};
use rust_server::envvars::EnvVarLoader;
use rust_server::mail::{confirmation_claims, deletion_claims, EmailClient, EmailToSend, SmtpCredentials, UserCommunicator};
use rust_server::paywall::{paywall_server_factory, AuthLevelManipulatorByFn, PathAndFile, RecursiveFileReaderString};
use rust_server::access::{AuthLevel, SessionStatus};
use rust_server::price::{CurrencyCode, DataImportError, Price};
use rust_server::utils::{ExtractableOptionTuple2, ExtractableOptionTuple3};
use rust_server::htmlscan::html_is_parse_safe;

fn pairs() -> Vec<(String, String)> {
    [
        ("ADMIN_EMAIL", "admin_email_test"),
        ("ADMIN_PASSWORD", "admin_password_test"),
        ("PATH_STATIC_FILES", "path_static_files_test"),
        ("STRIPE_SECRET_KEY", "stripe_secret_key_test"),
        ("STRIPE_WEBHOOK_KEY", "stripe_webhook_key_test"),
        ("JWT_SECRET_KEY", "jwt_secret_key_test"),
        ("MAIL_SECRET_KEY", "mail_secret_key_test"),
        ("DELETION_SECRET_KEY", "deletion_secret_key_test"),
        ("DOMAIN_URL", "domain_url_test"),
        ("SMTP_MAIL_ADDRESS", "smtp_mail_address_test"),
        ("SMTP_SENDER_NAME", "smtp_sender_name_test"),
        ("SMTP_HOST", "smtp_host_test"),
        ("SMTP_USERNAME", "smtp_username_test"),
        ("SMTP_PASSWORD", "smtp_password_test"),
    ]
    .iter()
    .map(|(k, v)| (k.to_string(), v.to_string()))
    .collect()
}

#[test]
fn test_set_and_get() {
    let loader = EnvVarLoader::from_pairs(pairs()).ok().unwrap();
    assert_eq!(loader.get_admin_email(), "admin_email_test");
    assert_eq!(loader.get_admin_password(), "admin_password_test");
    assert_eq!(loader.get_path_static_files(), "path_static_files_test");
    assert_eq!(loader.get_stripe_secret_key(), "stripe_secret_key_test");
    assert_eq!(loader.get_jwt_secret_key(), "jwt_secret_key_test");
    assert_eq!(loader.get_mail_secret_key(), "mail_secret_key_test");
    assert_eq!(loader.get_deletion_secret_key(), "deletion_secret_key_test");
    assert_eq!(loader.get_domain_url(), "domain_url_test");
    assert_eq!(loader.get_smtp_mail_address(), "smtp_mail_address_test");
    assert_eq!(loader.get_smtp_sender_name(), "smtp_sender_name_test");
    assert_eq!(loader.get_smtp_host(), "smtp_host_test");
    assert_eq!(loader.get_smtp_username(), "smtp_username_test");
    assert_eq!(loader.get_smtp_password(), "smtp_password_test");
    assert_eq!(loader.get_stripe_webhook_key(), "stripe_webhook_key_test");
}

#[test]
fn missing_setting_is_named() {
    let mut p = pairs();
    p.retain(|(k, _)| k != "SMTP_HOST");
    match EnvVarLoader::from_pairs(p) {
        Err(name) => assert_eq!(name, "SMTP_HOST"),
        Ok(_) => panic!("expected a missing setting"),
    }
}

#[test]
fn prices() {
    let price = Price::from_currency_string(100, "USD").unwrap();
    assert_eq!(price.get_in_minor_unit(), 100);
    assert_eq!(price.get_in_major_unit_str(), "1.00");
    assert_eq!(Price::from_currency_string(1999, "EUR").unwrap().get_in_major_unit_str(), "19.99");
    assert_eq!(Price::from_currency_string(5, "EUR").unwrap().get_in_major_unit_str(), "0.05");
    assert_eq!(Price::from_currency_string(-50, "USD").unwrap().get_in_major_unit_str(), "-0.50");
    assert_eq!(Price::from_currency_string(0, "USD").unwrap().get_in_major_unit_str(), "0.00");
    assert_eq!(
        Price::from_currency_string(i64::MIN, "USD").unwrap().get_in_major_unit_str(),
        "-92233720368547758.08"
    );
    match Price::from_currency_string(10, "GBP") {
        Err(DataImportError::CurrencyNotFoundError(c)) => assert_eq!(c, "GBP"),
        Ok(_) => panic!("GBP is not supported"),
    }
    assert!(matches!(CurrencyCode::from_string("usd"), Err(_)));
}

#[test]
fn xor_helpers() {
    assert_eq!(xor_hash(""), "00");
    assert_eq!(xor_hash("ab"), "03");
    assert_eq!(xor_hash("a"), "61");
    assert_eq!(xor_cipher("abc", 1), "`cb");
    assert_eq!(xor_cipher(&xor_cipher("hello", 7), 7), "hello");
}

#[test]
fn role_names() {
    assert_eq!(Role::from_str("ADMIN"), Role::Admin);
    assert_eq!(Role::from_str("Admin"), Role::Admin);
    assert_eq!(Role::from_str("user"), Role::User);
    assert_eq!(Role::from_str("administrator"), Role::User);
    assert_eq!(Role::Admin.to_string(), "Admin");
    assert_eq!(Role::User.as_str(), "user");
}

const PAYWALLED: &str = r#"<html><body><main><p>intro</p><div class="PAYWALLED" data-paywall-identifier="id-1" data-paywall-title="A title" data-paywall-price="250" data-paywall-currency="EUR"></div><p>rest</p></main></body></html>"#;

#[test]
fn paywall_metadata_from_html() {
    let a = PaywallArticle::from_html_string(PAYWALLED, "/post.html").unwrap();
    assert_eq!(a.get_identifier(), "id-1");
    assert_eq!(a.get_title(), "A title");
    assert_eq!(a.get_link(), "/post.html");
    assert_eq!(a.get_price_in_minor_unit(), 250);
    assert_eq!(a.get_price_in_major_unit_str(), "2.50");
    assert!(a.link_matches("/post.html"));
    assert!(a.identifer_matches("id-1"));
    assert!(PaywallArticle::from_html_string("<main><p>free</p></main>", "/free.html").is_none());
    let bad_price = PAYWALLED.replace("\"250\"", "\"2.5\"");
    assert!(PaywallArticle::from_html_string(&bad_price, "/post.html").is_none());
    let bad_currency = PAYWALLED.replace("EUR", "GBP");
    assert!(PaywallArticle::from_html_string_noref(bad_currency, "/post.html").is_none());
}

fn upper(s: String) -> String {
    s.to_uppercase()
}

fn tagged(s: String) -> String {
    s + "!"
}

#[test]
fn builder_applies_each_transformation_to_the_source() {
    let funs: Vec<(AuthLevel, fn(String) -> String)> =
        vec![(AuthLevel::NoAuth, upper), (AuthLevel::UserConfirmed, tagged)];
    let manipulator = AuthLevelManipulatorByFn::new(funs).ok().unwrap();
    let files = vec![
        PathAndFile { file_path: "/post.html".to_string(), file_content: PAYWALLED.to_string() },
        PathAndFile { file_path: "/free.html".to_string(), file_content: "free".to_string() },
    ];
    let server = paywall_server_factory(files, &manipulator);
    let conf = SessionStatus { user_id: None, auth_level: AuthLevel::UserConfirmed, username: None };
    let anon = SessionStatus { user_id: None, auth_level: AuthLevel::NoAuth, username: None };
    assert_eq!(server.get_content("/free.html", &conf).unwrap(), "free!");
    assert_eq!(server.get_content("/free.html", &anon).unwrap(), "FREE");
    assert!(server.has_paywall("/post.html"));
    assert!(!server.has_paywall("/free.html"));
    assert_eq!(server.get_paywall_article("/post.html").unwrap().get_identifier(), "id-1");

    let reversed: Vec<(AuthLevel, fn(String) -> String)> =
        vec![(AuthLevel::UserConfirmed, tagged), (AuthLevel::NoAuth, upper)];
    assert!(AuthLevelManipulatorByFn::new(reversed).is_err());
    let single = AuthLevelManipulatorByFn::new_with_single_level(tagged as fn(String) -> String);
    assert_eq!(single.manipulate_object("x".to_string()).get_with_auth_level(&AuthLevel::AdminAuth), "x!");
}

#[test]
fn file_reader_settings() {
    let reader = RecursiveFileReaderString::new("/srv/site".to_string(), vec!["html".to_string()]);
    assert_eq!(reader.get_base_dir(), "/srv/site");
    assert!(reader.accepts_extension("html"));
    assert!(!reader.accepts_extension("css"));
}

#[test]
fn mail_composition() {
    let creds = SmtpCredentials::new("no-reply@test.com", "Blog", "smtp.test.com", "user", "pass");
    assert_eq!(creds.get_full_sender(), "Blog<no-reply@test.com>");
    let client = EmailClient::new(
        "no-reply@test.com".to_string(),
        "smtp.test.com".to_string(),
        "Blog".to_string(),
        "user".to_string(),
        "pass".to_string(),
    );
    assert_eq!(client.get_full_sender(), "Blog<no-reply@test.com>");
    let loader = EnvVarLoader::from_pairs(pairs()).ok().unwrap();
    let from_env = EmailClient::new_from_envvars(&loader);
    assert_eq!(from_env.get_smtp_host(), "smtp_host_test");

    let comm = UserCommunicator::new("k1".to_string(), "k2".to_string(), "https://test.com".to_string());
    let m = comm.registration_verification_email("test@test.com", "TOKEN");
    assert_eq!(m.recipient, "test@test.com");
    assert_eq!(m.subject, "Please confirm your email address");
    assert!(m.body.ends_with("https://test.com/confirm-user?token=TOKEN"));
    let d = comm.deletion_verification_email("test@test.com", "T2");
    assert!(d.body.ends_with("https://test.com/delete-user?token=T2"));
    assert_eq!(confirmation_claims(3, 100).exp, 86500);
    assert_eq!(deletion_claims(3, 100).exp, 1000);
    let e = EmailToSend::new("a@b.c", "subject", "body".to_string());
    assert_eq!(e.subject, "subject");
}

#[test]
fn option_tuples() {
    assert_eq!((Some(1), Some("a")).extract(), Some((1, "a")));
    assert_eq!((Some(1), None::<u8>).extract(), None);
    assert_eq!((Some(1), Some(2), Some(3)).extract(), Some((1, 2, 3)));
    assert_eq!((Some(1), None::<u8>, Some(3)).extract(), None);
}

#[test]
fn documents_the_parser_could_panic_on_are_refused() {
    let risky = [
        "<main><!--></main>",
        "<main><!---></main>",
        "<?xml?><main></main>",
        "<?>",
        "<\u{e9} a>",
        "<a\u{e9} b>",
        "caf\u{e9} />",
        "<div class=\"PAYWALLED\" data-paywall-title=></div>",
        "<div class=\"PAYWALLED\" data-paywall-title= />",
        "<div a=\"x=\" b>",
    ];
    for doc in risky.iter() {
        assert!(!html_is_parse_safe(&doc), "{}", doc);
        assert!(PaywallArticle::from_html_string(&doc, "/x").is_none());
    }
}

#[test]
fn ordinary_documents_are_read() {
    let with_script = format!(
        "<!doctype html><html><head><script>if (a<b && c==\"d\") {{ x = '>'; }}</script><style>p > a {{ color: red; }}</style></head><body>{}</body></html>",
        "<main><p>caf\u{e9} \u{2013} na\u{ef}ve</p><!-- note --><br/><div class=\"PAYWALLED\" data-paywall-identifier=\"id-2\" data-paywall-title=\"T\" data-paywall-price=\"5\" data-paywall-currency=\"USD\"></div></main>"
    );
    assert!(html_is_parse_safe(&with_script));
    let a = PaywallArticle::from_html_string(&with_script, "/p.html").unwrap();
    assert_eq!(a.get_identifier(), "id-2");
    assert_eq!(a.get_price_in_major_unit_str(), "0.05");
    assert!(html_is_parse_safe(PAYWALLED));
}

#[test]
fn integer_reading_matches_std() {
    let cases = [
        "0", "+5", "-0", "42", "007", "9223372036854775807", "9223372036854775808",
        "-9223372036854775808", "-9223372036854775809", "-", "+", "", "1a", " 1", "1 ", "--1",
        "99999999999999999999999999",
    ];
    for c in cases.iter() {
        assert_eq!(rust_server::article::parse_i64(c), c.parse::<i64>().ok(), "{}", c);
    }
}
