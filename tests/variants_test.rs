use rust_server::access::{AuthLevel, SessionStatus};
use rust_server::digest::content_hash;
use rust_server::paywall::{OptionOrHashMatch, PaywallItem, PaywallServer};
use rust_server::variants::{AuthLevelConditionalObject, VariantSetError};

fn status(level: AuthLevel) -> SessionStatus {
    SessionStatus { user_id: None, auth_level: level, username: None }
}

fn teaser_full_extra() -> AuthLevelConditionalObject {
    AuthLevelConditionalObject::new(vec![
        (AuthLevel::NoAuth, "teaser".to_string()),
        (AuthLevel::UserConfirmed, "full".to_string()),
        (AuthLevel::PaidAuth, "full+extra".to_string()),
    ])
    .ok()
    .unwrap()
}

#[test]
fn tier_lookup_teaser_full_extra() {
    let o = teaser_full_extra();
    assert_eq!(o.get(&status(AuthLevel::UserUnconfirmed)), "teaser");
    assert_eq!(o.get(&status(AuthLevel::PaidAuth)), "full+extra");
    assert_eq!(o.get(&status(AuthLevel::NoAuth)), "teaser");
    assert_eq!(o.get(&status(AuthLevel::UserConfirmed)), "full");
    assert_eq!(o.get(&status(AuthLevel::AdminAuth)), "full+extra");
}

#[test]
fn conditional_object_two_levels() {
    let o = AuthLevelConditionalObject::new(vec![
        (AuthLevel::NoAuth, "no auth".to_string()),
        (AuthLevel::UserConfirmed, "confirmed".to_string()),
    ])
    .ok()
    .unwrap();
    assert_eq!(o.get(&status(AuthLevel::NoAuth)), "no auth");
    assert_eq!(o.get(&status(AuthLevel::UserUnconfirmed)), "no auth");
    assert_eq!(o.get(&status(AuthLevel::UserConfirmed)), "confirmed");
    assert_eq!(o.get(&status(AuthLevel::AdminAuth)), "confirmed");
}

#[test]
fn first_threshold_is_the_floor() {
    let o = AuthLevelConditionalObject::new(vec![
        (AuthLevel::UserUnconfirmed, "registered".to_string()),
        (AuthLevel::PaidAuth, "paid".to_string()),
    ])
    .ok()
    .unwrap();
    assert_eq!(o.get_auth_level_index(&AuthLevel::NoAuth), 0);
    assert_eq!(o.get_with_auth_level(&AuthLevel::NoAuth), "registered");
    assert_eq!(o.get_auth_level_index(&AuthLevel::UserConfirmed), 0);
    assert_eq!(o.get_auth_level_index(&AuthLevel::PaidAuth), 1);
    assert_eq!(o.get_auth_level_index(&AuthLevel::AdminAuth), 1);
}

#[test]
fn resolution_is_monotone_in_level() {
    let o = teaser_full_extra();
    let levels = [
        AuthLevel::NoAuth,
        AuthLevel::UserUnconfirmed,
        AuthLevel::UserConfirmed,
        AuthLevel::PaidAuth,
        AuthLevel::AdminAuth,
    ];
    let mut last = 0usize;
    for l in levels.iter() {
        let idx = o.get_auth_level_index(l);
        assert!(idx >= last);
        last = idx;
    }
}

#[test]
fn out_of_order_thresholds_fail() {
    let r = AuthLevelConditionalObject::new(vec![
        (AuthLevel::UserConfirmed, "a".to_string()),
        (AuthLevel::UserUnconfirmed, "b".to_string()),
    ]);
    assert!(matches!(r, Err(VariantSetError::ThresholdsNotIncreasing)));
}

#[test]
fn equal_thresholds_fail() {
    let r = AuthLevelConditionalObject::new(vec![
        (AuthLevel::NoAuth, "a".to_string()),
        (AuthLevel::NoAuth, "b".to_string()),
    ]);
    assert!(matches!(r, Err(VariantSetError::ThresholdsNotIncreasing)));
}

#[test]
fn empty_variant_set_fails() {
    let r = AuthLevelConditionalObject::new(vec![]);
    assert!(matches!(r, Err(VariantSetError::NoVariants)));
}

#[test]
fn single_level_serves_everyone() {
    let o = AuthLevelConditionalObject::new_with_single_level("only".to_string());
    assert_eq!(o.get(&status(AuthLevel::AdminAuth)), "only");
    assert_eq!(o.get_hash(&status(AuthLevel::NoAuth)), content_hash("only"));
}

#[test]
fn hashes_are_md5_of_content() {
    let o = teaser_full_extra();
    let h = o.get_hash(&status(AuthLevel::NoAuth));
    assert_eq!(h, content_hash("teaser"));
    assert_eq!(h.len(), 32);
    assert_eq!(content_hash(""), "d41d8cd98f00b204e9800998ecf8427e");
    assert_eq!(content_hash("abc"), "900150983cd24fb0d6963f7d28e17f72");
}

fn server_with(content: &str) -> PaywallServer {
    let o = AuthLevelConditionalObject::new(vec![(AuthLevel::NoAuth, content.to_string())]).ok().unwrap();
    PaywallServer::new_from_paywall_items(vec![("/post.html".to_string(), PaywallItem::new(o, None))])
}

#[test]
fn not_modified_then_fresh_after_rebuild() {
    let server = server_with("version one");
    let s = status(AuthLevel::NoAuth);
    let hash = server.get_hash("/post.html", &s).unwrap();
    let first = server.get_content_if_different_etag("/post.html", &s, Some(hash.as_str()));
    let second = server.get_content_if_different_etag("/post.html", &s, Some(hash.as_str()));
    assert!(matches!(first, OptionOrHashMatch::HashMatch));
    assert!(matches!(second, OptionOrHashMatch::HashMatch));

    let rebuilt = server_with("version two");
    let new_hash = rebuilt.get_hash("/post.html", &s).unwrap();
    assert_ne!(new_hash, hash);
    match rebuilt.get_content_if_different_etag("/post.html", &s, Some(hash.as_str())) {
        OptionOrHashMatch::Fresh(c) => {
            assert_eq!(c.content, "version two");
            assert_eq!(c.hash, new_hash);
        }
        _ => panic!("expected a fresh rendering"),
    }
}

#[test]
fn missing_key_and_no_client_hash() {
    let server = server_with("x");
    let s = status(AuthLevel::NoAuth);
    assert!(matches!(server.get_content_if_different_etag("/absent", &s, None), OptionOrHashMatch::Missing));
    assert!(matches!(server.get_content_if_different_etag("/post.html", &s, None), OptionOrHashMatch::Fresh(_)));
    assert!(server.get_content("/absent", &s).is_none());
    assert_eq!(server.get_content("/post.html", &s).unwrap(), "x");
    assert!(!server.has_paywall("/post.html"));
    assert!(server.get_paywall_article("/post.html").is_none());
}

#[test]
fn later_item_under_same_key_wins() {
    let a = AuthLevelConditionalObject::new_with_single_level("first".to_string());
    let b = AuthLevelConditionalObject::new_with_single_level("second".to_string());
    let server = PaywallServer::new_from_paywall_items(vec![
        ("/k".to_string(), PaywallItem::new(a, None)),
        ("/k".to_string(), PaywallItem::new(b, None)),
    ]);
    assert_eq!(server.get_content("/k", &status(AuthLevel::NoAuth)).unwrap(), "second");
}

#[test]
fn level_comparisons() {
    assert_eq!(AuthLevel::NoAuth.compare(&AuthLevel::AdminAuth), std::cmp::Ordering::Less);
    assert_eq!(AuthLevel::PaidAuth.compare(&AuthLevel::PaidAuth), std::cmp::Ordering::Equal);
    assert!(AuthLevel::AdminAuth.at_least(&AuthLevel::PaidAuth));
    assert!(!AuthLevel::UserUnconfirmed.at_least(&AuthLevel::UserConfirmed));
    assert!(AuthLevel::UserConfirmed > AuthLevel::UserUnconfirmed);
    assert_eq!(AuthLevel::NoAuth.as_u8(), 1);
    assert_eq!(AuthLevel::AdminAuth.as_u8(), 5);
}
