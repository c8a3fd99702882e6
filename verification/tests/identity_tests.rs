use tinymemory::identity::{
    canonicalize, is_self_identity_any_toolkit, normalize_connection_identifier, normalize_token,
    self_identity_key_pattern, self_identity_lookup, IdentityKind,
};

const ALL: [IdentityKind; 7] = [
    IdentityKind::UserId,
    IdentityKind::Email,
    IdentityKind::Handle,
    IdentityKind::Phone,
    IdentityKind::DisplayName,
    IdentityKind::AvatarUrl,
    IdentityKind::ProfileUrl,
];

#[test]
fn every_kind_name_parses_back() {
    for kind in ALL {
        assert_eq!(IdentityKind::parse(kind.as_str()), Some(kind));
    }
    assert_eq!(IdentityKind::Email.as_str(), "email");
    assert_eq!(IdentityKind::DisplayName.as_str(), "display_name");
    assert_eq!(IdentityKind::parse("Email"), None);
    assert_eq!(IdentityKind::parse(""), None);
}

#[test]
fn only_real_identity_signals_are_matchable() {
    assert!(IdentityKind::UserId.is_matchable());
    assert!(IdentityKind::DisplayName.is_matchable());
    assert!(!IdentityKind::AvatarUrl.is_matchable());
    assert!(!IdentityKind::ProfileUrl.is_matchable());
}

#[test]
fn canonical_forms_fold_per_kind() {
    assert_eq!(canonicalize(IdentityKind::Email, "  Alice@Example.COM "), Some("alice@example.com".into()));
    assert_eq!(canonicalize(IdentityKind::Handle, "@@Alice"), Some("alice".into()));
    assert_eq!(canonicalize(IdentityKind::Phone, " +1 (555) 010-9999 "), Some("+15550109999".into()));
    assert_eq!(canonicalize(IdentityKind::DisplayName, "  Ada \t  Lovelace\n"), Some("Ada Lovelace".into()));
    assert_eq!(canonicalize(IdentityKind::UserId, " U123ABC "), Some("U123ABC".into()));
    assert_eq!(canonicalize(IdentityKind::Email, "   "), None);
    assert_eq!(canonicalize(IdentityKind::Phone, "\u{3000}"), None);
}

#[test]
fn canonicalising_a_canonical_value_changes_nothing() {
    for (kind, raw) in [
        (IdentityKind::DisplayName, "  Ada \t  Lovelace\n"),
        (IdentityKind::Phone, " +1 (555) 010-9999 "),
        (IdentityKind::UserId, "\u{a0}U123\u{2003}"),
    ] {
        let once = canonicalize(kind, raw).unwrap();
        assert_eq!(canonicalize(kind, &once), Some(once.clone()));
    }
}

#[test]
fn a_phone_number_without_digits_canonicalises_to_nothing_usable() {
    let once = canonicalize(IdentityKind::Phone, "n/a").unwrap();
    assert_eq!(once, "");
    assert_eq!(canonicalize(IdentityKind::Phone, &once), None);
}

#[test]
fn tokens_fold_to_profile_store_key_shape() {
    assert_eq!(normalize_token("  Hello, World!  "), "hello__world");
    assert_eq!(normalize_token("__conn-1__"), "conn-1");
    assert_eq!(normalize_token("Ünïcode"), "n_code");
    assert_eq!(normalize_connection_identifier("CA_123.x"), "ca_123_x");
    let once = normalize_token("  Mixed Case-ID  ");
    assert_eq!(normalize_token(&once), once);
}

#[test]
fn a_self_identity_is_matched_across_toolkits_by_canonical_form() {
    let rows: Vec<(String, String)> = vec![("skill:%:%:email".into(), "me@example.com".into())];
    let store = |pattern: &str, canonical: &str| {
        rows.iter().any(|(p, c)| p == pattern && c == canonical)
    };
    assert!(is_self_identity_any_toolkit(IdentityKind::Email, " ME@example.com", Some(&store)));
    assert!(!is_self_identity_any_toolkit(IdentityKind::Email, "you@example.com", Some(&store)));
    assert!(!is_self_identity_any_toolkit(IdentityKind::Email, "me@example.com", None::<&fn(&str, &str) -> bool>));
    assert!(!is_self_identity_any_toolkit(IdentityKind::AvatarUrl, "me@example.com", Some(&store)));
    assert!(!is_self_identity_any_toolkit(IdentityKind::Email, "  ", Some(&store)));
}

#[test]
fn the_lookup_names_the_kind_pattern_and_canonical_value() {
    assert_eq!(self_identity_key_pattern(IdentityKind::Handle), "skill:%:%:handle");
    assert_eq!(
        self_identity_lookup(IdentityKind::Handle, "@Ada"),
        Some(("skill:%:%:handle".to_string(), "ada".to_string()))
    );
    assert_eq!(self_identity_lookup(IdentityKind::ProfileUrl, "https://x"), None);
}
