use secret_expiry::fetch::{FetchStep, Hydration};
use secret_expiry::instant::Instant;
use secret_expiry::model::{App, Owner, Owners, PasswordCredential, User, Users};
use secret_expiry::evaluate::Alert;
use secret_expiry::notify::{alert_message_body, alert_subject, digest_body, digest_subject};
use secret_expiry::text::{join, parse_app_ids, render_option, trim, white_space};

fn bare_app(id: &str) -> App {
    App {
        id: id.to_string(),
        app_id: None,
        display_name: Some(format!("App {}", id)),
        password_credentials: vec![PasswordCredential {
            custom_key_identifier: None,
            end_date_time: Instant::from_timestamp(0, 0).unwrap(),
            hint: None,
            key_id: None,
        }],
        owners: vec![],
    }
}

fn owners_of(ids: &[&str]) -> Owners {
    Owners {
        value: ids
            .iter()
            .map(|i| Owner {
                id: i.to_string(),
                display_name: None,
                user_principal_name: None,
                mail: Some(format!("{}@x.com", i)),
            })
            .collect(),
    }
}

#[test]
fn malformed_record_is_skipped_and_run_continues() {
    let mut run = Hydration::new();
    // first page: one good record, one malformed
    match run.on_record(Some(bare_app("good"))) {
        FetchStep::FetchOwners(id) => assert_eq!(id, "good"),
        FetchStep::NextRecord => panic!("owners should be fetched"),
    }
    run.on_owners(Some(owners_of(&["o1"])));
    assert!(matches!(run.on_record(None), FetchStep::NextRecord));
    // second page
    match run.on_record(Some(bare_app("next"))) {
        FetchStep::FetchOwners(id) => assert_eq!(id, "next"),
        FetchStep::NextRecord => panic!("owners should be fetched"),
    }
    run.on_owners(Some(owners_of(&["o2", "o3"])));
    let apps = run.into_apps();
    assert_eq!(apps.len(), 2);
    assert_eq!(apps[0].id, "good");
    assert_eq!(apps[0].owners.len(), 1);
    assert_eq!(apps[1].id, "next");
    assert_eq!(apps[1].owners.len(), 2);
    assert_eq!(apps[1].owners[1].mail, Some("o3@x.com".to_string()));
}

#[test]
fn unparsed_owner_list_drops_application() {
    let mut run = Hydration::new();
    run.on_record(Some(bare_app("a")));
    run.on_owners(None);
    run.on_record(Some(bare_app("b")));
    run.on_owners(Some(owners_of(&[])));
    let apps = run.into_apps();
    assert_eq!(apps.len(), 1);
    assert_eq!(apps[0].id, "b");
    assert!(apps[0].owners.is_empty());
}

#[test]
fn owners_without_pending_application_are_ignored() {
    let mut run = Hydration::new();
    run.on_owners(Some(owners_of(&["o1"])));
    assert!(run.into_apps().is_empty());
}

#[test]
fn insert_owners_replaces_list() {
    let mut a = bare_app("x");
    a.insert_owners(owners_of(&["p", "q"]).value);
    assert_eq!(a.owners.len(), 2);
    a.insert_owners(vec![]);
    assert!(a.owners.is_empty());
    assert_eq!(a.id, "x");
    assert_eq!(a.password_credentials.len(), 1);
}

#[test]
fn id_list_empty_input() {
    assert!(parse_app_ids("").is_empty());
}

#[test]
fn id_list_trims_entries() {
    assert_eq!(
        parse_app_ids(" a , b,c \t"),
        vec!["a".to_string(), "b".to_string(), "c".to_string()]
    );
}

#[test]
fn id_list_keeps_empty_fields() {
    assert_eq!(parse_app_ids("a,,b"), vec!["a".to_string(), "".to_string(), "b".to_string()]);
    assert_eq!(parse_app_ids(","), vec!["".to_string(), "".to_string()]);
    assert_eq!(parse_app_ids("single"), vec!["single".to_string()]);
    assert_eq!(parse_app_ids("  "), vec!["".to_string()]);
}

#[test]
fn id_list_non_ascii() {
    assert_eq!(parse_app_ids("é1, ü2"), vec!["é1".to_string(), "ü2".to_string()]);
}

#[test]
fn option_rendering() {
    assert_eq!(render_option(&None), "None");
    assert_eq!(render_option(&Some("k".to_string())), "Some(\"k\")");
    assert_eq!(render_option(&Some("a\nb".to_string())), "Some(\"a\\nb\")");
}

#[test]
fn join_texts() {
    let parts = vec!["a".to_string(), "b".to_string(), "c".to_string()];
    assert_eq!(join(&parts, "\n"), "a\nb\nc");
    assert_eq!(join(&parts, ", "), "a, b, c");
    assert_eq!(join(&vec![], ","), "");
    assert_eq!(join(&vec!["only".to_string()], ","), "only");
}

#[test]
fn alert_message_text() {
    assert_eq!(alert_subject(), "Alert: Expiring Credentials for Application");
    let creds = vec!["one".to_string(), "two".to_string()];
    assert_eq!(
        alert_message_body("Foo", &creds),
        "The application 'Foo' has credentials expiring soon. Please review and take necessary action.\n\nExpiring Credentials:\none\ntwo"
    );
}

#[test]
fn user_records_hold_fields() {
    let users = Users {
        value: vec![User {
            id: "u1".to_string(),
            sign_in_type: "emailAddress".to_string(),
            issuer: "contoso.com".to_string(),
            issuer_assigned_id: "jdoe@contoso.com".to_string(),
        }],
    };
    assert_eq!(users.value.len(), 1);
    assert_eq!(users.value[0].issuer, "contoso.com");
}

fn alert(name: &str, contacts: &[&str], creds: &[&str]) -> Alert {
    Alert {
        application_name: name.to_string(),
        owner_contacts: contacts.iter().map(|s| s.to_string()).collect(),
        expiring_credentials: creds.iter().map(|s| s.to_string()).collect(),
    }
}

#[test]
fn digest_flattens_alerts() {
    let alerts = vec![alert("Foo", &["a@x.com", "b@x.com"], &["c1"]), alert("Bar", &["c@x.com"], &["c2", "c3"])];
    assert_eq!(digest_subject(), "Alert: Expiring Credentials Digest");
    assert_eq!(
        digest_body(&alerts),
        "Applications: Foo, Bar\nOwners: a@x.com, b@x.com, c@x.com\n\nExpiring Credentials:\nc1\nc2\nc3"
    );
}

#[test]
fn digest_of_nothing() {
    assert_eq!(digest_body(&vec![]), "Applications: \nOwners: \n\nExpiring Credentials:\n");
}

#[test]
fn trim_matches_std() {
    let samples = [
        "",
        "   ",
        " a ",
        "\t\n\u{b}\u{c}\r x y \u{85}",
        "\u{3000}\u{a0}id\u{2028}\u{2029}\u{202f}\u{205f}\u{1680}",
        "\u{2000}\u{200a}z",
        "\u{200b}keep\u{200b}",
        "é ü",
    ];
    for s in samples {
        assert_eq!(trim(s), s.trim());
    }
    assert_eq!(trim("\u{3000}a\u{a0}"), "a");
    assert_eq!(trim("\u{200b}x"), "\u{200b}x");
}

#[test]
fn white_space_matches_std() {
    for v in 0u32..0x3100 {
        if let Some(c) = char::from_u32(v) {
            assert_eq!(white_space(c), c.is_whitespace(), "code point {:x}", v);
        }
    }
    assert!(!white_space('\u{feff}'));
}
