use helsafe::{
    index_of_id, list_label, menu_choice, search_records, str_contains, table_rows,
    OperationMode, Password, StoredPassword,
};

fn record(title: &str, username: &str, email: &str) -> Password {
    Password::new(
        title.to_string(),
        username.to_string(),
        "secret".to_string(),
        email.to_string(),
        "rc".to_string(),
        "at".to_string(),
        "n".to_string(),
    )
}

#[test]
fn menu_choice_maps_each_option() {
    assert_eq!(menu_choice(0), Some(OperationMode::Entry));
    assert_eq!(menu_choice(1), Some(OperationMode::Delete));
    assert_eq!(menu_choice(2), Some(OperationMode::Search));
    assert_eq!(menu_choice(3), Some(OperationMode::List));
    assert_eq!(menu_choice(4), Some(OperationMode::Copy));
    assert_eq!(menu_choice(5), Some(OperationMode::Exit));
    assert_eq!(menu_choice(6), None);
    assert_eq!(menu_choice(usize::MAX), None);
}

#[test]
fn str_contains_finds_substrings() {
    assert!(str_contains("hello world", "lo wo"));
    assert!(str_contains("hello", "hello"));
    assert!(str_contains("hello", ""));
    assert!(str_contains("", ""));
    assert!(!str_contains("", "a"));
    assert!(!str_contains("hello", "world"));
    assert!(!str_contains("abc", "abcd"));
    assert!(str_contains("abcabd", "abd"));
}

#[test]
fn search_filters_by_title_username_and_email() {
    let records = vec![
        StoredPassword::new(1, record("Bank", "alice", "a@x.org")),
        StoredPassword::new(2, record("Mail", "bob", "bob@bank.org")),
        StoredPassword::new(3, record("Forum", "carol", "c@x.org")),
    ];

    let by_title = search_records(&records, "Bank");
    assert_eq!(by_title.len(), 1);
    assert_eq!(by_title[0].id, 1);

    let by_email = search_records(&records, "bank.org");
    assert_eq!(by_email.len(), 1);
    assert_eq!(by_email[0].id, 2);

    let by_username = search_records(&records, "carol");
    assert_eq!(by_username.len(), 1);
    assert_eq!(by_username[0].id, 3);

    let everything = search_records(&records, "");
    assert_eq!(everything.len(), 3);

    let nothing = search_records(&records, "zzz");
    assert_eq!(nothing.len(), 0);

    // The secret itself is not searched.
    let by_secret = search_records(&records, "secret");
    assert_eq!(by_secret.len(), 0);
}

#[test]
fn search_keeps_the_given_order() {
    let records = vec![
        StoredPassword::new(1, record("aa", "", "")),
        StoredPassword::new(2, record("ab", "", "")),
        StoredPassword::new(3, record("ba", "", "")),
    ];
    let hits = search_records(&records, "a");
    assert_eq!(hits.len(), 3);
    assert_eq!(hits[0].id, 1);
    assert_eq!(hits[1].id, 2);
    assert_eq!(hits[2].id, 3);

    let hits = search_records(&records, "b");
    assert_eq!(hits.len(), 2);
    assert_eq!(hits[0].id, 2);
    assert_eq!(hits[1].id, 3);
}

#[test]
fn str_contains_counts_characters_not_bytes() {
    assert!(str_contains("na\u{ef}ve", "a\u{ef}v"));
    assert!(!str_contains("na\u{ef}ve", "aive"));
}

#[test]
fn table_rows_format_any_id_in_decimal() {
    let records = vec![
        StoredPassword::new(0, record("Zero", "", "")),
        StoredPassword::new(1200, record("Big", "", "")),
    ];
    let rows = table_rows(&records);
    assert_eq!(rows[1][0], "0");
    assert_eq!(rows[2][0], "1200");
}

#[test]
fn index_of_id_resolves_durable_ids_to_positions() {
    let records = vec![
        StoredPassword::new(3, record("A", "", "")),
        StoredPassword::new(7, record("B", "", "")),
        StoredPassword::new(12, record("C", "", "")),
    ];
    assert_eq!(index_of_id(&records, 3), Some(0));
    assert_eq!(index_of_id(&records, 7), Some(1));
    assert_eq!(index_of_id(&records, 12), Some(2));
    assert_eq!(index_of_id(&records, 5), None);
    assert_eq!(index_of_id(&Vec::new(), 1), None);
}

#[test]
fn list_label_prefers_the_username() {
    assert_eq!(list_label(&record("T", "alice", "a@x.org")), "alice");
    assert_eq!(list_label(&record("T", "", "a@x.org")), "a@x.org");
    assert_eq!(list_label(&record("T", "", "")), "");
}

#[test]
fn table_rows_carry_header_and_fields() {
    let records = vec![
        StoredPassword::new(7, record("Bank", "alice", "a@x.org")),
        StoredPassword::new(41, record("Mail", "bob", "b@x.org")),
    ];
    let rows = table_rows(&records);
    assert_eq!(rows.len(), 3);
    assert_eq!(
        rows[0],
        vec![
            "Id",
            "Title",
            "Username",
            "Password",
            "Email",
            "Recovery Codes",
            "Access Tokens",
            "Notes"
        ]
    );
    assert_eq!(
        rows[1],
        vec!["7", "Bank", "alice", "secret", "a@x.org", "rc", "at", "n"]
    );
    assert_eq!(rows[2][0], "41");
    assert_eq!(rows[2][1], "Mail");
}
