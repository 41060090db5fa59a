use jcode::muse::{
    active_account_label, choose_credentials, entry_credentials, entry_has_credentials, expired_at,
    external_auth_allowed, external_auth_source_exists, external_muse_auth_path,
    external_source_has_muse_auth, fallback_external_path, get_active_account_override,
    has_muse_credentials, has_muse_credentials_fast, has_unconsented_external_auth, holds_key,
    is_expired, jcode_credentials, jcode_muse_auth_path, list_accounts, load_auth_file,
    load_credentials, load_credentials_for_account, load_external_file_has_muse,
    load_external_muse_credentials, login_target_label, next_account_label,
    parse_external_muse_blob, primary_account_label, primary_external_path, relabel_accounts,
    remove_account, save_auth_file, set_active_account, set_active_account_override,
    settle_override_after_removal, trust_external_auth_for_future_use, upsert_account, usable_at,
    AccountRuntime, CredentialError, JcodeMuseAuthFile, MetaEntry, MuseAccount, MuseCredentials,
    Place, Relabeled, Upserted, LATEST_MILLIS,
};

fn creds(token: &str, key: Option<&str>, expires_at: Option<i64>) -> MuseCredentials {
    MuseCredentials {
        access_token: token.to_string(),
        api_key: key.map(|k| k.to_string()),
        expires_at,
    }
}

fn account(label: &str) -> MuseAccount {
    MuseAccount {
        label: label.to_string(),
        access_token: format!("token of {label}"),
        api_key: Some(format!("LLM|{label}")),
        refresh_token: Some("r".to_string()),
        expires_at: Some(17),
        email: Some(format!("{label}@example.org")),
    }
}

fn file(labels: &[&str], active: Option<&str>) -> JcodeMuseAuthFile {
    JcodeMuseAuthFile {
        muse_accounts: labels.iter().map(|l| account(l)).collect(),
        active_muse_account: active.map(|l| l.to_string()),
    }
}

fn labels(auth: &JcodeMuseAuthFile) -> Vec<&str> {
    auth.muse_accounts.iter().map(|a| a.label.as_str()).collect()
}

fn blob(meta: &str) -> String {
    format!("{{\"providers\":{{\"meta\":{meta}}}}}")
}

#[test]
fn parse_external_muse_blob_ok() {
    let data = r#"{"providers":{"meta":{"mechanism":"oauth","access_token":"tok123","expires_at":9999999999999}}}"#;
    let c = parse_external_muse_blob(data).unwrap();
    assert_eq!(c.access_token, "tok123");
}

#[test]
fn parse_external_muse_blob_rejects_api() {
    let data = r#"{"providers":{"meta":{"mechanism":"api_key","access_token":"tok"}}}"#;
    assert!(parse_external_muse_blob(data).is_none());
}

#[test]
fn external_credentials_are_cleaned() {
    let c = parse_external_muse_blob(&blob(
        r#"{"mechanism":"oauth","access_token":"  tok ","api_key":" LLM|k\n","expires_at":"12345"}"#,
    ))
    .unwrap();
    assert_eq!(c.access_token, "tok");
    assert_eq!(c.api_key.as_deref(), Some("LLM|k"));
    assert_eq!(c.expires_at, Some(12345));
}

#[test]
fn the_key_stands_in_for_a_missing_token() {
    let c = parse_external_muse_blob(&blob(r#"{"mechanism":"oauth","api_key":"LLM|k"}"#)).unwrap();
    assert_eq!(c.access_token, "LLM|k");
    assert_eq!(c.api_key.as_deref(), Some("LLM|k"));
    assert_eq!(c.expires_at, None);
}

#[test]
fn keys_of_another_kind_are_dropped() {
    let c = parse_external_muse_blob(&blob(
        r#"{"mechanism":"oauth","access_token":"t","api_key":"sk-1"}"#,
    ))
    .unwrap();
    assert_eq!(c.api_key, None);
    assert!(parse_external_muse_blob(&blob(r#"{"mechanism":"oauth","api_key":"sk-1"}"#)).is_none());
}

#[test]
fn times_of_expiry_that_are_no_numbers_are_dropped() {
    for (written, read) in [
        ("-5", Some(-5)),
        ("\"-5\"", Some(-5)),
        ("\" 5\"", None),
        ("\"soon\"", None),
        ("1.5", None),
        ("null", None),
        ("18446744073709551615", None),
    ] {
        let c = parse_external_muse_blob(&blob(&format!(
            r#"{{"mechanism":"oauth","access_token":"t","expires_at":{written}}}"#
        )))
        .unwrap();
        assert_eq!(c.expires_at, read, "{written}");
    }
}

#[test]
fn the_source_has_auth_exactly_when_it_parses() {
    for data in [
        blob(r#"{"mechanism":"oauth","access_token":"t"}"#),
        blob(r#"{"mechanism":"oauth","access_token":"  "}"#),
        blob(r#"{"mechanism":"oauth","api_key":" LLM|"}"#),
        blob(r#"{"mechanism":"api_key","access_token":"t"}"#),
        blob(r#"{"access_token":"t"}"#),
        blob("7"),
        "{}".to_string(),
        "[]".to_string(),
        "no json".to_string(),
        String::new(),
    ] {
        let parsed = parse_external_muse_blob(&data);
        assert_eq!(external_source_has_muse_auth(Some(&data)), parsed.is_some(), "{data}");
        if let Some(c) = parsed {
            assert!(holds_key(&c), "{data}");
        }
    }
    assert!(!external_source_has_muse_auth(None));
}

#[test]
fn a_file_that_is_no_json_is_an_error() {
    assert!(load_external_file_has_muse("no json").is_err());
    assert!(!load_external_file_has_muse("{}").unwrap());
    assert!(load_external_file_has_muse(&blob(r#"{"mechanism":"oauth","access_token":"t"}"#))
        .unwrap());
}

#[test]
fn entries_are_judged_by_their_fields() {
    let mut entry = MetaEntry {
        mechanism: Some("oauth".to_string()),
        access_token: None,
        api_key: None,
        expires_number: Some(1),
        expires_text: Some("2".to_string()),
    };
    assert!(!entry_has_credentials(&entry));
    assert!(entry_credentials(&entry).is_none());
    entry.access_token = Some("t".to_string());
    assert!(entry_has_credentials(&entry));
    assert_eq!(entry_credentials(&entry).unwrap().expires_at, Some(1));
    entry.mechanism = None;
    assert!(!entry_has_credentials(&entry));
    assert!(entry_credentials(&entry).is_none());
}

#[test]
fn without_consent_nothing_is_read() {
    let data = blob(r#"{"mechanism":"oauth","access_token":"t"}"#);
    assert!(load_external_muse_credentials(false, Some(&data)).is_none());
    assert!(load_external_muse_credentials(true, None).is_none());
    assert_eq!(load_external_muse_credentials(true, Some(&data)).unwrap().access_token, "t");
}

#[test]
fn unconsented_credentials_are_pointed_out() {
    let path = || Some("/p");
    assert_eq!(has_unconsented_external_auth(path(), true, false, true), path());
    assert_eq!(has_unconsented_external_auth(path(), true, true, true), None);
    assert_eq!(has_unconsented_external_auth(path(), false, false, true), None);
    assert_eq!(has_unconsented_external_auth(path(), true, false, false), None);
    assert_eq!(has_unconsented_external_auth(None::<&str>, true, false, true), None);
}

#[test]
fn consent_is_asked_for_the_source_and_its_path() {
    let grant = trust_external_auth_for_future_use(Some("/p")).unwrap();
    assert_eq!((grant.source_id, grant.path), ("muse_cli_auth_json", "/p"));
    assert!(trust_external_auth_for_future_use(None::<&str>).is_none());
    let allowed = |source: &str, path: &&str| source == "muse_cli_auth_json" && *path == "/p";
    assert!(external_auth_allowed(Some(&"/p"), allowed));
    assert!(!external_auth_allowed(Some(&"/q"), allowed));
    assert!(!external_auth_allowed(None, allowed));
    assert!(external_auth_source_exists(Some(true)));
    assert!(!external_auth_source_exists(Some(false)));
    assert!(!external_auth_source_exists(None));
}

fn named(place: Option<Place<&str>>) -> Option<String> {
    match place {
        Some(Place::Named(name)) => Some(name),
        other => panic!("{other:?}"),
    }
}

fn given(place: Option<Place<&str>>) -> Option<&str> {
    match place {
        Some(Place::Given(place)) => Some(place),
        None => None,
        other => panic!("{other:?}"),
    }
}

#[test]
fn the_clients_file_is_found() {
    let home = Some("/home/u/.config/muse/auth.json");
    assert_eq!(
        named(primary_external_path(Some(" /xdg "), home)).as_deref(),
        Some("/xdg/muse/auth.json")
    );
    assert_eq!(given(primary_external_path(Some("  "), home)), home);
    assert_eq!(given(primary_external_path(None, home)), home);
    assert_eq!(given(primary_external_path(None, None)), None);
    assert_eq!(fallback_external_path(Some("/j")).as_deref(), Some("/j/muse-external.json"));
    assert_eq!(fallback_external_path(None), None);
    assert_eq!(jcode_muse_auth_path("/j"), "/j/muse-auth.json");

    let path = |env: Option<&str>, primary, readable, fallback, fallback_readable| {
        external_muse_auth_path(env, primary, readable, fallback, fallback_readable)
    };
    assert_eq!(named(path(Some(" /e "), Some("/p"), true, Some("/f"), true)).as_deref(), Some("/e"));
    assert_eq!(named(path(Some("/e"), None, true, None, true)).as_deref(), Some("/e"));
    assert_eq!(given(path(Some(" "), Some("/p"), true, Some("/f"), true)), Some("/p"));
    assert_eq!(given(path(None, Some("/p"), false, Some("/f"), true)), Some("/f"));
    assert_eq!(given(path(None, Some("/p"), false, Some("/f"), false)), Some("/p"));
    assert_eq!(given(path(None, Some("/p"), false, None, true)), Some("/p"));
    assert_eq!(given(path(None, None, true, Some("/f"), true)), None);
}

#[test]
fn expiry_takes_seconds_and_milliseconds() {
    let now = 1_700_000_000_000;
    // A minute ahead is too close.
    assert!(expired_at(&creds("t", None, Some(1_700_000_060)), now));
    assert!(!expired_at(&creds("t", None, Some(1_700_000_061)), now));
    assert!(expired_at(&creds("t", None, Some(1_700_000_060_000)), now));
    assert!(!expired_at(&creds("t", None, Some(1_700_000_060_001)), now));
    assert!(!expired_at(&creds("t", None, Some(10_000_000_000_000)), now));
    assert!(expired_at(&creds("t", None, Some(10_000_000_000)), now));
    assert!(!expired_at(&creds("t", None, Some(9_999_999_999)), now));
    assert!(!expired_at(&creds("t", None, None), now));
    assert!(expired_at(&creds("t", None, Some(i64::MIN)), now));
    assert!(!expired_at(&creds("t", None, Some(i64::MAX)), now));
    assert!(expired_at(&creds("t", None, Some(i64::MAX)), i64::MAX));
}

#[test]
fn expiry_is_measured_by_the_clock() {
    assert!(is_expired(&creds("t", None, Some(1))));
    assert!(!is_expired(&creds("t", None, Some(9_999_999_999))));
    assert!(!is_expired(&creds("t", None, None)));
    // Later than any time that the clock shows, and before the first.
    assert!(!is_expired(&creds("t", None, Some(LATEST_MILLIS + 60_001))));
    assert!(!is_expired(&creds("t", None, Some(i64::MAX))));
    assert!(is_expired(&creds("t", None, Some(60))));
    assert!(is_expired(&creds("t", None, Some(-1))));
}

#[test]
fn the_clock_ends_with_the_calendar() {
    let latest = chrono::DateTime::<chrono::Utc>::MAX_UTC.timestamp_millis();
    assert_eq!(LATEST_MILLIS, latest);
    assert!(chrono::DateTime::from_timestamp_millis(LATEST_MILLIS).is_some());
    assert!(chrono::DateTime::from_timestamp_millis(LATEST_MILLIS + 1).is_none());
}

#[test]
fn expired_credentials_stay_expired() {
    let c = creds("t", None, Some(1_000));
    for later in [1_000_000, 2_000_000, i64::MAX] {
        assert!(expired_at(&c, later));
    }
}

#[test]
fn keys_and_tokens_make_credentials_usable() {
    assert!(holds_key(&creds("t", None, None)));
    assert!(holds_key(&creds(" ", Some(" LLM|x"), None)));
    assert!(!holds_key(&creds(" ", Some("sk"), None)));
    assert!(!holds_key(&creds("", None, None)));
    assert!(usable_at(Some(&creds("t", None, Some(100))), 0));
    assert!(!usable_at(Some(&creds("t", None, Some(60))), 0));
    assert!(!usable_at(Some(&creds("", None, None)), 0));
    assert!(!usable_at(None, 0));
}

#[test]
fn either_credentials_are_enough() {
    let good = creds("t", None, None);
    let stale = creds("t", None, Some(1));
    let empty = creds("", None, None);
    for available in [has_muse_credentials, has_muse_credentials_fast] {
        assert!(available(Some(&good), None));
        assert!(available(None, Some(&good)));
        assert!(available(Some(&stale), Some(&good)));
        assert!(available(Some(&empty), Some(&good)));
        assert!(!available(Some(&stale), Some(&stale)));
        assert!(!available(Some(&empty), None));
        assert!(!available(None, None));
        assert!(available(Some(&creds("t", None, Some(i64::MAX))), None));
        assert!(!available(Some(&creds("", None, Some(i64::MAX))), Some(&stale)));
    }
}

#[test]
fn own_credentials_come_first() {
    let own = || Some(creds("own", None, None));
    let stale = || Some(creds("stale", None, Some(1)));
    let empty = || Some(creds("", None, None));
    let external = || Some(creds("external", None, None));
    assert_eq!(load_credentials(own(), external()).unwrap().access_token, "own");
    assert_eq!(load_credentials(None, external()).unwrap().access_token, "external");
    assert_eq!(load_credentials(empty(), external()).unwrap().access_token, "external");
    // Expired ones are not passed over.
    assert_eq!(load_credentials(stale(), external()).unwrap_err(), CredentialError::Expired);
    assert_eq!(load_credentials(None, stale()).unwrap_err(), CredentialError::ExternalExpired);
    assert_eq!(load_credentials(None, None).unwrap_err(), CredentialError::Missing);
    assert_eq!(load_credentials(empty(), None).unwrap_err(), CredentialError::Missing);
    let lasting = || Some(creds("lasting", None, Some(i64::MAX)));
    assert_eq!(load_credentials(lasting(), stale()).unwrap().access_token, "lasting");
    assert_eq!(load_credentials(empty(), lasting()).unwrap().access_token, "lasting");
}

#[test]
fn choices_depend_on_the_time() {
    let own = || Some(creds("own", None, Some(100)));
    assert_eq!(choose_credentials(own(), None, 39_999).unwrap().access_token, "own");
    assert_eq!(choose_credentials(own(), None, 40_000).unwrap_err(), CredentialError::Expired);
}

#[test]
fn errors_say_what_to_do() {
    assert_eq!(
        CredentialError::Expired.message(),
        "Muse OAuth token is expired. Run `jcode login --provider muse` to refresh."
    );
    assert_eq!(
        CredentialError::ExternalExpired.message(),
        "Muse CLI OAuth token is expired. Run `muse login` then `jcode login --provider muse` or re-approve the external source."
    );
    assert_eq!(
        CredentialError::Missing.message(),
        "No Muse OAuth credentials found. Run `jcode login --provider muse` or `muse login` then approve the import."
    );
}

#[test]
fn an_override_is_kept_until_it_is_taken_back() {
    let mut runtime = AccountRuntime::new();
    assert_eq!(get_active_account_override(&runtime), None);
    set_active_account_override(&mut runtime, Some("muse-fox".to_string()));
    assert_eq!(get_active_account_override(&runtime).as_deref(), Some("muse-fox"));
    set_active_account_override(&mut runtime, None);
    assert_eq!(get_active_account_override(&runtime), None);
}

#[test]
fn labels_come_from_the_account_store() {
    let canonical = |prefix: &str, n: usize| format!("{prefix}-{n}");
    assert_eq!(primary_account_label(canonical), "muse-1");
    assert_eq!(next_account_label(&file(&["a", "b"], None), canonical), "muse-2");
    let target = |prefix: &str, requested: Option<&str>, auth: &JcodeMuseAuthFile| {
        format!("{prefix}/{}/{}", requested.unwrap_or("-"), auth.muse_accounts.len())
    };
    assert_eq!(login_target_label(Some("x"), &file(&["a"], None), target), "muse/x/1");
    let mut runtime = AccountRuntime::new();
    set_active_account_override(&mut runtime, Some("o".to_string()));
    let pick = |overriding: &Option<String>, auth: &JcodeMuseAuthFile| {
        overriding.clone().or_else(|| auth.active_muse_account.clone())
    };
    let auth = file(&["a"], Some("a"));
    assert_eq!(active_account_label(Some(&auth), &runtime, pick).as_deref(), Some("o"));
    assert_eq!(
        active_account_label(Some(&auth), &AccountRuntime::new(), pick).as_deref(),
        Some("a")
    );
    assert_eq!(active_account_label(None, &runtime, pick), None);
}

fn upper(prefix: &str, auth: &JcodeMuseAuthFile, overriding: &Option<String>) -> Relabeled {
    assert_eq!(prefix, "muse");
    let mut out = auth.clone();
    let mut changed = false;
    for a in out.muse_accounts.iter_mut() {
        let label = a.label.to_uppercase();
        changed = changed || label != a.label;
        a.label = label;
    }
    Relabeled {
        auth: out,
        changed,
        canonical_override_label: overriding.as_ref().map(|o| o.to_uppercase()),
    }
}

#[test]
fn relabeled_accounts_are_to_be_saved() {
    let mut runtime = AccountRuntime::new();
    let loaded = load_auth_file(Some(file(&["a"], None)), &mut runtime, upper);
    assert!(loaded.must_save);
    assert_eq!(labels(&loaded.auth), ["A"]);
    assert_eq!(get_active_account_override(&runtime), None);
    set_active_account_override(&mut runtime, Some("a".to_string()));
    let loaded = load_auth_file(Some(file(&["A"], None)), &mut runtime, upper);
    assert!(!loaded.must_save);
    assert_eq!(get_active_account_override(&runtime).as_deref(), Some("A"));
    let none = load_auth_file(None, &mut runtime, upper);
    assert!(none.auth.muse_accounts.is_empty() && none.auth.active_muse_account.is_none());
    let mut auth = file(&["b"], None);
    assert!(relabel_accounts(&mut auth, &mut runtime, upper));
    assert_eq!(labels(&auth), ["B"]);
}

#[test]
fn saved_accounts_are_complete() {
    let auth = file(&["a", "b"], Some("b"));
    let saved = save_auth_file(&auth);
    assert_eq!(labels(&saved), ["a", "b"]);
    assert_eq!(saved.active_muse_account.as_deref(), Some("b"));
    assert_eq!(saved.muse_accounts[1].email, auth.muse_accounts[1].email);
    assert_eq!(saved.muse_accounts[1].refresh_token.as_deref(), Some("r"));
    assert_eq!(saved.muse_accounts[1].expires_at, Some(17));
    assert_eq!(list_accounts(saved).len(), 2);
}

#[test]
fn saved_accounts_come_back() {
    let auth = file(&["A", "B"], Some("B"));
    let mut runtime = AccountRuntime::new();
    let mut stored = save_auth_file(&auth);
    for _ in 0..2 {
        let loaded = load_auth_file(Some(stored), &mut runtime, upper);
        assert!(!loaded.must_save);
        assert_eq!(labels(&loaded.auth), ["A", "B"]);
        assert_eq!(loaded.auth.active_muse_account.as_deref(), Some("B"));
        assert_eq!(loaded.auth.muse_accounts[0].access_token, "token of A");
        assert_eq!(loaded.auth.muse_accounts[0].email.as_deref(), Some("A@example.org"));
        stored = loaded.auth;
    }
}

#[test]
fn only_an_account_can_become_active() {
    let mut auth = file(&["a", "b"], Some("a"));
    assert!(set_active_account(&mut auth, "b").is_ok());
    assert_eq!(auth.active_muse_account.as_deref(), Some("b"));
    assert_eq!(
        set_active_account(&mut auth, "c").unwrap_err(),
        "No Muse account with label 'c' found"
    );
    assert_eq!(auth.active_muse_account.as_deref(), Some("b"));
}

#[test]
fn an_upserted_account_gets_a_label() {
    let mut auth = file(&["a"], None);
    let label = upsert_account(&mut auth, account("b"), |prefix: &str, auth: &JcodeMuseAuthFile, new: MuseAccount| {
        let mut out = auth.clone();
        let label = format!("{prefix}-{}", new.label);
        out.muse_accounts.push(new);
        Upserted { auth: out, label }
    });
    assert_eq!(label, "muse-b");
    assert_eq!(labels(&auth), ["a", "b"]);
}

#[test]
fn removing_the_active_account_moves_on() {
    let mut runtime = AccountRuntime::new();
    set_active_account_override(&mut runtime, Some("b".to_string()));
    let mut auth = file(&["a", "b", "c", "b"], Some("b"));
    assert!(remove_account(&mut auth, "b").is_ok());
    assert_eq!(labels(&auth), ["a", "c"]);
    assert_eq!(auth.active_muse_account.as_deref(), Some("a"));
    settle_override_after_removal(&mut runtime, &auth, "b");
    assert_eq!(get_active_account_override(&runtime).as_deref(), Some("a"));
    settle_override_after_removal(&mut runtime, &auth, "c");
    assert_eq!(get_active_account_override(&runtime).as_deref(), Some("a"));
}

#[test]
fn removing_the_last_account_leaves_none_active() {
    let mut auth = file(&["a"], Some("a"));
    assert!(remove_account(&mut auth, "a").is_ok());
    assert_eq!(auth.active_muse_account, None);
    assert_eq!(
        remove_account(&mut auth, "a").unwrap_err(),
        "No Muse account with label 'a' found"
    );
}

#[test]
fn removing_another_account_changes_nothing_else() {
    let mut auth = file(&["a", "b"], Some("a"));
    assert!(remove_account(&mut auth, "b").is_ok());
    assert_eq!(labels(&auth), ["a"]);
    assert_eq!(auth.active_muse_account.as_deref(), Some("a"));
    assert!(remove_account(&mut auth, "x").is_err());
    assert_eq!(labels(&auth), ["a"]);
}

#[test]
fn the_account_in_use_gives_its_credentials() {
    let auth = file(&["a", "b"], None);
    let token = |active: Option<&str>, primary: &str| {
        jcode_credentials(Some(&auth), active, primary).unwrap().access_token
    };
    assert_eq!(token(Some("b"), "a"), "token of b");
    assert_eq!(token(None, "b"), "token of b");
    // No account has the label: the first one is used.
    assert_eq!(token(Some("x"), "b"), "token of a");
    assert!(jcode_credentials(Some(&file(&[], None)), None, "a").is_none());
    assert!(jcode_credentials(None, Some("a"), "a").is_none());
}

#[test]
fn an_account_gives_its_credentials() {
    let auth = file(&["a", "b"], None);
    let c = load_credentials_for_account(&auth, "b").unwrap();
    assert_eq!(c.access_token, "token of b");
    assert_eq!(c.api_key.as_deref(), Some("LLM|b"));
    assert_eq!(c.expires_at, Some(17));
    assert_eq!(
        load_credentials_for_account(&auth, "x").unwrap_err(),
        "No Muse account with label 'x' found"
    );
}
