use neverest::account::{
    materialize, secret_store_key, Backend, ConfigError, ImapConfig, MaildirConfig, Secret,
    SecretField, SecretStore, SecretStoreError, SendingBackend, SmtpConfig, TomlAccountConfig,
};
use neverest::config::{is_default_request, TomlConfig};

struct CountingStore {
    entries: Vec<(String, String)>,
    calls: usize,
    keys: Vec<String>,
    failure: SecretStoreError,
}

impl CountingStore {
    fn new(entries: &[(&str, &str)]) -> Self {
        CountingStore {
            entries: entries
                .iter()
                .map(|(k, v)| (k.to_string(), v.to_string()))
                .collect(),
            calls: 0,
            keys: Vec::new(),
            failure: SecretStoreError::NotFound,
        }
    }
}

impl SecretStore for CountingStore {
    fn get(&mut self, key: &str) -> Result<String, SecretStoreError> {
        self.calls += 1;
        self.keys.push(key.to_string());
        self.entries
            .iter()
            .find(|(k, _)| k == key)
            .map(|(_, v)| v.clone())
            .ok_or(self.failure)
    }
}

fn imap(password: Secret) -> Backend {
    Backend::Imap(ImapConfig {
        host: "imap.example.org".to_string(),
        port: 993,
        login: "me@example.org".to_string(),
        password,
    })
}

fn smtp(password: Secret) -> SendingBackend {
    SendingBackend::Smtp(SmtpConfig {
        host: "smtp.example.org".to_string(),
        port: 465,
        login: "me@example.org".to_string(),
        password,
    })
}

fn account(default: Option<bool>, backend: Option<Backend>) -> TomlAccountConfig {
    TomlAccountConfig {
        default,
        backend,
        message_send_backend: None,
    }
}

fn imap_password(c: &TomlAccountConfig) -> &Secret {
    match &c.backend {
        Some(Backend::Imap(i)) => &i.password,
        _ => panic!("no imap backend"),
    }
}

fn smtp_password(c: &TomlAccountConfig) -> &Secret {
    match &c.message_send_backend {
        Some(SendingBackend::Smtp(s)) => &s.password,
        _ => panic!("no smtp backend"),
    }
}

fn table(entries: Vec<(&str, TomlAccountConfig)>) -> TomlConfig {
    let mut t = TomlConfig::new();
    for (n, c) in entries {
        t.insert(n.to_string(), c);
    }
    t
}

#[test]
fn single_default_selected_by_every_default_request() {
    let t = table(vec![
        ("alpha", account(None, None)),
        ("work", account(Some(true), Some(imap(Secret::Raw("x".to_string()))))),
        ("beta", account(Some(false), None)),
    ]);
    for req in [None, Some("default"), Some("")] {
        let (name, c) = t.resolve(req).unwrap();
        assert_eq!(name, "work");
        assert_eq!(c.default, Some(true));
        assert!(matches!(imap_password(&c), Secret::Raw(p) if p == "x"));
    }
}

#[test]
fn first_default_wins_when_several_are_flagged() {
    let t = table(vec![
        ("one", account(Some(true), None)),
        ("two", account(Some(true), None)),
    ]);
    let (name, _) = t.resolve(None).unwrap();
    assert_eq!(name, "one");
}

#[test]
fn no_default_flag_fails_with_no_default_account() {
    let t = table(vec![
        ("a", account(None, None)),
        ("b", account(Some(false), None)),
    ]);
    assert!(matches!(t.resolve(None), Err(ConfigError::NoDefaultAccount)));
    assert!(matches!(t.resolve(Some("default")), Err(ConfigError::NoDefaultAccount)));
}

#[test]
fn unknown_name_fails_with_unknown_account() {
    let t = table(vec![("work", account(Some(true), None))]);
    match t.resolve(Some("home")) {
        Err(ConfigError::UnknownAccount(n)) => assert_eq!(n, "home"),
        other => panic!("unexpected {:?}", other),
    }
    match t.resolve(Some("Work")) {
        Err(ConfigError::UnknownAccount(n)) => assert_eq!(n, "Work"),
        other => panic!("unexpected {:?}", other),
    }
}

#[test]
fn named_account_is_found() {
    let t = table(vec![
        ("work", account(Some(true), None)),
        ("home", account(None, Some(Backend::Maildir(MaildirConfig { root_dir: "/m".to_string() })))),
    ]);
    let (name, c) = t.resolve(Some("home")).unwrap();
    assert_eq!(name, "home");
    assert_eq!(c.default, None);
    assert!(matches!(&c.backend, Some(Backend::Maildir(m)) if m.root_dir == "/m"));
}

#[test]
fn empty_table_scenario() {
    let t = TomlConfig::new();
    assert!(matches!(t.resolve(None), Err(ConfigError::NoDefaultAccount)));
    match t.resolve(Some("work")) {
        Err(ConfigError::UnknownAccount(n)) => assert_eq!(n, "work"),
        other => panic!("unexpected {:?}", other),
    }
}

#[test]
fn insert_replaces_account_of_same_name() {
    let mut t = table(vec![("work", account(None, None))]);
    t.insert("work".to_string(), account(Some(true), None));
    assert_eq!(t.accounts.len(), 1);
    assert_eq!(t.resolve(None).unwrap().0, "work");
}

#[test]
fn default_requests_are_recognised() {
    assert!(is_default_request(None));
    assert!(is_default_request(Some("default")));
    assert!(is_default_request(Some("")));
    assert!(!is_default_request(Some("defaults")));
    assert!(!is_default_request(Some("work")));
}

#[test]
fn project_name_is_neverest() {
    assert_eq!(TomlConfig::project_name(), "neverest");
}

#[test]
fn store_keys_derive_from_account_and_field() {
    assert_eq!(secret_store_key("work", SecretField::ImapPassword), "work-imap-password");
    assert_eq!(secret_store_key("home", SecretField::SmtpPassword), "home-smtp-password");
}

#[test]
fn inline_secret_is_never_looked_up() {
    let mut c = account(Some(true), Some(imap(Secret::Raw("hunter2".to_string()))));
    c.message_send_backend = Some(smtp(Secret::Raw("pw".to_string())));
    let mut store = CountingStore::new(&[]);
    assert!(materialize(&mut c, "work", &mut store).is_ok());
    assert_eq!(store.calls, 0);
    assert!(matches!(imap_password(&c), Secret::Raw(p) if p == "hunter2"));
    assert!(matches!(smtp_password(&c), Secret::Raw(p) if p == "pw"));
}

#[test]
fn empty_inline_secret_stays_empty_without_lookup() {
    let mut c = account(Some(true), Some(imap(Secret::Raw(String::new()))));
    let mut store = CountingStore::new(&[("work-imap-password", "s3cr3t")]);
    assert!(materialize(&mut c, "work", &mut store).is_ok());
    assert_eq!(store.calls, 0);
    assert!(matches!(imap_password(&c), Secret::Raw(p) if p.is_empty()));
}

#[test]
fn deferred_secret_looked_up_once_and_not_again() {
    let mut c = account(Some(true), Some(imap(Secret::Deferred)));
    c.message_send_backend = Some(smtp(Secret::Deferred));
    let mut store = CountingStore::new(&[
        ("work-imap-password", "in"),
        ("work-smtp-password", "out"),
    ]);
    assert!(materialize(&mut c, "work", &mut store).is_ok());
    assert_eq!(store.calls, 2);
    assert_eq!(store.keys, vec!["work-imap-password", "work-smtp-password"]);
    assert!(matches!(imap_password(&c), Secret::Raw(p) if p == "in"));
    assert!(matches!(smtp_password(&c), Secret::Raw(p) if p == "out"));
    assert!(materialize(&mut c, "work", &mut store).is_ok());
    assert_eq!(store.calls, 2);
    assert!(matches!(imap_password(&c), Secret::Raw(p) if p == "in"));
}

#[test]
fn missing_entry_reports_account_and_field() {
    let mut c = account(Some(true), Some(imap(Secret::Raw("in".to_string()))));
    c.message_send_backend = Some(smtp(Secret::Deferred));
    let mut store = CountingStore::new(&[]);
    match materialize(&mut c, "work", &mut store) {
        Err(ConfigError::SecretResolution { account, field }) => {
            assert_eq!(account, "work");
            assert_eq!(field, SecretField::SmtpPassword);
        }
        other => panic!("unexpected {:?}", other),
    }
    assert_eq!(store.calls, 1);
    assert!(matches!(smtp_password(&c), Secret::Deferred));
    assert!(matches!(imap_password(&c), Secret::Raw(p) if p == "in"));
}

#[test]
fn unreachable_store_is_an_error_too() {
    let mut c = account(Some(true), Some(imap(Secret::Deferred)));
    let mut store = CountingStore::new(&[]);
    store.failure = SecretStoreError::Unreachable;
    let r = materialize(&mut c, "home", &mut store);
    assert!(matches!(
        r,
        Err(ConfigError::SecretResolution { ref account, field: SecretField::ImapPassword }) if account == "home"
    ));
    assert!(matches!(imap_password(&c), Secret::Deferred));
}

#[test]
fn apply_secret_fills_the_named_field() {
    let mut c = account(Some(true), Some(imap(Secret::Deferred)));
    assert_eq!(c.pending_secret(), Some(SecretField::ImapPassword));
    assert!(c
        .apply_secret("work", SecretField::ImapPassword, Ok("v".to_string()))
        .is_ok());
    assert_eq!(c.pending_secret(), None);
    assert!(matches!(imap_password(&c), Secret::Raw(p) if p == "v"));
}

#[test]
fn resolve_then_materialize_scenario() {
    let t = table(vec![("work", account(Some(true), Some(imap(Secret::Deferred))))]);
    let mut store = CountingStore::new(&[("work-imap-password", "s3cr3t")]);
    let (name, c) = t.to_toml_account_config(None, &mut store).unwrap();
    assert_eq!(name, "work");
    assert!(matches!(imap_password(&c), Secret::Raw(p) if p == "s3cr3t"));
    assert_eq!(store.calls, 1);
}

#[test]
fn resolve_then_materialize_reports_unknown_account() {
    let t = table(vec![("work", account(Some(true), None))]);
    let mut store = CountingStore::new(&[]);
    assert!(matches!(
        t.to_toml_account_config(Some("home"), &mut store),
        Err(ConfigError::UnknownAccount(ref n)) if n == "home"
    ));
    assert_eq!(store.calls, 0);
}

#[test]
fn resolve_then_materialize_reports_missing_secret() {
    let t = table(vec![("work", account(Some(true), Some(imap(Secret::Deferred))))]);
    let mut store = CountingStore::new(&[]);
    assert!(matches!(
        t.to_toml_account_config(Some("work"), &mut store),
        Err(ConfigError::SecretResolution { ref account, field: SecretField::ImapPassword }) if account == "work"
    ));
}

#[test]
fn default_lookup_returns_name_and_record() {
    let t = table(vec![
        ("a", account(Some(false), None)),
        ("b", account(Some(true), Some(imap(Secret::Deferred)))),
    ]);
    let (name, c) = t.get_default_account_config().unwrap();
    assert_eq!(name, "b");
    assert!(matches!(imap_password(&c), Secret::Deferred));
    assert!(TomlConfig::new().get_default_account_config().is_none());
}

#[test]
fn named_lookup_returns_name_and_record() {
    let t = table(vec![("a", account(None, None)), ("b", account(Some(true), None))]);
    assert_eq!(t.position("b"), Some(1));
    assert_eq!(t.position("c"), None);
    let (name, c) = t.get_account_config("a").unwrap();
    assert_eq!(name, "a");
    assert_eq!(c.default, None);
    assert!(t.get_account_config("c").is_none());
}
