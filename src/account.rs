//! Account records, their backend configurations, and the lazy
//! materialization of credentials that were deferred to a secret store.
use vstd::prelude::*;
use vstd::string::*;

verus! {

/// A credential: either written inline in the configuration (possibly
/// empty, which means "no authentication"), or deferred to the secret
/// store and not yet fetched.
#[derive(Debug)]
pub enum Secret {
    Raw(String),
    Deferred,
}

/// Settings of an IMAP receiving backend.
#[derive(Debug)]
pub struct ImapConfig {
    pub host: String,
    pub port: u16,
    pub login: String,
    pub password: Secret,
}

/// Settings of a Maildir receiving backend.
#[derive(Debug)]
pub struct MaildirConfig {
    pub root_dir: String,
}

/// The receiving backend of an account.
#[derive(Debug)]
pub enum Backend {
    Imap(ImapConfig),
    Maildir(MaildirConfig),
}

/// Settings of an SMTP sending backend.
#[derive(Debug)]
pub struct SmtpConfig {
    pub host: String,
    pub port: u16,
    pub login: String,
    pub password: Secret,
}

/// Settings of a sendmail sending backend.
#[derive(Debug)]
pub struct SendmailConfig {
    pub cmd: String,
}

/// The sending backend of an account.
#[derive(Debug)]
pub enum SendingBackend {
    Smtp(SmtpConfig),
    Sendmail(SendmailConfig),
}

/// One account's settings.
#[derive(Debug)]
pub struct TomlAccountConfig {
    pub default: Option<bool>,
    pub backend: Option<Backend>,
    pub message_send_backend: Option<SendingBackend>,
}

/// The credential fields that can be deferred to the secret store.
#[derive(Debug, Clone, Copy, PartialEq, Eq, Structural)]
pub enum SecretField {
    ImapPassword,
    SmtpPassword,
}

/// Why the secret store could not hand out an entry.
#[derive(Debug, Clone, Copy, PartialEq, Eq, Structural)]
pub enum SecretStoreError {
    NotFound,
    Unreachable,
    Denied,
}

/// The errors of account selection and credential materialization.
#[derive(Debug)]
pub enum ConfigError {
    NoDefaultAccount,
    UnknownAccount(String),
    SecretResolution { account: String, field: SecretField },
}

/// The credential stored at `field` of `c`, if the record has that backend.
pub open spec fn secret_at(c: TomlAccountConfig, field: SecretField) -> Option<Secret> {
    match field {
        SecretField::ImapPassword => match c.backend {
            Some(Backend::Imap(imap)) => Some(imap.password),
            _ => None,
        },
        SecretField::SmtpPassword => match c.message_send_backend {
            Some(SendingBackend::Smtp(smtp)) => Some(smtp.password),
            _ => None,
        },
    }
}

/// `field` of `c` still waits for the secret store.
pub open spec fn is_deferred(c: TomlAccountConfig, field: SecretField) -> bool {
    secret_at(c, field) == Some(Secret::Deferred)
}

/// No credential of `c` waits for the secret store.
pub open spec fn is_materialized(c: TomlAccountConfig) -> bool {
    !is_deferred(c, SecretField::ImapPassword) && !is_deferred(c, SecretField::SmtpPassword)
}

/// The number of credentials of `c` that wait for the secret store.
pub open spec fn deferred_count(c: TomlAccountConfig) -> nat {
    (if is_deferred(c, SecretField::ImapPassword) { 1nat } else { 0nat }) + (if is_deferred(
        c,
        SecretField::SmtpPassword,
    ) { 1nat } else { 0nat })
}

/// `c` with the credential at `field` replaced by `s` (unchanged when the
/// record has no such backend).
pub open spec fn with_secret(c: TomlAccountConfig, field: SecretField, s: Secret) -> TomlAccountConfig {
    match field {
        SecretField::ImapPassword => match c.backend {
            Some(Backend::Imap(imap)) => TomlAccountConfig {
                backend: Some(Backend::Imap(ImapConfig { password: s, ..imap })),
                ..c
            },
            _ => c,
        },
        SecretField::SmtpPassword => match c.message_send_backend {
            Some(SendingBackend::Smtp(smtp)) => TomlAccountConfig {
                message_send_backend: Some(SendingBackend::Smtp(SmtpConfig { password: s, ..smtp })),
                ..c
            },
            _ => c,
        },
    }
}

/// The name under which the secret store keeps `field` of `account`.
pub open spec fn store_key_of(account: Seq<char>, field: SecretField) -> Seq<char> {
    match field {
        SecretField::ImapPassword => account + "-imap-password"@,
        SecretField::SmtpPassword => account + "-smtp-password"@,
    }
}

/// The secret-store key of `field` for the account named `account`:
/// `<account>-imap-password` or `<account>-smtp-password`.
pub fn secret_store_key(account: &str, field: SecretField) -> (r: String)
    ensures
        r@ == store_key_of(account@, field),
{
    let name = String::from_str(account);
    match field {
        SecretField::ImapPassword => name.concat("-imap-password"),
        SecretField::SmtpPassword => name.concat("-smtp-password"),
    }
}

/// `c` with both credential fields, where the record has them, set back to
/// deferred: what remains when the credentials are ignored.
pub open spec fn without_secrets(c: TomlAccountConfig) -> TomlAccountConfig {
    with_secret(
        with_secret(c, SecretField::ImapPassword, Secret::Deferred),
        SecretField::SmtpPassword,
        Secret::Deferred,
    )
}

/// `new` is `old` with some of its deferred credentials filled in with
/// inline values; every other field, inline credentials included, is kept.
pub open spec fn fills_some(old: TomlAccountConfig, new: TomlAccountConfig) -> bool {
    &&& without_secrets(new) == without_secrets(old)
    &&& forall|f: SecretField|
        #![trigger secret_at(new, f)]
        {
            &&& !is_deferred(old, f) ==> secret_at(new, f) == secret_at(old, f)
            &&& is_deferred(old, f) ==> (is_deferred(new, f) || secret_at(new, f) matches Some(
                Secret::Raw(_),
            ))
        }
}

/// `new` is `old` with every deferred credential filled in with an inline
/// value, and nothing else changed.
pub open spec fn fills_all(old: TomlAccountConfig, new: TomlAccountConfig) -> bool {
    fills_some(old, new) && is_materialized(new)
}

/// `r` and `new` are what materializing `old`, the record of the account
/// named `account`, may give: a record with no deferred credential is kept
/// as it is; success fills in every deferred credential; a failure names
/// the account and a field that stays deferred, and keeps what was filled.
pub open spec fn materialized_by(
    old: TomlAccountConfig,
    new: TomlAccountConfig,
    account: Seq<char>,
    r: Result<(), ConfigError>,
) -> bool {
    &&& is_materialized(old) ==> r is Ok && new == old
    &&& r is Ok ==> fills_all(old, new)
    &&& r is Err ==> fills_some(old, new)
    &&& r is Err ==> (r matches Err(ConfigError::SecretResolution { account: a, field: f }) && a@
        == account && is_deferred(old, f) && is_deferred(new, f))
}

/// Materializing a record again, once it succeeded, succeeds and changes
/// nothing.
pub proof fn lemma_materialize_idempotent(
    a: TomlAccountConfig,
    b: TomlAccountConfig,
    c: TomlAccountConfig,
    account: Seq<char>,
    r2: Result<(), ConfigError>,
)
    requires
        materialized_by(a, b, account, Ok(())),
        materialized_by(b, c, account, r2),
    ensures
        r2 is Ok,
        c == b,
{
}

/// A record whose credentials are all inline, empty ones included, comes
/// back from materializing unchanged and without error.
pub proof fn lemma_inline_secrets_kept(
    a: TomlAccountConfig,
    b: TomlAccountConfig,
    account: Seq<char>,
    r: Result<(), ConfigError>,
)
    requires
        is_materialized(a),
        materialized_by(a, b, account, r),
    ensures
        r is Ok,
        b == a,
        forall|f: SecretField| #[trigger] secret_at(b, f) == secret_at(a, f),
{
}

/// When a lookup fails, materializing fails with an error that names the
/// account and a credential field that was deferred and still is.
pub proof fn lemma_failed_lookup_reported(
    a: TomlAccountConfig,
    b: TomlAccountConfig,
    account: Seq<char>,
    r: Result<(), ConfigError>,
)
    requires
        materialized_by(a, b, account, r),
        r is Err,
    ensures
        exists|f: SecretField|
            #![trigger is_deferred(b, f)]
            {
                &&& r matches Err(ConfigError::SecretResolution { account: n, field: g })
                &&& n@ == account
                &&& g == f
                &&& is_deferred(a, f)
                &&& is_deferred(b, f)
            },
{
    if let Err(ConfigError::SecretResolution { account: n, field: g }) = r {
        assert(is_deferred(b, g));
    }
}

/// The secret store that deferred credentials are fetched from.
pub trait SecretStore {
    /// The entry stored under `key`.
    fn get(&mut self, key: &str) -> Result<String, SecretStoreError>;
}

/// Fetches every deferred credential of `config`, the record of the account
/// named `account`, from `store`, and writes it in place. Inline
/// credentials, empty ones included, are kept and never looked up, so a
/// record that holds no deferred credential comes back unchanged. The first
/// failed lookup stops the work with an error naming the account and the
/// field, which stays deferred.
pub fn materialize<S: SecretStore>(config: &mut TomlAccountConfig, account: &str, store: &mut S) -> (r:
    Result<(), ConfigError>)
    ensures
        materialized_by(*old(config), *final(config), account@, r),
{
    let ghost start = *config;
    loop
        invariant
            start == *old(config),
            fills_some(start, *config),
            is_materialized(start) ==> *config == start,
        decreases deferred_count(*config),
    {
        match config.pending_secret() {
            None => {
                return Ok(());
            },
            Some(field) => {
                let key = secret_store_key(account, field);
                let lookup = store.get(key.as_str());
                let ghost before = *config;
                let applied = config.apply_secret(account, field, lookup);
                proof {
                    lemma_fill_keeps_others(before, field, *config);
                }
                if applied.is_err() {
                    assert(secret_at(*config, field) == secret_at(start, field));
                    return applied;
                }
            },
        }
    }
}

/// Filling in the deferred credential at `field` keeps every other field
/// and lowers the number of deferred credentials by one.
pub proof fn lemma_fill_keeps_others(c: TomlAccountConfig, field: SecretField, d: TomlAccountConfig)
    requires
        is_deferred(c, field),
        d == c || exists|v: String| d == with_secret(c, field, Secret::Raw(v)),
    ensures
        without_secrets(d) == without_secrets(c),
        forall|g: SecretField| g != field ==> #[trigger] secret_at(d, g) == secret_at(c, g),
        d != c ==> secret_at(d, field) matches Some(Secret::Raw(_)),
        d != c ==> deferred_count(d) + 1 == deferred_count(c),
{
    if d != c {
        let v = choose|v: String| d == with_secret(c, field, Secret::Raw(v));
        match field {
            SecretField::ImapPassword => {
                assert(secret_at(d, SecretField::SmtpPassword) == secret_at(c, SecretField::SmtpPassword));
            },
            SecretField::SmtpPassword => {
                assert(secret_at(d, SecretField::ImapPassword) == secret_at(c, SecretField::ImapPassword));
            },
        }
    }
}

impl Secret {
    /// A copy of this credential.
    pub fn duplicate(&self) -> (r: Secret)
        ensures
            r == *self,
    {
        match self {
            Secret::Raw(s) => Secret::Raw(s.clone()),
            Secret::Deferred => Secret::Deferred,
        }
    }
}

impl Backend {
    /// A copy of this backend configuration.
    pub fn duplicate(&self) -> (r: Backend)
        ensures
            r == *self,
    {
        match self {
            Backend::Imap(c) => Backend::Imap(
                ImapConfig {
                    host: c.host.clone(),
                    port: c.port,
                    login: c.login.clone(),
                    password: c.password.duplicate(),
                },
            ),
            Backend::Maildir(c) => Backend::Maildir(MaildirConfig { root_dir: c.root_dir.clone() }),
        }
    }
}

impl SendingBackend {
    /// A copy of this backend configuration.
    pub fn duplicate(&self) -> (r: SendingBackend)
        ensures
            r == *self,
    {
        match self {
            SendingBackend::Smtp(c) => SendingBackend::Smtp(
                SmtpConfig {
                    host: c.host.clone(),
                    port: c.port,
                    login: c.login.clone(),
                    password: c.password.duplicate(),
                },
            ),
            SendingBackend::Sendmail(c) => SendingBackend::Sendmail(
                SendmailConfig { cmd: c.cmd.clone() },
            ),
        }
    }
}

impl TomlAccountConfig {
    /// A copy of this account record.
    pub fn duplicate(&self) -> (r: TomlAccountConfig)
        ensures
            r == *self,
    {
        let backend = match &self.backend {
            Some(b) => Some(b.duplicate()),
            None => None,
        };
        let message_send_backend = match &self.message_send_backend {
            Some(b) => Some(b.duplicate()),
            None => None,
        };
        TomlAccountConfig { default: self.default, backend, message_send_backend }
    }

    /// Whether `field` of this record still waits for the secret store.
    pub fn is_deferred(&self, field: SecretField) -> (r: bool)
        ensures
            r == is_deferred(*self, field),
    {
        match field {
            SecretField::ImapPassword => match &self.backend {
                Some(Backend::Imap(imap)) => matches!(imap.password, Secret::Deferred),
                _ => false,
            },
            SecretField::SmtpPassword => match &self.message_send_backend {
                Some(SendingBackend::Smtp(smtp)) => matches!(smtp.password, Secret::Deferred),
                _ => false,
            },
        }
    }

    /// The next credential to fetch from the secret store: the IMAP password
    /// before the SMTP one, and none once every credential is inline.
    /// Inline credentials, empty ones included, are never asked for.
    pub fn pending_secret(&self) -> (r: Option<SecretField>)
        ensures
            r is None <==> is_materialized(*self),
            r matches Some(f) ==> is_deferred(*self, f),
            r == Some(SecretField::SmtpPassword) ==> !is_deferred(*self, SecretField::ImapPassword),
    {
        if self.is_deferred(SecretField::ImapPassword) {
            Some(SecretField::ImapPassword)
        } else if self.is_deferred(SecretField::SmtpPassword) {
            Some(SecretField::SmtpPassword)
        } else {
            None
        }
    }

    /// Hands the outcome of the secret-store lookup of `field` to the record
    /// of the account named `account`. A value found replaces the deferred
    /// credential in place; a failed lookup leaves the record unchanged and
    /// names the account and field.
    pub fn apply_secret(
        &mut self,
        account: &str,
        field: SecretField,
        lookup: Result<String, SecretStoreError>,
    ) -> (r: Result<(), ConfigError>)
        requires
            is_deferred(*old(self), field),
        ensures
            lookup is Ok <==> r is Ok,
            lookup matches Ok(v) ==> *final(self) == with_secret(*old(self), field, Secret::Raw(v)),
            lookup matches Ok(v) ==> deferred_count(*final(self)) + 1 == deferred_count(*old(self)),
            lookup matches Ok(v) ==> !is_deferred(*final(self), field),
            lookup is Err ==> *final(self) == *old(self),
            lookup is Err ==> (r matches Err(ConfigError::SecretResolution { account: a, field: f })
                && a@ == account@ && f == field),
    {
        match lookup {
            Ok(v) => {
                match field {
                    SecretField::ImapPassword => {
                        if let Some(Backend::Imap(imap)) = &mut self.backend {
                            imap.password = Secret::Raw(v);
                        }
                    },
                    SecretField::SmtpPassword => {
                        if let Some(SendingBackend::Smtp(smtp)) = &mut self.message_send_backend {
                            smtp.password = Secret::Raw(v);
                        }
                    },
                }
                Ok(())
            },
            Err(_) => Err(
                ConfigError::SecretResolution { account: String::from_str(account), field },
            ),
        }
    }
}

} // verus!
