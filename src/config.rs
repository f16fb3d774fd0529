//! The main configuration: the table of accounts, and the selection of
//! the account that an invocation works on.
use vstd::prelude::*;
use vstd::string::*;

use crate::account::{materialize, materialized_by, ConfigError, SecretStore, TomlAccountConfig};

verus! {

/// The main configuration: every account, by name. Names are unique.
#[derive(Debug)]
pub struct TomlConfig {
    /// The configuration of all the accounts, in the order they were added.
    pub accounts: Vec<(String, TomlAccountConfig)>,
}

/// `c` is flagged as the default account.
pub open spec fn is_default(c: TomlAccountConfig) -> bool {
    c.default == Some(true)
}

/// The name of the `i`-th entry of `s`.
pub open spec fn name_at(s: Seq<(String, TomlAccountConfig)>, i: int) -> Seq<char> {
    s[i].0@
}

/// No two entries of `s` share a name.
pub open spec fn names_unique(s: Seq<(String, TomlAccountConfig)>) -> bool {
    forall|i: int, j: int|
        0 <= i < s.len() && 0 <= j < s.len() && i != j ==> name_at(s, i) != name_at(s, j)
}

/// Some entry of `s` is named `name`.
pub open spec fn has_name(s: Seq<(String, TomlAccountConfig)>, name: Seq<char>) -> bool {
    exists|i: int| 0 <= i < s.len() && name_at(s, i) == name
}

/// Some entry of `s` is flagged as the default.
pub open spec fn has_default(s: Seq<(String, TomlAccountConfig)>) -> bool {
    exists|i: int| 0 <= i < s.len() && is_default(#[trigger] s[i].1)
}

/// The `i`-th entry of `s` is the first one flagged as the default.
pub open spec fn is_first_default(s: Seq<(String, TomlAccountConfig)>, i: int) -> bool {
    &&& 0 <= i < s.len()
    &&& is_default(s[i].1)
    &&& forall|j: int| 0 <= j < i ==> !is_default(#[trigger] s[j].1)
}

/// The requested name selects the default account: no name, `"default"`
/// or the empty name.
pub open spec fn selects_default(requested: Option<Seq<char>>) -> bool {
    match requested {
        None => true,
        Some(n) => n == "default"@ || n == Seq::<char>::empty(),
    }
}

/// `r` is what selecting the account for `requested` in the table `s`
/// gives. The default path yields the first account flagged as the
/// default, or `NoDefaultAccount`; a name yields the account of that name,
/// or `UnknownAccount` with the name.
#[verifier::opaque]
pub open spec fn resolves_to(
    s: Seq<(String, TomlAccountConfig)>,
    requested: Option<Seq<char>>,
    r: Result<(String, TomlAccountConfig), ConfigError>,
) -> bool {
    if selects_default(requested) {
        &&& r is Err <==> !has_default(s)
        &&& (r is Err ==> r matches Err(ConfigError::NoDefaultAccount))
        &&& (r matches Ok((n, c)) ==> exists|i: int|
            is_first_default(s, i) && n@ == name_at(s, i) && c == s[i].1)
    } else {
        &&& r is Err <==> !has_name(s, requested->0)
        &&& (r is Err ==> (r matches Err(ConfigError::UnknownAccount(n)) && n@ == requested->0))
        &&& (r matches Ok((n, c)) ==> n@ == requested->0 && exists|i: int|
            0 <= i < s.len() && name_at(s, i) == requested->0 && c == s[i].1)
    }
}

/// With exactly one account flagged as the default, selecting by no name,
/// by `"default"` or by the empty name gives that account.
pub proof fn lemma_single_default_selected(
    s: Seq<(String, TomlAccountConfig)>,
    i: int,
    requested: Option<Seq<char>>,
    r: Result<(String, TomlAccountConfig), ConfigError>,
)
    requires
        0 <= i < s.len(),
        is_default(s[i].1),
        forall|j: int| 0 <= j < s.len() && j != i ==> !is_default(#[trigger] s[j].1),
        requested == None::<Seq<char>> || requested == Some("default"@) || requested == Some(
            Seq::<char>::empty(),
        ),
        resolves_to(s, requested, r),
    ensures
        r matches Ok((n, c)) && n@ == name_at(s, i) && c == s[i].1,
{
    reveal(resolves_to);
    assert(selects_default(requested));
    assert(has_default(s));
    if let Ok((n, c)) = r {
        let k = choose|k: int| is_first_default(s, k) && n@ == name_at(s, k) && c == s[k].1;
        assert(k == i);
    }
}

/// With no account flagged as the default, selecting the default account
/// fails with `NoDefaultAccount`.
pub proof fn lemma_no_default_fails(
    s: Seq<(String, TomlAccountConfig)>,
    requested: Option<Seq<char>>,
    r: Result<(String, TomlAccountConfig), ConfigError>,
)
    requires
        forall|j: int| 0 <= j < s.len() ==> !is_default(#[trigger] s[j].1),
        selects_default(requested),
        resolves_to(s, requested, r),
    ensures
        r matches Err(ConfigError::NoDefaultAccount),
{
    reveal(resolves_to);
}

/// Selecting by a name that no account has fails with `UnknownAccount`
/// naming it. The names `"default"` and the empty name are left out: they
/// select the default account.
pub proof fn lemma_unknown_name_fails(
    s: Seq<(String, TomlAccountConfig)>,
    name: Seq<char>,
    r: Result<(String, TomlAccountConfig), ConfigError>,
)
    requires
        !has_name(s, name),
        !selects_default(Some(name)),
        resolves_to(s, Some(name), r),
    ensures
        r matches Err(ConfigError::UnknownAccount(n)) && n@ == name,
{
    reveal(resolves_to);
}

/// The characters of the requested account name, if one was given.
pub open spec fn requested_name(requested: Option<&str>) -> Option<Seq<char>> {
    match requested {
        Some(n) => Some(n@),
        None => None,
    }
}

/// `a` and `b` hold the same characters.
fn same_chars(a: &str, b: &str) -> (r: bool)
    ensures
        r == (a@ == b@),
{
    let n = a.unicode_len();
    if n != b.unicode_len() {
        return false;
    }
    let mut i: usize = 0;
    while i < n
        invariant
            n == a@.len(),
            n == b@.len(),
            i <= n,
            forall|k: int| 0 <= k < i ==> a@[k] == b@[k],
        decreases n - i,
    {
        if a.get_char(i) != b.get_char(i) {
            return false;
        }
        i = i + 1;
    }
    assert(a@ =~= b@);
    true
}

/// Whether `requested` selects the default account.
pub fn is_default_request(requested: Option<&str>) -> (r: bool)
    ensures
        r == selects_default(requested_name(requested)),
{
    match requested {
        None => true,
        Some(n) => {
            proof {
                reveal_strlit("default");
                reveal_strlit("");
                assert(""@ =~= Seq::<char>::empty());
            }
            same_chars(n, "default") || same_chars(n, "")
        },
    }
}

impl TomlConfig {
    /// The table is well formed: account names are unique.
    pub open spec fn wf(&self) -> bool {
        names_unique(self.accounts@)
    }

    /// The name of the project, used to locate its configuration.
    pub fn project_name() -> (r: &'static str)
        ensures
            r@ == "neverest"@,
    {
        "neverest"
    }

    /// An empty table.
    pub fn new() -> (r: TomlConfig)
        ensures
            r.accounts@.len() == 0,
            r.wf(),
    {
        TomlConfig { accounts: Vec::new() }
    }

    /// The index of the account named `name`, if there is one.
    pub fn position(&self, name: &str) -> (r: Option<usize>)
        ensures
            r is None <==> !has_name(self.accounts@, name@),
            r matches Some(i) ==> i < self.accounts@.len() && name_at(self.accounts@, i as int)
                == name@,
    {
        let mut i: usize = 0;
        while i < self.accounts.len()
            invariant
                i <= self.accounts@.len(),
                forall|k: int| 0 <= k < i ==> name_at(self.accounts@, k) != name@,
            decreases self.accounts@.len() - i,
        {
            if same_chars(self.accounts[i].0.as_str(), name) {
                assert(name_at(self.accounts@, i as int) == name@);
                return Some(i);
            }
            i = i + 1;
        }
        None
    }

    /// Adds `account` under `name`, replacing the account of that name if
    /// there is one.
    pub fn insert(&mut self, name: String, account: TomlAccountConfig)
        requires
            old(self).wf(),
        ensures
            final(self).wf(),
            has_name(old(self).accounts@, name@) ==> exists|i: int|
                0 <= i < old(self).accounts@.len() && name_at(old(self).accounts@, i) == name@
                    && final(self).accounts@ == old(self).accounts@.update(i, (name, account)),
            !has_name(old(self).accounts@, name@) ==> final(self).accounts@ == old(
                self,
            ).accounts@.push((name, account)),
    {
        let ghost s0 = self.accounts@;
        let ghost entry = (name, account);
        match self.position(name.as_str()) {
            Some(i) => {
                self.accounts.set(i, (name, account));
                let ghost s1 = self.accounts@;
                assert forall|j: int, k: int|
                    0 <= j < s1.len() && 0 <= k < s1.len() && j != k implies name_at(s1, j)
                    != name_at(s1, k) by {
                    assert(name_at(s1, j) == name_at(s0, j));
                    assert(name_at(s1, k) == name_at(s0, k));
                }
            },
            None => {
                self.accounts.push((name, account));
                let ghost s1 = self.accounts@;
                assert forall|j: int, k: int|
                    0 <= j < s1.len() && 0 <= k < s1.len() && j != k implies name_at(s1, j)
                    != name_at(s1, k) by {
                    if j < s0.len() {
                        assert(name_at(s1, j) == name_at(s0, j));
                    }
                    if k < s0.len() {
                        assert(name_at(s1, k) == name_at(s0, k));
                    }
                }
            },
        }
    }

    /// The first account flagged as the default, with its name. When the
    /// table flags several, the first one in the table wins.
    pub fn get_default_account_config(&self) -> (r: Option<(String, TomlAccountConfig)>)
        ensures
            r is None <==> !has_default(self.accounts@),
            r matches Some((n, c)) ==> exists|i: int|
                is_first_default(self.accounts@, i) && n@ == name_at(self.accounts@, i) && c
                    == self.accounts@[i].1,
    {
        let mut i: usize = 0;
        while i < self.accounts.len()
            invariant
                i <= self.accounts@.len(),
                forall|k: int| 0 <= k < i ==> !is_default(#[trigger] self.accounts@[k].1),
            decreases self.accounts@.len() - i,
        {
            let entry = &self.accounts[i];
            if entry.1.default == Some(true) {
                let r = (entry.0.clone(), entry.1.duplicate());
                assert(is_first_default(self.accounts@, i as int));
                return Some(r);
            }
            i = i + 1;
        }
        None
    }

    /// The account named `name`, with its name.
    pub fn get_account_config(&self, name: &str) -> (r: Option<(String, TomlAccountConfig)>)
        ensures
            r is None <==> !has_name(self.accounts@, name@),
            r matches Some((n, c)) ==> n@ == name@ && exists|i: int|
                0 <= i < self.accounts@.len() && name_at(self.accounts@, i) == name@ && c
                    == self.accounts@[i].1,
    {
        match self.position(name) {
            Some(i) => Some((String::from_str(name), self.accounts[i].1.duplicate())),
            None => None,
        }
    }

    /// The account that an invocation works on, with its name: the default
    /// account when `account_name` is absent, `"default"` or empty, else the
    /// account of that name. The record comes back as the table holds it.
    pub fn resolve(&self, account_name: Option<&str>) -> (r: Result<
        (String, TomlAccountConfig),
        ConfigError,
    >)
        ensures
            resolves_to(self.accounts@, requested_name(account_name), r),
    {
        proof {
            reveal(resolves_to);
        }
        if is_default_request(account_name) {
            match self.get_default_account_config() {
                Some(found) => Ok(found),
                None => Err(ConfigError::NoDefaultAccount),
            }
        } else {
            let name = match account_name {
                Some(n) => n,
                None => "",
            };
            match self.get_account_config(name) {
                Some(found) => Ok(found),
                None => Err(ConfigError::UnknownAccount(String::from_str(name))),
            }
        }
    }

    /// The account that an invocation works on, ready for a backend: the
    /// account that `resolve` selects, with its deferred credentials
    /// fetched from `store`. Fails as `resolve` does, or with the first
    /// failed lookup.
    pub fn to_toml_account_config<S: SecretStore>(
        &self,
        account_name: Option<&str>,
        store: &mut S,
    ) -> (r: Result<(String, TomlAccountConfig), ConfigError>)
        ensures
            ({
                let req = requested_name(account_name);
                exists|pre: Result<(String, TomlAccountConfig), ConfigError>|
                    #![trigger resolves_to(self.accounts@, req, pre)]
                    {
                        &&& resolves_to(self.accounts@, req, pre)
                        &&& (pre matches Err(e) ==> r == Err::<
                            (String, TomlAccountConfig),
                            ConfigError,
                        >(e))
                        &&& (pre matches Ok((n, c)) ==> exists|
                            d: TomlAccountConfig,
                            m: Result<(), ConfigError>,
                        |
                            #![trigger materialized_by(c, d, n@, m)]
                            {
                                &&& materialized_by(c, d, n@, m)
                                &&& (m is Ok ==> r == Ok::<
                                    (String, TomlAccountConfig),
                                    ConfigError,
                                >((n, d)))
                                &&& (m matches Err(e) ==> r == Err::<
                                    (String, TomlAccountConfig),
                                    ConfigError,
                                >(e))
                            })
                    }
            }),
    {
        let resolved = self.resolve(account_name);
        let ghost req = requested_name(account_name);
        let ghost pre = resolved;
        assert(resolves_to(self.accounts@, req, pre));
        match resolved {
            Err(e) => Err(e),
            Ok((name, config)) => {
                let ghost c0 = config;
                let mut config = config;
                let done = materialize(&mut config, name.as_str(), store);
                proof {
                    assert(materialized_by(c0, config, name@, done));
                }
                match done {
                    Ok(()) => Ok((name, config)),
                    Err(e) => Err(e),
                }
            },
        }
    }
}

} // verus!
