//! The first-run wizard that creates a configuration when none exists, as
//! a state machine. The caller performs what each state asks for (a
//! confirmation, an account, a path, a write) and hands back the outcome as
//! an event.
use vstd::prelude::*;

use crate::account::TomlAccountConfig;
use crate::config::{name_at, TomlConfig};

verus! {

/// Where the wizard stands.
#[derive(Debug)]
pub enum WizardState {
    /// Waiting for the operator to accept or decline running the wizard.
    Confirm,
    /// Waiting for the settings of one account.
    Configure,
    /// Waiting for the path to save `config` at.
    Persist { config: TomlConfig },
    /// Waiting for the outcome of writing `config` to `path`, parent
    /// directories included.
    Write { path: String, config: TomlConfig },
    /// The operator declined: no configuration is produced.
    Declined,
    /// `config` was written to `path`.
    Created { path: String, config: TomlConfig },
    /// Writing to `path` failed.
    Failed { path: String },
}

/// What the caller hands back to the wizard.
#[derive(Debug)]
pub enum WizardEvent {
    /// The operator's answer to running the wizard.
    Answered(bool),
    /// The account gathered from the operator, with its name.
    AccountConfigured(String, TomlAccountConfig),
    /// The path the operator chose for the configuration.
    PathChosen(String),
    /// Whether creating the directories and writing the file succeeded.
    Written(bool),
}

/// `config` holds exactly the account `account` under `name`, flagged as
/// the default, its other settings as given.
pub open spec fn is_single_default(config: TomlConfig, name: Seq<char>, account: TomlAccountConfig) -> bool {
    &&& config.accounts@.len() == 1
    &&& name_at(config.accounts@, 0) == name
    &&& config.accounts@[0].1 == TomlAccountConfig { default: Some(true), ..account }
}

impl TomlConfig {
    /// The configuration that the wizard writes: the one account gathered,
    /// marked as the default.
    pub fn from_wizard_account(name: String, account: TomlAccountConfig) -> (r: TomlConfig)
        ensures
            r.wf(),
            is_single_default(r, name@, account),
    {
        let account = TomlAccountConfig { default: Some(true), ..account };
        let mut accounts = Vec::new();
        accounts.push((name, account));
        TomlConfig { accounts }
    }
}

impl WizardState {
    /// The state the wizard starts in, once it has reported that no
    /// configuration was found.
    pub fn start() -> (r: WizardState)
        ensures
            r is Confirm,
    {
        WizardState::Confirm
    }

    /// The wizard has stopped: declined, created or failed.
    pub open spec fn is_terminal(&self) -> bool {
        self is Declined || self is Created || self is Failed
    }

    /// Whether the wizard has stopped.
    pub fn is_done(&self) -> (r: bool)
        ensures
            r == self.is_terminal(),
    {
        matches!(self, WizardState::Declined | WizardState::Created { .. } | WizardState::Failed { .. })
    }

    /// The state after `event`. An event that the state does not wait for
    /// leaves it unchanged; a stopped wizard stays where it is.
    pub fn next(self, event: WizardEvent) -> (r: WizardState)
        ensures
            (self is Confirm && event == WizardEvent::Answered(false)) ==> r is Declined,
            (self is Confirm && event == WizardEvent::Answered(true)) ==> r is Configure,
            self is Configure ==> (event matches WizardEvent::AccountConfigured(n, a) ==> (
            r matches WizardState::Persist { config } && config.wf() && is_single_default(
                config,
                n@,
                a,
            ))),
            self matches WizardState::Persist { config } ==> (event matches WizardEvent::PathChosen(
                p,
            ) ==> r == (WizardState::Write { path: p, config })),
            self matches WizardState::Write { path, config } ==> (event == WizardEvent::Written(
                true,
            ) ==> r == (WizardState::Created { path, config })),
            self matches WizardState::Write { path, config } ==> (event == WizardEvent::Written(
                false,
            ) ==> r == (WizardState::Failed { path })),
            self.is_terminal() ==> r == self,
            (self is Confirm && !(event is Answered)) ==> r == self,
            (self is Configure && !(event is AccountConfigured)) ==> r == self,
            (self is Persist && !(event is PathChosen)) ==> r == self,
            (self is Write && !(event is Written)) ==> r == self,
    {
        match (self, event) {
            (WizardState::Confirm, WizardEvent::Answered(yes)) => {
                if yes {
                    WizardState::Configure
                } else {
                    WizardState::Declined
                }
            },
            (WizardState::Configure, WizardEvent::AccountConfigured(name, account)) => {
                WizardState::Persist { config: TomlConfig::from_wizard_account(name, account) }
            },
            (WizardState::Persist { config }, WizardEvent::PathChosen(path)) => {
                WizardState::Write { path, config }
            },
            (WizardState::Write { path, config }, WizardEvent::Written(ok)) => {
                if ok {
                    WizardState::Created { path, config }
                } else {
                    WizardState::Failed { path }
                }
            },
            (state, _) => state,
        }
    }
}

} // verus!
