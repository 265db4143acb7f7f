//! The store that holds the active configuration while it is replaced and
//! reloaded, and what holds of it whatever it goes through.

use super::{Config, GetConfigError};
use crate::drawbridge::mapping::{HostMapping, Target};
use vstd::prelude::*;

verus! {

/// What became of one attempt to load the configuration again.
#[derive(Debug, PartialEq, Eq)]
pub enum ReloadReport {
    /// The new configuration is now the active one.
    Reloaded,
    /// Loading failed: the previous configuration is still the active one, and
    /// the failure is handed out to be logged. Nothing else follows from a
    /// failure: the next change of the file is loaded like any other.
    Failed(GetConfigError),
}

/// A change of the active configuration that was asked of a store.
pub enum StoreChange {
    /// Install this configuration.
    Replace(Config),
    /// Install what a load attempt produced, if it produced anything.
    Reload(Result<Config, GetConfigError>),
}

/// The active configuration after one change: a replacement or a successful
/// load installs the new configuration whole, a failed load keeps the old one.
pub open spec fn after_change(active: Config, change: StoreChange) -> Config {
    match change {
        StoreChange::Replace(config) => config,
        StoreChange::Reload(Ok(config)) => config,
        StoreChange::Reload(Err(_)) => active,
    }
}

/// The active configuration after a series of changes, applied in order.
pub open spec fn after_changes(initial: Config, changes: Seq<StoreChange>) -> Config
    decreases changes.len(),
{
    if changes.len() == 0 {
        initial
    } else {
        after_change(after_changes(initial, changes.drop_last()), changes.last())
    }
}

/// Whether a change hands `config` to the store to be installed.
pub open spec fn installs(change: StoreChange, config: Config) -> bool {
    change == StoreChange::Replace(config) || change == StoreChange::Reload(
        Ok::<Config, GetConfigError>(config),
    )
}

/// Whatever changes a store has gone through, its active configuration is
/// one whole configuration that it was given: the initial one, or one that a
/// change installed. A resolution therefore never sees a mix of two.
pub proof fn active_configuration_is_whole(initial: Config, changes: Seq<StoreChange>)
    ensures
        after_changes(initial, changes) == initial || exists|i: int|
            0 <= i < changes.len() && installs(#[trigger] changes[i], after_changes(initial, changes)),
    decreases changes.len(),
{
    if changes.len() > 0 {
        let before = changes.drop_last();
        active_configuration_is_whole(initial, before);
        let active = after_changes(initial, changes);
        match changes.last() {
            StoreChange::Reload(Err(_)) => {
                if active != initial {
                    let i = choose|i: int|
                        0 <= i < before.len() && installs(#[trigger] before[i], active);
                    assert(installs(changes[i], active));
                }
            },
            _ => {
                assert(installs(changes[changes.len() - 1], active));
            },
        }
    }
}

/// A resolution against a store that is being changed sees the old
/// configuration or a new one, never parts of both: whatever the changes,
/// the target of a host is the one that the initial configuration gives, or
/// the one that a configuration installed by one of the changes gives.
pub proof fn resolution_sees_one_configuration(
    initial: Config,
    changes: Seq<StoreChange>,
    host: Seq<char>,
)
    ensures
        after_changes(initial, changes).target_for(host) == initial.target_for(host) || exists|
            i: int,
            installed: Config,
        |
            0 <= i < changes.len() && installs(#[trigger] changes[i], installed)
                && after_changes(initial, changes).target_for(host) == #[trigger] installed.target_for(host),
{
    active_configuration_is_whole(initial, changes);
    let active = after_changes(initial, changes);
    if active != initial {
        let i = choose|i: int| 0 <= i < changes.len() && installs(#[trigger] changes[i], active);
        assert(installs(changes[i], active) && active.target_for(host) == active.target_for(host));
    }
}

/// A failed load changes nothing: the configuration that was active before
/// it is the active one after it, so every host resolves as it did.
pub proof fn failed_reload_keeps_routing(
    initial: Config,
    changes: Seq<StoreChange>,
    failure: GetConfigError,
    host: Seq<char>,
)
    ensures
        after_changes(
            initial,
            changes.push(StoreChange::Reload(Err::<Config, GetConfigError>(failure))),
        ) == after_changes(initial, changes),
        after_changes(
            initial,
            changes.push(StoreChange::Reload(Err::<Config, GetConfigError>(failure))),
        ).target_for(host) == after_changes(initial, changes).target_for(host),
{
    let longer = changes.push(StoreChange::Reload(Err::<Config, GetConfigError>(failure)));
    assert(longer.drop_last() =~= changes);
}

/// Reloading stays available after a failure: a load that succeeds installs
/// its configuration, whatever failed before it.
pub proof fn reload_succeeds_after_failure(
    initial: Config,
    changes: Seq<StoreChange>,
    failure: GetConfigError,
    loaded: Config,
)
    ensures
        after_changes(
            initial,
            changes.push(StoreChange::Reload(Err::<Config, GetConfigError>(failure))).push(
                StoreChange::Reload(Ok::<Config, GetConfigError>(loaded)),
            ),
        ) == loaded,
{
}

/// The cell that holds the active configuration.
///
/// It is created from the first configuration that was loaded, read by every
/// resolution, and replaced wholesale: no field of the active configuration
/// is ever changed in place.
pub struct ConfigStore {
    active: Config,
}

impl View for ConfigStore {
    type V = Config;

    /// The active configuration.
    closed spec fn view(&self) -> Config {
        self.active
    }
}

impl ConfigStore {
    pub fn new(config: Config) -> (store: ConfigStore)
        ensures
            store@ == config,
    {
        ConfigStore { active: config }
    }

    /// The active configuration.
    pub fn current(&self) -> (config: &Config)
        ensures
            *config == self@,
    {
        &self.active
    }

    /// Installs `config` as the active configuration.
    pub fn replace(&mut self, config: Config)
        ensures
            final(self)@ == config,
            final(self)@ == after_change(old(self)@, StoreChange::Replace(config)),
    {
        self.active = config;
    }

    /// Takes the outcome of a load attempt: a configuration is installed, a
    /// failure leaves the active configuration as it was and is reported.
    pub fn apply_reload(&mut self, outcome: Result<Config, GetConfigError>) -> (report:
        ReloadReport)
        ensures
            final(self)@ == after_change(old(self)@, StoreChange::Reload(outcome)),
            match outcome {
                Ok(config) => final(self)@ == config && report == ReloadReport::Reloaded,
                Err(failure) => final(self)@ == old(self)@ && report == ReloadReport::Failed(
                    failure,
                ),
            },
    {
        match outcome {
            Ok(config) => {
                self.active = config;
                ReloadReport::Reloaded
            },
            Err(failure) => ReloadReport::Failed(failure),
        }
    }
}

impl HostMapping for ConfigStore {
    /// A store can be asked about every host.
    open spec fn accepts(&self, host: &str) -> bool {
        true
    }

    /// A store answers as its active configuration does.
    open spec fn maps(&self, host: &str, target: Target) -> bool {
        target == self@.target_for(host@)
    }

    fn route(&self, host: &str) -> (target: Target) {
        self.active.route(host)
    }
}

} // verus!
