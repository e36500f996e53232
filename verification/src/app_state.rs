//! The state of the running monitor: one ledger per enabled service, the
//! configuration in force, and the identifiers of the monitor loops that
//! are running. Every change of a ledger goes through [`AppState::set_state`];
//! the set of loops changes only on start, stop and reload.

use vstd::prelude::*;
use crate::config::{Config, ConfigError, ConfigView, State, StateView};
use crate::listing::{is_listing, shows, sorted_snapshot};
use crate::record::{notice_view, Notification, NotificationView, ServiceState, ServiceStateView};
use crate::registry::Registry;
use crate::telegram::TelegramClient;
use crate::text::str_eq;
use crate::time::Timestamp;

verus! {

/// No two of the identifiers are the same text.
pub open spec fn distinct(ids: Seq<String>) -> bool {
    forall|i: int, j: int| 0 <= i < j < ids.len() ==> ids[i]@ != ids[j]@
}

/// `id` is among the identifiers.
pub open spec fn names(ids: Seq<String>, id: Seq<char>) -> bool {
    exists|i: int| 0 <= i < ids.len() && #[trigger] ids[i]@ == id
}

/// The ledgers after a reload: one for each service that `config` enables.
/// A service that had a ledger keeps it, under the name and description
/// that `config` gives it; any other starts afresh at `now`.
pub open spec fn reconciled(
    ledgers: Map<Seq<char>, ServiceStateView>,
    config: ConfigView,
    now: Timestamp,
) -> Map<Seq<char>, ServiceStateView> {
    Map::new(
        |id: Seq<char>| config.enabled(id),
        |id: Seq<char>|
            if ledgers.contains_key(id) {
                ledgers[id].renamed(config.services[id].name, config.services[id].description)
            } else {
                ServiceStateView::fresh(
                    config.services[id].name,
                    config.services[id].description,
                    now,
                )
            },
    )
}

/// Every ledger of the map is well formed.
pub open spec fn all_wf(ledgers: Map<Seq<char>, ServiceStateView>) -> bool {
    forall|id: Seq<char>| #[trigger] ledgers.contains_key(id) ==> ledgers[id].wf()
}

/// Why a reload did not happen.
#[derive(Debug, PartialEq, Eq)]
pub enum ReloadError {
    /// The new configuration cannot be run.
    Invalid(ConfigError),
    /// The new configuration could not be saved; the text says why.
    Persist(String),
}

/// What the caller owes after a reload: cancel the loops of `stop`, then
/// start one loop for each identifier of `start`.
#[derive(Debug, PartialEq, Eq)]
pub struct ReloadPlan {
    pub stop: Vec<String>,
    pub start: Vec<String>,
}

/// The state of the running monitor.
#[derive(Debug, PartialEq, Eq)]
pub struct AppState {
    /// The ledgers, by service identifier.
    pub services: Registry<ServiceState>,
    pub config: Config,
    /// The identifiers of the services whose monitor loop is running.
    pub task_ids: Vec<String>,
    pub telegram: TelegramClient,
    /// Where the configuration is kept between runs.
    pub config_path: String,
}

/// Some entry among the first `i` of `config` is stored under `id` and
/// enabled.
pub open spec fn seen_enabled(config: &Config, i: int, id: Seq<char>) -> bool {
    exists|j: int|
        0 <= j < i && j < config.services.entries.len() && #[trigger] config.services.entries[j].id@
            == id && config.services.entries[j].value.enabled
}

proof fn lemma_seen_all(config: &Config)
    requires
        config.services.wf(),
    ensures
        forall|id: Seq<char>|
            seen_enabled(config, config.services.entries.len() as int, id) <==> config@.enabled(id),
{
    let n = config.services.entries.len() as int;
    assert forall|id: Seq<char>| seen_enabled(config, n, id) <==> config@.enabled(id) by {
        if seen_enabled(config, n, id) {
            let j = choose|j: int|
                0 <= j < n && #[trigger] config.services.entries[j].id@ == id
                    && config.services.entries[j].value.enabled;
            config.services.lemma_entry(j);
        }
        if config@.enabled(id) {
            config.services.lemma_slot(id);
            let j = config.services.slot(id);
            assert(config.services.entries[j].id@ == id);
        }
    }
}

/// Builds the ledgers that go with `config`, keeping what `ledgers` holds
/// of the services that stay enabled.
fn reconcile(ledgers: &Registry<ServiceState>, config: &Config, now: Timestamp) -> (out: Registry<
    ServiceState,
>)
    requires
        ledgers.wf(),
        all_wf(ledgers@),
        config.services.wf(),
    ensures
        out.wf(),
        all_wf(out@),
        out@ == reconciled(ledgers@, config@, now),
{
    let ghost target = reconciled(ledgers@, config@, now);
    let mut out: Registry<ServiceState> = Registry::new();
    let mut i: usize = 0;
    while i < config.services.entries.len()
        invariant
            ledgers.wf(),
            all_wf(ledgers@),
            config.services.wf(),
            target == reconciled(ledgers@, config@, now),
            i <= config.services.entries.len(),
            out.wf(),
            all_wf(out@),
            forall|id: Seq<char>| #[trigger] out@.contains_key(id) <==> seen_enabled(config, i as int, id),
            forall|id: Seq<char>| #[trigger] out@.contains_key(id) ==> out@[id] == target[id],
        decreases config.services.entries.len() - i,
    {
        let entry = &config.services.entries[i];
        let ghost before = out@;
        proof {
            config.services.lemma_entry(i as int);
        }
        if entry.value.enabled {
            let ledger = match ledgers.get(entry.id.as_str()) {
                Some(kept) => ServiceState {
                    name: entry.value.name.clone(),
                    description: entry.value.description.clone(),
                    state: kept.state.clone(),
                    last_check: kept.last_check,
                    consecutive_failures: kept.consecutive_failures,
                    total_checks: kept.total_checks,
                    successful_checks: kept.successful_checks,
                    failed_checks: kept.failed_checks,
                    uptime_start: kept.uptime_start,
                },
                None => ServiceState::new(
                    entry.value.name.clone(),
                    entry.value.description.clone(),
                    now,
                ),
            };
            assert(ledger@ == target[entry.id@]);
            assert(ledger@.wf());
            out.insert(entry.id.clone(), ledger);
        }
        proof {
            assert forall|id: Seq<char>| #[trigger]
                out@.contains_key(id) <==> seen_enabled(config, i + 1, id) by {
                if seen_enabled(config, i + 1, id) {
                    let j = choose|j: int|
                        0 <= j < i + 1 && j < config.services.entries.len()
                            && #[trigger] config.services.entries[j].id@ == id
                            && config.services.entries[j].value.enabled;
                    if j < i {
                        assert(seen_enabled(config, i as int, id));
                    }
                }
                if out@.contains_key(id) {
                    if before.contains_key(id) {
                        let j = choose|j: int|
                            0 <= j < i && j < config.services.entries.len()
                                && #[trigger] config.services.entries[j].id@ == id
                                && config.services.entries[j].value.enabled;
                        assert(config.services.entries[j].id@ == id);
                    } else {
                        assert(config.services.entries[i as int].id@ == id);
                    }
                }
            }
        }
        i += 1;
    }
    proof {
        lemma_seen_all(config);
        assert(out@ =~= target);
    }
    out
}

/// Whether `id` is among `ids`.
fn is_named(ids: &Vec<String>, id: &str) -> (b: bool)
    ensures
        b == names(ids@, id@),
{
    let mut i: usize = 0;
    while i < ids.len()
        invariant
            i <= ids.len(),
            forall|j: int| 0 <= j < i ==> ids[j]@ != id@,
        decreases ids.len() - i,
    {
        if str_eq(ids[i].as_str(), id) {
            return true;
        }
        i += 1;
    }
    false
}

/// The identifiers of the services that `config` enables.
fn enabled_ids(config: &Config) -> (ids: Vec<String>)
    requires
        config.services.wf(),
    ensures
        distinct(ids@),
        forall|id: Seq<char>| names(ids@, id) <==> config@.enabled(id),
{
    let mut ids: Vec<String> = Vec::new();
    let ghost mut from: Seq<int> = Seq::empty();
    let mut i: usize = 0;
    while i < config.services.entries.len()
        invariant
            config.services.wf(),
            i <= config.services.entries.len(),
            from.len() == ids.len(),
            forall|k: int|
                0 <= k < ids.len() ==> 0 <= #[trigger] from[k] < i && ids[k]@
                    == config.services.entries[from[k]].id@,
            forall|k: int, l: int| 0 <= k < l < ids.len() ==> from[k] < from[l],
            forall|id: Seq<char>| names(ids@, id) <==> seen_enabled(config, i as int, id),
        decreases config.services.entries.len() - i,
    {
        let entry = &config.services.entries[i];
        let ghost before = ids@;
        if entry.value.enabled {
            ids.push(entry.id.clone());
            proof {
                from = from.push(i as int);
            }
        }
        proof {
            assert forall|id: Seq<char>| names(ids@, id) <==> seen_enabled(config, i + 1, id) by {
                if seen_enabled(config, i + 1, id) {
                    let j = choose|j: int|
                        0 <= j < i + 1 && j < config.services.entries.len()
                            && #[trigger] config.services.entries[j].id@ == id
                            && config.services.entries[j].value.enabled;
                    if j < i {
                        assert(seen_enabled(config, i as int, id));
                        let k = choose|k: int| 0 <= k < before.len() && #[trigger] before[k]@ == id;
                        assert(ids@[k]@ == id);
                    } else {
                        assert(ids@[ids.len() - 1]@ == id);
                    }
                }
                if names(ids@, id) {
                    let k = choose|k: int| 0 <= k < ids.len() && #[trigger] ids@[k]@ == id;
                    if k < before.len() {
                        assert(before[k]@ == id);
                        assert(names(before, id));
                        let j = choose|j: int|
                            0 <= j < i && j < config.services.entries.len()
                                && #[trigger] config.services.entries[j].id@ == id
                                && config.services.entries[j].value.enabled;
                        assert(config.services.entries[j].id@ == id);
                    } else {
                        assert(config.services.entries[i as int].id@ == id);
                    }
                }
            }
        }
        i += 1;
    }
    proof {
        lemma_seen_all(config);
        assert forall|k: int, l: int| 0 <= k < l < ids.len() implies ids[k]@ != ids[l]@ by {
            assert(from[k] < from[l]);
            assert(config.services.entries[from[k]].id@ != config.services.entries[from[l]].id@);
        }
    }
    ids
}

/// A copy of the identifiers.
fn copy_ids(ids: &Vec<String>) -> (out: Vec<String>)
    ensures
        out@ == ids@,
{
    let mut out: Vec<String> = Vec::new();
    let mut i: usize = 0;
    while i < ids.len()
        invariant
            i <= ids.len(),
            out@ == ids@.subrange(0, i as int),
        decreases ids.len() - i,
    {
        out.push(ids[i].clone());
        assert(out@ =~= ids@.subrange(0, i + 1));
        i += 1;
    }
    assert(out@ =~= ids@);
    out
}

/// The ledgers with the verdict `outcome`, reached at `now`, entered into
/// the ledger of `id`; unchanged where `id` has no ledger.
pub open spec fn entered(
    ledgers: Map<Seq<char>, ServiceStateView>,
    id: Seq<char>,
    outcome: StateView,
    now: Timestamp,
) -> Map<Seq<char>, ServiceStateView> {
    if ledgers.contains_key(id) {
        ledgers.insert(id, ledgers[id].after(outcome, now))
    } else {
        ledgers
    }
}

/// The notification owed when the verdict `outcome` arrives for `id`: what
/// the alerting policy says under the thresholds that `config` gives that
/// service, and none where `id` has no ledger.
pub open spec fn owed(
    ledgers: Map<Seq<char>, ServiceStateView>,
    config: ConfigView,
    id: Seq<char>,
    outcome: StateView,
) -> Option<NotificationView> {
    if ledgers.contains_key(id) {
        ledgers[id].announcement(
            outcome,
            config.notify_failures_for(id) as nat,
            config.rereport_for(id) as nat,
        )
    } else {
        None
    }
}

/// The ledger of `id` has room for one more check.
pub open spec fn room(ledgers: Map<Seq<char>, ServiceStateView>, id: Seq<char>) -> bool {
    ledgers.contains_key(id) ==> ledgers[id].total_checks < u64::MAX
}

/// Whether every ledger of the table is well formed.
pub fn ledgers_wf(services: &Registry<ServiceState>) -> (b: bool)
    requires
        services.wf(),
    ensures
        b == all_wf(services@),
{
    let mut i: usize = 0;
    while i < services.entries.len()
        invariant
            services.wf(),
            i <= services.entries.len(),
            forall|j: int| 0 <= j < i ==> (#[trigger] services.entries[j]).value@.wf(),
        decreases services.entries.len() - i,
    {
        proof {
            services.lemma_entry(i as int);
        }
        if !services.entries[i].value.is_wf() {
            return false;
        }
        i += 1;
    }
    proof {
        assert forall|id: Seq<char>| #[trigger] services@.contains_key(id) implies services@[id].wf() by {
            services.lemma_slot(id);
            assert(services.entries[services.slot(id)].value@.wf());
        }
    }
    true
}

/// Whether a verdict for `id` can be entered into the ledgers under
/// `config`: the table and its ledgers are well formed, the configuration
/// can be run, and the ledger of `id` has room for one more check.
pub fn can_record(services: &Registry<ServiceState>, config: &Config, id: &str) -> (b: bool)
    ensures
        b == (services.wf() && all_wf(services@) && config.valid() && room(services@, id@)),
{
    if !services.is_wf() || config.validate().is_err() || !ledgers_wf(services) {
        return false;
    }
    match services.get(id) {
        Some(ledger) => ledger.total_checks < u64::MAX,
        None => true,
    }
}

/// Enters the verdict `state`, reached at `now`, into the ledger that
/// `services` holds for `id`, and returns the notification that the
/// alerting policy calls for under the thresholds of `config`. It reads
/// the configuration and writes the ledgers, and nothing else; where `id`
/// has no ledger nothing changes and nothing is owed.
pub fn record_outcome_at(
    services: &mut Registry<ServiceState>,
    config: &Config,
    id: String,
    state: State,
    now: Timestamp,
) -> (r: Option<Notification>)
    requires
        old(services).wf(),
        all_wf(old(services)@),
        config.valid(),
        room(old(services)@, id@),
    ensures
        final(services).wf(),
        all_wf(final(services)@),
        final(services)@ == entered(old(services)@, id@, state@, now),
        forall|other: Seq<char>|
            final(services)@.contains_key(other) == old(services)@.contains_key(other),
        !old(services)@.contains_key(id@) ==> *final(services) == *old(services),
        notice_view(r) == owed(old(services)@, config@, id@, state@),
{
    let ghost before = *services;
    match services.position(id.as_str()) {
        None => None,
        Some(i) => {
            let notify_failures = config.notify_failures_for(id.as_str());
            let rereport = config.rereport_for(id.as_str());
            proof {
                before.lemma_entry(i as int);
                assert(config@.rereport_positive());
                if config@.services.contains_key(id@) {
                    assert(config@.services[id@].rereport != Some(0u64));
                }
            }
            let ledger = &mut services.entries[i].value;
            let notice = ledger.record(state, now, notify_failures, rereport);
            proof {
                services.lemma_replaced(&before, i as int);
                assert forall|other: Seq<char>| #[trigger]
                    services@.contains_key(other) implies services@[other].wf() by {
                    if other != id@ {
                        assert(before@.contains_key(other));
                    }
                }
            }
            notice
        },
    }
}

/// Enters the verdict `state` into the ledger that `services` holds for
/// `id`, with the time of the call as the time of the check.
pub fn record_outcome(
    services: &mut Registry<ServiceState>,
    config: &Config,
    id: String,
    state: State,
) -> (r: Option<Notification>)
    requires
        old(services).wf(),
        all_wf(old(services)@),
        config.valid(),
        room(old(services)@, id@),
    ensures
        final(services).wf(),
        all_wf(final(services)@),
        exists|now: Timestamp| final(services)@ == entered(old(services)@, id@, state@, now),
        forall|other: Seq<char>|
            final(services)@.contains_key(other) == old(services)@.contains_key(other),
        !old(services)@.contains_key(id@) ==> *final(services) == *old(services),
        notice_view(r) == owed(old(services)@, config@, id@, state@),
{
    let now = Timestamp::now();
    record_outcome_at(services, config, id, state, now)
}

impl AppState {
    /// What holds of the state at all times: the configuration can be run;
    /// there is one well-formed ledger for each enabled service and no
    /// other; and no loop runs twice, or for a service that is not enabled.
    pub open spec fn wf(&self) -> bool {
        &&& self.config.valid()
        &&& self.services.wf()
        &&& all_wf(self.services@)
        &&& forall|id: Seq<char>|
            #![trigger self.services@.contains_key(id)]
            #![trigger self.config@.enabled(id)]
            self.services@.contains_key(id) <==> self.config@.enabled(id)
        &&& distinct(self.task_ids@)
        &&& forall|i: int|
            0 <= i < self.task_ids.len() ==> self.config@.enabled(#[trigger] self.task_ids[i]@)
    }

    /// The state `after` is this state with the verdict `outcome`, reached
    /// at `now`, entered into the ledger of `id`; unchanged where `id` has
    /// no ledger.
    pub open spec fn recorded(
        &self,
        after: &AppState,
        id: Seq<char>,
        outcome: StateView,
        now: Timestamp,
    ) -> bool {
        &&& after.config == self.config
        &&& after.task_ids == self.task_ids
        &&& after.telegram == self.telegram
        &&& after.config_path == self.config_path
        &&& after.services@ == entered(self.services@, id, outcome, now)
    }

    /// The notification owed when the verdict `outcome` arrives for `id`:
    /// what the alerting policy says under the thresholds of that service,
    /// and none where `id` has no ledger.
    pub open spec fn notice(&self, id: Seq<char>, outcome: StateView) -> Option<NotificationView> {
        owed(self.services@, self.config@, id, outcome)
    }

    /// The ledger of `id` has room for one more check.
    pub open spec fn has_room(&self, id: Seq<char>) -> bool {
        room(self.services@, id)
    }

    /// Whether the ledger of `id` has room for one more check.
    pub fn has_room_for(&self, id: &str) -> (b: bool)
        ensures
            b == self.has_room(id@),
    {
        match self.services.get(id) {
            Some(ledger) => ledger.total_checks < u64::MAX,
            None => true,
        }
    }

    /// Whether the state is well formed.
    pub fn is_wf(&self) -> (b: bool)
        ensures
            b == self.wf(),
    {
        if self.config.validate().is_err() || !self.services.is_wf() {
            return false;
        }
        let mut i: usize = 0;
        while i < self.services.entries.len()
            invariant
                self.config.valid(),
                self.services.wf(),
                i <= self.services.entries.len(),
                forall|j: int|
                    0 <= j < i ==> (#[trigger] self.services.entries[j]).value@.wf()
                        && self.config@.enabled(self.services.entries[j].id@),
            decreases self.services.entries.len() - i,
        {
            let entry = &self.services.entries[i];
            proof {
                self.services.lemma_entry(i as int);
            }
            let enabled = match self.config.service(entry.id.as_str()) {
                Some(service) => service.enabled,
                None => false,
            };
            if !entry.value.is_wf() || !enabled {
                assert(self.services@.contains_key(entry.id@));
                return false;
            }
            i += 1;
        }
        let mut k: usize = 0;
        while k < self.config.services.entries.len()
            invariant
                self.config.valid(),
                self.services.wf(),
                k <= self.config.services.entries.len(),
                forall|j: int|
                    0 <= j < k && (#[trigger] self.config.services.entries[j]).value.enabled
                        ==> self.services@.contains_key(self.config.services.entries[j].id@),
            decreases self.config.services.entries.len() - k,
        {
            let entry = &self.config.services.entries[k];
            proof {
                self.config.services.lemma_entry(k as int);
            }
            if entry.value.enabled && !self.services.contains(entry.id.as_str()) {
                assert(self.config@.enabled(entry.id@));
                return false;
            }
            k += 1;
        }
        proof {
            assert forall|id: Seq<char>| #[trigger] self.services@.contains_key(id) implies self.services@[id].wf()
                && self.config@.enabled(id) by {
                self.services.lemma_slot(id);
                assert(self.services.entries[self.services.slot(id)].value@.wf());
            }
            assert forall|id: Seq<char>| #[trigger]
                self.config@.enabled(id) implies self.services@.contains_key(id) by {
                self.config.services.lemma_slot(id);
                assert(self.config.services.entries[self.config.services.slot(id)].value.enabled);
            }
        }
        let mut t: usize = 0;
        while t < self.task_ids.len()
            invariant
                self.config.valid(),
                t <= self.task_ids.len(),
                forall|a: int, b: int| 0 <= a < b < t ==> self.task_ids[a]@ != self.task_ids[b]@,
                forall|a: int| 0 <= a < t ==> self.config@.enabled(#[trigger] self.task_ids[a]@),
            decreases self.task_ids.len() - t,
        {
            let enabled = match self.config.service(self.task_ids[t].as_str()) {
                Some(service) => service.enabled,
                None => false,
            };
            if !enabled {
                return false;
            }
            let mut u: usize = 0;
            while u < t
                invariant
                    u <= t < self.task_ids.len(),
                    forall|a: int| 0 <= a < u ==> self.task_ids[a]@ != self.task_ids[t as int]@,
                decreases t - u,
            {
                if str_eq(self.task_ids[u].as_str(), self.task_ids[t].as_str()) {
                    return false;
                }
                u += 1;
            }
            t += 1;
        }
        true
    }

    /// The state of a monitor that starts under `config` at `now`: a fresh
    /// ledger for each enabled service, and no loop running.
    pub fn new_at(config: Config, config_path: String, now: Timestamp) -> (state: Self)
        requires
            config.valid(),
        ensures
            state.wf(),
            state.config == config,
            state.config_path == config_path,
            state.task_ids@.len() == 0,
            state.telegram.bot_token@ == config.telegram_token@,
            state.telegram.chat_id == config.telegram_chat_id,
            state.services@ == reconciled(Map::empty(), config@, now),
    {
        let none: Registry<ServiceState> = Registry::new();
        let services = reconcile(&none, &config, now);
        let telegram = TelegramClient::new(config.telegram_token.clone(), config.telegram_chat_id);
        AppState { services, config, task_ids: Vec::new(), telegram, config_path }
    }

    /// The state of a monitor that starts under `config` now.
    pub fn new(config: Config, config_path: String) -> (state: Self)
        requires
            config.valid(),
        ensures
            state.wf(),
            state.config == config,
            state.config_path == config_path,
            state.task_ids@.len() == 0,
            state.telegram.bot_token@ == config.telegram_token@,
            state.telegram.chat_id == config.telegram_chat_id,
            exists|now: Timestamp| state.services@ == reconciled(Map::empty(), config@, now),
    {
        let now = Timestamp::now();
        Self::new_at(config, config_path, now)
    }

    /// Enters the verdict `state`, reached at `now`, into the ledger of the
    /// service `id`, and returns the notification that the alerting policy
    /// calls for. Where `id` has no ledger nothing changes and nothing is
    /// owed.
    pub fn set_state_at(&mut self, id: String, state: State, now: Timestamp) -> (r: Option<
        Notification,
    >)
        requires
            old(self).wf(),
            old(self).has_room(id@),
        ensures
            final(self).wf(),
            old(self).recorded(final(self), id@, state@, now),
            !old(self).services@.contains_key(id@) ==> *final(self) == *old(self),
            notice_view(r) == old(self).notice(id@, state@),
    {
        record_outcome_at(&mut self.services, &self.config, id, state, now)
    }

    /// Enters the verdict `state` into the ledger of the service `id`, with
    /// the time of the call as the time of the check.
    pub fn set_state(&mut self, id: String, state: State) -> (r: Option<Notification>)
        requires
            old(self).wf(),
            old(self).has_room(id@),
        ensures
            final(self).wf(),
            exists|now: Timestamp| old(self).recorded(final(self), id@, state@, now),
            !old(self).services@.contains_key(id@) ==> *final(self) == *old(self),
            notice_view(r) == old(self).notice(id@, state@),
    {
        let now = Timestamp::now();
        self.set_state_at(id, state, now)
    }

    /// A copy of every ledger, ordered by display name without regard to
    /// case, and by identifier among equal names.
    pub fn get_all_services(&self) -> (out: Vec<ServiceState>)
        requires
            self.services.wf(),
        ensures
            exists|ids: Seq<Seq<char>>|
                is_listing(self.services@, ids) && shows(self.services@, ids, out@),
    {
        sorted_snapshot(&self.services)
    }

    /// A copy of the configuration in force.
    pub fn get_config(&self) -> (config: Config)
        ensures
            config@ == self.config@,
            config.valid() == self.config.valid(),
    {
        self.config.clone()
    }

    /// Marks the loop of every enabled service as running and returns the
    /// identifiers to start a loop for: each enabled service, once.
    pub fn start_monitoring_tasks(&mut self) -> (start: Vec<String>)
        requires
            old(self).wf(),
        ensures
            final(self).wf(),
            final(self).services == old(self).services,
            final(self).config == old(self).config,
            final(self).telegram == old(self).telegram,
            final(self).config_path == old(self).config_path,
            distinct(start@),
            forall|id: Seq<char>| names(start@, id) <==> old(self).config@.enabled(id),
            forall|id: Seq<char>|
                names(final(self).task_ids@, id) <==> names(old(self).task_ids@, id) || old(
                    self,
                ).config@.enabled(id),
    {
        let start = enabled_ids(&self.config);
        let ghost initial = self.task_ids@;
        let mut i: usize = 0;
        while i < start.len()
            invariant
                i <= start.len(),
                self.services == old(self).services,
                self.config == old(self).config,
                self.telegram == old(self).telegram,
                self.config_path == old(self).config_path,
                old(self).wf(),
                initial == old(self).task_ids@,
                forall|id: Seq<char>| names(start@, id) <==> old(self).config@.enabled(id),
                distinct(self.task_ids@),
                forall|k: int|
                    0 <= k < self.task_ids.len() ==> old(self).config@.enabled(
                        #[trigger] self.task_ids[k]@,
                    ),
                forall|id: Seq<char>|
                    names(self.task_ids@, id) <==> names(initial, id) || names(
                        start@.subrange(0, i as int),
                        id,
                    ),
            decreases start.len() - i,
        {
            let ghost before = self.task_ids@;
            let ghost done = start@.subrange(0, i as int);
            let ghost next = start@.subrange(0, i + 1);
            let fresh = !is_named(&self.task_ids, start[i].as_str());
            if fresh {
                self.task_ids.push(start[i].clone());
            }
            proof {
                let added = start@[i as int]@;
                assert(names(start@, added));
                assert(next[i as int]@ == added);
                assert forall|id: Seq<char>|
                    names(self.task_ids@, id) <==> names(initial, id) || names(next, id) by {
                    if names(self.task_ids@, id) {
                        let k = choose|k: int|
                            0 <= k < self.task_ids.len() && #[trigger] self.task_ids@[k]@ == id;
                        if k < before.len() {
                            assert(before[k]@ == id);
                            assert(names(before, id));
                            if names(done, id) {
                                let m = choose|m: int| 0 <= m < done.len() && #[trigger] done[m]@ == id;
                                assert(next[m]@ == id);
                            }
                        } else {
                            assert(id == added);
                        }
                    }
                    if names(initial, id) || names(done, id) {
                        assert(names(before, id));
                        let k = choose|k: int| 0 <= k < before.len() && #[trigger] before[k]@ == id;
                        assert(self.task_ids@[k]@ == id);
                    }
                    if names(next, id) && !names(done, id) {
                        let m = choose|m: int| 0 <= m < next.len() && #[trigger] next[m]@ == id;
                        if m < i {
                            assert(done[m]@ == id);
                        }
                        assert(id == added);
                        if fresh {
                            assert(self.task_ids@[self.task_ids.len() - 1]@ == id);
                        } else {
                            let k = choose|k: int| 0 <= k < before.len() && #[trigger] before[k]@ == id;
                            assert(self.task_ids@[k]@ == id);
                        }
                    }
                }
                assert forall|k: int, l: int| 0 <= k < l < self.task_ids.len() implies self.task_ids[k]@
                    != self.task_ids[l]@ by {
                    if l == before.len() {
                        assert(before[k]@ == self.task_ids[k]@);
                    } else {
                        assert(before[k]@ != before[l]@);
                    }
                }
            }
            i += 1;
        }
        proof {
            assert(start@.subrange(0, start.len() as int) =~= start@);
        }
        start
    }

    /// Marks every loop as stopped and returns the identifiers of the loops
    /// to cancel: all that were running.
    pub fn stop_all_tasks(&mut self) -> (stop: Vec<String>)
        requires
            old(self).wf(),
        ensures
            final(self).wf(),
            stop@ == old(self).task_ids@,
            final(self).task_ids@.len() == 0,
            final(self).services == old(self).services,
            final(self).config == old(self).config,
            final(self).telegram == old(self).telegram,
            final(self).config_path == old(self).config_path,
    {
        let mut stop: Vec<String> = Vec::new();
        core::mem::swap(&mut self.task_ids, &mut stop);
        stop
    }

    /// Replaces the configuration. `persisted` is the outcome of saving
    /// `new_config` to where the configuration is kept. A configuration
    /// that cannot be run, or could not be saved, is refused and leaves the
    /// state as it was, loops included. Otherwise `new_config` comes into
    /// force, the ledgers are reconciled with it at `now`, and the plan
    /// says which loops to cancel (all that ran) and which to start (one
    /// for each service now enabled).
    pub fn update_config_at(
        &mut self,
        new_config: Config,
        persisted: Result<(), String>,
        now: Timestamp,
    ) -> (r: Result<ReloadPlan, ReloadError>)
        requires
            old(self).wf(),
        ensures
            final(self).wf(),
            r is Ok <==> new_config.valid() && persisted is Ok,
            r is Err ==> *final(self) == *old(self),
            !new_config.valid() ==> (r matches Err(ReloadError::Invalid(e)) && new_config.fault()
                == Some(e)),
            new_config.valid() && persisted is Err ==> (r matches Err(ReloadError::Persist(why))
                && why == persisted->Err_0),
            r matches Ok(plan) ==> {
                &&& final(self).config == new_config
                &&& final(self).services@ == reconciled(old(self).services@, new_config@, now)
                &&& final(self).telegram == old(self).telegram
                &&& final(self).config_path == old(self).config_path
                &&& plan.stop@ == old(self).task_ids@
                &&& final(self).task_ids@ == plan.start@
                &&& distinct(plan.start@)
                &&& forall|id: Seq<char>| names(plan.start@, id) <==> new_config@.enabled(id)
            },
    {
        match new_config.validate() {
            Err(e) => {
                return Err(ReloadError::Invalid(e));
            },
            Ok(()) => {},
        }
        match persisted {
            Err(why) => {
                return Err(ReloadError::Persist(why));
            },
            Ok(()) => {},
        }
        let mut stop: Vec<String> = Vec::new();
        core::mem::swap(&mut self.task_ids, &mut stop);
        let services = reconcile(&self.services, &new_config, now);
        let start = enabled_ids(&new_config);
        self.task_ids = copy_ids(&start);
        self.services = services;
        self.config = new_config;
        proof {
            assert forall|i: int| 0 <= i < self.task_ids.len() implies self.config@.enabled(
                #[trigger] self.task_ids[i]@,
            ) by {
                assert(names(start@, start@[i]@));
            }
        }
        Ok(ReloadPlan { stop, start })
    }

    /// Replaces the configuration as [`Self::update_config_at`] does, with
    /// the time of the call as the time at which new ledgers start.
    pub fn update_config(&mut self, new_config: Config, persisted: Result<(), String>) -> (r: Result<
        ReloadPlan,
        ReloadError,
    >)
        requires
            old(self).wf(),
        ensures
            final(self).wf(),
            r is Ok <==> new_config.valid() && persisted is Ok,
            r is Err ==> *final(self) == *old(self),
            !new_config.valid() ==> (r matches Err(ReloadError::Invalid(e)) && new_config.fault()
                == Some(e)),
            new_config.valid() && persisted is Err ==> (r matches Err(ReloadError::Persist(why))
                && why == persisted->Err_0),
            r matches Ok(plan) ==> {
                &&& final(self).config == new_config
                &&& exists|now: Timestamp|
                    final(self).services@ == reconciled(old(self).services@, new_config@, now)
                &&& final(self).telegram == old(self).telegram
                &&& final(self).config_path == old(self).config_path
                &&& plan.stop@ == old(self).task_ids@
                &&& final(self).task_ids@ == plan.start@
                &&& distinct(plan.start@)
                &&& forall|id: Seq<char>| names(plan.start@, id) <==> new_config@.enabled(id)
            },
    {
        let now = Timestamp::now();
        self.update_config_at(new_config, persisted, now)
    }
}

} // verus!
