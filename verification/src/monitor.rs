//! One round of a monitor loop: the verdict of the latest probe goes into
//! the ledger, and out come the notification to send, if any, and the time
//! to sleep before the next probe.

use vstd::prelude::*;
use crate::app_state::{all_wf, entered, owed, record_outcome_at, room, AppState};
use crate::config::{Config, Service, State};
use crate::record::{notice_view, Notification, ServiceState};
use crate::registry::Registry;
use crate::time::Timestamp;

verus! {

/// What a monitor loop does after a probe.
#[derive(Debug, PartialEq, Eq)]
pub struct Round {
    /// The notification to send, outside of any lock on the state.
    pub notification: Option<Notification>,
    /// How long to sleep before the next probe, in milliseconds.
    pub sleep_ms: u64,
}

impl Service {
    /// Runs one round for the service stored under `id`, on the ledgers
    /// and the configuration as two values: enters `outcome`, reached at
    /// `now`, into the ledger of `id` and works out the pause, from the
    /// intervals of this service and the defaults of `config`.
    pub fn round_at(
        &self,
        id: String,
        services: &mut Registry<ServiceState>,
        config: &Config,
        outcome: State,
        now: Timestamp,
    ) -> (round: Round)
        requires
            old(services).wf(),
            all_wf(old(services)@),
            config.valid(),
            room(old(services)@, id@),
        ensures
            final(services).wf(),
            all_wf(final(services)@),
            final(services)@ == entered(old(services)@, id@, outcome@, now),
            notice_view(round.notification) == owed(old(services)@, config@, id@, outcome@),
            round.sleep_ms == self.interval_after(outcome@, config@),
    {
        let sleep_ms = self.check_interval(&outcome, config);
        let notification = record_outcome_at(services, config, id, outcome, now);
        Round { notification, sleep_ms }
    }

    /// Runs one round as [`Self::round_at`] does, with the time of the
    /// call as the time of the check.
    pub fn round(
        &self,
        id: String,
        services: &mut Registry<ServiceState>,
        config: &Config,
        outcome: State,
    ) -> (round: Round)
        requires
            old(services).wf(),
            all_wf(old(services)@),
            config.valid(),
            room(old(services)@, id@),
        ensures
            final(services).wf(),
            all_wf(final(services)@),
            exists|now: Timestamp| final(services)@ == entered(old(services)@, id@, outcome@, now),
            notice_view(round.notification) == owed(old(services)@, config@, id@, outcome@),
            round.sleep_ms == self.interval_after(outcome@, config@),
    {
        let now = Timestamp::now();
        self.round_at(id, services, config, outcome, now)
    }

    /// Runs one round for the service stored under `id`: enters `outcome`,
    /// reached at `now`, into its ledger and works out the pause, from the
    /// intervals of this service and the defaults of the configuration in
    /// force.
    pub fn run_at(&self, id: String, app_state: &mut AppState, outcome: State, now: Timestamp) -> (round:
        Round)
        requires
            old(app_state).wf(),
            old(app_state).has_room(id@),
        ensures
            final(app_state).wf(),
            old(app_state).recorded(final(app_state), id@, outcome@, now),
            notice_view(round.notification) == old(app_state).notice(id@, outcome@),
            round.sleep_ms == self.interval_after(outcome@, old(app_state).config@),
    {
        let sleep_ms = self.check_interval(&outcome, &app_state.config);
        let notification = app_state.set_state_at(id, outcome, now);
        Round { notification, sleep_ms }
    }

    /// Runs one round for the service stored under `id`, with the time of
    /// the call as the time of the check.
    pub fn run(&self, id: String, app_state: &mut AppState, outcome: State) -> (round: Round)
        requires
            old(app_state).wf(),
            old(app_state).has_room(id@),
        ensures
            final(app_state).wf(),
            exists|now: Timestamp| old(app_state).recorded(final(app_state), id@, outcome@, now),
            notice_view(round.notification) == old(app_state).notice(id@, outcome@),
            round.sleep_ms == self.interval_after(outcome@, old(app_state).config@),
    {
        let now = Timestamp::now();
        self.run_at(id, app_state, outcome, now)
    }
}

} // verus!
