//! The health ledger of one service, and the policy that turns probe
//! verdicts into alerts and recoveries.

use vstd::prelude::*;
use vstd::string::*;
use crate::config::{State, StateView};
use crate::text::concat2;
use crate::time::Timestamp;

verus! {

/// Whether a notification reports trouble or the end of it.
#[derive(Clone, Copy, Debug, PartialEq, Eq, Structural)]
pub enum NotificationKind {
    Alert,
    Recovery,
}

/// A message owed to the operators about one service.
#[derive(Debug, PartialEq, Eq)]
pub struct Notification {
    pub kind: NotificationKind,
    pub service_name: String,
    pub message: String,
}

pub struct NotificationView {
    pub kind: NotificationKind,
    pub service_name: Seq<char>,
    pub message: Seq<char>,
}

impl View for Notification {
    type V = NotificationView;

    open spec fn view(&self) -> NotificationView {
        NotificationView {
            kind: self.kind,
            service_name: self.service_name@,
            message: self.message@,
        }
    }
}

/// The view of a notification that may be absent.
pub open spec fn notice_view(o: Option<Notification>) -> Option<NotificationView> {
    match o {
        Some(n) => Some(n@),
        None => None,
    }
}

/// What the policy makes of one verdict.
#[derive(Clone, Copy, Debug, PartialEq, Eq, Structural)]
pub enum Decision {
    /// Stay silent.
    Nothing,
    /// The service is back after failures.
    Recovery,
    /// The failures in a row have reached the threshold.
    Alert,
    /// The service is still failing, a whole number of repeat intervals
    /// past the threshold.
    Realert,
}

/// The alerting policy. `previous_failures` is the count of failures in a
/// row before the verdict `outcome`; the first alert is due when the count
/// reaches `notify_failures`, a repeated one every `rereport` failures
/// after that, and a recovery with the first success after any failure.
pub open spec fn decision(
    previous_failures: nat,
    outcome: StateView,
    notify_failures: nat,
    rereport: nat,
) -> Decision {
    match outcome {
        StateView::Success => if previous_failures > 0 {
            Decision::Recovery
        } else {
            Decision::Nothing
        },
        StateView::Failure(_) => {
            let n = previous_failures + 1;
            if n == notify_failures {
                Decision::Alert
            } else if n > notify_failures && (n - notify_failures) % (rereport as int) == 0 {
                Decision::Realert
            } else {
                Decision::Nothing
            }
        },
        StateView::Unknown => Decision::Nothing,
    }
}

/// The reason that a verdict carries; empty where it carries none.
pub open spec fn reason_of(outcome: StateView) -> Seq<char> {
    match outcome {
        StateView::Failure(reason) => reason,
        _ => Seq::empty(),
    }
}

/// The notification that goes with a decision on the verdict `outcome` of
/// the service called `name`.
pub open spec fn notification_for(
    name: Seq<char>,
    outcome: StateView,
    d: Decision,
) -> Option<NotificationView> {
    match d {
        Decision::Nothing => None,
        Decision::Recovery => Some(
            NotificationView {
                kind: NotificationKind::Recovery,
                service_name: name,
                message: "recovered"@,
            },
        ),
        Decision::Alert => Some(
            NotificationView {
                kind: NotificationKind::Alert,
                service_name: name,
                message: reason_of(outcome),
            },
        ),
        Decision::Realert => Some(
            NotificationView {
                kind: NotificationKind::Alert,
                service_name: name,
                message: reason_of(outcome) + " (still failing)"@,
            },
        ),
    }
}

/// Applies the alerting policy to one verdict.
pub fn decide(previous_failures: u64, outcome: &State, notify_failures: u64, rereport: u64) -> (d:
    Decision)
    requires
        rereport > 0,
    ensures
        d == decision(previous_failures as nat, outcome@, notify_failures as nat, rereport as nat),
{
    match outcome {
        State::Success => if previous_failures > 0 {
            Decision::Recovery
        } else {
            Decision::Nothing
        },
        State::Failure(_) => {
            if previous_failures < notify_failures {
                if previous_failures + 1 == notify_failures {
                    Decision::Alert
                } else {
                    Decision::Nothing
                }
            } else {
                let past: u128 = (previous_failures - notify_failures) as u128 + 1;
                if past % (rereport as u128) == 0 {
                    Decision::Realert
                } else {
                    Decision::Nothing
                }
            }
        },
        State::Unknown => Decision::Nothing,
    }
}

/// The live health ledger of one service.
#[derive(Debug, PartialEq, Eq)]
pub struct ServiceState {
    pub name: String,
    pub description: String,
    /// The verdict of the latest probe.
    pub state: State,
    pub last_check: Timestamp,
    pub consecutive_failures: u64,
    pub total_checks: u64,
    pub successful_checks: u64,
    pub failed_checks: u64,
    /// Since when the service has been healthy without a break.
    pub uptime_start: Option<Timestamp>,
}

pub struct ServiceStateView {
    pub name: Seq<char>,
    pub description: Seq<char>,
    pub state: StateView,
    pub last_check: Timestamp,
    pub consecutive_failures: nat,
    pub total_checks: nat,
    pub successful_checks: nat,
    pub failed_checks: nat,
    pub uptime_start: Option<Timestamp>,
}

impl View for ServiceState {
    type V = ServiceStateView;

    open spec fn view(&self) -> ServiceStateView {
        ServiceStateView {
            name: self.name@,
            description: self.description@,
            state: self.state@,
            last_check: self.last_check,
            consecutive_failures: self.consecutive_failures as nat,
            total_checks: self.total_checks as nat,
            successful_checks: self.successful_checks as nat,
            failed_checks: self.failed_checks as nat,
            uptime_start: self.uptime_start,
        }
    }
}

impl ServiceStateView {
    /// What holds of every ledger: a healthy service has no failures in a
    /// row; it has an uptime anchor exactly while it is healthy; and the
    /// counters add up.
    pub open spec fn wf(self) -> bool {
        &&& self.state is Success ==> self.consecutive_failures == 0
        &&& self.uptime_start is Some <==> self.state is Success
        &&& self.consecutive_failures <= self.failed_checks
        &&& self.successful_checks + self.failed_checks <= self.total_checks
    }

    /// The ledger of a service that has not been probed yet.
    pub open spec fn fresh(name: Seq<char>, description: Seq<char>, now: Timestamp) -> Self {
        ServiceStateView {
            name,
            description,
            state: StateView::Unknown,
            last_check: now,
            consecutive_failures: 0,
            total_checks: 0,
            successful_checks: 0,
            failed_checks: 0,
            uptime_start: None,
        }
    }

    /// The ledger after the verdict `outcome`, reached at `now`. Every
    /// verdict counts as a check; only successes and failures count
    /// further.
    pub open spec fn after(self, outcome: StateView, now: Timestamp) -> Self {
        match outcome {
            StateView::Success => ServiceStateView {
                state: outcome,
                last_check: now,
                total_checks: self.total_checks + 1,
                consecutive_failures: 0,
                successful_checks: self.successful_checks + 1,
                uptime_start: if self.uptime_start is None {
                    Some(now)
                } else {
                    self.uptime_start
                },
                ..self
            },
            StateView::Failure(_) => ServiceStateView {
                state: outcome,
                last_check: now,
                total_checks: self.total_checks + 1,
                consecutive_failures: self.consecutive_failures + 1,
                failed_checks: self.failed_checks + 1,
                uptime_start: None,
                ..self
            },
            StateView::Unknown => ServiceStateView {
                state: outcome,
                last_check: now,
                total_checks: self.total_checks + 1,
                uptime_start: None,
                ..self
            },
        }
    }

    /// The same ledger under another display name and description.
    pub open spec fn renamed(self, name: Seq<char>, description: Seq<char>) -> Self {
        ServiceStateView { name, description, ..self }
    }

    /// The notification owed when the verdict `outcome` meets this ledger.
    pub open spec fn announcement(
        self,
        outcome: StateView,
        notify_failures: nat,
        rereport: nat,
    ) -> Option<NotificationView> {
        notification_for(
            self.name,
            outcome,
            decision(self.consecutive_failures, outcome, notify_failures, rereport),
        )
    }
}

impl Clone for ServiceState {
    fn clone(&self) -> (res: Self)
        ensures
            res == *self,
    {
        ServiceState {
            name: self.name.clone(),
            description: self.description.clone(),
            state: self.state.clone(),
            last_check: self.last_check,
            consecutive_failures: self.consecutive_failures,
            total_checks: self.total_checks,
            successful_checks: self.successful_checks,
            failed_checks: self.failed_checks,
            uptime_start: self.uptime_start,
        }
    }
}

impl ServiceState {
    /// Whether the ledger is well formed.
    pub fn is_wf(&self) -> (b: bool)
        ensures
            b == self@.wf(),
    {
        let healthy = match &self.state {
            State::Success => true,
            _ => false,
        };
        let anchored = self.uptime_start.is_some();
        (!healthy || self.consecutive_failures == 0) && anchored == healthy
            && self.consecutive_failures <= self.failed_checks && self.failed_checks
            <= self.total_checks && self.successful_checks <= self.total_checks - self.failed_checks
    }

    /// The ledger of a service that has not been probed yet.
    pub fn new(name: String, description: String, now: Timestamp) -> (r: Self)
        ensures
            r@ == ServiceStateView::fresh(name@, description@, now),
            r@.wf(),
    {
        ServiceState {
            name,
            description,
            state: State::Unknown,
            last_check: now,
            consecutive_failures: 0,
            total_checks: 0,
            successful_checks: 0,
            failed_checks: 0,
            uptime_start: None,
        }
    }

    /// Enters one verdict into the ledger and says what notification it
    /// calls for.
    pub fn record(&mut self, outcome: State, now: Timestamp, notify_failures: u64, rereport: u64) -> (r:
        Option<Notification>)
        requires
            old(self)@.wf(),
            old(self).total_checks < u64::MAX,
            rereport > 0,
        ensures
            final(self)@ == old(self)@.after(outcome@, now),
            final(self)@.wf(),
            notice_view(r) == old(self)@.announcement(
                outcome@,
                notify_failures as nat,
                rereport as nat,
            ),
    {
        let d = decide(self.consecutive_failures, &outcome, notify_failures, rereport);
        let notice = match d {
            Decision::Nothing => None,
            Decision::Recovery => Some(
                Notification {
                    kind: NotificationKind::Recovery,
                    service_name: self.name.clone(),
                    message: String::from_str("recovered"),
                },
            ),
            Decision::Alert => match &outcome {
                State::Failure(reason) => Some(
                    Notification {
                        kind: NotificationKind::Alert,
                        service_name: self.name.clone(),
                        message: reason.clone(),
                    },
                ),
                _ => None,
            },
            Decision::Realert => match &outcome {
                State::Failure(reason) => Some(
                    Notification {
                        kind: NotificationKind::Alert,
                        service_name: self.name.clone(),
                        message: concat2(reason.as_str(), " (still failing)"),
                    },
                ),
                _ => None,
            },
        };
        self.last_check = now;
        self.total_checks = self.total_checks + 1;
        match &outcome {
            State::Success => {
                self.consecutive_failures = 0;
                self.successful_checks = self.successful_checks + 1;
                if self.uptime_start.is_none() {
                    self.uptime_start = Some(now);
                }
            },
            State::Failure(_) => {
                self.consecutive_failures = self.consecutive_failures + 1;
                self.failed_checks = self.failed_checks + 1;
                self.uptime_start = None;
            },
            State::Unknown => {
                self.uptime_start = None;
            },
        }
        self.state = outcome;
        notice
    }
}

} // verus!
