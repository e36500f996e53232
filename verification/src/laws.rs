//! What holds of the ledger, the alerting policy, reloads and the display
//! order, whatever the verdicts and configurations are.

use vstd::prelude::*;
use crate::app_state::{reconciled, AppState};
use crate::config::{ConfigView, StateView};
use crate::listing::{is_listing, key_before, listed_before};
use crate::record::{Decision, NotificationKind, NotificationView, ServiceStateView, decision};
use crate::text::{common_prefix, lex_less};
use crate::time::Timestamp;

verus! {

/// The ledger that `start` becomes when the verdicts `outcomes` are entered
/// one after the other, the `i`-th at the time `times[i]`.
pub open spec fn replay(
    start: ServiceStateView,
    outcomes: Seq<StateView>,
    times: Seq<Timestamp>,
) -> ServiceStateView
    decreases outcomes.len(),
{
    if outcomes.len() == 0 {
        start
    } else {
        replay(start, outcomes.drop_last(), times.drop_last()).after(outcomes.last(), times.last())
    }
}

/// Entering the first `k + 1` verdicts is entering the first `k` and then
/// the verdict at `k`.
pub proof fn lemma_replay_step(
    start: ServiceStateView,
    outcomes: Seq<StateView>,
    times: Seq<Timestamp>,
    k: int,
)
    requires
        0 <= k < outcomes.len(),
        times.len() == outcomes.len(),
    ensures
        replay(start, outcomes.take(k + 1), times.take(k + 1)) == replay(
            start,
            outcomes.take(k),
            times.take(k),
        ).after(outcomes[k], times[k]),
{
    assert(outcomes.take(k + 1).drop_last() =~= outcomes.take(k));
    assert(times.take(k + 1).drop_last() =~= times.take(k));
}

/// Whatever verdicts a ledger is fed: right after a success the count of
/// failures in a row is zero.
pub proof fn law_success_clears_failures(
    start: ServiceStateView,
    outcomes: Seq<StateView>,
    times: Seq<Timestamp>,
    k: int,
)
    requires
        times.len() == outcomes.len(),
        0 <= k < outcomes.len(),
        outcomes[k] is Success,
    ensures
        replay(start, outcomes.take(k + 1), times.take(k + 1)).consecutive_failures == 0,
{
    lemma_replay_step(start, outcomes, times, k);
}

/// A well-formed ledger stays well formed under every verdict.
pub proof fn law_step_keeps_well_formed(prev: ServiceStateView, outcome: StateView, now: Timestamp)
    requires
        prev.wf(),
    ensures
        prev.after(outcome, now).wf(),
{
}

/// A well-formed ledger stays well formed whatever verdicts it is fed; so
/// after each of them a healthy service has no failures in a row, and an
/// uptime anchor exactly while it is healthy.
pub proof fn law_replay_keeps_well_formed(
    start: ServiceStateView,
    outcomes: Seq<StateView>,
    times: Seq<Timestamp>,
)
    requires
        start.wf(),
    ensures
        replay(start, outcomes, times).wf(),
    decreases outcomes.len(),
{
    if outcomes.len() > 0 {
        law_replay_keeps_well_formed(start, outcomes.drop_last(), times.drop_last());
    }
}

/// Every verdict counts as a check, and only successes and failures count
/// further: fed verdicts of which none is unknown, a ledger whose checks
/// were the sum of its successes and failures keeps them so.
pub proof fn law_counters_add_up(
    start: ServiceStateView,
    outcomes: Seq<StateView>,
    times: Seq<Timestamp>,
)
    requires
        start.total_checks == start.successful_checks + start.failed_checks,
        forall|i: int| 0 <= i < outcomes.len() ==> !(#[trigger] outcomes[i] is Unknown),
    ensures
        replay(start, outcomes, times).total_checks == start.total_checks + outcomes.len(),
        replay(start, outcomes, times).total_checks == replay(
            start,
            outcomes,
            times,
        ).successful_checks + replay(start, outcomes, times).failed_checks,
    decreases outcomes.len(),
{
    if outcomes.len() > 0 {
        let head = outcomes.drop_last();
        assert forall|i: int| 0 <= i < head.len() implies !(#[trigger] head[i] is Unknown) by {
            assert(head[i] == outcomes[i]);
        }
        law_counters_add_up(start, head, times.drop_last());
        assert(!(outcomes[outcomes.len() - 1] is Unknown));
    }
}

/// An unknown verdict counts as a check and as nothing else.
pub proof fn law_unknown_counts_as_check_only(prev: ServiceStateView, now: Timestamp)
    ensures
        prev.after(StateView::Unknown, now).total_checks == prev.total_checks + 1,
        prev.after(StateView::Unknown, now).successful_checks == prev.successful_checks,
        prev.after(StateView::Unknown, now).failed_checks == prev.failed_checks,
        prev.after(StateView::Unknown, now).consecutive_failures == prev.consecutive_failures,
{
}

/// The uptime anchor is set to the time of the check by a success that
/// follows anything but a success, kept by a success that follows a
/// success, and cleared by every other verdict.
pub proof fn law_uptime_anchor(prev: ServiceStateView, outcome: StateView, now: Timestamp)
    requires
        prev.wf(),
    ensures
        outcome is Success && !(prev.state is Success) ==> prev.after(outcome, now).uptime_start
            == Some(now),
        outcome is Success && prev.state is Success ==> prev.after(outcome, now).uptime_start
            == prev.uptime_start,
        !(outcome is Success) ==> prev.after(outcome, now).uptime_start is None,
{
}

/// A ledger fed nothing but failures counts them in a row.
pub proof fn lemma_failures_in_a_row(
    start: ServiceStateView,
    outcomes: Seq<StateView>,
    times: Seq<Timestamp>,
)
    requires
        forall|i: int| 0 <= i < outcomes.len() ==> #[trigger] outcomes[i] is Failure,
    ensures
        replay(start, outcomes, times).consecutive_failures == start.consecutive_failures
            + outcomes.len(),
        replay(start, outcomes, times).name == start.name,
    decreases outcomes.len(),
{
    if outcomes.len() > 0 {
        let head = outcomes.drop_last();
        assert forall|i: int| 0 <= i < head.len() implies #[trigger] head[i] is Failure by {
            assert(head[i] == outcomes[i]);
        }
        lemma_failures_in_a_row(start, head, times.drop_last());
        assert(outcomes[outcomes.len() - 1] is Failure);
    }
}

/// A service that fails without a break, starting from no failures, is
/// alerted about at its failure number `notify_failures`, and again at
/// every failure that lies a multiple of `rereport` beyond it; no other
/// failure calls for a notification. The failure at position `k` of
/// `outcomes` is failure number `k + 1`.
pub proof fn law_alerts_of_a_failing_service(
    start: ServiceStateView,
    outcomes: Seq<StateView>,
    times: Seq<Timestamp>,
    notify_failures: nat,
    rereport: nat,
    k: int,
)
    requires
        start.consecutive_failures == 0,
        times.len() == outcomes.len(),
        forall|i: int| 0 <= i < outcomes.len() ==> #[trigger] outcomes[i] is Failure,
        0 <= k < outcomes.len(),
        rereport > 0,
    ensures
        ({
            let before = replay(start, outcomes.take(k), times.take(k));
            let due = before.announcement(outcomes[k], notify_failures, rereport);
            &&& before.consecutive_failures == k
            &&& due is Some <==> k + 1 == notify_failures || (k + 1 > notify_failures && (k + 1
                - notify_failures) % (rereport as int) == 0)
            &&& due matches Some(n) ==> n.kind == NotificationKind::Alert && n.service_name
                == start.name
        }),
{
    let head = outcomes.take(k);
    assert forall|i: int| 0 <= i < head.len() implies #[trigger] head[i] is Failure by {
        assert(head[i] == outcomes[i]);
    }
    lemma_failures_in_a_row(start, head, times.take(k));
    assert(outcomes[k] is Failure);
}

/// One success after any number of failures calls for exactly one
/// recovery and sets the count of failures in a row to zero: the success
/// is announced as a recovery, and a success right after it is not.
pub proof fn law_one_recovery(
    prev: ServiceStateView,
    first: Timestamp,
    second: Timestamp,
    notify_failures: nat,
    rereport: nat,
)
    requires
        prev.consecutive_failures > 0,
    ensures
        ({
            let due = prev.announcement(StateView::Success, notify_failures, rereport);
            let back = prev.after(StateView::Success, first);
            &&& due matches Some(n)
            &&& n.kind == NotificationKind::Recovery
            &&& n.service_name == prev.name
            &&& back.consecutive_failures == 0
            &&& back.announcement(StateView::Success, notify_failures, rereport) is None
        }),
{
}

/// An unknown verdict never calls for a notification.
pub proof fn law_unknown_is_silent(previous_failures: nat, notify_failures: nat, rereport: nat)
    ensures
        decision(previous_failures, StateView::Unknown, notify_failures, rereport)
            == Decision::Nothing,
{
}

/// A success entered into any well-formed state: the ledger of the service
/// shows the success, no failures in a row, one more success and one more
/// check; its uptime anchor is kept where the service was healthy before
/// and set to the time of the check otherwise. A recovery is owed exactly
/// where failures in a row went before, and a success right after it owes
/// nothing.
pub proof fn law_success_entered(before: &AppState, after: &AppState, id: Seq<char>, now: Timestamp)
    requires
        before.wf(),
        before.services@.contains_key(id),
        before.recorded(after, id, StateView::Success, now),
    ensures
        ({
            let was = before.services@[id];
            let is = after.services@[id];
            &&& is.state is Success
            &&& is.consecutive_failures == 0
            &&& is.successful_checks == was.successful_checks + 1
            &&& is.total_checks == was.total_checks + 1
            &&& is.failed_checks == was.failed_checks
            &&& is.last_check == now
            &&& is.uptime_start is Some
            &&& is.uptime_start == (if was.state is Success {
                was.uptime_start
            } else {
                Some(now)
            })
            &&& before.notice(id, StateView::Success) == (if was.consecutive_failures > 0 {
                Some(
                    NotificationView {
                        kind: NotificationKind::Recovery,
                        service_name: was.name,
                        message: "recovered"@,
                    },
                )
            } else {
                None
            })
            &&& after.notice(id, StateView::Success) is None
        }),
{
    assert(after.services@.contains_key(id));
}

/// A failure entered into any well-formed state: the ledger of the service
/// shows the failure with its reason, one more failure in a row, one more
/// failed check and one more check, and no uptime anchor. With `n` the
/// failures in a row after it, and the threshold and the repeat interval
/// of the service taken before the defaults: an alert with the bare reason
/// is owed where `n` is the threshold, an alert with the reason marked as
/// still failing where `n` lies a multiple of the interval beyond it, and
/// nothing otherwise; a recovery is never owed.
pub proof fn law_failure_entered(
    before: &AppState,
    after: &AppState,
    id: Seq<char>,
    reason: Seq<char>,
    now: Timestamp,
)
    requires
        before.wf(),
        before.services@.contains_key(id),
        before.recorded(after, id, StateView::Failure(reason), now),
    ensures
        ({
            let was = before.services@[id];
            let is = after.services@[id];
            let n = was.consecutive_failures + 1;
            let threshold = before.config@.notify_failures_for(id);
            let interval = before.config@.rereport_for(id);
            let owed = before.notice(id, StateView::Failure(reason));
            &&& is.state == StateView::Failure(reason)
            &&& is.consecutive_failures == n
            &&& is.failed_checks == was.failed_checks + 1
            &&& is.total_checks == was.total_checks + 1
            &&& is.successful_checks == was.successful_checks
            &&& is.last_check == now
            &&& is.uptime_start is None
            &&& interval > 0
            &&& owed == (if n == threshold {
                Some(
                    NotificationView {
                        kind: NotificationKind::Alert,
                        service_name: was.name,
                        message: reason,
                    },
                )
            } else if n > threshold && (n - threshold) % (interval as int) == 0 {
                Some(
                    NotificationView {
                        kind: NotificationKind::Alert,
                        service_name: was.name,
                        message: reason + " (still failing)"@,
                    },
                )
            } else {
                None
            })
        }),
{
    assert(before.config@.rereport_positive());
    if before.config@.services.contains_key(id) {
        assert(before.config@.services[id].rereport != Some(0u64));
    }
}

/// An unknown verdict entered into any well-formed state: the ledger of
/// the service shows it, with one more check and no uptime anchor; the
/// successes, the failures and the failures in a row stay as they were,
/// and nothing is owed.
pub proof fn law_unknown_entered(before: &AppState, after: &AppState, id: Seq<char>, now: Timestamp)
    requires
        before.wf(),
        before.services@.contains_key(id),
        before.recorded(after, id, StateView::Unknown, now),
    ensures
        ({
            let was = before.services@[id];
            let is = after.services@[id];
            &&& is.state is Unknown
            &&& is.uptime_start is None
            &&& is.total_checks == was.total_checks + 1
            &&& is.successful_checks == was.successful_checks
            &&& is.failed_checks == was.failed_checks
            &&& is.consecutive_failures == was.consecutive_failures
            &&& is.last_check == now
            &&& before.notice(id, StateView::Unknown) is None
        }),
{
}

/// A verdict entered for one service leaves the ledger of every other
/// service, the configuration and the running loops as they were; entered
/// for an identifier without a ledger it changes no ledger and owes
/// nothing.
pub proof fn law_verdict_touches_one_ledger(
    before: &AppState,
    after: &AppState,
    id: Seq<char>,
    other: Seq<char>,
    outcome: StateView,
    now: Timestamp,
)
    requires
        before.wf(),
        before.recorded(after, id, outcome, now),
        other != id,
    ensures
        after.services@.contains_key(other) == before.services@.contains_key(other),
        before.services@.contains_key(other) ==> after.services@[other] == before.services@[other],
        after.services@.contains_key(id) == before.services@.contains_key(id),
        !before.services@.contains_key(id) ==> after.services@ == before.services@ && before.notice(
            id,
            outcome,
        ) is None,
        after.config == before.config,
        after.task_ids == before.task_ids,
{
}

/// A reload keeps the counters, the verdict and the time stamps of every
/// service that was enabled before and is enabled after, starts every
/// newly enabled service from zero, and keeps no ledger for any other
/// identifier.
pub proof fn law_reload_keeps_counters(
    before: &AppState,
    config: ConfigView,
    now: Timestamp,
    id: Seq<char>,
)
    requires
        before.wf(),
    ensures
        ({
            let after = reconciled(before.services@, config, now);
            &&& after.contains_key(id) <==> config.enabled(id)
            &&& before.config@.enabled(id) && config.enabled(id) ==> {
                &&& after[id].total_checks == before.services@[id].total_checks
                &&& after[id].successful_checks == before.services@[id].successful_checks
                &&& after[id].failed_checks == before.services@[id].failed_checks
                &&& after[id].consecutive_failures == before.services@[id].consecutive_failures
                &&& after[id].state == before.services@[id].state
                &&& after[id].last_check == before.services@[id].last_check
                &&& after[id].uptime_start == before.services@[id].uptime_start
            }
            &&& !before.config@.enabled(id) && config.enabled(id) ==> {
                &&& after[id].total_checks == 0
                &&& after[id].successful_checks == 0
                &&& after[id].failed_checks == 0
                &&& after[id].consecutive_failures == 0
                &&& after[id].state is Unknown
                &&& after[id].uptime_start is None
            }
            &&& config.enabled(id) ==> after[id].name == config.services[id].name
                && after[id].description == config.services[id].description
        }),
{
    assert(before.services@.contains_key(id) <==> before.config@.enabled(id));
}

/// Lexicographic order is transitive.
pub proof fn lemma_lex_less_transitive(a: Seq<u8>, b: Seq<u8>, c: Seq<u8>)
    requires
        lex_less(a, b),
        lex_less(b, c),
    ensures
        lex_less(a, c),
{
    let k1 = choose|k: int| #[trigger]
        common_prefix(a, b, k) && k < b.len() && (k == a.len() || a[k] < b[k]);
    let k2 = choose|k: int| #[trigger]
        common_prefix(b, c, k) && k < c.len() && (k == b.len() || b[k] < c[k]);
    let k = if k1 < k2 {
        k1
    } else {
        k2
    };
    assert(common_prefix(a, c, k)) by {
        assert forall|j: int| 0 <= j < k implies a[j] == c[j] by {
            assert(a[j] == b[j]);
            assert(b[j] == c[j]);
        }
    }
    if k1 < k2 {
        if k1 < a.len() {
            assert(b[k1] == c[k1]);
        }
    } else if k1 > k2 {
        assert(a[k2] == b[k2]);
    }
    assert(common_prefix(a, c, k) && k < c.len() && (k == a.len() || a[k] < c[k]));
}

/// Lexicographic order is irreflexive.
pub proof fn lemma_lex_less_irreflexive(a: Seq<u8>)
    ensures
        !lex_less(a, a),
{
}

/// The order of display is transitive.
pub proof fn lemma_key_before_transitive(
    ka: Seq<u8>,
    ia: Seq<u8>,
    kb: Seq<u8>,
    ib: Seq<u8>,
    kc: Seq<u8>,
    ic: Seq<u8>,
)
    requires
        key_before(ka, ia, kb, ib),
        key_before(kb, ib, kc, ic),
    ensures
        key_before(ka, ia, kc, ic),
{
    if lex_less(ka, kb) && lex_less(kb, kc) {
        lemma_lex_less_transitive(ka, kb, kc);
    } else if ka == kb && kb == kc {
        lemma_lex_less_transitive(ia, ib, ic);
    }
}

/// In a listing every ledger comes before every later one, not only
/// before its successor.
pub proof fn law_listing_is_sorted(
    records: Map<Seq<char>, ServiceStateView>,
    ids: Seq<Seq<char>>,
    i: int,
    j: int,
)
    requires
        is_listing(records, ids),
        0 <= i < j < ids.len(),
    ensures
        listed_before(records, ids[i], ids[j]),
    decreases j - i,
{
    if j == i + 1 {
        assert(listed_before(records, ids[i], ids[i + 1]));
    } else {
        law_listing_is_sorted(records, ids, i, j - 1);
        assert(listed_before(records, ids[j - 1], ids[j - 1 + 1]));
        lemma_key_before_transitive(
            crate::listing::display_key(records[ids[i]].name),
            vstd::utf8::encode_utf8(ids[i]),
            crate::listing::display_key(records[ids[j - 1]].name),
            vstd::utf8::encode_utf8(ids[j - 1]),
            crate::listing::display_key(records[ids[j]].name),
            vstd::utf8::encode_utf8(ids[j]),
        );
    }
}

/// The records have one listing only: two listings of the same records
/// are the same sequence.
pub proof fn law_listing_is_unique(
    records: Map<Seq<char>, ServiceStateView>,
    first: Seq<Seq<char>>,
    second: Seq<Seq<char>>,
)
    requires
        is_listing(records, first),
        is_listing(records, second),
    ensures
        first == second,
    decreases first.len(),
{
    lemma_same_length(first, second);
    if first.len() > 0 {
        let n = first.len() as int;
        let a = first[n - 1];
        let b = second[n - 1];
        if a != b {
            // `a` is in `second` before its end, and `b` in `first` before
            // its end: each would come before the other.
            assert(first.contains(a));
            assert(second.contains(a));
            let p = choose|p: int| 0 <= p < second.len() && second[p] == a;
            assert(second.contains(b));
            assert(first.contains(b));
            let q = choose|q: int| 0 <= q < first.len() && first[q] == b;
            law_listing_is_sorted(records, second, p, n - 1);
            law_listing_is_sorted(records, first, q, n - 1);
            lemma_key_before_transitive(
                crate::listing::display_key(records[a].name),
                vstd::utf8::encode_utf8(a),
                crate::listing::display_key(records[b].name),
                vstd::utf8::encode_utf8(b),
                crate::listing::display_key(records[a].name),
                vstd::utf8::encode_utf8(a),
            );
            lemma_lex_less_irreflexive(crate::listing::display_key(records[a].name));
            lemma_lex_less_irreflexive(vstd::utf8::encode_utf8(a));
            assert(false);
        }
        let rest = records.remove(a);
        lemma_listing_without_last(records, first);
        lemma_listing_without_last(records, second);
        law_listing_is_unique(rest, first.drop_last(), second.drop_last());
        assert(first =~= first.drop_last().push(a));
        assert(second =~= second.drop_last().push(a));
    }
}

/// Two sequences without duplicates that hold the same elements are
/// equally long.
proof fn lemma_same_length(first: Seq<Seq<char>>, second: Seq<Seq<char>>)
    requires
        first.no_duplicates(),
        second.no_duplicates(),
        forall|id: Seq<char>| first.contains(id) <==> second.contains(id),
    ensures
        first.len() == second.len(),
{
    first.unique_seq_to_set();
    second.unique_seq_to_set();
    assert(first.to_set() =~= second.to_set()) by {
        assert forall|id: Seq<char>| first.to_set().contains(id) <==> second.to_set().contains(
            id,
        ) by {
            assert(first.to_set().contains(id) <==> first.contains(id));
            assert(second.to_set().contains(id) <==> second.contains(id));
        }
    }
}

/// A listing without its last identifier lists the records without that
/// identifier.
proof fn lemma_listing_without_last(records: Map<Seq<char>, ServiceStateView>, ids: Seq<Seq<char>>)
    requires
        is_listing(records, ids),
        ids.len() > 0,
    ensures
        is_listing(records.remove(ids.last()), ids.drop_last()),
{
    let last = ids.last();
    let rest = records.remove(last);
    let head = ids.drop_last();
    assert(head.no_duplicates());
    assert forall|id: Seq<char>| head.contains(id) <==> rest.contains_key(id) by {
        if head.contains(id) {
            let k = choose|k: int| 0 <= k < head.len() && head[k] == id;
            assert(ids[k] == id);
            assert(ids.contains(id));
            assert(ids[k] != ids[ids.len() - 1]);
        }
        if rest.contains_key(id) {
            assert(ids.contains(id));
            let k = choose|k: int| 0 <= k < ids.len() && ids[k] == id;
            assert(head[k] == id);
        }
    }
    assert forall|k: int| 0 <= k < head.len() - 1 implies listed_before(
        rest,
        #[trigger] head[k],
        head[k + 1],
    ) by {
        assert(listed_before(records, ids[k], ids[k + 1]));
        assert(ids[k] != last);
        assert(ids[k + 1] != last);
    }
}

} // verus!
