//! The smart list query engine: pure predicates that classify a task set
//! into the named virtual lists, and the filter that applies them.

use vstd::prelude::*;
use crate::models::{SidebarList, Status, Task};

verus! {

/// The UTC calendar day an instant falls on: its Unix timestamp in seconds,
/// divided by the seconds of a day, rounded towards minus infinity.
pub open spec fn day_number_spec(ts: int) -> int {
    ts / 86400
}

/// The inclusive seven-day window: `due` lies between `now` and `now` plus
/// seven days, both ends included.
pub open spec fn within_next_7_days_spec(due: int, now: int) -> bool {
    now <= due <= now + 604800
}

/// Membership in the Today list: the `today` flag is set, or a due date is
/// present and falls on the same UTC calendar day as `now`.
pub open spec fn is_today_spec(t: Task, now: int) -> bool {
    t.today || match t.due_date {
        Some(d) => day_number_spec(d as int) == day_number_spec(now),
        None => false,
    }
}

/// Membership in the Next7Days list: a due date is present and lies in the
/// inclusive seven-day window from `now`.
pub open spec fn is_next7_spec(t: Task, now: int) -> bool {
    match t.due_date {
        Some(d) => within_next_7_days_spec(d as int, now),
        None => false,
    }
}

/// The predicate each selector applies to a task.
pub open spec fn selector_pred(list: SidebarList, t: Task, now: int) -> bool {
    match list {
        SidebarList::All => true,
        SidebarList::Today => is_today_spec(t, now),
        SidebarList::Starred => t.favorite,
        SidebarList::Next7Days => is_next7_spec(t, now),
        SidebarList::Done => t.status is Completed,
        SidebarList::Custom(l) => t.parent@ == l.id@,
    }
}

/// The tasks of `tasks` that satisfy the selector, in their original order.
pub open spec fn filter_tasks_spec(tasks: Seq<Task>, list: SidebarList, now: int) -> Seq<Task>
    decreases tasks.len(),
{
    if tasks.len() == 0 {
        Seq::empty()
    } else {
        (if selector_pred(list, tasks[0], now) {
            seq![tasks[0]]
        } else {
            Seq::empty()
        }) + filter_tasks_spec(tasks.drop_first(), list, now)
    }
}

/// The UTC calendar day `ts` falls on.
pub fn day_number(ts: i64) -> (d: i64)
    ensures
        d as int == day_number_spec(ts as int),
{
    if ts >= 0 {
        let q = (ts as u64) / 86400;
        q as i64
    } else {
        let a = (-(ts as i128)) as u128;
        let q0 = (a + 86399) / 86400;
        let d = -(q0 as i128);
        proof {
            let x = ts as int;
            let ai = a as int;
            let q0i = q0 as int;
            vstd::arithmetic::div_mod::lemma_fundamental_div_mod(ai + 86399, 86400);
            vstd::arithmetic::div_mod::lemma_mod_bound(ai + 86399, 86400);
            let r0 = (ai + 86399) % 86400;
            assert(ai + 86399 == 86400 * q0i + r0);
            assert(x == (-q0i) * 86400 + (86399 - r0)) by {
                assert(x == -ai);
                assert(86400 * q0i == q0i * 86400) by (nonlinear_arith);
                assert((-q0i) * 86400 == -(q0i * 86400)) by (nonlinear_arith);
            }
            vstd::arithmetic::div_mod::lemma_fundamental_div_mod_converse(
                x,
                86400,
                -q0i,
                86399 - r0,
            );
        }
        d as i64
    }
}

/// Whether `due` lies in the inclusive seven-day window from `now`.
pub fn within_next_7_days(due: i64, now: i64) -> (r: bool)
    ensures
        r == within_next_7_days_spec(due as int, now as int),
{
    let d = due as i128;
    let n = now as i128;
    n <= d && d <= n + 604800
}

/// Whether a task satisfies the selector's predicate at the instant `now`.
pub fn matches_selector(list: &SidebarList, t: &Task, now: i64) -> (r: bool)
    ensures
        r == selector_pred(*list, *t, now as int),
{
    match list {
        SidebarList::All => true,
        SidebarList::Today => t.today || match t.due_date {
            Some(d) => day_number(d) == day_number(now),
            None => false,
        },
        SidebarList::Starred => t.favorite,
        SidebarList::Next7Days => match t.due_date {
            Some(d) => within_next_7_days(d, now),
            None => false,
        },
        SidebarList::Done => t.status == Status::Completed,
        SidebarList::Custom(l) => t.parent == l.id,
    }
}

/// Filters a task set down to the members of the selected virtual list,
/// keeping the original order.
#[verifier::loop_isolation(false)]
pub fn select_tasks(list: &SidebarList, tasks: Vec<Task>, now: i64) -> (out: Vec<Task>)
    ensures
        out@ == filter_tasks_spec(tasks@, *list, now as int),
{
    let ghost orig = tasks@;
    let mut input = tasks;
    let mut out: Vec<Task> = Vec::new();
    loop
        invariant
            out@ + filter_tasks_spec(input@, *list, now as int) == filter_tasks_spec(
                orig,
                *list,
                now as int,
            ),
        decreases input@.len(),
    {
        if input.len() == 0 {
            proof {
                assert(out@ + filter_tasks_spec(input@, *list, now as int) =~= out@);
            }
            return out;
        }
        let ghost before = input@;
        let t = input.remove(0);
        proof {
            assert(input@ =~= before.drop_first());
        }
        if matches_selector(list, &t, now) {
            proof {
                assert((out@ + seq![t]) + filter_tasks_spec(input@, *list, now as int) =~= out@
                    + filter_tasks_spec(before, *list, now as int));
            }
            out.push(t);
        } else {
            proof {
                assert(out@ + filter_tasks_spec(input@, *list, now as int) =~= out@
                    + filter_tasks_spec(before, *list, now as int));
            }
        }
    }
}

/// A task stands in the filtered list exactly when it stands in the input
/// and satisfies the selector; filtering adds nothing of its own.
pub proof fn lemma_filter_membership(tasks: Seq<Task>, list: SidebarList, now: int, t: Task)
    ensures
        filter_tasks_spec(tasks, list, now).contains(t) <==> tasks.contains(t) && selector_pred(
            list,
            t,
            now,
        ),
    decreases tasks.len(),
{
    if tasks.len() == 0 {
    } else {
        let rest = tasks.drop_first();
        lemma_filter_membership(rest, list, now, t);
        let f = filter_tasks_spec(tasks, list, now);
        let ftail = filter_tasks_spec(rest, list, now);
        assert(rest.contains(t) ==> tasks.contains(t)) by {
            if rest.contains(t) {
                let j = choose|j: int| 0 <= j < rest.len() && rest[j] == t;
                assert(tasks[j + 1] == t);
            }
        }
        if selector_pred(list, tasks[0], now) {
            let head = seq![tasks[0]];
            assert(f == head + ftail);
            if tasks.contains(t) && selector_pred(list, t, now) {
                if tasks[0] == t {
                    assert(f[0] == t);
                } else {
                    let j = choose|j: int| 0 <= j < tasks.len() && tasks[j] == t;
                    assert(rest[j - 1] == t);
                    let k = choose|k: int| 0 <= k < ftail.len() && ftail[k] == t;
                    assert(f[k + 1] == t);
                }
            }
            if f.contains(t) {
                let k = choose|k: int| 0 <= k < f.len() && f[k] == t;
                if k == 0 {
                    assert(tasks[0] == t);
                } else {
                    assert(ftail[k - 1] == t);
                }
            }
        } else {
            assert(f =~= ftail);
            if tasks.contains(t) && selector_pred(list, t, now) {
                let j = choose|j: int| 0 <= j < tasks.len() && tasks[j] == t;
                assert(j != 0);
                assert(rest[j - 1] == t);
            }
        }
    }
}

/// The All selector is the identity: it keeps every task.
pub proof fn lemma_select_all_identity(tasks: Seq<Task>, now: int)
    ensures
        filter_tasks_spec(tasks, SidebarList::All, now) == tasks,
    decreases tasks.len(),
{
    if tasks.len() == 0 {
        assert(filter_tasks_spec(tasks, SidebarList::All, now) =~= tasks);
    } else {
        lemma_select_all_identity(tasks.drop_first(), now);
        assert(filter_tasks_spec(tasks, SidebarList::All, now) =~= seq![tasks[0]]
            + tasks.drop_first());
        assert(seq![tasks[0]] + tasks.drop_first() =~= tasks);
    }
}

/// Stepping an instant back by one day moves it to the previous calendar
/// day.
pub proof fn lemma_previous_day(ts: int)
    ensures
        day_number_spec(ts - 86400) == day_number_spec(ts) - 1,
{
    vstd::arithmetic::div_mod::lemma_fundamental_div_mod(ts, 86400);
    vstd::arithmetic::div_mod::lemma_mod_bound(ts, 86400);
    let q = ts / 86400;
    let r = ts % 86400;
    assert(ts - 86400 == (q - 1) * 86400 + r) by (nonlinear_arith)
        requires
            ts == 86400 * q + r,
    ;
    vstd::arithmetic::div_mod::lemma_fundamental_div_mod_converse(ts - 86400, 86400, q - 1, r);
}

/// The Today filter at its edges: a task whose due date falls on the
/// current calendar day is a member even with its `today` flag unset, and a
/// task due exactly one day earlier, with the flag unset, is not.
pub proof fn lemma_today_boundaries(t: Task, now: i64)
    ensures
        (match t.due_date {
            Some(d) => day_number_spec(d as int) == day_number_spec(now as int),
            None => false,
        }) ==> is_today_spec(t, now as int),
        (!t.today && t.due_date == Some((now as int - 86400) as i64) && i64::MIN <= now as int
            - 86400) ==> !is_today_spec(t, now as int),
{
    if !t.today && t.due_date == Some((now as int - 86400) as i64) && i64::MIN <= now as int
        - 86400 {
        lemma_previous_day(now as int);
    }
}

/// A task with no due date and its `today` flag unset is never a member of
/// the Today list, whatever the current instant.
pub proof fn lemma_today_needs_flag_or_due(t: Task, now: int)
    requires
        t.due_date is None,
        !t.today,
    ensures
        !is_today_spec(t, now),
{
}

/// The Next7Days window at its edges: an instant exactly seven days out is
/// inside, one second beyond is not, and anything before `now` is not.
pub proof fn lemma_next7_boundaries(now: int)
    ensures
        within_next_7_days_spec(now + 604800, now),
        !within_next_7_days_spec(now + 604801, now),
        forall|due: int| due < now ==> !within_next_7_days_spec(due, now),
{
}

/// Relies on chrono's `Utc::now` for the current instant, reported as its
/// Unix timestamp in whole seconds.
#[verifier::external_body]
fn now_timestamp() -> i64 {
    chrono::Utc::now().timestamp()
}

/// Whether `due` lies in the inclusive seven-day window starting at the
/// instant the clock reports: whatever instant that is, the result is the
/// window test at it.
pub fn is_within_next_7_days(due: i64) -> (r: bool)
    ensures
        exists|now: int| r == within_next_7_days_spec(due as int, now),
{
    let now = now_timestamp();
    let r = within_next_7_days(due, now);
    proof {
        assert(r == within_next_7_days_spec(due as int, now as int));
    }
    r
}

} // verus!
