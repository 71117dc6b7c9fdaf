//! The in-memory history of published alerts: it keeps the most recent
//! `ALERT_HISTORY_CAPACITY` alerts and hands them out newest first.
use vstd::prelude::*;

verus! {

/// How many published alerts the history keeps.
pub const ALERT_HISTORY_CAPACITY: usize = 1000;

/// The last `n` elements of `s` (all of `s` when it is shorter).
pub open spec fn keep_last<T>(s: Seq<T>, n: nat) -> Seq<T> {
    if s.len() > n {
        s.skip(s.len() - n)
    } else {
        s
    }
}

/// The `limit` newest elements of `s`, newest first.
pub open spec fn newest_first<T>(s: Seq<T>, limit: nat) -> Seq<T> {
    let r = s.reverse();
    if r.len() > limit {
        r.take(limit as int)
    } else {
        r
    }
}

/// Alerts in publication order, oldest first, never more than
/// `ALERT_HISTORY_CAPACITY` of them.
pub struct AlertHistory<T> {
    items: Vec<T>,
}

impl<T> View for AlertHistory<T> {
    type V = Seq<T>;

    closed spec fn view(&self) -> Seq<T> {
        self.items@
    }
}

impl<T> AlertHistory<T> {
    /// The history holds no more alerts than its capacity.
    pub open spec fn wf(&self) -> bool {
        self@.len() <= ALERT_HISTORY_CAPACITY
    }

    /// An empty history.
    pub fn new() -> (h: Self)
        ensures
            h.wf(),
            h@ == Seq::<T>::empty(),
    {
        AlertHistory { items: Vec::new() }
    }

    /// Number of alerts held.
    pub fn len(&self) -> (n: usize)
        ensures
            n == self@.len(),
    {
        self.items.len()
    }

    /// Records a published alert; when the history is full the oldest alert
    /// is dropped.
    pub fn push(&mut self, alert: T)
        requires
            old(self).wf(),
        ensures
            final(self).wf(),
            final(self)@ == keep_last(old(self)@.push(alert), ALERT_HISTORY_CAPACITY as nat),
    {
        let ghost pushed = self@.push(alert);
        self.items.push(alert);
        if self.items.len() > ALERT_HISTORY_CAPACITY {
            self.items.remove(0);
            assert(self@ =~= pushed.skip(pushed.len() - ALERT_HISTORY_CAPACITY));
        }
    }

    /// The `limit` most recent alerts, newest first.
    pub fn recent(&self, limit: usize) -> (r: Vec<&T>)
        ensures
            r@.map_values(|a: &T| *a) == newest_first(self@, limit as nat),
            r@.len() <= limit,
    {
        let n: usize = self.items.len();
        let k: usize = if limit < n {
            limit
        } else {
            n
        };
        let mut r: Vec<&T> = Vec::new();
        let mut i: usize = 0;
        while i < k
            invariant
                n == self@.len(),
                k <= n,
                k <= limit,
                i <= k,
                r@.len() == i,
                forall|j: int| 0 <= j < i ==> *r@[j] == self@[n - 1 - j],
            decreases k - i,
        {
            r.push(&self.items[n - 1 - i]);
            i = i + 1;
        }
        assert(r@.map_values(|a: &T| *a) =~= newest_first(self@, limit as nat));
        r
    }
}

/// After an alert is published, it is the first one that the history hands out.
pub proof fn law_published_alert_is_newest<T>(before: Seq<T>, alert: T, limit: nat)
    requires
        before.len() <= ALERT_HISTORY_CAPACITY,
        limit >= 1,
    ensures
        newest_first(keep_last(before.push(alert), ALERT_HISTORY_CAPACITY as nat), limit)[0]
            == alert,
        newest_first(keep_last(before.push(alert), ALERT_HISTORY_CAPACITY as nat), limit).len()
            >= 1,
{
    let after = keep_last(before.push(alert), ALERT_HISTORY_CAPACITY as nat);
    assert(after.len() >= 1);
    assert(after[after.len() - 1] == alert);
    assert(after.reverse()[0] == alert);
}

/// The history never holds more than its capacity, and what it holds is the
/// tail of everything published, in order.
pub proof fn law_history_is_bounded_tail<T>(before: Seq<T>, alert: T)
    requires
        before.len() <= ALERT_HISTORY_CAPACITY,
    ensures
        keep_last(before.push(alert), ALERT_HISTORY_CAPACITY as nat).len()
            <= ALERT_HISTORY_CAPACITY,
        keep_last(before.push(alert), ALERT_HISTORY_CAPACITY as nat).last() == alert,
        before.len() < ALERT_HISTORY_CAPACITY ==> keep_last(
            before.push(alert),
            ALERT_HISTORY_CAPACITY as nat,
        ) == before.push(alert),
        before.len() == ALERT_HISTORY_CAPACITY ==> keep_last(
            before.push(alert),
            ALERT_HISTORY_CAPACITY as nat,
        ) == before.skip(1).push(alert),
{
    let pushed = before.push(alert);
    if before.len() == ALERT_HISTORY_CAPACITY {
        assert(pushed.skip(1) =~= before.skip(1).push(alert));
    }
}

} // verus!
