//! Named interval timers.
//!
//! The host reads its clock and passes timestamps in; the bookkeeping —
//! which timer started when, and how long it ran — is plain logic here.
//! Timestamps are milliseconds on whatever monotone clock the host uses.

use vstd::prelude::*;
use crate::strutil::str_eq;

verus! {

/// Running timers, keyed by name.
pub struct TimerUtil {
    pub timers: Vec<(String, u64)>,
}

/// Whether a timer with this name is running.
pub open spec fn has_timer(ts: Seq<(String, u64)>, name: Seq<char>) -> bool {
    exists|i: int| 0 <= i < ts.len() && (#[trigger] ts[i]).0@ == name
}

/// The start timestamp of the named timer.
pub open spec fn timer_start(ts: Seq<(String, u64)>, name: Seq<char>) -> u64 {
    ts[choose|i: int| 0 <= i < ts.len() && (#[trigger] ts[i]).0@ == name].1
}

/// Timers other than `name` are untouched between two states.
pub open spec fn preserves_other_timers(
    pre: Seq<(String, u64)>,
    post: Seq<(String, u64)>,
    name: Seq<char>,
) -> bool {
    forall|k: Seq<char>|
        k != name ==> (#[trigger] has_timer(post, k) == has_timer(pre, k) && (has_timer(pre, k)
            ==> timer_start(post, k) == timer_start(pre, k)))
}

/// Timer names are pairwise distinct.
pub open spec fn timer_keys_unique(ts: Seq<(String, u64)>) -> bool {
    forall|i: int, j: int| 0 <= i < j < ts.len() ==> (#[trigger] ts[i]).0@ != (#[trigger] ts[j]).0@
}

impl TimerUtil {
    pub open spec fn wf(self) -> bool {
        timer_keys_unique(self.timers@)
    }

    pub fn new() -> (r: TimerUtil)
        ensures
            r.timers@.len() == 0,
            r.wf(),
    {
        TimerUtil { timers: Vec::new() }
    }

    fn index_of(&self, name: &str) -> (r: Option<usize>)
        ensures
            match r {
                Some(i) => i < self.timers@.len() && self.timers@[i as int].0@ == name@,
                None => !has_timer(self.timers@, name@),
            },
    {
        let n = self.timers.len();
        let mut i: usize = 0;
        while i < n
            invariant
                n == self.timers.len(),
                i <= n,
                forall|j: int| 0 <= j < i ==> (#[trigger] self.timers@[j]).0@ != name@,
            decreases n - i,
        {
            if str_eq(self.timers[i].0.as_str(), name) {
                return Some(i);
            }
            i += 1;
        }
        None
    }

    /// Starts (or restarts) the named timer at the given timestamp.
    pub fn start(&mut self, name: &str, now_millis: u64)
        requires
            old(self).wf(),
        ensures
            final(self).wf(),
            has_timer(final(self).timers@, name@),
            timer_start(final(self).timers@, name@) == now_millis,
            preserves_other_timers(old(self).timers@, final(self).timers@, name@),
    {
        match self.index_of(name) {
            Some(i) => {
                let nm = self.timers[i].0.clone();
                self.timers.set(i, (nm, now_millis));
                proof {
                    assert(forall|a: int|
                        0 <= a < self.timers@.len() ==> (#[trigger] self.timers@[a]).0@ == old(
                            self,
                        ).timers@[a].0@);
                    assert(timer_keys_unique(self.timers@));
                    lemma_unique_start(self.timers@, name@, i as int);
                    assert forall|k: Seq<char>| k != name@ implies (#[trigger] has_timer(
                        self.timers@,
                        k,
                    ) == has_timer(old(self).timers@, k) && (has_timer(old(self).timers@, k)
                        ==> timer_start(self.timers@, k) == timer_start(
                        old(self).timers@,
                        k,
                    ))) by {
                        assert(forall|j: int|
                            0 <= j < self.timers@.len() && j != i ==> #[trigger] self.timers@[j]
                                == old(self).timers@[j]);
                        if has_timer(old(self).timers@, k) {
                            let w = choose|j: int|
                                0 <= j < old(self).timers@.len() && (#[trigger] old(
                                    self,
                                ).timers@[j]).0@ == k;
                            assert(self.timers@[w].0@ == k);
                            lemma_unique_start(self.timers@, k, w);
                            lemma_unique_start(old(self).timers@, k, w);
                        }
                        if has_timer(self.timers@, k) {
                            let w = choose|j: int|
                                0 <= j < self.timers@.len() && (#[trigger] self.timers@[j]).0@
                                    == k;
                            assert(old(self).timers@[w].0@ == k);
                        }
                    }
                    assert(preserves_other_timers(old(self).timers@, self.timers@, name@));
                }
            },
            None => {
                self.timers.push((name.to_owned(), now_millis));
                proof {
                    let post = self.timers@;
                    let pre = old(self).timers@;
                    assert(post.drop_last() =~= pre);
                    assert(forall|a: int| 0 <= a < pre.len() ==> post[a] == #[trigger] pre[a]);
                    assert(timer_keys_unique(post)) by {
                        assert(forall|a: int, b: int|
                            0 <= a < b < post.len() && b < post.len() - 1 ==> (#[trigger] post[a]).0@
                                != (#[trigger] post[b]).0@);
                        assert(forall|a: int|
                            0 <= a < post.len() - 1 ==> (#[trigger] post[a]).0@ != name@);
                    }
                    lemma_unique_start(post, name@, post.len() - 1);
                    assert forall|k: Seq<char>| k != name@ implies (#[trigger] has_timer(post, k)
                        == has_timer(pre, k) && (has_timer(pre, k) ==> timer_start(post, k)
                        == timer_start(pre, k))) by {
                        if has_timer(pre, k) {
                            let w = choose|j: int|
                                0 <= j < pre.len() && (#[trigger] pre[j]).0@ == k;
                            assert(post[w].0@ == k);
                            lemma_unique_start(post, k, w);
                            lemma_unique_start(pre, k, w);
                        }
                        if has_timer(post, k) {
                            let w = choose|j: int|
                                0 <= j < post.len() && (#[trigger] post[j]).0@ == k;
                            assert(w < pre.len() && pre[w].0@ == k);
                        }
                    }
                    assert(preserves_other_timers(old(self).timers@, self.timers@, name@));
                }
            },
        }
    }

    /// Stops the named timer at the given timestamp and returns how long it
    /// ran.
    pub fn stop(&mut self, name: &str, now_millis: u64) -> (r: u64)
        requires
            old(self).wf(),
            has_timer(old(self).timers@, name@),
            timer_start(old(self).timers@, name@) <= now_millis,
        ensures
            final(self).wf(),
            r == now_millis - timer_start(old(self).timers@, name@),
            !has_timer(final(self).timers@, name@),
    {
        let i = match self.index_of(name) {
            Some(i) => i,
            None => {
                proof {
                    assert(false);
                }
                0
            },
        };
        let started = self.timers[i].1;
        proof {
            lemma_unique_start(self.timers@, name@, i as int);
        }
        self.timers.remove(i);
        proof {
            let pre = old(self).timers@;
            let post = self.timers@;
            assert forall|j: int| 0 <= j < post.len() implies (#[trigger] post[j]).0@ != name@ by {
                if j < i {
                    assert(post[j] == pre[j]);
                } else {
                    assert(post[j] == pre[j + 1]);
                }
            }
        }
        now_millis - started
    }
}

/// With unique keys, any index holding the name gives the recorded start.
proof fn lemma_unique_start(ts: Seq<(String, u64)>, name: Seq<char>, i: int)
    requires
        timer_keys_unique(ts),
        0 <= i < ts.len(),
        ts[i].0@ == name,
    ensures
        has_timer(ts, name),
        timer_start(ts, name) == ts[i].1,
{
    let w = choose|j: int| 0 <= j < ts.len() && (#[trigger] ts[j]).0@ == name;
    if w != i {
        assert(ts[w].0@ == ts[i].0@);
    }
}

} // verus!
