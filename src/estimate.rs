use vstd::prelude::*;
use crate::query::Mode;

verus! {

/// A queued item as the estimator sees it. Times are in milliseconds;
/// `duration == None` marks a livestream or another unbounded source, and
/// `elapsed` means something only for the item at index 0.
#[derive(Clone, Debug)]
pub struct QueuedItem {
    pub title: String,
    pub source_url: String,
    pub thumbnail_url: String,
    pub duration: Option<u64>,
    pub elapsed: u64,
}

/// Estimated wait, in milliseconds, before an item starts playing.
#[derive(PartialEq, Eq, Structural, Clone, Copy, Debug)]
pub enum TimeToPlay {
    Known(u64),
    /// The wait never ends (a livestream is ahead), or exceeds what `u64` holds.
    Infinite,
}

impl TimeToPlay {
    /// The wait in milliseconds, with `Infinite` as the largest value.
    pub fn as_millis(&self) -> (r: u64)
        ensures
            *self == TimeToPlay::Infinite ==> r == u64::MAX,
            forall|t: u64| *self == TimeToPlay::Known(t) ==> r == t,
    {
        match self {
            TimeToPlay::Known(t) => *t,
            TimeToPlay::Infinite => u64::MAX,
        }
    }
}

/// What is left of the item at the top: its duration less its elapsed time,
/// never below zero.
pub open spec fn remaining(top: QueuedItem, d: u64) -> int {
    if d >= top.elapsed {
        d - top.elapsed
    } else {
        0
    }
}

/// Sum of the known durations of `q[lo..hi]`.
pub open spec fn durations_sum(q: Seq<QueuedItem>, lo: int, hi: int) -> int
    decreases hi - lo,
{
    if hi <= lo {
        0
    } else {
        durations_sum(q, lo, hi - 1) + match q[hi - 1].duration {
            Some(d) => d as int,
            None => 0,
        }
    }
}

/// Some item strictly between index 0 and the last index has no duration.
pub open spec fn center_has_livestream(q: Seq<QueuedItem>) -> bool {
    exists|i: int| 1 <= i < q.len() - 1 && (#[trigger] q[i]).duration is None
}

/// The estimate for a queue snapshot: none for an empty queue; infinite when
/// the top item has no duration; in `Next` mode what is left of the top item;
/// otherwise infinite when a livestream sits in the center, else the center's
/// durations plus what is left of the top item (infinite past `u64::MAX`).
pub open spec fn time_until_play(q: Seq<QueuedItem>, mode: Mode) -> Option<TimeToPlay> {
    if q.len() == 0 {
        None
    } else {
        match q[0].duration {
            None => Some(TimeToPlay::Infinite),
            Some(d) => if mode == Mode::Next {
                Some(TimeToPlay::Known(remaining(q[0], d) as u64))
            } else if center_has_livestream(q) {
                Some(TimeToPlay::Infinite)
            } else {
                let total = durations_sum(q, 1, q.len() - 1) + remaining(q[0], d);
                if total <= u64::MAX {
                    Some(TimeToPlay::Known(total as u64))
                } else {
                    Some(TimeToPlay::Infinite)
                }
            },
        }
    }
}

proof fn lemma_durations_sum_grows(q: Seq<QueuedItem>, lo: int, mid: int, hi: int)
    requires
        lo <= mid <= hi,
    ensures
        durations_sum(q, lo, mid) <= durations_sum(q, lo, hi),
    decreases hi - mid,
{
    if mid < hi {
        lemma_durations_sum_grows(q, lo, mid, hi - 1);
    }
}

/// Estimates how long until the item concerned by `mode` starts playing.
pub fn calculate_time_until_play(queue: &Vec<QueuedItem>, mode: Mode) -> (r: Option<TimeToPlay>)
    ensures
        r == time_until_play(queue@, mode),
{
    let len = queue.len();
    if len == 0 {
        return None;
    }
    let top = &queue[0];
    let d = match top.duration {
        Some(d) => d,
        None => {
            return Some(TimeToPlay::Infinite);
        },
    };
    let rest: u64 = if d >= top.elapsed {
        d - top.elapsed
    } else {
        0
    };
    if mode == Mode::Next {
        return Some(TimeToPlay::Known(rest));
    }
    let ghost q = queue@;
    let mut acc: u64 = 0;
    let mut over = false;
    let mut i: usize = 1;
    while i + 1 < len
        invariant
            len == q.len(),
            q == queue@,
            len >= 1,
            q[0].duration == Some(d),
            rest == remaining(q[0], d),
            mode != Mode::Next,
            1 <= i <= len,
            i + 1 < len ==> i < len - 1,
            i >= len ==> len == 1,
            forall|j: int| 1 <= j < i ==> (#[trigger] q[j]).duration is Some,
            !over ==> acc == durations_sum(q, 1, i as int),
            over ==> durations_sum(q, 1, i as int) > u64::MAX,
        decreases len - i,
    {
        match queue[i].duration {
            None => {
                assert(q[i as int].duration is None);
                return Some(TimeToPlay::Infinite);
            },
            Some(x) => {
                if !over {
                    match acc.checked_add(x) {
                        Some(s) => {
                            acc = s;
                        },
                        None => {
                            over = true;
                        },
                    }
                }
            },
        }
        i += 1;
    }
    assert(!center_has_livestream(q));
    let ghost c = if len >= 2 { len - 1 } else { 1int };
    assert(i == c || (len == 1 && i == 1));
    if over {
        proof {
            lemma_durations_sum_grows(q, 1, i as int, len - 1);
        }
        return Some(TimeToPlay::Infinite);
    }
    match acc.checked_add(rest) {
        Some(t) => Some(TimeToPlay::Known(t)),
        None => Some(TimeToPlay::Infinite),
    }
}

} // verus!
