//! A fixed-window request counter, one window per client key.
//!
//! Every key has at most one window: a count of admitted requests and the
//! instant at which the window opened. A window whose age has reached the
//! configured duration is dropped the next time the limiter is consulted, so
//! a burst that straddles the end of a window is admitted on both sides of it.
//!
//! Instants are nanoseconds counted from the creation of the limiter.

use std::time::{Duration, Instant};
use vstd::prelude::*;

verus! {

/// A reading of the monotonic clock, carried through unread.
#[verifier::external_type_specification]
#[verifier::external_body]
pub struct ExInstant(std::time::Instant);

/// What the limiter remembers of one key.
pub ghost struct Window {
    /// Requests admitted since the window opened.
    pub count: nat,
    /// When the window opened.
    pub started: nat,
}

/// The windows of a limiter, by key.
pub type Windows = Map<Seq<char>, Window>;

/// Nanoseconds in a second.
pub const NANOS_PER_SECOND: u128 = 1_000_000_000;

/// Length of a window of `qps` seconds, in nanoseconds.
pub open spec fn window_nanos(qps: u64) -> nat {
    (qps * NANOS_PER_SECOND) as nat
}

/// Time gone by at `now` since `started`; a clock that ran backwards counts
/// as standing still.
pub open spec fn elapsed(started: nat, now: nat) -> nat {
    if now >= started {
        (now - started) as nat
    } else {
        0
    }
}

/// Whether a window is still open at `now`.
pub open spec fn live(w: Window, now: nat, qps: u64) -> bool {
    elapsed(w.started, now) < window_nanos(qps)
}

/// The windows that are still open at `now`.
pub open spec fn pruned(windows: Windows, now: nat, qps: u64) -> Windows {
    Map::new(
        |k: Seq<char>| windows.contains_key(k) && live(windows[k], now, qps),
        |k: Seq<char>| windows[k],
    )
}

/// Whether a request for `key` at `now` is admitted under `limit`.
pub open spec fn admits(windows: Windows, key: Seq<char>, limit: nat, now: nat, qps: u64) -> bool {
    let open = pruned(windows, now, qps);
    !(open.contains_key(key) && open[key].count >= limit)
}

/// The windows after a request for `key` at `now` under `limit`: expired
/// windows are gone; an admitted request is counted in the open window of
/// its key, or opens one; a rejected request changes nothing else.
pub open spec fn after_request(
    windows: Windows,
    key: Seq<char>,
    limit: nat,
    now: nat,
    qps: u64,
) -> Windows {
    let open = pruned(windows, now, qps);
    if open.contains_key(key) {
        if open[key].count >= limit {
            open
        } else {
            open.insert(key, Window { count: open[key].count + 1, started: open[key].started })
        }
    } else {
        open.insert(key, Window { count: 1, started: now })
    }
}

/// Whether `allowed` and `after` are the answer and the windows that a
/// request at `now` leaves behind.
pub open spec fn request_at(
    before: Windows,
    key: Seq<char>,
    limit: nat,
    now: nat,
    qps: u64,
    allowed: bool,
    after: Windows,
) -> bool {
    &&& allowed == admits(before, key, limit, now, qps)
    &&& after == after_request(before, key, limit, now, qps)
}

/// The windows after one request for `key` at each of `times`, in turn.
pub open spec fn replay(
    windows: Windows,
    key: Seq<char>,
    limit: nat,
    times: Seq<nat>,
    qps: u64,
) -> Windows
    decreases times.len(),
{
    if times.len() == 0 {
        windows
    } else {
        after_request(
            replay(windows, key, limit, times.drop_last(), qps),
            key,
            limit,
            times.last(),
            qps,
        )
    }
}

/// A key without an open window is admitted, whatever the limit, and
/// opens a window at the time of the request.
pub proof fn law_new_key_is_admitted(
    windows: Windows,
    key: Seq<char>,
    limit: nat,
    now: nat,
    qps: u64,
)
    requires
        !windows.contains_key(key) || !live(windows[key], now, qps),
    ensures
        admits(windows, key, limit, now, qps),
        after_request(windows, key, limit, now, qps)[key] == (Window { count: 1, started: now }),
{
}

/// A request over the limit is rejected and counts for nothing: what it
/// leaves behind are the windows that were open, unchanged.
pub proof fn law_full_window_rejects(
    windows: Windows,
    key: Seq<char>,
    limit: nat,
    now: nat,
    qps: u64,
)
    requires
        windows.contains_key(key),
        live(windows[key], now, qps),
        windows[key].count >= limit,
    ensures
        !admits(windows, key, limit, now, qps),
        after_request(windows, key, limit, now, qps) == pruned(windows, now, qps),
        after_request(windows, key, limit, now, qps)[key] == windows[key],
{
}

/// A request touches no window of another key that is still open.
pub proof fn law_other_keys_are_left_alone(
    windows: Windows,
    key: Seq<char>,
    other: Seq<char>,
    limit: nat,
    now: nat,
    qps: u64,
)
    requires
        other != key,
    ensures
        after_request(windows, key, limit, now, qps).contains_key(other) == (
        windows.contains_key(other) && live(windows[other], now, qps)),
        after_request(windows, key, limit, now, qps).contains_key(other) ==> after_request(
            windows,
            key,
            limit,
            now,
            qps,
        )[other] == windows[other],
{
}

/// Within one window a key is admitted `limit` times and no more: of the
/// requests of a key that had no open window, all made before the window
/// that the first of them opens is over, the first `limit` are admitted
/// and every later one is rejected.
pub proof fn law_window_takes_limit_requests(
    windows: Windows,
    key: Seq<char>,
    limit: nat,
    times: Seq<nat>,
    qps: u64,
    nth: int,
)
    requires
        limit >= 1,
        0 <= nth < times.len(),
        !windows.contains_key(key) || !live(windows[key], times[0], qps),
        forall|i: int|
            0 <= i < times.len() ==> elapsed(times[0], #[trigger] times[i]) < window_nanos(qps),
    ensures
        admits(replay(windows, key, limit, times.take(nth), qps), key, limit, times[nth], qps) == (
        nth < limit),
        replay(windows, key, limit, times.take(nth + 1), qps).contains_key(key),
        replay(windows, key, limit, times.take(nth + 1), qps)[key] == (Window {
            count: if nth + 1 <= limit {
                (nth + 1) as nat
            } else {
                limit
            },
            started: times[0],
        }),
    decreases nth,
{
    let upto = times.take(nth + 1);
    assert(upto.drop_last() =~= times.take(nth));
    assert(upto.last() == times[nth]);
    if nth == 0 {
        assert(times.take(0).len() == 0);
        assert(replay(windows, key, limit, times.take(0), qps) == windows);
    } else {
        law_window_takes_limit_requests(windows, key, limit, times, qps, nth - 1);
    }
}

/// Once its window is over a key starts afresh: the next request is
/// admitted, however many were counted, and opens a new window.
pub proof fn law_expired_window_reopens(
    windows: Windows,
    key: Seq<char>,
    limit: nat,
    now: nat,
    qps: u64,
)
    requires
        windows.contains_key(key),
        elapsed(windows[key].started, now) >= window_nanos(qps),
    ensures
        admits(windows, key, limit, now, qps),
        after_request(windows, key, limit, now, qps)[key] == (Window { count: 1, started: now }),
{
}

/// The window of one key, as the limiter keeps it.
#[derive(Debug)]
struct Slot {
    key: String,
    count: usize,
    started: u128,
}

impl Slot {
    spec fn window(self) -> Window {
        Window { count: self.count as nat, started: self.started as nat }
    }
}

/// Whether every key has at most one slot.
spec fn distinct_keys(slots: Seq<Slot>) -> bool {
    forall|i: int, j: int| 0 <= i < j < slots.len() ==> slots[i].key@ != slots[j].key@
}

/// Whether `k` has a slot.
spec fn holds_key(slots: Seq<Slot>, k: Seq<char>) -> bool {
    exists|i: int| 0 <= i < slots.len() && #[trigger] slots[i].key@ == k
}

/// Where the slot of `k` is, if it has one.
spec fn slot_of(slots: Seq<Slot>, k: Seq<char>) -> int {
    choose|i: int| 0 <= i < slots.len() && #[trigger] slots[i].key@ == k
}

/// The windows that the slots stand for.
spec fn slots_windows(slots: Seq<Slot>) -> Windows {
    Map::new(|k: Seq<char>| holds_key(slots, k), |k: Seq<char>| slots[slot_of(slots, k)].window())
}

/// Among slots with distinct keys, the window of a key is that of its slot.
proof fn lemma_slot_window(slots: Seq<Slot>, i: int)
    requires
        distinct_keys(slots),
        0 <= i < slots.len(),
    ensures
        slots_windows(slots).contains_key(slots[i].key@),
        slots_windows(slots)[slots[i].key@] == slots[i].window(),
{
    let k = slots[i].key@;
    assert(holds_key(slots, k));
    let j = slot_of(slots, k);
    assert(j == i);
}

/// `Instant::now` reads the monotonic clock. Nothing is claimed of the
/// reading.
pub assume_specification[ Instant::now ]() -> (now: Instant);

/// `Instant::elapsed` is the time gone by since the instant was taken, zero
/// if the clock ran backwards. Nothing is claimed of it.
pub assume_specification[ Instant::elapsed ](origin: &Instant) -> (gone: Duration);

/// `Duration::as_nanos` is the length of a duration in nanoseconds.
pub assume_specification[ Duration::as_nanos ](span: &Duration) -> (nanos: u128);

/// A request counter with one fixed window per key.
#[derive(Debug)]
pub struct RateLimiter {
    qps: u64,
    origin: Instant,
    counter: Vec<Slot>,
}

impl View for RateLimiter {
    type V = Windows;

    closed spec fn view(&self) -> Windows {
        slots_windows(self.counter@)
    }
}

impl RateLimiter {
    #[verifier::type_invariant]
    spec fn keys_are_distinct(self) -> bool {
        distinct_keys(self.counter@)
    }

    /// The length of a window, in seconds.
    pub closed spec fn window_seconds(self) -> u64 {
        self.qps
    }

    /// A limiter without windows, whose windows will last `qps` seconds.
    pub fn new(qps: u64) -> (limiter: RateLimiter)
        ensures
            limiter@ == Map::<Seq<char>, Window>::empty(),
            limiter.window_seconds() == qps,
    {
        let limiter = RateLimiter { qps, origin: Instant::now(), counter: Vec::new() };
        assert(limiter@ =~= Map::<Seq<char>, Window>::empty());
        limiter
    }

    /// Answers a request of `client_ip` made at the instant `now`, and
    /// records it if it is admitted.
    pub fn check_and_update_at(&mut self, client_ip: &str, count: usize, now: u128) -> (allowed:
        bool)
        ensures
            final(self).window_seconds() == old(self).window_seconds(),
            allowed == admits(
                old(self)@,
                client_ip@,
                count as nat,
                now as nat,
                old(self).window_seconds(),
            ),
            final(self)@ == after_request(
                old(self)@,
                client_ip@,
                count as nat,
                now as nat,
                old(self).window_seconds(),
            ),
    {
        proof {
            use_type_invariant(&*self);
        }
        let qps = self.qps;
        let span: u128 = (qps as u128) * NANOS_PER_SECOND;
        let mut slots: Vec<Slot> = Vec::new();
        core::mem::swap(&mut self.counter, &mut slots);
        let ghost before = slots@;
        let mut kept: Vec<Slot> = Vec::new();
        let mut hit: Option<usize> = None;
        proof {
            assert(slots_windows(kept@) =~= pruned(
                slots_windows(before.skip(before.len() as int)),
                now as nat,
                qps,
            ));
        }
        while slots.len() > 0
            invariant
                distinct_keys(before),
                distinct_keys(kept@),
                slots@ == before.take(slots.len() as int),
                slots.len() <= before.len(),
                span == window_nanos(qps),
                slots_windows(kept@) == pruned(
                    slots_windows(before.skip(slots.len() as int)),
                    now as nat,
                    qps,
                ),
                hit matches Some(h) ==> h < kept.len() && kept[h as int].key@ == client_ip@,
                hit is None ==> !holds_key(kept@, client_ip@),
            decreases slots.len(),
        {
            let ghost at = slots.len() - 1;
            let ghost earlier = kept@;
            let slot = slots.pop().unwrap();
            proof {
                assert(slot == before[at]);
                assert(slots@ =~= before.take(at));
                lemma_windows_skip(before, at);
            }
            let gone: u128 = if now >= slot.started {
                now - slot.started
            } else {
                0
            };
            if gone < span {
                if slot.key.as_str().eq(client_ip) {
                    hit = Some(kept.len());
                }
                kept.push(slot);
                proof {
                    assert(!slots_windows(earlier).contains_key(before[at].key@));
                    assert(kept@ =~= earlier.insert(earlier.len() as int, before[at]));
                    lemma_windows_insert(earlier, earlier.len() as int, before[at]);
                    assert(slots_windows(kept@) =~= pruned(
                        slots_windows(before.skip(at)),
                        now as nat,
                        qps,
                    ));
                    if hit is None {
                        assert forall|j: int| 0 <= j < kept.len() implies kept[j].key@
                            != client_ip@ by {
                            if j < earlier.len() {
                                assert(kept[j] == earlier[j]);
                            }
                        }
                    }
                }
            } else {
                proof {
                    assert(slots_windows(kept@) =~= pruned(
                        slots_windows(before.skip(at)),
                        now as nat,
                        qps,
                    ));
                }
            }
        }
        let ghost open = kept@;
        proof {
            assert(before.skip(0) =~= before);
        }
        let allowed = match hit {
            Some(h) => {
                proof {
                    lemma_slot_window(open, h as int);
                }
                if kept[h].count >= count {
                    false
                } else {
                    let mut slot = kept.remove(h);
                    slot.count = slot.count + 1;
                    let ghost rest = kept@;
                    let ghost counted = slot;
                    kept.push(slot);
                    proof {
                        lemma_windows_remove(open, h as int);
                        assert(kept@ =~= rest.insert(rest.len() as int, counted));
                        lemma_windows_insert(rest, rest.len() as int, counted);
                        assert(slots_windows(kept@) =~= slots_windows(open).insert(
                            client_ip@,
                            counted.window(),
                        ));
                    }
                    true
                }
            },
            None => {
                let slot = Slot { key: client_ip.to_owned(), count: 1, started: now };
                let ghost opened = slot;
                kept.push(slot);
                proof {
                    assert(kept@ =~= open.insert(open.len() as int, opened));
                    lemma_windows_insert(open, open.len() as int, opened);
                }
                true
            },
        };
        self.counter = kept;
        allowed
    }

    /// Answers a request of `client_ip` made now: reads the clock, then does
    /// what `check_and_update_at` does for that reading.
    pub fn check_and_update(&mut self, client_ip: &str, count: usize) -> (allowed: bool)
        ensures
            final(self).window_seconds() == old(self).window_seconds(),
            exists|now: nat| #[trigger]
                request_at(
                    old(self)@,
                    client_ip@,
                    count as nat,
                    now,
                    old(self).window_seconds(),
                    allowed,
                    final(self)@,
                ),
    {
        let now = self.origin.elapsed().as_nanos();
        let allowed = self.check_and_update_at(client_ip, count, now);
        assert(request_at(
            old(self)@,
            client_ip@,
            count as nat,
            now as nat,
            old(self).window_seconds(),
            allowed,
            self@,
        ));
        allowed
    }
}

/// Putting a slot with a new key anywhere among the slots adds its window.
proof fn lemma_windows_insert(slots: Seq<Slot>, at: int, slot: Slot)
    requires
        distinct_keys(slots),
        0 <= at <= slots.len(),
        !holds_key(slots, slot.key@),
    ensures
        distinct_keys(slots.insert(at, slot)),
        slots_windows(slots.insert(at, slot)) == slots_windows(slots).insert(
            slot.key@,
            slot.window(),
        ),
{
    let next = slots.insert(at, slot);
    assert forall|a: int| 0 <= a < next.len() && a != at implies #[trigger] next[a] == slots[if a
        < at {
        a
    } else {
        a - 1
    }] by {}
    assert forall|a: int, b: int| 0 <= a < b < next.len() implies next[a].key@ != next[b].key@ by {
        let ia = if a < at {
            a
        } else {
            a - 1
        };
        let ib = if b < at {
            b
        } else {
            b - 1
        };
        if a == at {
            assert(next[b] == slots[ib]);
        } else if b == at {
            assert(next[a] == slots[ia]);
        } else {
            assert(next[a] == slots[ia] && next[b] == slots[ib]);
        }
    }
    let left = slots_windows(next);
    let right = slots_windows(slots).insert(slot.key@, slot.window());
    assert forall|k: Seq<char>| left.contains_key(k) implies right.contains_key(k) && left[k]
        == right[k] by {
        let a = slot_of(next, k);
        lemma_slot_window(next, a);
        if a != at {
            let ia = if a < at {
                a
            } else {
                a - 1
            };
            assert(next[a] == slots[ia]);
            lemma_slot_window(slots, ia);
        }
    }
    assert forall|k: Seq<char>| right.contains_key(k) implies left.contains_key(k) by {
        if k == slot.key@ {
            lemma_slot_window(next, at);
        } else {
            let i = slot_of(slots, k);
            let a = if i < at {
                i
            } else {
                i + 1
            };
            assert(next[a] == slots[i]);
            lemma_slot_window(next, a);
        }
    }
    assert(left =~= right);
}

/// Taking a slot away takes its window away, and its key with it.
proof fn lemma_windows_remove(slots: Seq<Slot>, at: int)
    requires
        distinct_keys(slots),
        0 <= at < slots.len(),
    ensures
        distinct_keys(slots.remove(at)),
        !holds_key(slots.remove(at), slots[at].key@),
        slots_windows(slots.remove(at)) == slots_windows(slots).remove(slots[at].key@),
{
    let rest = slots.remove(at);
    assert forall|a: int| 0 <= a < rest.len() implies #[trigger] rest[a] == slots[if a < at {
        a
    } else {
        a + 1
    }] by {}
    assert forall|a: int, b: int| 0 <= a < b < rest.len() implies rest[a].key@ != rest[b].key@ by {
        let ia = if a < at {
            a
        } else {
            a + 1
        };
        let ib = if b < at {
            b
        } else {
            b + 1
        };
        assert(rest[a] == slots[ia] && rest[b] == slots[ib]);
    }
    assert forall|a: int| 0 <= a < rest.len() implies #[trigger] rest[a].key@
        != slots[at].key@ by {
        let ia = if a < at {
            a
        } else {
            a + 1
        };
        assert(rest[a] == slots[ia]);
    }
    assert(slots =~= rest.insert(at, slots[at]));
    lemma_windows_insert(rest, at, slots[at]);
    assert(slots_windows(rest) =~= slots_windows(slots).remove(slots[at].key@));
}

/// The windows of the slots from `at` on are those of the slots after `at`
/// and the window of the slot at `at`, whose key none of the others has.
proof fn lemma_windows_skip(slots: Seq<Slot>, at: int)
    requires
        distinct_keys(slots),
        0 <= at < slots.len(),
    ensures
        !slots_windows(slots.skip(at + 1)).contains_key(slots[at].key@),
        slots_windows(slots.skip(at)) == slots_windows(slots.skip(at + 1)).insert(
            slots[at].key@,
            slots[at].window(),
        ),
{
    let tail = slots.skip(at + 1);
    assert forall|a: int, b: int| 0 <= a < b < tail.len() implies tail[a].key@ != tail[b].key@ by {
        assert(tail[a] == slots[a + at + 1] && tail[b] == slots[b + at + 1]);
    }
    assert forall|a: int| 0 <= a < tail.len() implies #[trigger] tail[a].key@
        != slots[at].key@ by {
        assert(tail[a] == slots[a + at + 1]);
    }
    assert(slots.skip(at) =~= tail.insert(0, slots[at]));
    lemma_windows_insert(tail, 0, slots[at]);
}

} // verus!
