//! The timer scheduler: periodic callbacks that a plugin asks the host to drive.
//!
//! Time is a count of nanoseconds on a clock of the caller's choice. The
//! scheduler never reads a clock itself: every tick is handed the current
//! reading, so that its behaviour is a function of its arguments.

use crate::plugin::PluginTimers;
use clack_host::plugin::PluginMainThreadHandle;
use std::collections::HashMap;
use vstd::prelude::*;
use vstd::std_specs::hash::spec_keys_iter;
use vstd::std_specs::iter::IteratorSpec;

verus! {

broadcast use vstd::std_specs::hash::group_hash_axioms;

/// The shortest interval a timer can have: 30 ms. Shorter requests are raised to it.
pub const MIN_INTERVAL_NANOS: u64 = 30_000_000;

/// What `next_wait` answers while no timer is registered: 30 ms.
pub const DEFAULT_WAIT_NANOS: u64 = 30_000_000;

/// The identifier of a registered timer. Identifiers start at 1 and grow with
/// each registration; none is handed out twice by the same scheduler.
#[derive(Clone, Copy, Debug, PartialEq, Eq, Structural)]
pub struct TimerId(pub u32);

/// What the scheduler knows of one timer: its effective interval and when it
/// last fired, both in nanoseconds. `last_fire` is `None` until the first fire.
pub struct TimerEntry {
    pub interval: u64,
    pub last_fire: Option<u64>,
}

/// Whether a timer in state `entry` fires when ticked at `now`.
///
/// A timer that never fired is due at once. Otherwise it is due when strictly
/// more than its interval has passed since the last fire. A clock reading
/// before the last fire never makes a timer due.
pub open spec fn due(entry: TimerEntry, now: u64) -> bool {
    match entry.last_fire {
        None => true,
        Some(last) => now >= last && now - last > entry.interval,
    }
}

/// The state of a timer after a tick at `now`: stamped with `now` if it fired,
/// unchanged if it did not.
pub open spec fn ticked(entry: TimerEntry, now: u64) -> TimerEntry {
    if due(entry, now) {
        TimerEntry { interval: entry.interval, last_fire: Some(now) }
    } else {
        entry
    }
}

/// The interval a timer gets when `requested` is asked for.
pub open spec fn effective_interval(requested: u64) -> u64 {
    if requested < MIN_INTERVAL_NANOS {
        MIN_INTERVAL_NANOS
    } else {
        requested
    }
}

/// `smallest` is the smallest interval among `entries`: `None` exactly when
/// there is no entry, otherwise the interval of some entry that no other
/// entry undercuts.
pub open spec fn is_min_interval(entries: Map<u32, TimerEntry>, smallest: Option<u64>) -> bool {
    match smallest {
        None => forall|id: u32| !entries.contains_key(id),
        Some(v) => {
            &&& exists|id: u32| entries.contains_key(id) && #[trigger] entries[id].interval == v
            &&& forall|id: u32| entries.contains_key(id) ==> v <= #[trigger] entries[id].interval
        },
    }
}

/// Every identifier in `entries` lies in `1..=latest_id`, and every interval
/// is at least the floor.
pub open spec fn entries_valid(entries: Map<u32, TimerEntry>, latest_id: u32) -> bool {
    forall|id: u32| #[trigger]
        entries.contains_key(id) ==> 1 <= id <= latest_id && entries[id].interval
            >= MIN_INTERVAL_NANOS
}

/// The entries after every timer has been ticked at `now`.
pub open spec fn ticked_all(entries: Map<u32, TimerEntry>, now: u64) -> Map<u32, TimerEntry> {
    Map::new(|id: u32| entries.contains_key(id), |id: u32| ticked(entries[id], now))
}

/// How long the worker may wait before the next tick, given the smallest interval.
pub open spec fn wait_for(smallest: Option<u64>) -> u64 {
    match smallest {
        Some(v) => v,
        None => DEFAULT_WAIT_NANOS,
    }
}

/// A requested interval below the floor becomes the floor; any other is kept.
/// No effective interval is below the floor.
pub proof fn lemma_interval_is_floored(requested: u64)
    ensures
        requested < MIN_INTERVAL_NANOS ==> effective_interval(requested) == MIN_INTERVAL_NANOS,
        requested >= MIN_INTERVAL_NANOS ==> effective_interval(requested) == requested,
        effective_interval(requested) >= MIN_INTERVAL_NANOS,
{
}

/// A set of entries has one smallest interval: two answers that both satisfy
/// `is_min_interval` are the same.
pub proof fn lemma_min_interval_is_unique(
    entries: Map<u32, TimerEntry>,
    first: Option<u64>,
    second: Option<u64>,
)
    requires
        is_min_interval(entries, first),
        is_min_interval(entries, second),
    ensures
        first == second,
{
    match (first, second) {
        (Some(a), Some(b)) => {
            let i = choose|i: u32| entries.contains_key(i) && #[trigger] entries[i].interval == a;
            let j = choose|j: u32| entries.contains_key(j) && #[trigger] entries[j].interval == b;
            assert(a <= entries[j].interval);
            assert(b <= entries[i].interval);
        },
        (Some(a), None) => {
            let i = choose|i: u32| entries.contains_key(i) && #[trigger] entries[i].interval == a;
            assert(entries.contains_key(i));
        },
        (None, Some(b)) => {
            let j = choose|j: u32| entries.contains_key(j) && #[trigger] entries[j].interval == b;
            assert(entries.contains_key(j));
        },
        (None, None) => {},
    }
}

/// Registering a timer and unregistering it again leaves the entries as they
/// were, so the smallest interval is what it was before the registration: the
/// removed timer's interval no longer counts.
pub proof fn lemma_unregister_undoes_register(
    entries: Map<u32, TimerEntry>,
    id: u32,
    entry: TimerEntry,
    smallest: Option<u64>,
)
    requires
        !entries.contains_key(id),
    ensures
        entries.insert(id, entry).contains_key(id),
        entries.insert(id, entry).remove(id) == entries,
        is_min_interval(entries.insert(id, entry).remove(id), smallest) == is_min_interval(
            entries,
            smallest,
        ),
{
    assert(entries.insert(id, entry).remove(id) =~= entries);
}

/// Unregistering an identifier that is not registered changes nothing.
pub proof fn lemma_unregister_unknown_is_noop(entries: Map<u32, TimerEntry>, id: u32)
    requires
        !entries.contains_key(id),
    ensures
        entries.remove(id) == entries,
{
    assert(entries.remove(id) =~= entries);
}

/// A timer that fires at `first` does not fire again at `second` unless more
/// than its interval lies between the two: two ticks within the interval fire
/// it at most once. This holds too when `second` is before `first`.
pub proof fn lemma_fires_at_most_once_within_interval(entry: TimerEntry, first: u64, second: u64)
    requires
        second - first <= entry.interval,
    ensures
        due(entry, first) ==> !due(ticked(entry, first), second),
        !(due(entry, first) && due(ticked(entry, first), second)),
{
}

/// A timer that fired at `first` fires again at any tick that comes more than
/// its interval later.
pub proof fn lemma_fires_again_after_interval(entry: TimerEntry, first: u64, later: u64)
    requires
        due(entry, first),
        later - first > entry.interval,
    ensures
        due(ticked(entry, first), later),
        ticked(ticked(entry, first), later).last_fire == Some(later),
{
}

/// Ticking all timers at `first` and again at `second` fires the timer `id`
/// at most once if no more than its interval lies between the two ticks, and
/// fires it at the second tick if it fired at the first and more than its
/// interval lies between them.
pub proof fn lemma_two_ticks(entries: Map<u32, TimerEntry>, id: u32, first: u64, second: u64)
    requires
        entries.contains_key(id),
    ensures
        ticked_all(entries, first).contains_key(id),
        second - first <= entries[id].interval ==> !(due(entries[id], first) && due(
            ticked_all(entries, first)[id],
            second,
        )),
        second - first > entries[id].interval && due(entries[id], first) ==> due(
            ticked_all(entries, first)[id],
            second,
        ),
{
}

/// Ticking changes no interval and no identifier: the same timers are
/// registered after a tick, with the same intervals.
pub proof fn lemma_tick_keeps_timers(entries: Map<u32, TimerEntry>, now: u64)
    ensures
        ticked_all(entries, now).dom() == entries.dom(),
        forall|id: u32|
            entries.contains_key(id) ==> (#[trigger] ticked_all(entries, now)[id]).interval
                == entries[id].interval,
        forall|smallest: Option<u64>|
            is_min_interval(entries, smallest) ==> #[trigger] is_min_interval(
                ticked_all(entries, now),
                smallest,
            ),
{
    let after = ticked_all(entries, now);
    assert(after.dom() =~= entries.dom());
    assert forall|smallest: Option<u64>| is_min_interval(entries, smallest) implies #[trigger]
        is_min_interval(after, smallest) by {
        if let Some(v) = smallest {
            let w = choose|w: u32| entries.contains_key(w) && #[trigger] entries[w].interval == v;
            assert(after.contains_key(w) && after[w].interval == v);
        }
    }
}

/// The first timer of a scheduler, asked for with an interval below the
/// floor, has the floor as its interval, and the floor is then the smallest
/// interval: 30 ms, not what was asked for.
pub proof fn lemma_first_timer_below_floor(id: u32, requested: u64)
    requires
        requested < MIN_INTERVAL_NANOS,
    ensures
        ({
            let entries = Map::<u32, TimerEntry>::empty().insert(
                id,
                TimerEntry { interval: effective_interval(requested), last_fire: None },
            );
            &&& entries[id].interval == MIN_INTERVAL_NANOS
            &&& is_min_interval(entries, Some(MIN_INTERVAL_NANOS))
            &&& wait_for(Some(MIN_INTERVAL_NANOS)) == 30_000_000
        }),
{
    let entries = Map::<u32, TimerEntry>::empty().insert(
        id,
        TimerEntry { interval: effective_interval(requested), last_fire: None },
    );
    assert(entries.contains_key(id) && entries[id].interval == MIN_INTERVAL_NANOS);
}

/// A timer that has never fired is due at every clock reading.
pub proof fn lemma_new_timer_is_due(interval: u64, now: u64)
    ensures
        due(TimerEntry { interval, last_fire: None }, now),
{
}

#[derive(Clone, Copy, Debug)]
struct Timer {
    id: TimerId,
    interval: u64,
    last_triggered_at: Option<u64>,
}

impl Timer {
    spec fn entry(self) -> TimerEntry {
        TimerEntry { interval: self.interval, last_fire: self.last_triggered_at }
    }

    fn new(id: TimerId, interval: u64) -> (timer: Self)
        ensures
            timer.id == id,
            timer.entry() == (TimerEntry { interval, last_fire: None }),
    {
        Self { id, interval, last_triggered_at: None }
    }

    fn tick(&mut self, now: u64) -> (triggered: bool)
        ensures
            triggered == due(old(self).entry(), now),
            final(self).entry() == ticked(old(self).entry(), now),
            final(self).id == old(self).id,
    {
        let triggered = match self.last_triggered_at {
            Some(last) => now >= last && now - last > self.interval,
            None => true,
        };
        if triggered {
            self.last_triggered_at = Some(now);
        }
        triggered
    }
}

spec fn entries_of(timers: Map<u32, Timer>) -> Map<u32, TimerEntry> {
    Map::new(|id: u32| timers.contains_key(id), |id: u32| timers[id].entry())
}

fn collect_ids(timers: &HashMap<u32, Timer>) -> (ids: Vec<u32>)
    ensures
        ids@.no_duplicates(),
        forall|id: u32| ids@.contains(id) <==> timers@.contains_key(id),
{
    let mut ids: Vec<u32> = Vec::new();
    let ghost all: Seq<&u32> = spec_keys_iter(timers).remaining();
    for key in it: timers.keys()
        invariant
            it.seq() == all,
            ids@.len() == it.index(),
            forall|j: int| 0 <= j < ids@.len() ==> ids@[j] == *all[j],
    {
        ids.push(*key);
    }
    proof {
        vstd::std_specs::hash::axiom_spec_keys_iter(timers);
        assert(ids@ =~= all.unref());
        assert forall|i: int, j: int|
            0 <= i < ids@.len() && 0 <= j < ids@.len() && i != j implies ids@[i] != ids@[j] by {
            assert(all[i] != all[j]);
        }
        assert forall|id: u32| ids@.contains(id) <==> timers@.contains_key(id) by {
            assert(ids@.to_set().contains(id) <==> timers@.dom().contains(id));
        }
    }
    ids
}

fn smallest_interval(timers: &HashMap<u32, Timer>) -> (smallest: Option<u64>)
    ensures
        is_min_interval(entries_of(timers@), smallest),
{
    let ids = collect_ids(timers);
    let mut smallest: Option<u64> = None;
    let mut i: usize = 0;
    while i < ids.len()
        invariant
            i <= ids.len(),
            forall|id: u32| ids@.contains(id) <==> timers@.contains_key(id),
            smallest is None ==> i == 0,
            smallest matches Some(v) ==> {
                &&& exists|j: int| 0 <= j < i && (#[trigger] timers@[ids@[j]]).interval == v
                &&& forall|j: int| 0 <= j < i ==> v <= (#[trigger] timers@[ids@[j]]).interval
            },
        decreases ids.len() - i,
    {
        let id: u32 = ids[i];
        assert(ids@.contains(ids@[i as int]));
        if let Some(timer) = timers.get(&id) {
            let interval: u64 = timer.interval;
            smallest =
            match smallest {
                Some(v) => if interval < v {
                    Some(interval)
                } else {
                    Some(v)
                },
                None => Some(interval),
            };
            assert(timers@[ids@[i as int]].interval == interval);
        }
        i += 1;
    }
    proof {
        let entries = entries_of(timers@);
        match smallest {
            None => {
                assert forall|id: u32| !entries.contains_key(id) by {
                    if entries.contains_key(id) {
                        assert(ids@.contains(id));
                    }
                }
            },
            Some(v) => {
                let j = choose|j: int| 0 <= j < i && (#[trigger] timers@[ids@[j]]).interval == v;
                assert(ids@.contains(ids@[j]));
                assert(entries.contains_key(ids@[j]) && entries[ids@[j]].interval == v);
                assert forall|id: u32| entries.contains_key(id) implies v
                    <= #[trigger] entries[id].interval by {
                    assert(ids@.contains(id));
                    let k = choose|k: int| 0 <= k < ids@.len() && ids@[k] == id;
                    assert(v <= timers@[ids@[k]].interval);
                }
            },
        }
    }
    smallest
}

/// The timers of one plugin instance.
pub struct Timers {
    timers: HashMap<u32, Timer>,
    latest_id: u32,
    smallest_duration: Option<u64>,
}

impl Timers {
    /// The registered timers, by identifier.
    pub closed spec fn entries(&self) -> Map<u32, TimerEntry> {
        entries_of(self.timers@)
    }

    /// The identifier handed out last, or 0 before the first registration.
    pub closed spec fn latest_id(&self) -> u32 {
        self.latest_id
    }

    /// The part of well-formedness that concerns the representation: each
    /// timer is stored under its own identifier, and the tracked minimum is
    /// the smallest interval.
    pub closed spec fn inv(&self) -> bool {
        &&& forall|id: u32| #[trigger]
            self.timers@.contains_key(id) ==> self.timers@[id].id == TimerId(id)
        &&& is_min_interval(self.entries(), self.smallest_duration)
    }

    /// What every scheduler satisfies between calls.
    pub open spec fn wf(&self) -> bool {
        &&& self.inv()
        &&& self.entries().dom().finite()
        &&& entries_valid(self.entries(), self.latest_id())
    }

    /// A scheduler without timers.
    pub fn new() -> (timers: Self)
        ensures
            timers.wf(),
            timers.entries() == Map::<u32, TimerEntry>::empty(),
            timers.latest_id() == 0,
    {
        let timers = Self { timers: HashMap::new(), latest_id: 0, smallest_duration: None };
        proof {
            assert(timers.entries() =~= Map::<u32, TimerEntry>::empty());
        }
        timers
    }

    /// Whether another timer can be registered: identifiers run out after
    /// `u32::MAX` registrations.
    pub fn can_register(&self) -> (can: bool)
        ensures
            can == (self.latest_id() < u32::MAX),
    {
        self.latest_id < u32::MAX
    }

    /// Registers a timer that fires every `interval` nanoseconds, or every
    /// 30 ms if `interval` is shorter than that. The timer has not fired yet,
    /// so the next tick fires it.
    pub fn register_new(&mut self, interval: u64) -> (id: TimerId)
        requires
            old(self).wf(),
            old(self).latest_id() < u32::MAX,
        ensures
            final(self).wf(),
            id.0 == old(self).latest_id() + 1,
            final(self).latest_id() == id.0,
            !old(self).entries().contains_key(id.0),
            final(self).entries() == old(self).entries().insert(
                id.0,
                TimerEntry { interval: effective_interval(interval), last_fire: None },
            ),
    {
        let interval: u64 = if interval < MIN_INTERVAL_NANOS {
            MIN_INTERVAL_NANOS
        } else {
            interval
        };
        let latest_id: u32 = self.latest_id + 1;
        self.latest_id = latest_id;
        let id = TimerId(latest_id);
        self.timers.insert(latest_id, Timer::new(id, interval));
        match self.smallest_duration {
            None => {
                self.smallest_duration = Some(interval);
            },
            Some(smallest) => {
                if smallest > interval {
                    self.smallest_duration = Some(interval);
                }
            },
        }
        proof {
            let before = old(self).entries();
            let after = self.entries();
            assert(after =~= before.insert(latest_id, TimerEntry { interval, last_fire: None }));
            assert(after.contains_key(latest_id) && after[latest_id].interval == interval);
            if let Some(smallest) = old(self).smallest_duration {
                let w = choose|w: u32|
                    before.contains_key(w) && #[trigger] before[w].interval == smallest;
                assert(after.contains_key(w) && after[w].interval == smallest);
            }
        }
        id
    }

    /// Removes the timer `id`. Answers whether there was such a timer; an
    /// unknown identifier changes nothing.
    pub fn unregister(&mut self, id: TimerId) -> (found: bool)
        requires
            old(self).wf(),
        ensures
            final(self).wf(),
            found == old(self).entries().contains_key(id.0),
            final(self).entries() == old(self).entries().remove(id.0),
            final(self).latest_id() == old(self).latest_id(),
    {
        let key: u32 = id.0;
        let removed = self.timers.remove(&key);
        proof {
            assert(self.entries() =~= old(self).entries().remove(key));
        }
        if removed.is_some() {
            self.smallest_duration = smallest_interval(&self.timers);
            true
        } else {
            proof {
                assert(self.entries() =~= old(self).entries());
            }
            false
        }
    }

    /// The smallest interval among the registered timers, if there is a timer.
    pub fn smallest_duration(&self) -> (smallest: Option<u64>)
        requires
            self.wf(),
        ensures
            smallest == self.smallest(),
            is_min_interval(self.entries(), smallest),
    {
        self.smallest_duration
    }

    /// How long the worker may wait before it ticks again: the smallest
    /// interval, or 30 ms without timers.
    pub fn next_wait(&self) -> (wait: u64)
        requires
            self.wf(),
        ensures
            is_min_interval(self.entries(), self.smallest()),
            wait == wait_for(self.smallest()),
            wait >= MIN_INTERVAL_NANOS,
    {
        proof {
            if let Some(v) = self.smallest_duration {
                let w = choose|w: u32|
                    self.entries().contains_key(w) && #[trigger] self.entries()[w].interval == v;
                assert(self.entries().contains_key(w));
            }
        }
        match self.smallest_duration {
            Some(v) => v,
            None => DEFAULT_WAIT_NANOS,
        }
    }

    /// The smallest interval that the scheduler tracks. On a well-formed
    /// scheduler it is the smallest interval among the entries.
    pub closed spec fn smallest(&self) -> Option<u64> {
        self.smallest_duration
    }

    /// Ticks every timer at `now` and answers which fired, each once, in no
    /// particular order. A timer fires if it is due; firing stamps it with `now`.
    pub fn tick_all(&mut self, now: u64) -> (fired: Vec<TimerId>)
        requires
            old(self).wf(),
        ensures
            final(self).wf(),
            final(self).entries() == ticked_all(old(self).entries(), now),
            final(self).latest_id() == old(self).latest_id(),
            fired@.no_duplicates(),
            forall|id: u32| #[trigger]
                fired@.contains(TimerId(id)) <==> old(self).entries().contains_key(id) && due(
                    old(self).entries()[id],
                    now,
                ),
    {
        let ids = collect_ids(&self.timers);
        let mut fired: Vec<TimerId> = Vec::new();
        let mut i: usize = 0;
        while i < ids.len()
            invariant
                i <= ids.len(),
                ids@.no_duplicates(),
                forall|id: u32| ids@.contains(id) <==> old(self).timers@.contains_key(id),
                forall|id: u32| #[trigger]
                    old(self).timers@.contains_key(id) ==> old(self).timers@[id].id == TimerId(id),
                self.latest_id == old(self).latest_id,
                self.smallest_duration == old(self).smallest_duration,
                self.timers@.dom() == old(self).timers@.dom(),
                forall|j: int|
                    0 <= j < i ==> (#[trigger] self.timers@[ids@[j]]).id == TimerId(ids@[j])
                        && self.timers@[ids@[j]].entry() == ticked(
                        old(self).timers@[ids@[j]].entry(),
                        now,
                    ),
                forall|j: int|
                    i <= j < ids@.len() ==> #[trigger] self.timers@[ids@[j]] == old(
                        self,
                    ).timers@[ids@[j]],
                fired@.no_duplicates(),
                forall|t: TimerId| #[trigger]
                    fired@.contains(t) <==> exists|j: int|
                        0 <= j < i && #[trigger] ids@[j] == t.0 && due(
                            old(self).timers@[t.0].entry(),
                            now,
                        ),
            decreases ids.len() - i,
        {
            let id: u32 = ids[i];
            assert(ids@.contains(ids@[i as int]));
            let ghost fired_before = fired@;
            let current: Option<Timer> = match self.timers.get(&id) {
                Some(timer) => Some(*timer),
                None => None,
            };
            if let Some(timer) = current {
                let mut timer = timer;
                if timer.tick(now) {
                    fired.push(timer.id);
                }
                self.timers.insert(id, timer);
            }
            proof {
                if due(old(self).timers@[id].entry(), now) {
                    assert(fired@ == fired_before.push(TimerId(id)));
                    assert(!fired_before.contains(TimerId(id))) by {
                        if fired_before.contains(TimerId(id)) {
                            let j = choose|j: int| 0 <= j < i && #[trigger] ids@[j] == id;
                            assert(ids@[j] == ids@[i as int]);
                        }
                    }
                }
                assert forall|t: TimerId| #[trigger]
                    fired@.contains(t) <==> exists|j: int|
                        0 <= j < i + 1 && #[trigger] ids@[j] == t.0 && due(
                            old(self).timers@[t.0].entry(),
                            now,
                        ) by {
                    if fired_before.contains(t) {
                        let k = choose|k: int| 0 <= k < fired_before.len() && fired_before[k] == t;
                        assert(fired@[k] == t);
                    }
                    if fired@.contains(t) && !fired_before.contains(t) {
                        let k = choose|k: int| 0 <= k < fired@.len() && fired@[k] == t;
                        assert(k == fired_before.len());
                        assert(ids@[i as int] == t.0);
                    }
                    if t.0 == id && due(old(self).timers@[id].entry(), now) {
                        assert(fired@[fired@.len() - 1] == t);
                    }
                }
            }
            i += 1;
        }
        proof {
            let before = old(self).entries();
            let after = self.entries();
            assert forall|id: u32| #[trigger] self.timers@.contains_key(id) implies after[id]
                == ticked(before[id], now) && self.timers@[id].id == TimerId(id) by {
                assert(ids@.contains(id));
                let j = choose|j: int| 0 <= j < ids@.len() && ids@[j] == id;
                assert(self.timers@[ids@[j]].entry() == ticked(
                    old(self).timers@[ids@[j]].entry(),
                    now,
                ));
            }
            assert(after =~= ticked_all(before, now));
            lemma_tick_keeps_timers(before, now);
            assert forall|id: u32| #[trigger]
                fired@.contains(TimerId(id)) <==> before.contains_key(id) && due(
                    before[id],
                    now,
                ) by {
                if before.contains_key(id) && due(before[id], now) {
                    assert(ids@.contains(id));
                    let j = choose|j: int| 0 <= j < ids@.len() && ids@[j] == id;
                    assert(ids@[j] == TimerId(id).0);
                }
                if fired@.contains(TimerId(id)) {
                    let j = choose|j: int|
                        0 <= j < i && #[trigger] ids@[j] == TimerId(id).0 && due(
                            old(self).timers@[TimerId(id).0].entry(),
                            now,
                        );
                    assert(ids@.contains(ids@[j]));
                }
            }
        }
        fired
    }

    /// Ticks every timer at `now` and delivers one callback to the plugin for
    /// each timer that fired, and none for any other.
    pub fn tick_timers(
        &mut self,
        callbacks: &mut PluginTimers,
        plugin: &mut PluginMainThreadHandle<'_>,
        now: u64,
    )
        requires
            old(self).wf(),
        ensures
            final(self).wf(),
            final(self).entries() == ticked_all(old(self).entries(), now),
            final(self).latest_id() == old(self).latest_id(),
            exists|fired: Seq<TimerId>|
                {
                    &&& #[trigger] fired.no_duplicates()
                    &&& forall|id: u32| #[trigger]
                        fired.contains(TimerId(id)) <==> old(self).entries().contains_key(id)
                            && due(old(self).entries()[id], now)
                    &&& final(callbacks).delivered() == old(callbacks).delivered() + fired
                },
    {
        let fired = self.tick_all(now);
        Self::deliver_ticks(callbacks, plugin, &fired);
        assert(fired@.no_duplicates());
    }

    /// Delivers one timer callback to the plugin for each identifier in
    /// `fired`, in that order.
    ///
    /// A plugin may register and unregister timers from within the callback.
    /// A host that shares the scheduler with the plugin therefore ticks with
    /// `tick_all`, lets go of the scheduler, and delivers with this function.
    pub fn deliver_ticks(
        callbacks: &mut PluginTimers,
        plugin: &mut PluginMainThreadHandle<'_>,
        fired: &Vec<TimerId>,
    )
        ensures
            final(callbacks).delivered() == old(callbacks).delivered() + fired@,
    {
        let mut i: usize = 0;
        while i < fired.len()
            invariant
                i <= fired.len(),
                callbacks.delivered() == old(callbacks).delivered() + fired@.subrange(0, i as int),
            decreases fired.len() - i,
        {
            callbacks.on_timer(plugin, fired[i]);
            proof {
                assert(fired@.subrange(0, i + 1) =~= fired@.subrange(0, i as int).push(
                    fired@[i as int],
                ));
                assert(callbacks.delivered() =~= old(callbacks).delivered() + fired@.subrange(
                    0,
                    i + 1,
                ));
            }
            i += 1;
        }
        proof {
            assert(fired@.subrange(0, fired@.len() as int) =~= fired@);
        }
    }
}

impl Default for Timers {
    fn default() -> (timers: Self)
        ensures
            timers.wf(),
            timers.entries() == Map::<u32, TimerEntry>::empty(),
            timers.latest_id() == 0,
    {
        Timers::new()
    }
}

} // verus!
