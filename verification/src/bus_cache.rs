//! Time-limited cache and failure policy in front of the field bus.
//!
//! The bus accepts one conversation at a time, so all live access is
//! serialized by the embedding program; the logic here decides, on plain
//! values, everything else. A read is served from the cache while its
//! entry is younger than the time-to-live; otherwise the bus is fetched,
//! with up to a fixed number of attempts, and the connection is replaced
//! before a retry exactly when the failure was a timeout. An unsupported
//! command is a normal not-found outcome, never an error and never
//! cached. A write goes to the bus without retry, drops any cached entry
//! for its command, and repopulates the cache only on success.
//!
//! Command names are byte strings and values plain integers; timestamps
//! come from a monotonic clock in nanoseconds.

use vstd::prelude::*;
use vstd::std_specs::cmp::PartialEqSpec;

verus! {

/// Time-to-live of one cache entry: sixty seconds, in nanoseconds.
pub const CACHE_TTL_NANOS: u64 = 60_000_000_000;

/// How many live fetch attempts one read may make before its last
/// failure is surfaced to the caller.
pub const MAX_ATTEMPTS: u64 = 3;

/// A failure reported by the bus for one live call.
#[derive(Clone, Copy, Debug, PartialEq, Eq, Structural)]
pub enum BusFault {
    /// The device did not answer within the configured io timeout.
    Timeout,
    /// Another io failure on the device.
    OtherIo,
    /// A failure that is neither an io timeout nor io at all.
    Other,
}

/// What one live fetch of a command returned.
#[derive(Clone, Copy, Debug, PartialEq, Eq, Structural)]
pub enum FetchOutcome {
    /// The device answered with a value.
    Value(i64),
    /// The device does not know the command.
    Unsupported,
    /// The call failed.
    Fault(BusFault),
}

/// What one live write of a command returned.
#[derive(Clone, Copy, Debug, PartialEq, Eq, Structural)]
pub enum WriteOutcome {
    /// The device accepted the value.
    Accepted,
    /// The device does not know the command.
    Unsupported,
    /// The call failed.
    Fault(BusFault),
}

/// What a read returns to the caller.
#[derive(Clone, Copy, Debug, PartialEq, Eq, Structural)]
pub enum GetResult {
    /// The value, from the cache or from the device.
    Value(i64),
    /// The command is not supported by the device.
    NotFound,
    /// Every attempt failed; this is the last failure.
    Failed(BusFault),
}

/// What a write returns to the caller.
#[derive(Clone, Copy, Debug, PartialEq, Eq, Structural)]
pub enum SetResult {
    /// The device accepted the value.
    Done,
    /// The command is not supported by the device.
    NotFound,
    /// The single attempt failed.
    Failed(BusFault),
}

/// What the caller must do after a failed fetch attempt.
#[derive(Clone, Copy, Debug, PartialEq, Eq, Structural)]
pub enum RetryDecision {
    /// Replace the connection wholesale, then call again.
    RetryAfterReconnect,
    /// Call again on the same connection.
    RetrySameConnection,
    /// Surface the failure: the attempts are used up.
    GiveUp,
}

/// Bus work one read performed: how many live calls it made and how
/// often it replaced the connection first.
#[derive(Clone, Copy, Debug, PartialEq, Eq, Structural)]
pub struct BusUsage {
    /// Live calls made on the bus.
    pub calls: u64,
    /// Connection replacements before a retry.
    pub reconnects: u64,
}

/// What one live fetch attempt leads to.
#[derive(Clone, Copy, Debug, PartialEq, Eq, Structural)]
pub enum FetchStep {
    /// The read is finished with this result.
    Done(GetResult),
    /// Replace the connection wholesale, then fetch again.
    Reconnect,
    /// Fetch again on the same connection.
    Retry,
}

/// One cached command reading: name, value and when it was stored.
struct CacheEntry {
    name: Vec<u8>,
    value: i64,
    stored_at_ns: u64,
}

/// The first entry with the given name, if any.
pub open spec fn find_entry(entries: Seq<(Seq<u8>, i64, u64)>, name: Seq<u8>) -> Option<(i64, u64)>
    decreases entries.len(),
{
    if entries.len() == 0 {
        None
    } else if entries[0].0 == name {
        Some((entries[0].1, entries[0].2))
    } else {
        find_entry(entries.drop_first(), name)
    }
}

/// Whether an entry stored at `stored_at_ns` still serves a read at
/// `now_ns`: it expires passively once the time-to-live has passed.
pub open spec fn is_fresh(stored_at_ns: u64, now_ns: u64) -> bool {
    now_ns < stored_at_ns + CACHE_TTL_NANOS
}

/// The value a read at `now_ns` takes from the cache alone, if any.
pub open spec fn cached_value(
    entries: Seq<(Seq<u8>, i64, u64)>,
    name: Seq<u8>,
    now_ns: u64,
) -> Option<i64> {
    match find_entry(entries, name) {
        Some(found) => if is_fresh(found.1, now_ns) {
            Some(found.0)
        } else {
            None
        },
        None => None,
    }
}

/// The cache after dropping the first entry with the given name.
pub open spec fn remove_model(entries: Seq<(Seq<u8>, i64, u64)>, name: Seq<u8>) -> Seq<
    (Seq<u8>, i64, u64),
>
    decreases entries.len(),
{
    if entries.len() == 0 {
        entries
    } else if entries[0].0 == name {
        entries.drop_first()
    } else {
        seq![entries[0]] + remove_model(entries.drop_first(), name)
    }
}

/// The cache after storing or refreshing an entry: any old entry for
/// the name leaves, the new one arrives with a fresh storage time.
pub open spec fn store_model(
    entries: Seq<(Seq<u8>, i64, u64)>,
    name: Seq<u8>,
    value: i64,
    now_ns: u64,
) -> Seq<(Seq<u8>, i64, u64)> {
    remove_model(entries, name).push((name, value, now_ns))
}

/// No two entries share a name.
pub open spec fn distinct_names(entries: Seq<(Seq<u8>, i64, u64)>) -> bool {
    forall|i: int, j: int| 0 <= i < j < entries.len() ==> entries[i].0 != entries[j].0
}

/// What happens after a fetch attempt fails: reconnect before the retry
/// exactly when the failure was a timeout, give up once the bound of
/// attempts is reached.
pub open spec fn retry_decision_spec(fault: BusFault, attempts_made: u64) -> RetryDecision {
    if attempts_made >= MAX_ATTEMPTS {
        RetryDecision::GiveUp
    } else if fault is Timeout {
        RetryDecision::RetryAfterReconnect
    } else {
        RetryDecision::RetrySameConnection
    }
}

/// The whole retry run of one read that missed the cache, over the
/// outcomes the bus would return for each successive live call:
/// the result, the number of live calls made, and the number of
/// reconnects performed before retries.
pub open spec fn retry_run(outcomes: Seq<FetchOutcome>, attempts_made: nat) -> (
    GetResult,
    nat,
    nat,
)
    recommends
        attempts_made < MAX_ATTEMPTS,
        outcomes.len() >= MAX_ATTEMPTS - attempts_made,
    decreases MAX_ATTEMPTS - attempts_made,
{
    match outcomes[0] {
        FetchOutcome::Value(v) => (GetResult::Value(v), 1, 0),
        FetchOutcome::Unsupported => (GetResult::NotFound, 1, 0),
        FetchOutcome::Fault(fault) => {
            if attempts_made + 1 >= MAX_ATTEMPTS {
                (GetResult::Failed(fault), 1, 0)
            } else {
                let rest = retry_run(outcomes.drop_first(), attempts_made + 1);
                (
                    rest.0,
                    (rest.1 + 1) as nat,
                    (rest.2 + if fault is Timeout {
                        1int
                    } else {
                        0int
                    }) as nat,
                )
            }
        },
    }
}

/// Decides what to do after attempt number `attempts_made` (counted
/// from one) failed with `fault`.
pub fn retry_decision(fault: &BusFault, attempts_made: u64) -> (d: RetryDecision)
    ensures
        d == retry_decision_spec(*fault, attempts_made),
{
    if attempts_made >= MAX_ATTEMPTS {
        RetryDecision::GiveUp
    } else if matches!(fault, BusFault::Timeout) {
        RetryDecision::RetryAfterReconnect
    } else {
        RetryDecision::RetrySameConnection
    }
}

/// Byte-string equality of two command names.
fn names_equal(a: &Vec<u8>, b: &Vec<u8>) -> (r: bool)
    ensures
        r == (a@ == b@),
{
    let r = a == b;
    proof {
        if r {
            assert(a@ =~= b@);
        } else {
            if a@ == b@ {
                assert(a.eq_spec(b));
            }
        }
    }
    r
}

/// An owned copy of a command name.
fn clone_name(name: &Vec<u8>) -> (r: Vec<u8>)
    ensures
        r@ == name@,
{
    let r = name.clone();
    proof {
        assert(r@ =~= name@);
    }
    r
}

/// Time-limited cache in front of the bus.
pub struct BusCache {
    entries: Vec<CacheEntry>,
}

impl View for BusCache {
    type V = Seq<(Seq<u8>, i64, u64)>;

    /// The cache is modelled as its entries in insertion order: name,
    /// value and storage time of each.
    closed spec fn view(&self) -> Seq<(Seq<u8>, i64, u64)> {
        self.entries@.map_values(|e: CacheEntry| (e.name@, e.value, e.stored_at_ns))
    }
}

impl BusCache {
    /// Internal consistency: entries are unique per command name.
    pub open spec fn well_formed(&self) -> bool {
        distinct_names(self@)
    }

    /// An empty cache.
    pub fn new() -> (cache: Self)
        ensures
            cache.well_formed(),
            cache@ == Seq::<(Seq<u8>, i64, u64)>::empty(),
    {
        let cache = BusCache { entries: Vec::new() };
        proof {
            assert(cache@ =~= Seq::<(Seq<u8>, i64, u64)>::empty());
        }
        cache
    }

    /// Serves a read from the cache alone: the value whose entry is
    /// still fresh at `now_ns`, or nothing.
    pub fn lookup(&self, name: &Vec<u8>, now_ns: u64) -> (r: Option<i64>)
        ensures
            r == cached_value(self@, name@, now_ns),
    {
        let mut i: usize = 0;
        proof {
            assert(self@.skip(0) =~= self@);
        }
        while i < self.entries.len()
            invariant
                i <= self.entries@.len(),
                self@.len() == self.entries@.len(),
                forall|j: int| 0 <= j < i ==> self@[j].0 != name@,
                find_entry(self@, name@) == find_entry(self@.skip(i as int), name@),
            decreases self.entries@.len() - i,
        {
            let entry = &self.entries[i];
            if names_equal(&entry.name, name) {
                proof {
                    lemma_find_entry_head(self@, i as int, name@);
                }
                if (now_ns as u128) < (entry.stored_at_ns as u128) + (CACHE_TTL_NANOS as u128) {
                    return Some(entry.value);
                } else {
                    return None;
                }
            }
            proof {
                lemma_find_entry_skip_one(self@, i as int, name@);
            }
            i = i + 1;
        }
        proof {
            assert(self@.skip(self@.len() as int) =~= Seq::<(Seq<u8>, i64, u64)>::empty());
        }
        None
    }

    /// Index of the first entry with the given name, if any.
    fn position_of(&self, name: &Vec<u8>) -> (r: Option<usize>)
        ensures
            match r {
                Some(k) => 0 <= k < self@.len() && self@[k as int].0 == name@ && forall|j: int|
                    0 <= j < k ==> self@[j].0 != name@,
                None => forall|j: int| 0 <= j < self@.len() ==> self@[j].0 != name@,
            },
    {
        let mut i: usize = 0;
        while i < self.entries.len()
            invariant
                i <= self.entries@.len(),
                self@.len() == self.entries@.len(),
                forall|j: int| 0 <= j < i ==> self@[j].0 != name@,
            decreases self.entries@.len() - i,
        {
            if names_equal(&self.entries[i].name, name) {
                return Some(i);
            }
            i = i + 1;
        }
        None
    }

    /// Drops any cached entry for the command.
    pub fn remove(&mut self, name: &Vec<u8>)
        requires
            old(self).well_formed(),
        ensures
            final(self).well_formed(),
            final(self)@ == remove_model(old(self)@, name@),
    {
        match self.position_of(name) {
            Some(k) => {
                let ghost before = self@;
                self.entries.remove(k);
                proof {
                    assert(self@ =~= before.remove(k as int));
                    lemma_remove_model_at(before, k as int, name@);
                    lemma_distinct_remove(before, k as int);
                }
            },
            None => {
                proof {
                    lemma_remove_model_absent(self@, name@);
                }
            },
        }
    }

    /// Stores or refreshes the entry for the command with a fresh
    /// storage time.
    pub fn store(&mut self, name: Vec<u8>, value: i64, now_ns: u64)
        requires
            old(self).well_formed(),
        ensures
            final(self).well_formed(),
            final(self)@ == store_model(old(self)@, name@, value, now_ns),
    {
        self.remove(&name);
        let ghost removed = self@;
        proof {
            lemma_remove_model_removes(old(self)@, name@);
        }
        self.entries.push(CacheEntry { name, value, stored_at_ns: now_ns });
        proof {
            assert(self@ =~= removed.push((name@, value, now_ns)));
            assert forall|i: int, j: int| 0 <= i < j < self@.len() implies self@[i].0
                != self@[j].0 by {
                if j < self@.len() - 1 {
                    assert(removed[i].0 != removed[j].0);
                }
            }
        }
    }

    /// One read: the cache is consulted first; on a miss the bus is
    /// called with up to `MAX_ATTEMPTS` live fetches, whose outcomes are
    /// given oldest first, and a fetched value is written back to the
    /// cache. The usage reports how many live calls were made and how
    /// often the connection was replaced before a retry: a fresh cache
    /// hit makes no bus call at all.
    pub fn get_with_outcomes(
        &mut self,
        name: Vec<u8>,
        now_ns: u64,
        outcomes: &Vec<FetchOutcome>,
    ) -> (r: (GetResult, BusUsage))
        requires
            old(self).well_formed(),
            outcomes@.len() >= MAX_ATTEMPTS,
        ensures
            final(self).well_formed(),
            cached_value(old(self)@, name@, now_ns) matches Some(v) ==> r.0 == GetResult::Value(v)
                && r.1 == (BusUsage { calls: 0, reconnects: 0 }) && final(self)@ == old(self)@,
            cached_value(old(self)@, name@, now_ns) is None ==> {
                let run = retry_run(outcomes@, 0);
                &&& r.0 == run.0
                &&& r.1.calls == run.1
                &&& r.1.reconnects == run.2
                &&& (run.0 matches GetResult::Value(v) ==> final(self)@ == store_model(
                    old(self)@,
                    name@,
                    v,
                    now_ns,
                ))
                &&& (!(run.0 is Value) ==> final(self)@ == old(self)@)
            },
    {
        match self.lookup(&name, now_ns) {
            Some(v) => (GetResult::Value(v), BusUsage { calls: 0, reconnects: 0 }),
            None => {
                proof {
                    assert(outcomes@.skip(0) =~= outcomes@);
                }
                self.run_attempts(name, now_ns, outcomes, 0)
            },
        }
    }

    /// The retry loop of one read that missed the cache, from attempt
    /// number `attempts_made` on.
    fn run_attempts(
        &mut self,
        name: Vec<u8>,
        now_ns: u64,
        outcomes: &Vec<FetchOutcome>,
        attempts_made: u64,
    ) -> (r: (GetResult, BusUsage))
        requires
            old(self).well_formed(),
            attempts_made < MAX_ATTEMPTS,
            outcomes@.len() >= MAX_ATTEMPTS,
        ensures
            final(self).well_formed(),
            r.1.calls <= MAX_ATTEMPTS - attempts_made,
            r.1.reconnects <= r.1.calls,
            ({
                let run = retry_run(outcomes@.skip(attempts_made as int), attempts_made as nat);
                &&& r.0 == run.0
                &&& r.1.calls == run.1
                &&& r.1.reconnects == run.2
                &&& (run.0 matches GetResult::Value(v) ==> final(self)@ == store_model(
                    old(self)@,
                    name@,
                    v,
                    now_ns,
                ))
                &&& (!(run.0 is Value) ==> final(self)@ == old(self)@)
            }),
        decreases MAX_ATTEMPTS - attempts_made,
    {
        let outcome = outcomes[attempts_made as usize];
        proof {
            assert(outcomes@.skip(attempts_made as int)[0] == outcomes@[attempts_made as int]);
        }
        match outcome {
            FetchOutcome::Value(v) => {
                self.store(name, v, now_ns);
                (GetResult::Value(v), BusUsage { calls: 1, reconnects: 0 })
            },
            FetchOutcome::Unsupported => (GetResult::NotFound, BusUsage { calls: 1, reconnects: 0 }),
            FetchOutcome::Fault(fault) => {
                if attempts_made + 1 >= MAX_ATTEMPTS {
                    (GetResult::Failed(fault), BusUsage { calls: 1, reconnects: 0 })
                } else {
                    let reconnect_here: u64 = if matches!(fault, BusFault::Timeout) {
                        1
                    } else {
                        0
                    };
                    let rest = self.run_attempts(name, now_ns, outcomes, attempts_made + 1);
                    proof {
                        assert(outcomes@.skip(attempts_made as int).drop_first() =~= outcomes@.skip(
                            attempts_made + 1,
                        ));
                    }
                    (
                        rest.0,
                        BusUsage {
                            calls: rest.1.calls + 1,
                            reconnects: rest.1.reconnects + reconnect_here,
                        },
                    )
                }
            },
        }
    }

    /// Lands the outcome of live fetch attempt number `attempts_made`
    /// (counted from one) of a read that missed the cache: a value is
    /// written back and returned, an unsupported command is a not-found
    /// outcome, and a failure is retried — after a reconnect exactly
    /// when it was a timeout — until the attempts are used up.
    pub fn on_fetch_outcome(
        &mut self,
        name: &Vec<u8>,
        outcome: &FetchOutcome,
        now_ns: u64,
        attempts_made: u64,
    ) -> (step: FetchStep)
        requires
            old(self).well_formed(),
            1 <= attempts_made,
        ensures
            final(self).well_formed(),
            *outcome matches FetchOutcome::Value(v) ==> step == FetchStep::Done(
                GetResult::Value(v),
            ) && final(self)@ == store_model(old(self)@, name@, v, now_ns),
            *outcome is Unsupported ==> step == FetchStep::Done(GetResult::NotFound)
                && final(self)@ == old(self)@,
            *outcome matches FetchOutcome::Fault(fault) ==> final(self)@ == old(self)@ && step
                == (match retry_decision_spec(fault, attempts_made) {
                RetryDecision::GiveUp => FetchStep::Done(GetResult::Failed(fault)),
                RetryDecision::RetryAfterReconnect => FetchStep::Reconnect,
                RetryDecision::RetrySameConnection => FetchStep::Retry,
            }),
    {
        match outcome {
            FetchOutcome::Value(v) => {
                let owned = clone_name(name);
                self.store(owned, *v, now_ns);
                FetchStep::Done(GetResult::Value(*v))
            },
            FetchOutcome::Unsupported => FetchStep::Done(GetResult::NotFound),
            FetchOutcome::Fault(fault) => match retry_decision(fault, attempts_made) {
                RetryDecision::GiveUp => FetchStep::Done(GetResult::Failed(*fault)),
                RetryDecision::RetryAfterReconnect => FetchStep::Reconnect,
                RetryDecision::RetrySameConnection => FetchStep::Retry,
            },
        }
    }

    /// One write: the bus is called once, without retry, since a
    /// repeated write may not be harmless. Any cached entry for the
    /// command is dropped regardless of the outcome; only an accepted write
    /// repopulates the cache with the new value.
    pub fn set_with_outcome(
        &mut self,
        name: Vec<u8>,
        value: i64,
        now_ns: u64,
        outcome: &WriteOutcome,
    ) -> (r: SetResult)
        requires
            old(self).well_formed(),
        ensures
            final(self).well_formed(),
            *outcome is Accepted ==> r == SetResult::Done && final(self)@ == store_model(
                old(self)@,
                name@,
                value,
                now_ns,
            ),
            *outcome is Unsupported ==> r == SetResult::NotFound && final(self)@ == remove_model(
                old(self)@,
                name@,
            ),
            *outcome matches WriteOutcome::Fault(fault) ==> r == SetResult::Failed(fault)
                && final(self)@ == remove_model(old(self)@, name@),
    {
        match outcome {
            WriteOutcome::Accepted => {
                self.store(name, value, now_ns);
                SetResult::Done
            },
            WriteOutcome::Unsupported => {
                self.remove(&name);
                SetResult::NotFound
            },
            WriteOutcome::Fault(fault) => {
                self.remove(&name);
                SetResult::Failed(*fault)
            },
        }
    }
}

/// `find_entry` finds the head of the remaining entries when its name
/// matches.
proof fn lemma_find_entry_head(s: Seq<(Seq<u8>, i64, u64)>, i: int, name: Seq<u8>)
    requires
        0 <= i < s.len(),
        s[i].0 == name,
        find_entry(s, name) == find_entry(s.skip(i), name),
    ensures
        find_entry(s, name) == Some((s[i].1, s[i].2)),
{
    assert(s.skip(i)[0] == s[i]);
}

/// Skipping past a non-matching head leaves `find_entry` unchanged.
proof fn lemma_find_entry_skip_one(s: Seq<(Seq<u8>, i64, u64)>, i: int, name: Seq<u8>)
    requires
        0 <= i < s.len(),
        s[i].0 != name,
    ensures
        find_entry(s.skip(i), name) == find_entry(s.skip(i + 1), name),
{
    assert(s.skip(i)[0] == s[i]);
    assert(s.skip(i).drop_first() =~= s.skip(i + 1));
}

/// Removing the first matching entry by index is what `remove_model`
/// means.
proof fn lemma_remove_model_at(s: Seq<(Seq<u8>, i64, u64)>, k: int, name: Seq<u8>)
    requires
        0 <= k < s.len(),
        s[k].0 == name,
        forall|j: int| 0 <= j < k ==> s[j].0 != name,
    ensures
        remove_model(s, name) == s.remove(k),
    decreases k,
{
    if k == 0 {
        assert(remove_model(s, name) =~= s.remove(0));
    } else {
        lemma_remove_model_at(s.drop_first(), k - 1, name);
        assert(s.drop_first().remove(k - 1) =~= s.remove(k).drop_first());
        assert(remove_model(s, name) =~= seq![s[0]] + s.remove(k).drop_first());
        assert(s.remove(k)[0] == s[0]);
        assert(seq![s[0]] + s.remove(k).drop_first() =~= s.remove(k));
    }
}

/// Removing a name that occurs nowhere changes nothing.
proof fn lemma_remove_model_absent(s: Seq<(Seq<u8>, i64, u64)>, name: Seq<u8>)
    requires
        forall|j: int| 0 <= j < s.len() ==> s[j].0 != name,
    ensures
        remove_model(s, name) == s,
    decreases s.len(),
{
    if s.len() == 0 {
    } else {
        assert(s.drop_first().len() == s.len() - 1);
        lemma_remove_model_absent(s.drop_first(), name);
        assert(remove_model(s, name) =~= s);
    }
}

/// Removing at an index keeps names distinct.
proof fn lemma_distinct_remove(s: Seq<(Seq<u8>, i64, u64)>, k: int)
    requires
        0 <= k < s.len(),
        distinct_names(s),
    ensures
        distinct_names(s.remove(k)),
{
    let t = s.remove(k);
    assert forall|i: int, j: int| 0 <= i < j < t.len() implies t[i].0 != t[j].0 by {
        let oi = if i < k {
            i
        } else {
            i + 1
        };
        let oj = if j < k {
            j
        } else {
            j + 1
        };
        assert(s[oi].0 != s[oj].0);
    }
}

/// When names are distinct, dropping the first match leaves no entry
/// with that name behind, and the rest stays distinct.
proof fn lemma_remove_model_removes(s: Seq<(Seq<u8>, i64, u64)>, name: Seq<u8>)
    requires
        distinct_names(s),
    ensures
        distinct_names(remove_model(s, name)),
        forall|j: int|
            0 <= j < remove_model(s, name).len() ==> remove_model(s, name)[j].0 != name,
        find_entry(remove_model(s, name), name) is None,
    decreases s.len(),
{
    let r = remove_model(s, name);
    if s.len() == 0 {
        lemma_find_entry_absent(r, name);
    } else if s[0].0 == name {
        assert forall|j: int| 0 <= j < r.len() implies r[j].0 != name by {
            assert(s[0].0 != s[j + 1].0);
            assert(r[j] == s.drop_first()[j]);
        }
        assert forall|i: int, j: int| 0 <= i < j < r.len() implies r[i].0 != r[j].0 by {
            assert(s[i + 1].0 != s[j + 1].0);
        }
        lemma_find_entry_absent(r, name);
    } else {
        assert(distinct_names(s.drop_first())) by {
            assert forall|i: int, j: int|
                0 <= i < j < s.drop_first().len() implies s.drop_first()[i].0
                != s.drop_first()[j].0 by {
                assert(s[i + 1].0 != s[j + 1].0);
            }
        }
        lemma_remove_model_removes(s.drop_first(), name);
        let rr = remove_model(s.drop_first(), name);
        assert(r =~= seq![s[0]] + rr);
        assert forall|j: int| 0 <= j < r.len() implies r[j].0 != name by {
            if j > 0 {
                assert(r[j] == rr[j - 1]);
            }
        }
        assert forall|i: int, j: int| 0 <= i < j < r.len() implies r[i].0 != r[j].0 by {
            if i == 0 {
                assert(rr[j - 1] == r[j]);
                lemma_remove_model_is_subset(s.drop_first(), name, j - 1);
            } else {
                lemma_remove_model_is_subset(s.drop_first(), name, i - 1);
                lemma_remove_model_is_subset(s.drop_first(), name, j - 1);
                assert(rr[i - 1] == r[i] && rr[j - 1] == r[j]);
            }
        }
        lemma_find_entry_absent(r, name);
    }
}

/// Every entry of `remove_model(s, name)` is an entry of `s`.
proof fn lemma_remove_model_is_subset(s: Seq<(Seq<u8>, i64, u64)>, name: Seq<u8>, j: int)
    requires
        0 <= j < remove_model(s, name).len(),
    ensures
        exists|i: int| 0 <= i < s.len() && s[i] == remove_model(s, name)[j],
    decreases s.len(),
{
    let r = remove_model(s, name);
    if s.len() == 0 {
    } else if s[0].0 == name {
        assert(s[j + 1] == r[j]);
    } else {
        if j == 0 {
            assert(s[0] == r[0]);
        } else {
            lemma_remove_model_is_subset(s.drop_first(), name, j - 1);
            let i = choose|i: int|
                0 <= i < s.drop_first().len() && s.drop_first()[i] == remove_model(
                    s.drop_first(),
                    name,
                )[j - 1];
            assert(s[i + 1] == r[j]);
        }
    }
}

/// A name that occurs nowhere is not found.
proof fn lemma_find_entry_absent(s: Seq<(Seq<u8>, i64, u64)>, name: Seq<u8>)
    requires
        forall|j: int| 0 <= j < s.len() ==> s[j].0 != name,
    ensures
        find_entry(s, name) is None,
    decreases s.len(),
{
    if s.len() > 0 {
        assert(s.drop_first().len() == s.len() - 1);
        lemma_find_entry_absent(s.drop_first(), name);
    }
}

/// Write-through: a read within the time-to-live of a stored value is
/// served from the cache, with the stored value and no bus access
/// needed.
pub proof fn lemma_write_through(
    entries: Seq<(Seq<u8>, i64, u64)>,
    name: Seq<u8>,
    value: i64,
    stored_at_ns: u64,
    now_ns: u64,
)
    requires
        distinct_names(entries),
        is_fresh(stored_at_ns, now_ns),
    ensures
        cached_value(store_model(entries, name, value, stored_at_ns), name, now_ns) == Some(value),
{
    lemma_remove_model_removes(entries, name);
    let stored = store_model(entries, name, value, stored_at_ns);
    lemma_find_entry_pushed(remove_model(entries, name), name, value, stored_at_ns);
}

/// Pushing an entry whose name occurs nowhere makes it the one found.
proof fn lemma_find_entry_pushed(
    s: Seq<(Seq<u8>, i64, u64)>,
    name: Seq<u8>,
    value: i64,
    stored_at_ns: u64,
)
    requires
        forall|j: int| 0 <= j < s.len() ==> s[j].0 != name,
    ensures
        find_entry(s.push((name, value, stored_at_ns)), name) == Some((value, stored_at_ns)),
    decreases s.len(),
{
    let t = s.push((name, value, stored_at_ns));
    if s.len() == 0 {
        assert(t[0] == (name, value, stored_at_ns));
    } else {
        assert(s.drop_first().len() == s.len() - 1);
        lemma_find_entry_pushed(s.drop_first(), name, value, stored_at_ns);
        assert(t.drop_first() =~= s.drop_first().push((name, value, stored_at_ns)));
        assert(t[0] == s[0]);
    }
}

/// A read whose cache entry has just expired, answered by the device at
/// the first attempt, makes exactly one live call and no reconnect.
pub proof fn lemma_miss_single_call(outcomes: Seq<FetchOutcome>, value: i64)
    requires
        outcomes.len() >= MAX_ATTEMPTS,
        outcomes[0] == FetchOutcome::Value(value),
    ensures
        retry_run(outcomes, 0) == (GetResult::Value(value), 1nat, 0nat),
{
}

/// A timeout is retried after exactly one reconnect, any other failure
/// is retried on the same connection: one fault followed by a value
/// makes exactly two live calls, with one reconnect between them for a
/// timeout and none otherwise.
pub proof fn lemma_fault_then_success(outcomes: Seq<FetchOutcome>, fault: BusFault, value: i64)
    requires
        outcomes.len() >= MAX_ATTEMPTS,
        MAX_ATTEMPTS >= 2,
        outcomes[0] == FetchOutcome::Fault(fault),
        outcomes[1] == FetchOutcome::Value(value),
    ensures
        retry_run(outcomes, 0) == (
            GetResult::Value(value),
            2nat,
            if fault is Timeout {
                1nat
            } else {
                0nat
            },
        ),
{
    assert(outcomes.drop_first()[0] == outcomes[1]);
    assert(retry_run(outcomes.drop_first(), 1) == (GetResult::Value(value), 1nat, 0nat));
}

} // verus!
