use std::time::Duration;

use vstd::prelude::*;

use crate::worker_supervisor_error::WorkerSupervisorError;

verus! {

/// Failures further apart than this start a new count.
pub const FAILURE_WINDOW_MS: u64 = 60_000;

pub const DEFAULT_QUARANTINE_DURATION_MS: u64 = 60_000;

pub const DEFAULT_QUARANTINE_FAILURE_THRESHOLD: u32 = 3;

/// The recent failures of one plugin's workers; times are milliseconds on a monotonic clock.
#[derive(Debug, Clone, Copy, PartialEq, Eq)]
pub struct FailureRecord {
    pub count: u32,
    pub last_failure_ms: u64,
    pub release_at_ms: Option<u64>,
}

/// How long a quarantined plugin still has to wait, and after how many failures.
#[derive(Debug, Clone, Copy, PartialEq, Eq)]
pub struct WorkerQuarantineStatus {
    pub failures: u32,
    pub release_after_ms: u128,
}

/// The record a plugin's next failure starts from.
pub open spec fn record_or_new(record: Option<FailureRecord>, now_ms: u64) -> FailureRecord {
    match record {
        Some(record) => record,
        None => FailureRecord { count: 0, last_failure_ms: now_ms, release_at_ms: None },
    }
}

pub open spec fn is_quarantined_at(record: FailureRecord, now_ms: u64) -> bool {
    record.release_at_ms matches Some(release_at) && now_ms < release_at
}

/// A failure while quarantined changes nothing. Otherwise the count restarts when the
/// previous failure is a window or more ago, goes up by one (saturating), and reaching the
/// threshold quarantines the plugin for the quarantine duration (or not at all when that
/// time does not fit the clock). The result is the new record and, when the plugin is (still)
/// quarantined, its failure count.
pub open spec fn spec_record_failure(
    record: Option<FailureRecord>,
    now_ms: u64,
    threshold: u32,
    duration_ms: u64,
) -> (FailureRecord, Option<u32>) {
    let current = record_or_new(record, now_ms);
    if is_quarantined_at(current, now_ms) {
        (current, Some(current.count))
    } else {
        let elapsed = if now_ms >= current.last_failure_ms {
            now_ms - current.last_failure_ms
        } else {
            0
        };
        let base = if elapsed >= FAILURE_WINDOW_MS {
            0
        } else {
            current.count
        };
        let count: u32 = if base == u32::MAX {
            u32::MAX
        } else {
            (base + 1) as u32
        };
        if count >= threshold {
            let release_at_ms = if now_ms + duration_ms <= u64::MAX {
                Some((now_ms + duration_ms) as u64)
            } else {
                None
            };
            (FailureRecord { count, last_failure_ms: now_ms, release_at_ms }, Some(count))
        } else {
            (FailureRecord { count, last_failure_ms: now_ms, release_at_ms: current.release_at_ms }, None)
        }
    }
}

/// The quarantine of a plugin: none without a record or a release time; otherwise its
/// failure count and the time left until release (zero once it has passed).
pub open spec fn spec_quarantine_status(record: Option<FailureRecord>, now_ms: u64) -> Option<
    WorkerQuarantineStatus,
> {
    match record {
        Some(record) => match record.release_at_ms {
            Some(release_at) => Some(
                WorkerQuarantineStatus {
                    failures: record.count,
                    release_after_ms: if now_ms < release_at {
                        (release_at - now_ms) as u128
                    } else {
                        0
                    },
                },
            ),
            None => None,
        },
        None => None,
    }
}

/// The record of `key` in a list of (plugin, record) entries.
pub open spec fn lookup(entries: Seq<(Seq<char>, FailureRecord)>, key: Seq<char>) -> Option<FailureRecord>
    decreases entries.len(),
{
    if entries.len() == 0 {
        None
    } else if entries.last().0 == key {
        Some(entries.last().1)
    } else {
        lookup(entries.drop_last(), key)
    }
}

pub open spec fn unique_keys(entries: Seq<(Seq<char>, FailureRecord)>) -> bool {
    forall|i: int, j: int| 0 <= i < j < entries.len() ==> entries[i].0 != entries[j].0
}

pub proof fn lemma_lookup_absent(entries: Seq<(Seq<char>, FailureRecord)>, key: Seq<char>)
    requires
        forall|i: int| 0 <= i < entries.len() ==> (#[trigger] entries[i]).0 != key,
    ensures
        lookup(entries, key) is None,
    decreases entries.len(),
{
    if entries.len() > 0 {
        assert(entries.last() == entries[entries.len() - 1]);
        lemma_lookup_absent(entries.drop_last(), key);
    }
}

pub proof fn lemma_lookup_present(entries: Seq<(Seq<char>, FailureRecord)>, index: int)
    requires
        unique_keys(entries),
        0 <= index < entries.len(),
    ensures
        lookup(entries, entries[index].0) == Some(entries[index].1),
    decreases entries.len(),
{
    if index < entries.len() - 1 {
        assert(entries.last() == entries[entries.len() - 1]);
        assert(entries.drop_last()[index] == entries[index]);
        lemma_lookup_present(entries.drop_last(), index);
    }
}

/// Looking up a key: the record of the one entry with that key, or none.
pub proof fn lemma_lookup_characterization(entries: Seq<(Seq<char>, FailureRecord)>, key: Seq<char>)
    requires
        unique_keys(entries),
    ensures
        (exists|i: int| 0 <= i < entries.len() && #[trigger] entries[i].0 == key) ==> (forall|i: int|
            0 <= i < entries.len() && #[trigger] entries[i].0 == key ==> lookup(entries, key) == Some(entries[i].1)),
        !(exists|i: int| 0 <= i < entries.len() && #[trigger] entries[i].0 == key) ==> lookup(entries, key) is None,
{
    assert forall|i: int| 0 <= i < entries.len() && #[trigger] entries[i].0 == key implies lookup(entries, key)
        == Some(entries[i].1) by {
        lemma_lookup_present(entries, i);
    }
    if !(exists|i: int| 0 <= i < entries.len() && #[trigger] entries[i].0 == key) {
        lemma_lookup_absent(entries, key);
    }
}

/// The failure counts and quarantines of plugins, by plugin id.
#[derive(Debug)]
pub struct WorkerFailureTracker {
    entries: Vec<(String, FailureRecord)>,
    quarantine_duration_ms: u64,
    quarantine_failure_threshold: u32,
}

impl WorkerFailureTracker {
    pub closed spec fn entries(&self) -> Seq<(Seq<char>, FailureRecord)> {
        self.entries@.map_values(|entry: (String, FailureRecord)| (entry.0@, entry.1))
    }

    /// The record of a plugin.
    pub open spec fn record_of(&self, plugin_id: Seq<char>) -> Option<FailureRecord> {
        lookup(self.entries(), plugin_id)
    }

    pub closed spec fn quarantine_duration_ms(&self) -> u64 {
        self.quarantine_duration_ms
    }

    pub closed spec fn quarantine_failure_threshold(&self) -> u32 {
        self.quarantine_failure_threshold
    }

    /// Every plugin has at most one record.
    pub open spec fn wf(&self) -> bool {
        unique_keys(self.entries())
    }

    /// A tracker without records; the threshold is at least one failure.
    pub fn new(quarantine_duration_ms: u64, quarantine_failure_threshold: u32) -> (tracker: Self)
        ensures
            tracker.wf(),
            forall|plugin_id: Seq<char>| tracker.record_of(plugin_id) is None,
            tracker.quarantine_duration_ms() == quarantine_duration_ms,
            tracker.quarantine_failure_threshold() == if quarantine_failure_threshold < 1 {
                1
            } else {
                quarantine_failure_threshold
            },
    {
        let tracker = WorkerFailureTracker {
            entries: Vec::new(),
            quarantine_duration_ms,
            quarantine_failure_threshold: if quarantine_failure_threshold < 1 {
                1
            } else {
                quarantine_failure_threshold
            },
        };
        assert(tracker.entries() =~= Seq::<(Seq<char>, FailureRecord)>::empty());
        tracker
    }

    fn find(&self, plugin_id: &str) -> (index: Option<usize>)
        requires
            self.wf(),
        ensures
            match index {
                Some(i) => i < self.entries().len() && self.entries()[i as int].0 == plugin_id@
                    && self.record_of(plugin_id@) == Some(self.entries()[i as int].1),
                None => self.record_of(plugin_id@) is None && forall|i: int|
                    0 <= i < self.entries().len() ==> (#[trigger] self.entries()[i]).0 != plugin_id@,
            },
    {
        let wanted = String::from_str(plugin_id);
        let mut index: usize = 0;
        while index < self.entries.len()
            invariant
                index <= self.entries@.len(),
                self.wf(),
                wanted@ == plugin_id@,
                forall|i: int| 0 <= i < index ==> (#[trigger] self.entries()[i]).0 != plugin_id@,
            decreases self.entries@.len() - index,
        {
            if self.entries[index].0 == wanted {
                proof {
                    lemma_lookup_present(self.entries(), index as int);
                }
                return Some(index);
            }
            index = index + 1;
        }
        proof {
            lemma_lookup_absent(self.entries(), plugin_id@);
        }
        None
    }

    /// The quarantine of a plugin at `now_ms`.
    pub fn quarantine_status(&self, plugin_id: &str, now_ms: u64) -> (status: Option<WorkerQuarantineStatus>)
        requires
            self.wf(),
        ensures
            status == spec_quarantine_status(self.record_of(plugin_id@), now_ms),
    {
        let index = match self.find(plugin_id) {
            Some(index) => index,
            None => {
                return None;
            },
        };
        let record = self.entries[index].1;
        match record.release_at_ms {
            Some(release_at) => Some(
                WorkerQuarantineStatus {
                    failures: record.count,
                    release_after_ms: if now_ms < release_at {
                        (release_at - now_ms) as u128
                    } else {
                        0
                    },
                },
            ),
            None => None,
        }
    }

    /// The failure count of a quarantine, if there is one.
    pub fn quarantine_failures(&self, plugin_id: &str, now_ms: u64) -> (failures: Option<u32>)
        requires
            self.wf(),
        ensures
            failures == match spec_quarantine_status(self.record_of(plugin_id@), now_ms) {
                Some(status) => Some(status.failures),
                None => None,
            },
    {
        match self.quarantine_status(plugin_id, now_ms) {
            Some(status) => Some(status.failures),
            None => None,
        }
    }

    fn remove_at(&mut self, index: usize)
        requires
            old(self).wf(),
            index < old(self).entries().len(),
        ensures
            final(self).wf(),
            final(self).quarantine_duration_ms() == old(self).quarantine_duration_ms(),
            final(self).quarantine_failure_threshold() == old(self).quarantine_failure_threshold(),
            forall|key: Seq<char>|
                #[trigger] final(self).record_of(key) == if key == old(self).entries()[index as int].0 {
                    None
                } else {
                    old(self).record_of(key)
                },
    {
        let ghost before = self.entries();
        let ghost removed = before[index as int].0;
        self.entries.remove(index);
        let ghost after = self.entries();
        assert(after =~= before.remove(index as int));
        assert forall|key: Seq<char>| #[trigger] lookup(after, key) == if key == removed {
            None
        } else {
            lookup(before, key)
        } by {
            lemma_lookup_characterization(before, key);
            lemma_lookup_characterization(after, key);
            if key != removed {
                if exists|i: int| 0 <= i < before.len() && #[trigger] before[i].0 == key {
                    let i = choose|i: int| 0 <= i < before.len() && #[trigger] before[i].0 == key;
                    let j = if i < index { i } else { i - 1 };
                    assert(after[j] == before[i]);
                } else {
                    assert forall|j: int| 0 <= j < after.len() implies #[trigger] after[j].0 != key by {
                        if j < index {
                            assert(after[j] == before[j]);
                        } else {
                            assert(after[j] == before[j + 1]);
                        }
                    }
                }
            } else {
                assert forall|j: int| 0 <= j < after.len() implies #[trigger] after[j].0 != key by {
                    if j < index {
                        assert(after[j] == before[j]);
                    } else {
                        assert(after[j] == before[j + 1]);
                    }
                }
            }
        }
    }

    fn set_at(&mut self, index: usize, record: FailureRecord)
        requires
            old(self).wf(),
            index < old(self).entries().len(),
        ensures
            final(self).wf(),
            final(self).quarantine_duration_ms() == old(self).quarantine_duration_ms(),
            final(self).quarantine_failure_threshold() == old(self).quarantine_failure_threshold(),
            forall|key: Seq<char>|
                #[trigger] final(self).record_of(key) == if key == old(self).entries()[index as int].0 {
                    Some(record)
                } else {
                    old(self).record_of(key)
                },
    {
        let ghost before = self.entries();
        let ghost updated = before[index as int].0;
        self.entries.set(index, (self.entries[index].0.clone(), record));
        let ghost after = self.entries();
        assert(after =~= before.update(index as int, (updated, record)));
        assert forall|key: Seq<char>| #[trigger] lookup(after, key) == if key == updated {
            Some(record)
        } else {
            lookup(before, key)
        } by {
            lemma_lookup_characterization(before, key);
            lemma_lookup_characterization(after, key);
            if key != updated {
                if exists|i: int| 0 <= i < before.len() && #[trigger] before[i].0 == key {
                    let i = choose|i: int| 0 <= i < before.len() && #[trigger] before[i].0 == key;
                    assert(after[i] == before[i]);
                } else {
                    assert forall|j: int| 0 <= j < after.len() implies #[trigger] after[j].0 != key by {
                        if j != index {
                            assert(after[j] == before[j]);
                        }
                    }
                }
            } else {
                assert(after[index as int].0 == key);
            }
        }
    }

    fn insert_new(&mut self, plugin_id: &str, record: FailureRecord)
        requires
            old(self).wf(),
            old(self).record_of(plugin_id@) is None,
            forall|i: int| 0 <= i < old(self).entries().len() ==> (#[trigger] old(self).entries()[i]).0 != plugin_id@,
        ensures
            final(self).wf(),
            final(self).quarantine_duration_ms() == old(self).quarantine_duration_ms(),
            final(self).quarantine_failure_threshold() == old(self).quarantine_failure_threshold(),
            forall|key: Seq<char>|
                #[trigger] final(self).record_of(key) == if key == plugin_id@ {
                    Some(record)
                } else {
                    old(self).record_of(key)
                },
    {
        let ghost before = self.entries();
        self.entries.push((String::from_str(plugin_id), record));
        let ghost after = self.entries();
        assert(after =~= before.push((plugin_id@, record)));
        assert forall|key: Seq<char>| #[trigger] lookup(after, key) == if key == plugin_id@ {
            Some(record)
        } else {
            lookup(before, key)
        } by {
            assert(after.drop_last() =~= before);
        }
    }

    /// Counts a failure of a plugin's worker at `now_ms` as `spec_record_failure` says, and
    /// gives the plugin's failure count when it is quarantined.
    pub fn record_failure(&mut self, plugin_id: &str, now_ms: u64) -> (quarantined: Option<u32>)
        requires
            old(self).wf(),
        ensures
            final(self).wf(),
            final(self).quarantine_duration_ms() == old(self).quarantine_duration_ms(),
            final(self).quarantine_failure_threshold() == old(self).quarantine_failure_threshold(),
            ({
                let (record, result) = spec_record_failure(
                    old(self).record_of(plugin_id@),
                    now_ms,
                    old(self).quarantine_failure_threshold(),
                    old(self).quarantine_duration_ms(),
                );
                &&& quarantined == result
                &&& forall|key: Seq<char>|
                    #[trigger] final(self).record_of(key) == if key == plugin_id@ {
                        Some(record)
                    } else {
                        old(self).record_of(key)
                    }
            }),
    {
        let found = self.find(plugin_id);
        let current = match found {
            Some(index) => self.entries[index].1,
            None => FailureRecord { count: 0, last_failure_ms: now_ms, release_at_ms: None },
        };
        let ghost spec_result = spec_record_failure(
            self.record_of(plugin_id@),
            now_ms,
            self.quarantine_failure_threshold,
            self.quarantine_duration_ms,
        );
        let (record, result) = if match current.release_at_ms {
            Some(release_at) => now_ms < release_at,
            None => false,
        } {
            (current, Some(current.count))
        } else {
            let elapsed = if now_ms >= current.last_failure_ms {
                now_ms - current.last_failure_ms
            } else {
                0
            };
            let base = if elapsed >= FAILURE_WINDOW_MS {
                0
            } else {
                current.count
            };
            let count = base.saturating_add(1);
            if count >= self.quarantine_failure_threshold {
                let release_at_ms = now_ms.checked_add(self.quarantine_duration_ms);
                (FailureRecord { count, last_failure_ms: now_ms, release_at_ms }, Some(count))
            } else {
                (FailureRecord { count, last_failure_ms: now_ms, release_at_ms: current.release_at_ms }, None)
            }
        };
        assert((record, result) == spec_result);
        match found {
            Some(index) => self.set_at(index, record),
            None => self.insert_new(plugin_id, record),
        }
        result
    }

    /// Forgets a plugin whose quarantine has ended, giving its failure count; nothing
    /// changes while it is quarantined or not quarantined at all.
    pub fn release_expired_quarantine(&mut self, plugin_id: &str, now_ms: u64) -> (released: Option<u32>)
        requires
            old(self).wf(),
        ensures
            final(self).wf(),
            final(self).quarantine_duration_ms() == old(self).quarantine_duration_ms(),
            final(self).quarantine_failure_threshold() == old(self).quarantine_failure_threshold(),
            match old(self).record_of(plugin_id@) {
                Some(record) if record.release_at_ms matches Some(release_at) && now_ms >= release_at => {
                    &&& released == Some(record.count)
                    &&& forall|key: Seq<char>|
                        #[trigger] final(self).record_of(key) == if key == plugin_id@ {
                            None
                        } else {
                            old(self).record_of(key)
                        }
                },
                _ => released is None && forall|key: Seq<char>| #[trigger] final(self).record_of(key) == old(
                    self,
                ).record_of(key),
            },
    {
        let index = match self.find(plugin_id) {
            Some(index) => index,
            None => {
                return None;
            },
        };
        let record = self.entries[index].1;
        let release_at = match record.release_at_ms {
            Some(release_at) => release_at,
            None => {
                return None;
            },
        };
        if now_ms < release_at {
            return None;
        }
        self.remove_at(index);
        Some(record.count)
    }

    /// Refuses a plugin that is quarantined at `now_ms` with the time left; a plugin whose
    /// quarantine has ended is forgotten and admitted.
    pub fn reject_if_quarantined(&mut self, plugin_id: &str, now_ms: u64) -> (result: Result<(), WorkerSupervisorError>)
        requires
            old(self).wf(),
        ensures
            final(self).wf(),
            final(self).quarantine_duration_ms() == old(self).quarantine_duration_ms(),
            final(self).quarantine_failure_threshold() == old(self).quarantine_failure_threshold(),
            match old(self).record_of(plugin_id@) {
                Some(record) => match record.release_at_ms {
                    Some(release_at) => if now_ms < release_at {
                        &&& result matches Err(
                            WorkerSupervisorError::Quarantined { plugin_id: refused, failures, release_after_ms },
                        )
                        &&& refused@ == plugin_id@
                        &&& failures == record.count
                        &&& release_after_ms == release_at - now_ms
                        &&& forall|key: Seq<char>| #[trigger] final(self).record_of(key) == old(self).record_of(key)
                    } else {
                        &&& result is Ok
                        &&& forall|key: Seq<char>|
                            #[trigger] final(self).record_of(key) == if key == plugin_id@ {
                                None
                            } else {
                                old(self).record_of(key)
                            }
                    },
                    None => result is Ok && forall|key: Seq<char>| #[trigger] final(self).record_of(key) == old(
                        self,
                    ).record_of(key),
                },
                None => result is Ok && forall|key: Seq<char>| #[trigger] final(self).record_of(key) == old(
                    self,
                ).record_of(key),
            },
    {
        let index = match self.find(plugin_id) {
            Some(index) => index,
            None => {
                return Ok(());
            },
        };
        let record = self.entries[index].1;
        if let Some(release_at) = record.release_at_ms {
            if now_ms < release_at {
                return Err(
                    WorkerSupervisorError::Quarantined {
                        plugin_id: String::from_str(plugin_id),
                        failures: record.count,
                        release_after_ms: (release_at - now_ms) as u128,
                    },
                );
            }
            self.remove_at(index);
        }
        Ok(())
    }
}

/// The record after failures at the given times, one after another.
pub open spec fn record_failures(
    record: Option<FailureRecord>,
    times: Seq<u64>,
    threshold: u32,
    duration_ms: u64,
) -> Option<FailureRecord>
    decreases times.len(),
{
    if times.len() == 0 {
        record
    } else {
        Some(spec_record_failure(record_failures(record, times.drop_last(), threshold, duration_ms), times.last(), threshold, duration_ms).0)
    }
}

/// Failures that each come less than a window after the one before, at times that do not
/// go back.
pub open spec fn close_together(times: Seq<u64>) -> bool {
    forall|i: int| 0 < i < times.len() ==> times[i - 1] <= #[trigger] times[i] && times[i] - times[i - 1] < FAILURE_WINDOW_MS
}

proof fn lemma_failures_below_threshold(times: Seq<u64>, threshold: u32, duration_ms: u64)
    requires
        times.len() < threshold,
        close_together(times),
    ensures
        times.len() > 0 ==> record_failures(None, times, threshold, duration_ms) == Some(
            FailureRecord { count: times.len() as u32, last_failure_ms: times.last(), release_at_ms: None },
        ),
    decreases times.len(),
{
    if times.len() > 1 {
        let prefix = times.drop_last();
        assert forall|i: int| 0 < i < prefix.len() implies prefix[i - 1] <= #[trigger] prefix[i] && prefix[i]
            - prefix[i - 1] < FAILURE_WINDOW_MS by {
            assert(prefix[i] == times[i] && prefix[i - 1] == times[i - 1]);
        }
        lemma_failures_below_threshold(prefix, threshold, duration_ms);
        assert(times[times.len() - 1] == times.last());
        assert(prefix.last() == times[times.len() - 2]);
        let before = record_failures(None, prefix, threshold, duration_ms);
        assert(before == Some(FailureRecord { count: prefix.len() as u32, last_failure_ms: prefix.last(), release_at_ms: None }));
        assert(times.last() >= prefix.last());
        assert(times.last() - prefix.last() < FAILURE_WINDOW_MS);
        assert(!is_quarantined_at(before->0, times.last()));
        assert(spec_record_failure(before, times.last(), threshold, duration_ms).0 == FailureRecord { count: times.len() as u32, last_failure_ms: times.last(), release_at_ms: None });
    } else if times.len() == 1 {
        assert(times.drop_last() =~= Seq::<u64>::empty());
        assert(record_failures(None, times.drop_last(), threshold, duration_ms) is None);
    }
}

/// A plugin is quarantined by as many failures as the threshold, each less than a window
/// after the one before: its count is the threshold and its release comes the quarantine
/// duration after the last failure.
pub proof fn lemma_quarantine_after_threshold_failures(times: Seq<u64>, threshold: u32, duration_ms: u64)
    requires
        threshold >= 1,
        times.len() == threshold,
        close_together(times),
        times.last() + duration_ms <= u64::MAX,
    ensures
        record_failures(None, times, threshold, duration_ms) == Some(
            FailureRecord {
                count: threshold,
                last_failure_ms: times.last(),
                release_at_ms: Some((times.last() + duration_ms) as u64),
            },
        ),
{
    let prefix = times.drop_last();
    assert forall|i: int| 0 < i < prefix.len() implies prefix[i - 1] <= #[trigger] prefix[i] && prefix[i]
        - prefix[i - 1] < FAILURE_WINDOW_MS by {
        assert(prefix[i] == times[i] && prefix[i - 1] == times[i - 1]);
    }
    lemma_failures_below_threshold(prefix, threshold, duration_ms);
    let before = record_failures(None, prefix, threshold, duration_ms);
    if prefix.len() > 0 {
        assert(times[times.len() - 1] == times.last());
        assert(prefix.last() == times[times.len() - 2]);
        assert(times.last() >= prefix.last());
        assert(!is_quarantined_at(before->0, times.last()));
    } else {
        assert(prefix =~= Seq::<u64>::empty());
        assert(before is None);
    }
    assert(spec_record_failure(before, times.last(), threshold, duration_ms).0 == FailureRecord {
        count: threshold,
        last_failure_ms: times.last(),
        release_at_ms: Some((times.last() + duration_ms) as u64),
    });
}

/// A failure during a quarantine neither extends nor resets it.
pub proof fn lemma_failure_while_quarantined_changes_nothing(
    record: FailureRecord,
    now_ms: u64,
    threshold: u32,
    duration_ms: u64,
)
    requires
        is_quarantined_at(record, now_ms),
    ensures
        spec_record_failure(Some(record), now_ms, threshold, duration_ms) == (record, Some(record.count)),
{
}

/// Failures a window or more apart do not add up: such a failure counts as the first, and
/// quarantines nothing unless one failure is the threshold.
pub proof fn lemma_isolated_failures_do_not_accumulate(
    record: FailureRecord,
    now_ms: u64,
    threshold: u32,
    duration_ms: u64,
)
    requires
        !is_quarantined_at(record, now_ms),
        now_ms >= record.last_failure_ms + FAILURE_WINDOW_MS,
        threshold > 1,
    ensures
        spec_record_failure(Some(record), now_ms, threshold, duration_ms) == (
            FailureRecord { count: 1, last_failure_ms: now_ms, release_at_ms: record.release_at_ms },
            None::<u32>,
        ),
{
}

/// The methods that load plugin state and so get the load timeout rather than the IPC one.
pub open spec fn spec_uses_load_timeout(method: Seq<char>) -> bool {
    ||| method == "instance.create"@
    ||| method == "instance.setState"@
    ||| method == "instance.setUnitProgramData"@
    ||| method == "instance.programData.set"@
    ||| method == "instance.unitData.set"@
}

pub fn uses_load_timeout(method: &str) -> (load: bool)
    ensures
        load == spec_uses_load_timeout(method@),
{
    let method = String::from_str(method);
    method == String::from_str("instance.create") || method == String::from_str("instance.setState")
        || method == String::from_str("instance.setUnitProgramData") || method == String::from_str(
        "instance.programData.set",
    ) || method == String::from_str("instance.unitData.set")
}

/// How long a worker may take to answer `method`: the load timeout for state loading, the
/// IPC timeout for everything else.
pub fn request_timeout(method: &str, timeout: Duration, load_timeout: Duration) -> (budget: Duration)
    ensures
        budget == if spec_uses_load_timeout(method@) {
            load_timeout
        } else {
            timeout
        },
{
    if uses_load_timeout(method) {
        load_timeout
    } else {
        timeout
    }
}

} // verus!
