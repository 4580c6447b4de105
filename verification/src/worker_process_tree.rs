use vstd::prelude::*;

verus! {

/// `rustix::process::Pid::from_raw` and `kill_process_group` with `SIGTERM`: whether the
/// signal was delivered depends on the operating system, so nothing is promised of it.
#[verifier::external_body]
fn signal_term_to_process_group(process_group_id: i32) -> (delivered: bool)
    requires
        process_group_id > 0,
{
    match rustix::process::Pid::from_raw(process_group_id) {
        Some(pid) => rustix::process::kill_process_group(pid, rustix::process::Signal::TERM).is_ok(),
        None => false,
    }
}

/// `rustix::process::Pid::from_raw` and `kill_process_group` with `SIGKILL`: whether the
/// signal was delivered depends on the operating system, so nothing is promised of it.
#[verifier::external_body]
fn signal_kill_to_process_group(process_group_id: i32) -> (delivered: bool)
    requires
        process_group_id > 0,
{
    match rustix::process::Pid::from_raw(process_group_id) {
        Some(pid) => rustix::process::kill_process_group(pid, rustix::process::Signal::KILL).is_ok(),
        None => false,
    }
}

/// The process group of a worker, which the worker leads, so that its whole process tree
/// can be signalled.
#[derive(Debug, Clone, Copy, PartialEq, Eq)]
pub struct WorkerTerminationTarget {
    process_group_id: Option<u32>,
}

/// A signal can be sent only to a known, nonzero process group.
pub open spec fn has_signal_target(process_group_id: Option<u32>) -> bool {
    process_group_id matches Some(id) && id != 0
}

impl WorkerTerminationTarget {
    pub closed spec fn process_group_id(&self) -> Option<u32> {
        self.process_group_id
    }

    /// The target of a spawned worker, from its process id (absent once it was reaped).
    pub fn from_process_id(process_id: Option<u32>) -> (target: Self)
        ensures
            target.process_group_id() == process_id,
    {
        WorkerTerminationTarget { process_group_id: process_id }
    }

    /// The process group a signal goes to: the worker's own group, when it is known and
    /// nonzero.
    pub fn signal_group(self) -> (group: Option<i32>)
        requires
            self.process_group_id() matches Some(id) ==> id <= i32::MAX,
        ensures
            group == (if has_signal_target(self.process_group_id()) {
                Some(self.process_group_id()->0 as i32)
            } else {
                None
            }),
            group matches Some(id) ==> id > 0,
    {
        match self.process_group_id {
            Some(id) if id != 0 => Some(id as i32),
            _ => None,
        }
    }

    /// Asks the worker's process tree to stop: `SIGTERM` to the group `signal_group` gives;
    /// false when there is no such group or the signal was not delivered.
    pub fn terminate_tree(self) -> (delivered: bool)
        requires
            self.process_group_id() matches Some(id) ==> id <= i32::MAX,
        ensures
            delivered ==> has_signal_target(self.process_group_id()),
    {
        match self.signal_group() {
            Some(group) => signal_term_to_process_group(group),
            None => false,
        }
    }

    /// Kills the worker's process tree: `SIGKILL` to the group `signal_group` gives; false
    /// when there is no such group or the signal was not delivered.
    pub fn kill_tree(self) -> (delivered: bool)
        requires
            self.process_group_id() matches Some(id) ==> id <= i32::MAX,
        ensures
            delivered ==> has_signal_target(self.process_group_id()),
    {
        match self.signal_group() {
            Some(group) => signal_kill_to_process_group(group),
            None => false,
        }
    }
}

} // verus!
