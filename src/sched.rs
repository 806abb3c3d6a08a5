//! Scheduling policies and CPU affinity of processes and threads.
use vstd::prelude::*;
use crate::cpuset::{zero_words, CpuSet};

verus! {

/// Kernel code of the default time-shared policy.
pub const SCHED_OTHER: i32 = 0;

/// Kernel code of the real-time first-in first-out policy.
pub const SCHED_FIFO: i32 = 1;

/// Kernel code of the real-time round-robin policy.
pub const SCHED_RR: i32 = 2;

/// Kernel code of the batch policy.
pub const SCHED_BATCH: i32 = 3;

/// Kernel code of the policy for very low priority background work.
pub const SCHED_IDLE: i32 = 5;

/// Kernel code of the deadline policy.
pub const SCHED_DEADLINE: i32 = 6;

/// Policies that may be set.
///
/// Not all of these are usable with a plain priority: `Deadline` needs more
/// parameters than the priority that `set_policy` passes.
#[derive(Debug, Clone, Copy, PartialEq, Eq, Structural)]
pub enum Policy {
    Other,
    Fifo,
    RoundRobin,
    Batch,
    Idle,
    Deadline,
}

/// The kernel's code for `policy`.
pub open spec fn policy_code(policy: Policy) -> i32 {
    match policy {
        Policy::Other => SCHED_OTHER,
        Policy::Fifo => SCHED_FIFO,
        Policy::RoundRobin => SCHED_RR,
        Policy::Batch => SCHED_BATCH,
        Policy::Idle => SCHED_IDLE,
        Policy::Deadline => SCHED_DEADLINE,
    }
}

impl Policy {
    /// The kernel's code for this policy.
    pub fn code(&self) -> (r: i32)
        ensures
            r == policy_code(*self),
    {
        match self {
            Policy::Other => SCHED_OTHER,
            Policy::Fifo => SCHED_FIFO,
            Policy::RoundRobin => SCHED_RR,
            Policy::Batch => SCHED_BATCH,
            Policy::Idle => SCHED_IDLE,
            Policy::Deadline => SCHED_DEADLINE,
        }
    }
}

/// Why reading a policy failed.
#[derive(Debug, Clone, Copy, PartialEq, Eq, Structural)]
pub enum PolicyError {
    /// The kernel refused the call.
    Rejected,
    /// The kernel answered with a code that names none of the known policies.
    Unknown(i32),
}

/// A call of `sched_setscheduler(pid, policy, &sched_param { sched_priority: priority })`.
pub struct SetScheduler {
    pub pid: i32,
    pub policy: i32,
    pub priority: i32,
}

/// A call of `sched_getscheduler(pid)`.
pub struct GetScheduler {
    pub pid: i32,
}

/// A call of `sched_setaffinity(pid, mask.len(), mask)`.
pub struct SetAffinity {
    pub pid: i32,
    pub mask: CpuSet,
}

/// A call of `sched_getaffinity(pid, mask.len(), mask)`; the kernel fills `mask`.
pub struct GetAffinity {
    pub pid: i32,
    pub mask: CpuSet,
}

/// The result of a call whose return value is 0 on success: `Ok` exactly then.
pub fn status_outcome(ret: i32) -> (r: Result<(), ()>)
    ensures
        r is Ok <==> ret == 0,
{
    if ret == 0 {
        Ok(())
    } else {
        Err(())
    }
}

/// Sets the scheduling policy of this process.
pub fn set_self_policy(policy: Policy, priority: i32) -> (r: SetScheduler)
    ensures
        r.pid == 0,
        r.policy == policy_code(policy),
        r.priority == priority,
{
    set_policy(0, policy, priority)
}

/// Sets the scheduling policy of process `pid` (0: this one), with `priority`
/// as its static priority.
pub fn set_policy(pid: i32, policy: Policy, priority: i32) -> (r: SetScheduler)
    ensures
        r.pid == pid,
        r.policy == policy_code(policy),
        r.priority == priority,
{
    SetScheduler { pid, policy: policy.code(), priority }
}

/// Reads the scheduling policy of this process.
pub fn get_self_policy() -> (r: GetScheduler)
    ensures
        r.pid == 0,
{
    get_policy(0)
}

/// Reads the scheduling policy of process `pid` (0: this one).
pub fn get_policy(pid: i32) -> (r: GetScheduler)
    ensures
        r.pid == pid,
{
    GetScheduler { pid }
}

/// The policy that the code `ret` names, `-1` being the kernel's refusal.
pub open spec fn policy_of(ret: i32) -> Result<Policy, PolicyError> {
    if ret == SCHED_OTHER {
        Ok(Policy::Other)
    } else if ret == SCHED_FIFO {
        Ok(Policy::Fifo)
    } else if ret == SCHED_RR {
        Ok(Policy::RoundRobin)
    } else if ret == SCHED_BATCH {
        Ok(Policy::Batch)
    } else if ret == SCHED_IDLE {
        Ok(Policy::Idle)
    } else if ret == SCHED_DEADLINE {
        Ok(Policy::Deadline)
    } else if ret == -1 {
        Err(PolicyError::Rejected)
    } else {
        Err(PolicyError::Unknown(ret))
    }
}

/// The result of `sched_getscheduler`, given what it returned.
pub fn policy_outcome(ret: i32) -> (r: Result<Policy, PolicyError>)
    ensures
        r == policy_of(ret),
{
    match ret {
        SCHED_OTHER => Ok(Policy::Other),
        SCHED_FIFO => Ok(Policy::Fifo),
        SCHED_RR => Ok(Policy::RoundRobin),
        SCHED_BATCH => Ok(Policy::Batch),
        SCHED_IDLE => Ok(Policy::Idle),
        SCHED_DEADLINE => Ok(Policy::Deadline),
        -1 => Err(PolicyError::Rejected),
        _ => Err(PolicyError::Unknown(ret)),
    }
}

/// Sets the CPU affinity of the calling thread. See `set_affinity`.
pub fn set_self_affinity(cpuset: CpuSet) -> (r: SetAffinity)
    ensures
        r.pid == 0,
        r.mask == cpuset,
{
    set_affinity(0, cpuset)
}

/// Sets the CPU affinity of thread `pid` (0: the calling one) to `cpuset`.
pub fn set_affinity(pid: i32, cpuset: CpuSet) -> (r: SetAffinity)
    ensures
        r.pid == pid,
        r.mask == cpuset,
{
    SetAffinity { pid, mask: cpuset }
}

/// Reads the CPU affinity of the calling thread. See `get_affinity`.
pub fn get_self_affinity(num_cpus: usize) -> (r: GetAffinity)
    ensures
        r.pid == 0,
        r.mask.wf(),
        r.mask@ == zero_words(num_cpus as nat),
{
    get_affinity(0, num_cpus)
}

/// Reads the CPU affinity of thread `pid` (0: the calling one) into a new set
/// with room for at least `num_cpus` CPUs.
pub fn get_affinity(pid: i32, num_cpus: usize) -> (r: GetAffinity)
    ensures
        r.pid == pid,
        r.mask.wf(),
        r.mask@ == zero_words(num_cpus as nat),
{
    GetAffinity { pid, mask: CpuSet::new(num_cpus) }
}

/// The result of `sched_getaffinity`, given what it returned and the words it
/// filled: the set over those words where it returned 0 and they form a mask.
pub fn affinity_outcome(ret: i32, words: Vec<u64>) -> (r: Result<CpuSet, ()>)
    ensures
        r is Ok <==> (ret == 0 && 1 <= words@.len() <= usize::MAX / 8),
        r matches Ok(s) ==> s.wf() && s@ == words@,
{
    if ret != 0 {
        Err(())
    } else {
        match CpuSet::from_words(words) {
            Some(s) => Ok(s),
            None => Err(()),
        }
    }
}

} // verus!
