//! Scheduling control for processes and threads: CPU affinity masks, scheduling
//! policies and nice values.
//!
//! The library holds no system call. Each accessor returns the request that the
//! kernel is to receive, and a companion function turns the kernel's answer into
//! the accessor's result; the caller performs the call in between.
mod cpuset;
mod resource;
mod sched;

pub use cpuset::{CpuSet, ScalarMask};
pub use resource::{
    get_priority, get_self_priority, priority_outcome, set_priority, set_self_priority,
    GetPriority, SetPriority, Which, PRIO_PGRP, PRIO_PROCESS, PRIO_USER,
};
pub use sched::{
    affinity_outcome, get_affinity, get_policy, get_self_affinity, get_self_policy,
    policy_outcome, set_affinity, set_policy, set_self_affinity, set_self_policy,
    status_outcome, GetAffinity, GetScheduler, Policy, PolicyError, SetAffinity, SetScheduler,
    SCHED_BATCH, SCHED_DEADLINE, SCHED_FIFO, SCHED_IDLE, SCHED_OTHER, SCHED_RR,
};
