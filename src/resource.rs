//! Nice values of processes, process groups and users.
use vstd::prelude::*;

verus! {

/// Kernel code naming a process.
pub const PRIO_PROCESS: i32 = 0;

/// Kernel code naming a process group.
pub const PRIO_PGRP: i32 = 1;

/// Kernel code naming a user.
pub const PRIO_USER: i32 = 2;

/// Which kind of identifier a priority call names (`pid`, `gid`, or `uid`).
#[derive(Debug, Clone, Copy, PartialEq, Eq, Structural)]
pub enum Which {
    Process,
    Group,
    User,
}

/// The kernel's code for `which`.
pub open spec fn which_code(which: Which) -> i32 {
    match which {
        Which::Process => PRIO_PROCESS,
        Which::Group => PRIO_PGRP,
        Which::User => PRIO_USER,
    }
}

impl Which {
    /// The kernel's code for this kind of identifier.
    pub fn code(&self) -> (r: i32)
        ensures
            r == which_code(*self),
    {
        match self {
            Which::Process => PRIO_PROCESS,
            Which::Group => PRIO_PGRP,
            Which::User => PRIO_USER,
        }
    }
}

/// A call of `setpriority(which, who, priority)`.
pub struct SetPriority {
    pub which: i32,
    pub who: i32,
    pub priority: i32,
}

/// A call of `getpriority(which, who)`.
pub struct GetPriority {
    pub which: i32,
    pub who: i32,
}

/// Sets the nice value of the caller's own `which` (its process, group or user).
///
/// Priorities are usually in the range -20..19, dependent on the system.
pub fn set_self_priority(which: Which, priority: i32) -> (r: SetPriority)
    ensures
        r.which == which_code(which),
        r.who == 0,
        r.priority == priority,
{
    set_priority(which, 0, priority)
}

/// Sets the nice value of the process, group or user `who` (0: the caller's own).
///
/// Priorities are usually in the range -20..19, dependent on the system.
pub fn set_priority(which: Which, who: i32, priority: i32) -> (r: SetPriority)
    ensures
        r.which == which_code(which),
        r.who == who,
        r.priority == priority,
{
    SetPriority { which: which.code(), who, priority }
}

/// Reads the nice value of the caller's own `which` (its process, group or user).
pub fn get_self_priority(which: Which) -> (r: GetPriority)
    ensures
        r.which == which_code(which),
        r.who == 0,
{
    get_priority(which, 0)
}

/// Reads the nice value of the process, group or user `who` (0: the caller's own).
pub fn get_priority(which: Which, who: i32) -> (r: GetPriority)
    ensures
        r.which == which_code(which),
        r.who == who,
{
    GetPriority { which: which.code(), who }
}

/// The result of `getpriority`, given what it returned and the error number that
/// the thread saw after the call, cleared before it. A negative value is a valid
/// priority: only the error number tells a failure.
pub fn priority_outcome(value: i32, errno: i32) -> (r: Result<i32, ()>)
    ensures
        r == if errno == 0 {
            Ok::<i32, ()>(value)
        } else {
            Err::<i32, ()>(())
        },
{
    if errno == 0 {
        Ok(value)
    } else {
        Err(())
    }
}

} // verus!
