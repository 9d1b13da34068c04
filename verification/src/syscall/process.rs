//! The system calls on tasks and on their address spaces.
//!
//! Each call acts on the task that holds the processor. A call takes the
//! kernel state by exclusive reference, so no state is ever seen half
//! changed, and takes what it reads from or writes to user memory as plain
//! references, which the caller has to have validated.
use vstd::prelude::*;
use vstd::std_specs::convert::FromSpecImpl;
use crate::config::MAX_SYSCALL_NUM;
use crate::loader::Loader;
use crate::mm::mapping::mmap_result;
use crate::mm::mapping::munmap_result;
use crate::task::control_block::TaskControlBlock;
use crate::task::control_block::TaskStatus;
use crate::task::kernel::add_task;
use crate::task::kernel::mmap;
use crate::task::kernel::munmap;
use crate::task::kernel::Kernel;
use crate::task::state::wait_selects;

verus! {

/// A point in time as seconds and microseconds.
#[derive(Clone, Copy, Debug)]
pub struct TimeVal {
    /// Whole seconds.
    pub sec: usize,
    /// Microseconds on top of the seconds.
    pub usec: usize,
}

/// What the kernel reports about a task.
#[derive(Clone, Copy)]
pub struct TaskInfo {
    /// Where the task stands in its life.
    pub status: TaskStatus,
    /// How often the task has made each system call.
    pub syscall_times: [u32; MAX_SYSCALL_NUM],
    /// For how long the task has been running, in milliseconds.
    pub time: usize,
}

/// Number of microseconds in a second.
pub const USEC_PER_SEC: usize = 1_000_000;

impl From<TimeVal> for usize {
    /// The point in time in microseconds, wrapped to the size of a word.
    fn from(tv: TimeVal) -> (usec: usize)
        ensures
            tv.sec * USEC_PER_SEC + tv.usec <= usize::MAX ==> usec == tv.sec * USEC_PER_SEC
                + tv.usec,
    {
        proof {
            let product = tv.sec as nat * USEC_PER_SEC as nat;
            if product + tv.usec <= usize::MAX {
                vstd::arithmetic::div_mod::lemma_small_mod(
                    product,
                    (usize::MAX - usize::MIN + 1) as nat,
                );
            }
        }
        tv.sec.wrapping_mul(USEC_PER_SEC).wrapping_add(tv.usec)
    }
}

impl FromSpecImpl<TimeVal> for usize {
    open spec fn obeys_from_spec() -> bool {
        true
    }

    open spec fn from_spec(tv: TimeVal) -> usize {
        tv.sec.wrapping_mul(USEC_PER_SEC).wrapping_add(tv.usec)
    }
}

/// Ends the running task with the exit code `exit_code` and gives the
/// processor to the next ready task. The task that exits is never resumed:
/// it stays a zombie until its parent collects it.
pub fn sys_exit(kernel: &mut Kernel, exit_code: i32)
    requires
        old(kernel).wf(),
        old(kernel)@.current is Some,
    ensures
        final(kernel).wf(),
        final(kernel)@ == old(kernel)@.exit_current(exit_code).run_next(),
{
    kernel.exit_current_and_run_next(exit_code);
}

/// The running task gives up the processor: it joins the tail of the ready
/// queue and the head of the queue runs. Always returns 0.
pub fn sys_yield(kernel: &mut Kernel) -> (result: isize)
    requires
        old(kernel).wf(),
        old(kernel)@.current is Some,
    ensures
        final(kernel).wf(),
        final(kernel)@ == old(kernel)@.suspend_current().run_next(),
        result == 0,
{
    kernel.suspend_current_and_run_next();
    0
}

/// The identity of the running task. Changes nothing.
pub fn sys_getpid(kernel: &Kernel) -> (result: isize)
    requires
        kernel.wf(),
        kernel@.current is Some,
    ensures
        result == kernel@.running(),
{
    kernel.current_task().unwrap() as isize
}

/// Creates a copy of the running task as its child. Returns the identity of
/// the child to the parent; the child will see 0 as the result when it first
/// runs.
pub fn sys_fork(kernel: &mut Kernel) -> (result: isize)
    requires
        old(kernel).wf(),
        old(kernel)@.current is Some,
        old(kernel)@.has_free_pid(),
    ensures
        final(kernel).wf(),
        result > 0,
        old(kernel)@.is_fresh_pid(result as usize),
        final(kernel)@ == old(kernel)@.fork(result as usize),
{
    let current = kernel.current_task().unwrap();
    let new_pid = kernel.alloc_pid();
    let mut new_task = kernel.task(current).unwrap().fork(new_pid);
    // the child resumes right after this call, where fork returns 0 to it
    new_task.trap_cx.set_return_value(0);
    kernel.add_child(new_task);
    // hand the child to the scheduler
    add_task(kernel, new_pid);
    new_pid as isize
}

/// Replaces the program of the running task by the one that `loader` knows
/// as `path`. Returns 0, or -1 if there is no such program; then nothing
/// changes.
pub fn sys_exec(kernel: &mut Kernel, loader: &Loader, path: &str) -> (result: isize)
    requires
        old(kernel).wf(),
        old(kernel)@.current is Some,
        loader.wf(),
    ensures
        final(kernel).wf(),
        loader@.contains_key(path@) ==> result == 0 && final(kernel)@ == old(kernel)@.exec(
            loader@[path@],
        ),
        !loader@.contains_key(path@) ==> result == -1 && final(kernel)@ == old(kernel)@,
{
    if let Some(data) = loader.get_app_data_by_name(path) {
        kernel.exec_current(data);
        0
    } else {
        -1
    }
}

/// Whether the selector of a wait picks the child `child`.
fn selects(pid: isize, child: usize) -> (picked: bool)
    ensures
        picked == wait_selects(pid, child),
{
    pid == -1 || (pid >= 0 && pid as usize == child)
}

/// Collects a zombie child of the running task. The selector `pid` is -1
/// for any child, or the identity of one child.
///
/// Returns -1 if the selector picks no child of the running task, and -2 if
/// it picks children but none of them is a zombie; in both cases nothing
/// changes. Otherwise the first zombie that the selector picks, in the order
/// of the children, leaves the kernel for good: its exit code is written to
/// `exit_code` and its identity is returned.
pub fn sys_waitpid(kernel: &mut Kernel, pid: isize, exit_code: &mut i32) -> (result: isize)
    requires
        old(kernel).wf(),
        old(kernel)@.current is Some,
    ensures
        final(kernel).wf(),
        result == old(kernel)@.wait_result(pid),
        final(kernel)@ == old(kernel)@.wait(pid),
        *final(exit_code) == old(kernel)@.wait_exit_code(pid, *old(exit_code)),
{
    let current = kernel.current_task().unwrap();
    let task = kernel.task(current).unwrap();
    let ghost before = kernel@;
    // is there a child that the selector picks?
    let mut any = false;
    let mut i: usize = 0;
    while i < task.children.len()
        invariant
            i <= task.children@.len(),
            task.children@ == before.current_task().children,
            any <==> exists|k: int| 0 <= k < i && wait_selects(pid, #[trigger] task.children@[k]),
        decreases task.children@.len() - i,
    {
        if selects(pid, task.children[i]) {
            any = true;
        }
        i += 1;
    }
    if !any {
        return -1;
    }
    // the first of them that is a zombie
    let mut found: Option<usize> = None;
    let mut idx: usize = 0;
    while idx < task.children.len() && found.is_none()
        invariant
            idx <= task.children@.len(),
            kernel.wf(),
            before == kernel@,
            before.tasks.contains_key(current),
            before.current == Some(current),
            task.children@ == before.current_task().children,
            forall|j: int| 0 <= j < idx ==> !before.collectable(pid, j),
            found matches Some(at) ==> at == idx && before.collectable(pid, idx as int),
        decreases task.children@.len() - idx + (if found is None { 1int } else { 0int }),
    {
        let child = task.children[idx];
        proof {
            assert(before.is_child(current, child));
        }
        if selects(pid, child) && kernel.task(child).unwrap().is_zombie() {
            found = Some(idx);
        } else {
            idx += 1;
        }
    }
    match found {
        Some(idx) => {
            proof {
                let child = before.current_task().children[idx as int];
                assert(before.is_child(current, child));
                assert(before.first_collectable(pid, idx as int));
            }
            let child = kernel.remove_child(idx);
            let found_pid = child.getpid();
            *exit_code = child.exit_code;
            found_pid as isize
        },
        None => {
            -2
        },
    }
}

/// Fills `ts` with the time `us`, given in microseconds since start-up, as
/// seconds and microseconds. The time zone `_tz` is not used. Always
/// returns 0.
pub fn sys_get_time(us: usize, ts: &mut TimeVal, _tz: usize) -> (result: isize)
    ensures
        result == 0,
        final(ts).sec == us / USEC_PER_SEC,
        final(ts).usec == us % USEC_PER_SEC,
        final(ts).sec * USEC_PER_SEC + final(ts).usec == us,
{
    *ts = TimeVal { sec: us / USEC_PER_SEC, usec: us % USEC_PER_SEC };
    0
}

/// Priorities are not kept: the call changes nothing and always returns -1.
pub fn sys_set_priority(_prio: isize) -> (result: isize)
    ensures
        result == -1,
{
    -1
}

/// Task statistics are not kept: the call leaves `_ti` as it is and always
/// returns 0.
pub fn sys_task_info(_ti: &mut TaskInfo) -> (result: isize)
    ensures
        result == 0,
        *final(_ti) == *old(_ti),
{
    0
}

/// Maps the bytes `[start, start + len)` in the address space of the
/// running task with the permission mask `port`. Returns 0, or -1 if `start`
/// is not page aligned, if `port` is zero or has a bit above bit 2, or if a
/// page of the range is mapped already; then nothing changes.
pub fn sys_mmap(kernel: &mut Kernel, start: usize, len: usize, port: usize) -> (result: isize)
    requires
        old(kernel).wf(),
        old(kernel)@.current is Some,
    ensures
        final(kernel).wf(),
        result == mmap_result(old(kernel)@.current_task().memory, start, len, port),
        final(kernel)@ == old(kernel)@.mmap(start, len, port),
{
    mmap(kernel, start, len, port)
}

/// Unmaps the bytes `[start, start + len)` in the address space of the
/// running task. Returns 0, or -1 if `start` is not page aligned or if a page
/// of the range is not mapped; then nothing changes.
pub fn sys_munmap(kernel: &mut Kernel, start: usize, len: usize) -> (result: isize)
    requires
        old(kernel).wf(),
        old(kernel)@.current is Some,
    ensures
        final(kernel).wf(),
        result == munmap_result(old(kernel)@.current_task().memory, start, len),
        final(kernel)@ == old(kernel)@.munmap(start, len),
{
    munmap(kernel, start, len)
}

/// Creates a child of the running task that starts the program that
/// `loader` knows as `path`. Nothing of the address space of the parent is
/// copied. Returns the identity of the child, or -1 if there is no such
/// program; then no task is created and nothing changes.
pub fn sys_spawn(kernel: &mut Kernel, loader: &Loader, path: &str) -> (result: isize)
    requires
        old(kernel).wf(),
        old(kernel)@.current is Some,
        loader.wf(),
        loader@.contains_key(path@) ==> old(kernel)@.has_free_pid(),
    ensures
        final(kernel).wf(),
        loader@.contains_key(path@) ==> result > 0 && old(kernel)@.is_fresh_pid(result as usize)
            && final(kernel)@ == old(kernel)@.spawn(result as usize, loader@[path@]),
        !loader@.contains_key(path@) ==> result == -1 && final(kernel)@ == old(kernel)@,
{
    if let Some(data) = loader.get_app_data_by_name(path) {
        let parent = kernel.current_task().unwrap();
        let pid = kernel.alloc_pid();
        let mut task = TaskControlBlock::new(pid, data);
        task.parent = Some(parent);
        kernel.add_child(task);
        add_task(kernel, pid);
        pid as isize
    } else {
        -1
    }
}

} // verus!
