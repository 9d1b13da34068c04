//! What the system calls guarantee beyond a single call: how the results of
//! a fork relate, what a wait finds, and how requests to map and to unmap
//! undo each other.
use vstd::prelude::*;
use crate::mm::address::in_page_range;
use crate::mm::address::page_aligned;
use crate::mm::mapping::any_page_mapped;
use crate::mm::mapping::lemma_mmap_then_munmap;
use crate::mm::mapping::mmap_result;
use crate::mm::mapping::munmap_result;
use crate::mm::permission::valid_port;
use crate::task::context::REG_A0;
use crate::loader::AppImageView;
use crate::task::control_block::TaskStatus;
use crate::task::preservation::lemma_fork_wf;
use crate::task::state::wait_selects;
use crate::task::state::KernelView;

verus! {

/// A fork hands different results to parent and child: the parent gets the
/// identity of the child, which is positive, and the child will see 0. The
/// child is recorded under the identity that the parent got, names the
/// forking task as its parent, is the last of its children, and waits at the
/// tail of the ready queue.
pub proof fn lemma_fork_results(s: KernelView, child: usize)
    requires
        s.wf(),
        s.current is Some,
        !s.tasks.contains_key(child),
        child < isize::MAX,
    ensures
        child > 0,
        s.fork(child).tasks.contains_key(child),
        s.fork(child).tasks[child].trap_cx.return_value() == 0,
        s.fork(child).tasks[child].trap_cx.return_value() != child,
        s.fork(child).tasks[child].parent == Some(s.running()),
        s.fork(child).tasks[child].memory == s.current_task().memory,
        s.fork(child).tasks[child].trap_cx.sepc == s.current_task().trap_cx.sepc,
        forall|i: int|
            0 <= i < 32 && i != REG_A0 ==> s.fork(child).tasks[child].trap_cx.x[i]
                == s.current_task().trap_cx.x[i],
        s.fork(child).current_task().children == s.current_task().children.push(child),
        s.fork(child).ready == s.ready.push(child),
        s.fork(child).current == s.current,
{
}

/// When the forking task yields right after the fork and no other task was
/// ready, the child runs next, and the identity that it then reads as its
/// own is the one that the fork returned to the parent.
pub proof fn lemma_forked_child_runs(s: KernelView, child: usize)
    requires
        s.wf(),
        s.current is Some,
        !s.tasks.contains_key(child),
        child < isize::MAX,
        s.ready.len() == 0,
    ensures
        s.fork(child).suspend_current().run_next().running() == child,
        s.fork(child).suspend_current().run_next().current_task().trap_cx.return_value() == 0,
{
    lemma_fork_wf(s, child);
}

/// A wait by a task without children returns -1 and changes nothing.
pub proof fn lemma_wait_without_children(s: KernelView, selector: isize)
    requires
        s.current_task().children.len() == 0,
    ensures
        s.wait_result(selector) == -1,
        s.wait(selector) == s,
{
}

/// A wait for an identity that is not among the children of the running
/// task returns -1 and changes nothing, whether or not the task has other
/// children.
pub proof fn lemma_wait_for_stranger(s: KernelView, selector: isize)
    requires
        selector != -1,
        forall|i: int|
            0 <= i < s.current_task().children.len() ==> s.current_task().children[i] != selector,
    ensures
        s.wait_result(selector) == -1,
        s.wait(selector) == s,
{
}

/// A wait that picks some child, while no child that it picks is a zombie,
/// returns -2 and changes nothing.
pub proof fn lemma_wait_for_unfinished(s: KernelView, selector: isize)
    requires
        s.has_selected_child(selector),
        forall|i: int|
            0 <= i < s.current_task().children.len() && wait_selects(
                selector,
                s.current_task().children[i],
            ) ==> s.tasks[s.current_task().children[i]].status != TaskStatus::Zombie,
    ensures
        s.wait_result(selector) == -2,
        s.wait(selector) == s,
{
}

/// A wait that picks a zombie returns the identity of a child that the
/// selector picks and that is a zombie, and hands out the exit code of that
/// child. Afterwards the child is neither among the children of the running
/// task nor anywhere in the kernel, and the other children are still there
/// in their order.
pub proof fn lemma_wait_collects(s: KernelView, selector: isize, index: int)
    requires
        s.wf(),
        s.current is Some,
        s.collectable(selector, index),
    ensures
        s.has_collectable(selector),
        0 <= s.wait_index(selector) <= index,
        s.wait_result(selector) == s.current_task().children[s.wait_index(selector)],
        s.wait_result(selector) >= 0,
        wait_selects(selector, s.wait_result(selector) as usize),
        s.tasks[s.wait_result(selector) as usize].status == TaskStatus::Zombie,
        forall|code: i32|
            s.wait_exit_code(selector, code) == s.tasks[s.wait_result(selector) as usize].exit_code,
        !s.wait(selector).tasks.contains_key(s.wait_result(selector) as usize),
        !s.wait(selector).is_child(s.running(), s.wait_result(selector) as usize),
        s.wait(selector).current_task().children == s.current_task().children.remove(
            s.wait_index(selector),
        ),
{
    lemma_first_collectable(s, selector, index);
}

/// Where some child can be collected, there is a first one.
proof fn lemma_first_collectable(s: KernelView, selector: isize, index: int)
    requires
        s.collectable(selector, index),
    ensures
        s.has_collectable(selector),
    decreases index,
{
    if exists|j: int| 0 <= j < index && s.collectable(selector, j) {
        let j = choose|j: int| 0 <= j < index && s.collectable(selector, j);
        lemma_first_collectable(s, selector, j);
    } else {
        assert(s.first_collectable(selector, index));
    }
}

/// A zombie is owned by the children of its parent alone: it is not in the
/// ready queue and does not hold the processor.
pub proof fn lemma_zombie_is_unowned(s: KernelView, pid: usize)
    requires
        s.wf(),
        s.tasks.contains_key(pid),
        s.tasks[pid].status == TaskStatus::Zombie,
    ensures
        !s.ready.contains(pid),
        s.current != Some(pid),
{
}

/// Whether task `pid` is a zombie with the exit code `code`.
pub open spec fn is_zombie_with(s: KernelView, pid: usize, code: i32) -> bool {
    &&& s.tasks.contains_key(pid)
    &&& s.tasks[pid].status == TaskStatus::Zombie
    &&& s.tasks[pid].exit_code == code
}

/// A task that has exited never runs again and keeps its exit code: through
/// every system call of the running task it stays a zombie, until a wait of
/// its parent collects it.
pub proof fn lemma_zombie_waits(
    s: KernelView,
    zombie: usize,
    code: i32,
    child: usize,
    image: AppImageView,
    exit_code: i32,
    start: usize,
    len: usize,
    port: usize,
    selector: isize,
)
    requires
        s.wf(),
        s.current is Some,
        is_zombie_with(s, zombie, code),
        !s.tasks.contains_key(child),
    ensures
        is_zombie_with(s.suspend_current().run_next(), zombie, code),
        is_zombie_with(s.exit_current(exit_code).run_next(), zombie, code),
        is_zombie_with(s.fork(child), zombie, code),
        is_zombie_with(s.spawn(child, image), zombie, code),
        is_zombie_with(s.exec(image), zombie, code),
        is_zombie_with(s.mmap(start, len, port), zombie, code),
        is_zombie_with(s.munmap(start, len), zombie, code),
        is_zombie_with(s.wait(selector), zombie, code) || s.wait_result(selector) == zombie,
{
}

/// When the running task maps a range whose pages are all free and unmaps
/// the same range right after, both requests are granted and the whole
/// kernel state is again what it was.
pub proof fn lemma_mmap_then_munmap_restores(s: KernelView, start: usize, len: usize, port: usize)
    requires
        s.wf(),
        s.current is Some,
        page_aligned(start),
        valid_port(port),
        !any_page_mapped(s.current_task().memory, start, len),
    ensures
        mmap_result(s.current_task().memory, start, len, port) == 0,
        munmap_result(s.mmap(start, len, port).current_task().memory, start, len) == 0,
        s.mmap(start, len, port).munmap(start, len) == s,
        forall|vpn: usize|
            in_page_range(start, len, vpn) ==> !s.mmap(start, len, port).munmap(
                start,
                len,
            ).current_task().memory.contains_key(vpn),
{
    lemma_mmap_then_munmap(s.current_task().memory, start, len, port);
}

/// After the running task has been granted a request to map, a second
/// request of the same task that shares a page with the first is refused and
/// leaves the kernel state as the first request left it.
pub proof fn lemma_second_mmap_refused(
    s: KernelView,
    start1: usize,
    len1: usize,
    port1: usize,
    start2: usize,
    len2: usize,
    port2: usize,
)
    requires
        s.wf(),
        s.current is Some,
        mmap_result(s.current_task().memory, start1, len1, port1) == 0,
        exists|vpn: usize| in_page_range(start1, len1, vpn) && in_page_range(start2, len2, vpn),
    ensures
        mmap_result(s.mmap(start1, len1, port1).current_task().memory, start2, len2, port2) == -1,
        s.mmap(start1, len1, port1).mmap(start2, len2, port2) == s.mmap(start1, len1, port1),
{
}

} // verus!
