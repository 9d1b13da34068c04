//! Every step of the kernel keeps the invariant of its state.
use vstd::prelude::*;
use crate::loader::AppImageView;
use crate::task::control_block::TaskStatus;
use crate::task::control_block::TaskView;
use crate::task::state::KernelView;

verus! {

/// A value is in a sequence with one more element exactly if it was in the
/// sequence before or is that element.
pub proof fn lemma_push_contains(s: Seq<usize>, last: usize, value: usize)
    ensures
        s.push(last).contains(value) <==> s.contains(value) || value == last,
{
    if s.contains(value) {
        let i = choose|i: int| 0 <= i < s.len() && s[i] == value;
        assert(s.push(last)[i] == value);
    }
    if value == last {
        assert(s.push(last)[s.len() as int] == value);
    }
}

/// Taking the element at `index` out of a sequence without duplicates
/// leaves a sequence without duplicates that holds the other elements.
pub proof fn lemma_remove_contains(s: Seq<usize>, index: int, value: usize)
    requires
        s.no_duplicates(),
        0 <= index < s.len(),
    ensures
        s.remove(index).no_duplicates(),
        s.remove(index).contains(value) <==> s.contains(value) && value != s[index],
{
    let r = s.remove(index);
    if s.contains(value) && value != s[index] {
        let i = choose|i: int| 0 <= i < s.len() && s[i] == value;
        let ri = if i < index { i } else { i - 1 };
        assert(r[ri] == value);
    }
}

/// The state right after start-up meets the invariant.
pub proof fn lemma_boot_wf(image: AppImageView)
    ensures
        KernelView::boot(image).wf(),
{
}

/// Replacing the record of a task keeps the invariant as long as the
/// status, the parent and the children of the task stay.
pub proof fn lemma_update_task_wf(s: KernelView, pid: usize, task: TaskView)
    requires
        s.wf(),
        s.tasks.contains_key(pid),
        task.status == s.tasks[pid].status,
        task.parent == s.tasks[pid].parent,
        task.children == s.tasks[pid].children,
    ensures
        s.update_task(pid, task).wf(),
{
    let t = s.update_task(pid, task);
    assert forall|parent: usize, child: usize| #[trigger]
        t.is_child(parent, child) <==> t.tasks.contains_key(child) && t.tasks[child].parent == Some(
            parent,
        ) by {
        assert(t.is_child(parent, child) == s.is_child(parent, child));
    }
}

/// A ready task that is not queued may join the ready queue.
pub proof fn lemma_add_task_wf(s: KernelView, pid: usize)
    requires
        s.wf(),
        s.tasks.contains_key(pid),
        s.tasks[pid].status == TaskStatus::Ready,
        !s.ready.contains(pid),
    ensures
        s.add_task(pid).wf(),
{
    let t = s.add_task(pid);
    assert forall|parent: usize, child: usize| #[trigger]
        t.is_child(parent, child) <==> t.tasks.contains_key(child) && t.tasks[child].parent == Some(
            parent,
        ) by {
        assert(t.is_child(parent, child) == s.is_child(parent, child));
    }
}

/// Taking the head out of the ready queue keeps the invariant, and the task
/// taken is ready and no longer queued.
pub proof fn lemma_fetch_task_wf(s: KernelView)
    requires
        s.wf(),
    ensures
        s.fetch_task().wf(),
        s.ready.len() > 0 ==> s.tasks.contains_key(s.ready[0]) && s.tasks[s.ready[0]].status
            == TaskStatus::Ready && !s.fetch_task().ready.contains(s.ready[0]),
{
    let t = s.fetch_task();
    if s.ready.len() > 0 {
        assert forall|parent: usize, child: usize| #[trigger]
            t.is_child(parent, child) <==> t.tasks.contains_key(child) && t.tasks[child].parent
                == Some(parent) by {
            assert(t.is_child(parent, child) == s.is_child(parent, child));
        }
    }
}

/// An idle processor that takes the head of the ready queue keeps the
/// invariant.
pub proof fn lemma_run_next_wf(s: KernelView)
    requires
        s.wf(),
        s.current is None,
    ensures
        s.run_next().wf(),
        s.ready.len() > 0 ==> s.run_next().current == Some(s.ready[0]),
        s.ready.len() == 0 ==> s.run_next() == s,
{
    let t = s.run_next();
    if s.ready.len() > 0 {
        assert forall|parent: usize, child: usize| #[trigger]
            t.is_child(parent, child) <==> t.tasks.contains_key(child) && t.tasks[child].parent
                == Some(parent) by {
            assert(t.is_child(parent, child) == s.is_child(parent, child));
        }
    }
}

/// The running task may give up the processor and join the ready queue.
pub proof fn lemma_suspend_current_wf(s: KernelView)
    requires
        s.wf(),
        s.current is Some,
    ensures
        s.suspend_current().wf(),
        s.suspend_current().current is None,
        s.suspend_current().ready.len() > 0,
{
    let t = s.suspend_current();
    assert forall|parent: usize, child: usize| #[trigger]
        t.is_child(parent, child) <==> t.tasks.contains_key(child) && t.tasks[child].parent == Some(
            parent,
        ) by {
        assert(t.is_child(parent, child) == s.is_child(parent, child));
    }
}

/// The running task may exit.
pub proof fn lemma_exit_current_wf(s: KernelView, code: i32)
    requires
        s.wf(),
        s.current is Some,
    ensures
        s.exit_current(code).wf(),
        s.exit_current(code).current is None,
{
    let t = s.exit_current(code);
    assert forall|parent: usize, child: usize| #[trigger]
        t.is_child(parent, child) <==> t.tasks.contains_key(child) && t.tasks[child].parent == Some(
            parent,
        ) by {
        assert(t.is_child(parent, child) == s.is_child(parent, child));
    }
}

/// The running task may get a new child under an identity that no task
/// has, if the record of the child names the running task as its parent,
/// has no children and is ready.
pub proof fn lemma_add_child_wf(s: KernelView, child: usize, task: TaskView)
    requires
        s.wf(),
        s.current is Some,
        !s.tasks.contains_key(child),
        child < isize::MAX,
        task.parent == Some(s.running()),
        task.children.len() == 0,
        task.status == TaskStatus::Ready,
    ensures
        s.add_child(child, task).wf(),
        s.add_child(child, task).tasks.contains_key(child),
        !s.add_child(child, task).ready.contains(child),
        child != 0,
{
    let t = s.add_child(child, task);
    let pid = s.running();
    assert(!s.is_child(pid, child));
    assert forall|parent: usize, other: usize| #[trigger]
        t.is_child(parent, other) <==> t.tasks.contains_key(other) && t.tasks[other].parent == Some(
            parent,
        ) by {
        if parent == child {
            assert(!s.is_child(child, other));
        } else if parent == pid {
            lemma_push_contains(s.tasks[pid].children, child, other);
            assert(s.is_child(pid, other) == s.tasks[pid].children.contains(other));
        } else {
            assert(t.is_child(parent, other) == s.is_child(parent, other));
        }
    }
}

/// The running task may collect a child that is a zombie.
pub proof fn lemma_reap_wf(s: KernelView, index: int)
    requires
        s.wf(),
        s.current is Some,
        0 <= index < s.current_task().children.len(),
        s.tasks[s.current_task().children[index]].status == TaskStatus::Zombie,
    ensures
        s.reap(index).wf(),
        !s.reap(index).tasks.contains_key(s.current_task().children[index]),
        !s.reap(index).is_child(s.running(), s.current_task().children[index]),
        s.reap(index).current == s.current,
        s.reap(index).ready == s.ready,
{
    let t = s.reap(index);
    let pid = s.running();
    let children = s.tasks[pid].children;
    let child = children[index];
    assert(s.is_child(pid, child));
    assert forall|parent: usize, other: usize| #[trigger]
        t.is_child(parent, other) <==> t.tasks.contains_key(other) && t.tasks[other].parent == Some(
            parent,
        ) by {
        if parent == pid {
            lemma_remove_contains(children, index, other);
            assert(s.is_child(pid, other) == children.contains(other));
        } else if parent != child {
            assert(t.is_child(parent, other) == s.is_child(parent, other));
        }
    }
}

/// A fork under an identity that no task has keeps the invariant.
pub proof fn lemma_fork_wf(s: KernelView, child: usize)
    requires
        s.wf(),
        s.current is Some,
        !s.tasks.contains_key(child),
        child < isize::MAX,
    ensures
        s.fork(child).wf(),
{
    let copy = s.current_task().forked(s.running());
    let task = TaskView { trap_cx: copy.trap_cx.with_return_value(0), ..copy };
    lemma_add_child_wf(s, child, task);
    lemma_add_task_wf(s.add_child(child, task), child);
}

/// A spawn under an identity that no task has keeps the invariant.
pub proof fn lemma_spawn_wf(s: KernelView, child: usize, image: AppImageView)
    requires
        s.wf(),
        s.current is Some,
        !s.tasks.contains_key(child),
        child < isize::MAX,
    ensures
        s.spawn(child, image).wf(),
{
    let task = TaskView::from_image(image, Some(s.running()));
    lemma_add_child_wf(s, child, task);
    lemma_add_task_wf(s.add_child(child, task), child);
}

/// Replacing the program of the running task keeps the invariant.
pub proof fn lemma_exec_wf(s: KernelView, image: AppImageView)
    requires
        s.wf(),
        s.current is Some,
    ensures
        s.exec(image).wf(),
{
    lemma_update_task_wf(s, s.running(), s.current_task().exec(image));
}

/// A request to map or to unmap keeps the invariant, granted or refused.
pub proof fn lemma_mapping_wf(s: KernelView, start: usize, len: usize, port: usize)
    requires
        s.wf(),
        s.current is Some,
    ensures
        s.mmap(start, len, port).wf(),
        s.munmap(start, len).wf(),
{
    lemma_update_task_wf(s, s.running(), s.mmap(start, len, port).tasks[s.running()]);
    lemma_update_task_wf(s, s.running(), s.munmap(start, len).tasks[s.running()]);
}

/// A yield keeps the invariant, and some task runs after it.
pub proof fn lemma_yield_wf(s: KernelView)
    requires
        s.wf(),
        s.current is Some,
    ensures
        s.suspend_current().run_next().wf(),
        s.suspend_current().run_next().current is Some,
{
    lemma_suspend_current_wf(s);
    lemma_run_next_wf(s.suspend_current());
}

/// An exit keeps the invariant.
pub proof fn lemma_exit_wf(s: KernelView, code: i32)
    requires
        s.wf(),
        s.current is Some,
    ensures
        s.exit_current(code).run_next().wf(),
{
    lemma_exit_current_wf(s, code);
    lemma_run_next_wf(s.exit_current(code));
}

/// A wait keeps the invariant, whatever it returns.
pub proof fn lemma_wait_wf(s: KernelView, selector: isize)
    requires
        s.wf(),
        s.current is Some,
    ensures
        s.wait(selector).wf(),
{
    if s.has_collectable(selector) {
        let index = s.wait_index(selector);
        lemma_reap_wf(s, index);
    }
}

} // verus!
