//! The kernel state in memory: the table of tasks, the ready queue and the
//! processor, with the steps that change them.
use vstd::prelude::*;
use crate::loader::AppImage;
use crate::mm::mapping::mmap_result;
use crate::mm::mapping::munmap_result;
use crate::task::control_block::TaskControlBlock;
use crate::task::control_block::TaskStatus;
use crate::task::control_block::TaskView;
use crate::task::manager::TaskManager;
use crate::task::preservation::lemma_add_child_wf;
use crate::task::preservation::lemma_add_task_wf;
use crate::task::preservation::lemma_exit_current_wf;
use crate::task::preservation::lemma_fetch_task_wf;
use crate::task::preservation::lemma_reap_wf;
use crate::task::preservation::lemma_run_next_wf;
use crate::task::preservation::lemma_suspend_current_wf;
use crate::task::preservation::lemma_update_task_wf;
use crate::task::state::KernelView;

verus! {

/// The tasks that a table of slots holds, by identity: slot `pid` holds the
/// task `pid` or nothing.
spec fn slots_view(slots: Seq<Option<TaskControlBlock>>) -> Map<usize, TaskView> {
    Map::new(
        |pid: usize| pid < slots.len() && slots[pid as int] is Some,
        |pid: usize| slots[pid as int]->0@,
    )
}

/// Every task sits in the slot of its identity and is well formed, and the
/// identities fit a signed word.
spec fn slots_inv(slots: Seq<Option<TaskControlBlock>>) -> bool {
    &&& slots.len() <= isize::MAX
    &&& forall|i: int|
        0 <= i < slots.len() ==> (#[trigger] slots[i] matches Some(task) ==> task.pid == i
            && task.wf())
}

/// Filling or replacing one slot changes the view at that identity only.
proof fn lemma_slot_update(slots: Seq<Option<TaskControlBlock>>, pid: usize, task: TaskControlBlock)
    requires
        pid < slots.len(),
    ensures
        slots_view(slots.update(pid as int, Some(task))) == slots_view(slots).insert(pid, task@),
{
}

/// A new slot at the end adds the task under the identity of that slot.
proof fn lemma_slot_push(slots: Seq<Option<TaskControlBlock>>, task: TaskControlBlock)
    requires
        slots.len() < usize::MAX,
    ensures
        slots_view(slots.push(Some(task))) == slots_view(slots).insert(slots.len() as usize, task@),
{
    assert(slots_view(slots.push(Some(task))) =~= slots_view(slots).insert(
        slots.len() as usize,
        task@,
    ));
}

/// The whole state of the kernel core: every task, the ready queue, and the
/// task on the processor.
pub struct Kernel {
    tasks: Vec<Option<TaskControlBlock>>,
    manager: TaskManager,
    current: Option<usize>,
}

impl View for Kernel {
    type V = KernelView;

    /// The state as a mathematical value.
    closed spec fn view(&self) -> KernelView {
        KernelView { tasks: slots_view(self.tasks@), ready: self.manager@, current: self.current }
    }
}

impl Kernel {
    /// The representation invariant of the task table.
    pub closed spec fn inv(&self) -> bool {
        slots_inv(self.tasks@)
    }

    /// The state is well formed: the table is sound and the state that it
    /// stands for meets the invariant of the kernel.
    pub open spec fn wf(&self) -> bool {
        self.inv() && self@.wf()
    }

    /// Starts the kernel with its first task, made from `image`. The task
    /// gets the identity 0 and waits in the ready queue; nothing runs yet.
    pub fn new(image: &AppImage) -> (kernel: Self)
        requires
            image.wf(),
        ensures
            kernel.wf(),
            kernel@ == KernelView::boot(image@),
    {
        let mut tasks: Vec<Option<TaskControlBlock>> = Vec::new();
        tasks.push(Some(TaskControlBlock::new(0, image)));
        let mut manager = TaskManager::new();
        manager.add(0);
        Kernel { tasks, manager, current: None }
    }

    /// The identity of the task that holds the processor, if any does.
    pub fn current_task(&self) -> (pid: Option<usize>)
        ensures
            pid == self@.current,
    {
        self.current
    }

    /// The control block of task `pid`, if the task exists.
    pub fn task(&self, pid: usize) -> (found: Option<&TaskControlBlock>)
        requires
            self.wf(),
        ensures
            match found {
                Some(task) => self@.tasks.contains_key(pid) && task@ == self@.tasks[pid] && task.pid
                    == pid && task.wf(),
                None => !self@.tasks.contains_key(pid),
            },
    {
        if pid < self.tasks.len() {
            self.tasks[pid].as_ref()
        } else {
            None
        }
    }

    /// The ready queue.
    pub fn manager(&self) -> (manager: &TaskManager)
        ensures
            manager@ == self@.ready,
    {
        &self.manager
    }

    /// The least identity that no task has.
    pub fn alloc_pid(&self) -> (pid: usize)
        requires
            self.wf(),
        ensures
            self@.is_fresh_pid(pid),
            pid <= isize::MAX,
            pid < isize::MAX <==> self@.has_free_pid(),
    {
        let mut pid: usize = 0;
        while pid < self.tasks.len() && self.tasks[pid].is_some()
            invariant
                pid <= self.tasks@.len(),
                self.inv(),
                forall|other: usize| other < pid ==> self@.tasks.contains_key(other),
            decreases self.tasks@.len() - pid,
        {
            pid += 1;
        }
        proof {
            assert(!self@.tasks.contains_key(pid));
            if self@.has_free_pid() {
                let free = choose|free: usize| free < isize::MAX && !self@.tasks.contains_key(free);
                assert(pid <= free);
            }
        }
        pid
    }

    /// Whether an identity is left for one more task.
    pub fn has_free_pid(&self) -> (free: bool)
        requires
            self.wf(),
        ensures
            free == self@.has_free_pid(),
    {
        self.alloc_pid() < isize::MAX as usize
    }

    /// Gives the running task the new child `task`. The child is recorded
    /// under its own identity and joins the end of the children of the
    /// running task; it is not queued yet.
    pub fn add_child(&mut self, task: TaskControlBlock)
        requires
            old(self).wf(),
            old(self)@.current is Some,
            old(self)@.is_fresh_pid(task.pid),
            task.pid < isize::MAX,
            task.wf(),
            task@.parent == Some(old(self)@.running()),
            task@.children.len() == 0,
            task@.status == TaskStatus::Ready,
        ensures
            final(self).wf(),
            final(self)@ == old(self)@.add_child(task.pid, task@),
    {
        let pid = self.current.unwrap();
        let child = task.pid;
        let ghost view = task@;
        let parent = self.tasks[pid].as_mut().unwrap();
        parent.children.push(child);
        let ghost linked = self.tasks@;
        proof {
            lemma_slot_update(old(self).tasks@, pid, linked[pid as int]->0);
            if child > self.tasks@.len() {
                assert(!self@.tasks.contains_key(self.tasks@.len() as usize));
            }
        }
        if child < self.tasks.len() {
            self.tasks[child] = Some(task);
            proof {
                lemma_slot_update(linked, child, task);
            }
        } else {
            self.tasks.push(Some(task));
            proof {
                lemma_slot_push(linked, task);
            }
        }
        proof {
            lemma_add_child_wf(old(self)@, child, view);
        }
    }

    /// Replaces the program of the running task by `image`.
    pub fn exec_current(&mut self, image: &AppImage)
        requires
            old(self).wf(),
            old(self)@.current is Some,
            image.wf(),
        ensures
            final(self).wf(),
            final(self)@ == old(self)@.exec(image@),
    {
        let pid = self.current.unwrap();
        let task = self.tasks[pid].as_mut().unwrap();
        task.exec(image);
        proof {
            let after = self.tasks@[pid as int]->0;
            lemma_slot_update(old(self).tasks@, pid, after);
            lemma_update_task_wf(old(self)@, pid, after@);
        }
    }

    /// Hands the idle processor to the task at the head of the ready queue.
    /// With an empty queue the processor stays idle.
    pub fn run_next(&mut self)
        requires
            old(self).wf(),
            old(self)@.current is None,
        ensures
            final(self).wf(),
            final(self)@ == old(self)@.run_next(),
    {
        proof {
            lemma_run_next_wf(old(self)@);
        }
        match self.manager.fetch() {
            Some(next) => {
                let task = self.tasks[next].as_mut().unwrap();
                task.task_status = TaskStatus::Running;
                self.current = Some(next);
                proof {
                    let after = self.tasks@[next as int]->0;
                    lemma_slot_update(old(self).tasks@, next, after);
                }
            },
            None => {},
        }
    }

    /// Takes the processor from the running task, queues the task at the
    /// tail of the ready queue, and hands the processor to the head of the
    /// queue.
    pub fn suspend_current_and_run_next(&mut self)
        requires
            old(self).wf(),
            old(self)@.current is Some,
        ensures
            final(self).wf(),
            final(self)@ == old(self)@.suspend_current().run_next(),
            final(self)@.current is Some,
    {
        let pid = self.current.unwrap();
        let task = self.tasks[pid].as_mut().unwrap();
        task.task_status = TaskStatus::Ready;
        self.current = None;
        self.manager.add(pid);
        proof {
            let after = self.tasks@[pid as int]->0;
            lemma_slot_update(old(self).tasks@, pid, after);
            lemma_suspend_current_wf(old(self)@);
        }
        self.run_next();
    }

    /// Ends the running task with the exit code `code`: the task becomes a
    /// zombie, its address space is released, and the processor goes to the
    /// head of the ready queue, or idles if the queue is empty. The children
    /// of the task stay its children.
    pub fn exit_current_and_run_next(&mut self, code: i32)
        requires
            old(self).wf(),
            old(self)@.current is Some,
        ensures
            final(self).wf(),
            final(self)@ == old(self)@.exit_current(code).run_next(),
    {
        let pid = self.current.unwrap();
        let task = self.tasks[pid].as_mut().unwrap();
        task.task_status = TaskStatus::Zombie;
        task.exit_code = code;
        task.memory_set.recycle_data_pages();
        self.current = None;
        proof {
            let after = self.tasks@[pid as int]->0;
            lemma_slot_update(old(self).tasks@, pid, after);
            lemma_exit_current_wf(old(self)@, code);
        }
        self.run_next();
    }

    /// Takes the zombie at index `index` out of the children of the running
    /// task and out of the kernel, and hands its control block to the caller.
    ///
    /// A zombie is neither queued nor running, so the control block handed
    /// out is the last trace of the task. The tasks that the zombie created
    /// live on without a parent.
    pub fn remove_child(&mut self, index: usize) -> (child: TaskControlBlock)
        requires
            old(self).wf(),
            old(self)@.current is Some,
            index < old(self)@.current_task().children.len(),
            old(self)@.tasks[old(self)@.current_task().children[index as int]].status
                == TaskStatus::Zombie,
        ensures
            final(self).wf(),
            final(self)@ == old(self)@.reap(index as int),
            child.pid == old(self)@.current_task().children[index as int],
            child@ == old(self)@.tasks[child.pid],
            !final(self)@.ready.contains(child.pid),
            final(self)@.current != Some(child.pid),
    {
        let pid = self.current.unwrap();
        let ghost before = self@;
        let ghost old_slots = self.tasks@;
        let ghost child_pid = before.tasks[pid].children[index as int];
        proof {
            lemma_reap_wf(before, index as int);
            assert(before.is_child(pid, child_pid));
        }
        let parent = self.tasks[pid].as_mut().unwrap();
        let removed = parent.children.remove(index);
        let child = self.tasks[removed].take().unwrap();
        let ghost unlinked = self.tasks@;
        let mut i: usize = 0;
        while i < child.children.len()
            invariant
                i <= child.children@.len(),
                self.tasks@.len() == unlinked.len(),
                self.current == old(self).current,
                self.manager == old(self).manager,
                before.tasks.contains_key(child_pid),
                child@ == before.tasks[child_pid],
                before.wf(),
                before.tasks == slots_view(old_slots),
                unlinked.len() == old_slots.len(),
                slots_inv(old_slots),
                before.tasks[child_pid].parent == Some(pid),
                pid != child_pid,
                forall|q: int|
                    0 <= q < unlinked.len() && q != child_pid ==> (#[trigger] unlinked[q] is Some) == (
                    old_slots[q] is Some),
                forall|q: int|
                    0 <= q < unlinked.len() ==> (#[trigger] self.tasks@[q] is Some) == (
                    unlinked[q] is Some),
                forall|q: int|
                    0 <= q < unlinked.len() && unlinked[q] is Some ==> {
                        let now = (#[trigger] self.tasks@[q])->0;
                        let was = unlinked[q]->0;
                        &&& now.pid == was.pid
                        &&& now.task_status == was.task_status
                        &&& now.memory_set == was.memory_set
                        &&& now.trap_cx == was.trap_cx
                        &&& now.children == was.children
                        &&& now.exit_code == was.exit_code
                        &&& now.parent == (if exists|k: int|
                            0 <= k < i && child.children@[k] == q {
                            None
                        } else {
                            was.parent
                        })
                    },
            decreases child.children@.len() - i,
        {
            let orphan = child.children[i];
            proof {
                assert(before.is_child(child_pid, orphan));
            }
            let task = self.tasks[orphan].as_mut().unwrap();
            task.parent = None;
            i += 1;
        }
        proof {
            let after = before.reap(index as int);
            assert forall|q: usize| #[trigger] self@.tasks.contains_key(q) implies self@.tasks[q]
                =~= after.tasks[q] by {
                assert(before.is_child(child_pid, q) <==> before.tasks[q].parent == Some(
                    child_pid,
                ));
            }
            assert(self@ =~= after);
        }
        child
    }
}

/// Puts the ready task `pid`, which is not queued, at the tail of the ready
/// queue of the kernel.
pub fn add_task(kernel: &mut Kernel, pid: usize)
    requires
        old(kernel).wf(),
        old(kernel)@.tasks.contains_key(pid),
        old(kernel)@.tasks[pid].status == TaskStatus::Ready,
        !old(kernel)@.ready.contains(pid),
    ensures
        final(kernel).wf(),
        final(kernel)@ == old(kernel)@.add_task(pid),
{
    kernel.manager.add(pid);
    proof {
        lemma_add_task_wf(old(kernel)@, pid);
    }
}

/// Takes the task at the head of the ready queue of the kernel, if there is
/// one. The task stays ready; it is for the caller to run it or to queue it
/// again.
pub fn fetch_task(kernel: &mut Kernel) -> (task: Option<usize>)
    requires
        old(kernel).wf(),
    ensures
        final(kernel).wf(),
        final(kernel)@ == old(kernel)@.fetch_task(),
        task == (if old(kernel)@.ready.len() == 0 {
            None
        } else {
            Some(old(kernel)@.ready[0])
        }),
{
    let task = kernel.manager.fetch();
    proof {
        lemma_fetch_task_wf(old(kernel)@);
    }
    task
}

/// Handles the request of the running task to map the bytes
/// `[start, start + len)` with the permission mask `port`; see
/// [`TaskManager::mmap`].
pub fn mmap(kernel: &mut Kernel, start: usize, len: usize, port: usize) -> (result: isize)
    requires
        old(kernel).wf(),
        old(kernel)@.current is Some,
    ensures
        final(kernel).wf(),
        result == mmap_result(old(kernel)@.current_task().memory, start, len, port),
        final(kernel)@ == old(kernel)@.mmap(start, len, port),
{
    let pid = kernel.current.unwrap();
    let task = kernel.tasks[pid].as_mut().unwrap();
    let result = kernel.manager.mmap(&mut task.memory_set, start, len, port);
    proof {
        let after = kernel.tasks@[pid as int]->0;
        lemma_slot_update(old(kernel).tasks@, pid, after);
        lemma_update_task_wf(old(kernel)@, pid, after@);
    }
    result
}

/// Handles the request of the running task to unmap the bytes
/// `[start, start + len)`; see [`TaskManager::munmap`].
pub fn munmap(kernel: &mut Kernel, start: usize, len: usize) -> (result: isize)
    requires
        old(kernel).wf(),
        old(kernel)@.current is Some,
    ensures
        final(kernel).wf(),
        result == munmap_result(old(kernel)@.current_task().memory, start, len),
        final(kernel)@ == old(kernel)@.munmap(start, len),
{
    let pid = kernel.current.unwrap();
    let task = kernel.tasks[pid].as_mut().unwrap();
    let result = kernel.manager.munmap(&mut task.memory_set, start, len);
    proof {
        let after = kernel.tasks@[pid as int]->0;
        lemma_slot_update(old(kernel).tasks@, pid, after);
        lemma_update_task_wf(old(kernel)@, pid, after@);
    }
    result
}

} // verus!
