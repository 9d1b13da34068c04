//! The state of the kernel as a mathematical value, the steps that change
//! it, and the invariant that every step keeps.
use vstd::prelude::*;
use crate::loader::AppImageView;
use crate::mm::mapping::mmap_memory;
use crate::mm::mapping::munmap_memory;
use crate::task::control_block::TaskStatus;
use crate::task::control_block::TaskView;

verus! {

/// The tasks that exist, the ready queue, and the task on the processor.
#[verifier::ext_equal]
pub struct KernelView {
    /// Every task that exists, zombies included, by identity.
    pub tasks: Map<usize, TaskView>,
    /// The ready queue, the task that runs next first.
    pub ready: Seq<usize>,
    /// The task that holds the processor, if any does.
    pub current: Option<usize>,
}

/// Whether the selector of a wait, -1 for any child or else an identity,
/// picks `child`.
pub open spec fn wait_selects(selector: isize, child: usize) -> bool {
    selector == -1 || selector == child
}

impl KernelView {
    /// Whether `child` is in the children of the task `parent`.
    pub open spec fn is_child(self, parent: usize, child: usize) -> bool {
        self.tasks.contains_key(parent) && self.tasks[parent].children.contains(child)
    }

    /// The invariant of the kernel state.
    ///
    /// The first task exists and has no parent. Identities fit a signed
    /// word. The ready queue holds each task at most once, and only tasks
    /// that exist and are ready. A task is running exactly when it holds the
    /// processor. No task is listed twice among the children of another, and
    /// a task is among the children of exactly the task that it names as its
    /// parent.
    pub open spec fn wf(self) -> bool {
        &&& self.tasks.contains_key(0)
        &&& self.tasks[0].parent is None
        &&& forall|pid: usize| #[trigger] self.tasks.contains_key(pid) ==> pid < isize::MAX
        &&& self.ready.no_duplicates()
        &&& forall|i: int|
            0 <= i < self.ready.len() ==> self.tasks.contains_key(#[trigger] self.ready[i])
                && self.tasks[self.ready[i]].status == TaskStatus::Ready
        &&& (self.current matches Some(pid) ==> self.tasks.contains_key(pid))
        &&& forall|pid: usize| #[trigger]
            self.tasks.contains_key(pid) ==> (self.tasks[pid].status == TaskStatus::Running
                <==> self.current == Some(pid))
        &&& forall|pid: usize| #[trigger]
            self.tasks.contains_key(pid) ==> self.tasks[pid].children.no_duplicates()
        &&& forall|parent: usize, child: usize| #[trigger]
            self.is_child(parent, child) <==> self.tasks.contains_key(child)
                && self.tasks[child].parent == Some(parent)
    }

    /// The identity of the task that holds the processor.
    pub open spec fn running(self) -> usize {
        self.current->0
    }

    /// The task that holds the processor.
    pub open spec fn current_task(self) -> TaskView {
        self.tasks[self.running()]
    }

    /// Whether `pid` is the least identity that no task has.
    pub open spec fn is_fresh_pid(self, pid: usize) -> bool {
        &&& !self.tasks.contains_key(pid)
        &&& forall|other: usize| other < pid ==> self.tasks.contains_key(other)
    }

    /// Whether an identity is left for one more task.
    pub open spec fn has_free_pid(self) -> bool {
        exists|pid: usize| pid < isize::MAX && !self.tasks.contains_key(pid)
    }

    /// The state right after start-up: the first task, made from `image`,
    /// waits in the ready queue and nothing runs.
    pub open spec fn boot(image: AppImageView) -> KernelView {
        KernelView {
            tasks: Map::empty().insert(0usize, TaskView::from_image(image, None)),
            ready: seq![0usize],
            current: None,
        }
    }

    /// The state with the record of task `pid` replaced by `task`.
    pub open spec fn update_task(self, pid: usize, task: TaskView) -> KernelView {
        KernelView { tasks: self.tasks.insert(pid, task), ..self }
    }

    /// The state after task `pid` has joined the tail of the ready queue.
    pub open spec fn add_task(self, pid: usize) -> KernelView {
        KernelView { ready: self.ready.push(pid), ..self }
    }

    /// The state after the head of the ready queue, if there is one, has
    /// been taken out.
    pub open spec fn fetch_task(self) -> KernelView {
        if self.ready.len() == 0 {
            self
        } else {
            KernelView { ready: self.ready.drop_first(), ..self }
        }
    }

    /// The state after the idle processor has taken the head of the ready
    /// queue and made it run. With an empty queue nothing changes.
    pub open spec fn run_next(self) -> KernelView {
        if self.ready.len() == 0 {
            self
        } else {
            let next = self.ready[0];
            KernelView {
                tasks: self.tasks.insert(
                    next,
                    TaskView { status: TaskStatus::Running, ..self.tasks[next] },
                ),
                ready: self.ready.drop_first(),
                current: Some(next),
            }
        }
    }

    /// The state after the running task has given up the processor and
    /// joined the tail of the ready queue.
    pub open spec fn suspend_current(self) -> KernelView {
        let pid = self.running();
        KernelView {
            tasks: self.tasks.insert(
                pid,
                TaskView { status: TaskStatus::Ready, ..self.tasks[pid] },
            ),
            ready: self.ready.push(pid),
            current: None,
        }
    }

    /// The state after the running task has exited with `code`: it is a
    /// zombie with that exit code and an empty address space, and the
    /// processor is idle.
    pub open spec fn exit_current(self, code: i32) -> KernelView {
        let pid = self.running();
        KernelView {
            tasks: self.tasks.insert(
                pid,
                TaskView {
                    status: TaskStatus::Zombie,
                    exit_code: code,
                    memory: Map::empty(),
                    ..self.tasks[pid]
                },
            ),
            ready: self.ready,
            current: None,
        }
    }

    /// The state after the running task has got the new child `child`,
    /// whose record is `task`: the child exists and is the last of the
    /// children of the running task.
    pub open spec fn add_child(self, child: usize, task: TaskView) -> KernelView {
        let pid = self.running();
        let parent = self.tasks[pid];
        KernelView {
            tasks: self.tasks.insert(
                pid,
                TaskView { children: parent.children.push(child), ..parent },
            ).insert(child, task),
            ..self
        }
    }

    /// The state after the running task has forked the child `child`: the
    /// child is a copy of its parent that will see 0 as the result of the
    /// fork, and it waits at the tail of the ready queue.
    pub open spec fn fork(self, child: usize) -> KernelView {
        let copy = self.current_task().forked(self.running());
        self.add_child(
            child,
            TaskView { trap_cx: copy.trap_cx.with_return_value(0), ..copy },
        ).add_task(child)
    }

    /// The state after the running task has spawned the child `child` from
    /// the program `image`: the child starts that program afresh and waits
    /// at the tail of the ready queue.
    pub open spec fn spawn(self, child: usize, image: AppImageView) -> KernelView {
        self.add_child(child, TaskView::from_image(image, Some(self.running()))).add_task(child)
    }

    /// The state after the running task has replaced its program by `image`.
    pub open spec fn exec(self, image: AppImageView) -> KernelView {
        self.update_task(self.running(), self.current_task().exec(image))
    }

    /// The state after the running task has asked to map a byte range.
    pub open spec fn mmap(self, start: usize, len: usize, port: usize) -> KernelView {
        let task = self.current_task();
        self.update_task(
            self.running(),
            TaskView { memory: mmap_memory(task.memory, start, len, port), ..task },
        )
    }

    /// The state after the running task has asked to unmap a byte range.
    pub open spec fn munmap(self, start: usize, len: usize) -> KernelView {
        let task = self.current_task();
        self.update_task(
            self.running(),
            TaskView { memory: munmap_memory(task.memory, start, len), ..task },
        )
    }

    /// The state after the running task has collected the child at index
    /// `index` of its children: the child is gone from the children and from
    /// the tasks, and the tasks that named it as their parent have none.
    pub open spec fn reap(self, index: int) -> KernelView {
        let pid = self.running();
        let child = self.tasks[pid].children[index];
        KernelView {
            tasks: Map::new(
                |other: usize| self.tasks.contains_key(other) && other != child,
                |other: usize|
                    {
                        let task = self.tasks[other];
                        TaskView {
                            parent: if task.parent == Some(child) {
                                None
                            } else {
                                task.parent
                            },
                            children: if other == pid {
                                task.children.remove(index)
                            } else {
                                task.children
                            },
                            ..task
                        }
                    },
            ),
            ..self
        }
    }

    /// Whether the selector of a wait picks some child of the running task.
    pub open spec fn has_selected_child(self, selector: isize) -> bool {
        exists|i: int|
            0 <= i < self.current_task().children.len() && wait_selects(
                selector,
                #[trigger] self.current_task().children[i],
            )
    }

    /// Whether the child at index `index` of the running task is picked by
    /// the selector and is a zombie.
    pub open spec fn collectable(self, selector: isize, index: int) -> bool {
        &&& 0 <= index < self.current_task().children.len()
        &&& wait_selects(selector, self.current_task().children[index])
        &&& self.tasks[self.current_task().children[index]].status == TaskStatus::Zombie
    }

    /// Whether the child at index `index` is the first one, in the order of
    /// the children, that the selector picks and that is a zombie.
    pub open spec fn first_collectable(self, selector: isize, index: int) -> bool {
        &&& self.collectable(selector, index)
        &&& forall|j: int| 0 <= j < index ==> !self.collectable(selector, j)
    }

    /// Whether a wait with this selector finds a zombie to collect.
    pub open spec fn has_collectable(self, selector: isize) -> bool {
        exists|index: int| self.first_collectable(selector, index)
    }

    /// The index of the child that a wait with this selector collects.
    pub open spec fn wait_index(self, selector: isize) -> int {
        choose|index: int| self.first_collectable(selector, index)
    }

    /// The value that a wait with this selector returns: -1 when the
    /// selector picks no child, -2 when it picks children of which none is a
    /// zombie, else the identity of the first zombie that it picks.
    pub open spec fn wait_result(self, selector: isize) -> int {
        if !self.has_selected_child(selector) {
            -1
        } else if !self.has_collectable(selector) {
            -2
        } else {
            self.current_task().children[self.wait_index(selector)] as int
        }
    }

    /// The exit code that a wait with this selector hands out; `code` where
    /// it collects no child.
    pub open spec fn wait_exit_code(self, selector: isize, code: i32) -> i32 {
        if self.has_collectable(selector) {
            self.tasks[self.current_task().children[self.wait_index(selector)]].exit_code
        } else {
            code
        }
    }

    /// The state after a wait with this selector.
    pub open spec fn wait(self, selector: isize) -> KernelView {
        if self.has_collectable(selector) {
            self.reap(self.wait_index(selector))
        } else {
            self
        }
    }
}

} // verus!
