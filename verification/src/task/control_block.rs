//! The task control block: everything the kernel records about one task.
use vstd::prelude::*;
use crate::loader::AppImage;
use crate::loader::AppImageView;
use crate::mm::memory_set::MemorySet;
use crate::mm::permission::MapPermission;
use crate::task::context::TrapContext;

verus! {

/// Where a task stands in its life.
#[derive(Clone, Copy, Debug, PartialEq, Eq, Structural)]
pub enum TaskStatus {
    /// The task can run and waits for the processor.
    Ready,
    /// The task holds the processor.
    Running,
    /// The task has exited and its parent has not collected it yet.
    Zombie,
}

/// The kernel's record of one task.
pub struct TaskControlBlock {
    /// The identity of the task.
    pub pid: usize,
    /// Where the task stands in its life.
    pub task_status: TaskStatus,
    /// The address space, which no other task shares.
    pub memory_set: MemorySet,
    /// The registers that the task resumes with.
    pub trap_cx: TrapContext,
    /// The task that created this one. The link owns nothing: it is `None`
    /// for the first task and once the creator is gone.
    pub parent: Option<usize>,
    /// The tasks that this one created and has not collected, oldest first.
    pub children: Vec<usize>,
    /// The exit code, meaningful once the task is a zombie.
    pub exit_code: i32,
}

/// The mathematical content of a [`TaskControlBlock`], without its identity.
#[verifier::ext_equal]
pub struct TaskView {
    /// Where the task stands in its life.
    pub status: TaskStatus,
    /// Permission of each mapped page.
    pub memory: Map<usize, MapPermission>,
    /// The registers that the task resumes with.
    pub trap_cx: TrapContext,
    /// The task that created this one, while that task exists.
    pub parent: Option<usize>,
    /// The tasks that this one created and has not collected, oldest first.
    pub children: Seq<usize>,
    /// The exit code, meaningful once the task is a zombie.
    pub exit_code: i32,
}

impl TaskView {
    /// A task that is about to start the program `image`: ready, without
    /// children, with the image's address space and a fresh context.
    pub open spec fn from_image(image: AppImageView, parent: Option<usize>) -> TaskView {
        TaskView {
            status: TaskStatus::Ready,
            memory: image.memory,
            trap_cx: TrapContext::spec_app_init_context(image.entry, image.user_sp),
            parent,
            children: Seq::empty(),
            exit_code: 0,
        }
    }

    /// The task after it has replaced its program by `image`: address space
    /// and context are those of the image, everything else stays.
    pub open spec fn exec(self, image: AppImageView) -> TaskView {
        TaskView {
            memory: image.memory,
            trap_cx: TrapContext::spec_app_init_context(image.entry, image.user_sp),
            ..self
        }
    }

    /// The copy that a fork of the task `self`, whose identity is `pid`, creates:
    /// ready, without children, with the same mappings and registers.
    pub open spec fn forked(self, pid: usize) -> TaskView {
        TaskView {
            status: TaskStatus::Ready,
            memory: self.memory,
            trap_cx: self.trap_cx,
            parent: Some(pid),
            children: Seq::empty(),
            exit_code: 0,
        }
    }
}

impl View for TaskControlBlock {
    type V = TaskView;

    open spec fn view(&self) -> TaskView {
        TaskView {
            status: self.task_status,
            memory: self.memory_set@,
            trap_cx: self.trap_cx,
            parent: self.parent,
            children: self.children@,
            exit_code: self.exit_code,
        }
    }
}

impl TaskControlBlock {
    /// The address space of the task is well formed.
    pub open spec fn wf(&self) -> bool {
        self.memory_set.wf()
    }

    /// Creates the control block of a task that is about to start the
    /// program `image`. The task has no parent yet.
    pub fn new(pid: usize, image: &AppImage) -> (task: Self)
        requires
            image.wf(),
        ensures
            task.wf(),
            task.pid == pid,
            task@ == TaskView::from_image(image@, None),
    {
        TaskControlBlock {
            pid,
            task_status: TaskStatus::Ready,
            memory_set: image.memory_set.from_existed_user(),
            trap_cx: TrapContext::app_init_context(image.entry, image.user_sp),
            parent: None,
            children: Vec::new(),
            exit_code: 0,
        }
    }

    /// Replaces the program of the task by `image`. Identity, parent,
    /// children, status and exit code stay as they are.
    pub fn exec(&mut self, image: &AppImage)
        requires
            image.wf(),
        ensures
            final(self).wf(),
            final(self).pid == old(self).pid,
            final(self)@ == old(self)@.exec(image@),
    {
        self.memory_set = image.memory_set.from_existed_user();
        self.trap_cx = TrapContext::app_init_context(image.entry, image.user_sp);
    }

    /// Creates the control block of a child of `self` under the identity
    /// `pid`. The child gets a copy of the address space, not a share of it.
    pub fn fork(&self, pid: usize) -> (child: Self)
        requires
            self.wf(),
        ensures
            child.wf(),
            child.pid == pid,
            child@ == self@.forked(self.pid),
    {
        TaskControlBlock {
            pid,
            task_status: TaskStatus::Ready,
            memory_set: self.memory_set.from_existed_user(),
            trap_cx: self.trap_cx,
            parent: Some(self.pid),
            children: Vec::new(),
            exit_code: 0,
        }
    }

    /// The identity of the task.
    pub fn getpid(&self) -> (pid: usize)
        ensures
            pid == self.pid,
    {
        self.pid
    }

    /// Whether the task has exited and waits to be collected.
    pub fn is_zombie(&self) -> (zombie: bool)
        ensures
            zombie == (self@.status == TaskStatus::Zombie),
    {
        self.task_status == TaskStatus::Zombie
    }
}

} // verus!
