//! The scheduler's ready queue, and the handling of the mapping requests of
//! the running task.
use vstd::prelude::*;
use std::collections::VecDeque;
use crate::mm::address::page_offset;
use crate::mm::address::page_range;
use crate::mm::mapping::mmap_memory;
use crate::mm::mapping::mmap_result;
use crate::mm::mapping::munmap_memory;
use crate::mm::mapping::munmap_result;
use crate::mm::memory_set::MemorySet;
use crate::mm::permission::MapPermission;

verus! {

/// A first-in, first-out queue of the tasks that are ready to run.
pub struct TaskManager {
    ready_queue: VecDeque<usize>,
}

impl View for TaskManager {
    type V = Seq<usize>;

    /// The queued tasks, the one that runs next first.
    closed spec fn view(&self) -> Seq<usize> {
        self.ready_queue@
    }
}

impl TaskManager {
    /// An empty queue.
    pub fn new() -> (manager: Self)
        ensures
            manager@ == Seq::<usize>::empty(),
    {
        Self { ready_queue: VecDeque::new() }
    }

    /// Puts a task at the tail of the queue.
    pub fn add(&mut self, task: usize)
        ensures
            final(self)@ == old(self)@.push(task),
    {
        self.ready_queue.push_back(task);
    }

    /// Takes the task at the head of the queue, if there is one.
    pub fn fetch(&mut self) -> (task: Option<usize>)
        ensures
            old(self)@.len() == 0 ==> task is None && final(self)@ == old(self)@,
            old(self)@.len() > 0 ==> task == Some(old(self)@[0]) && final(self)@ == old(
                self,
            )@.drop_first(),
    {
        let task = self.ready_queue.pop_front();
        task
    }

    /// Number of queued tasks.
    pub fn len(&self) -> (n: usize)
        ensures
            n == self@.len(),
    {
        self.ready_queue.len()
    }

    /// Handles the request of a task to map the bytes `[start, start + len)`
    /// of its address space `memory_set` with the permission mask `port`.
    ///
    /// The request is refused with -1 when `start` is not page aligned, when
    /// `port` is zero or has a bit above bit 2, or when a page of the range is
    /// mapped already; a refused request changes nothing. An empty request
    /// is granted and changes nothing. Any other request is granted with 0
    /// and maps every page that the byte range touches.
    pub fn mmap(&self, memory_set: &mut MemorySet, start: usize, len: usize, port: usize) -> (result:
        isize)
        requires
            old(memory_set).wf(),
        ensures
            final(memory_set).wf(),
            result == mmap_result(old(memory_set)@, start, len, port),
            final(memory_set)@ == mmap_memory(old(memory_set)@, start, len, port),
    {
        // the start has to be page aligned
        if page_offset(start) != 0 {
            return -1;
        }
        let permission = MapPermission::try_from(port);
        if permission.is_err() {
            return -1;
        }
        let perm = permission.unwrap();
        // an empty request succeeds at once
        if len == 0 {
            return 0;
        }
        let (vpn_start, vpn_end) = page_range(start, len);
        // no page of the range may be mapped already
        if memory_set.overlaps(vpn_start, vpn_end) {
            return -1;
        }
        memory_set.insert_framed_area(vpn_start, vpn_end, perm);
        0
    }

    /// Handles the request of a task to unmap the bytes `[start, start + len)`
    /// of its address space `memory_set`.
    ///
    /// The request is refused with -1 when `start` is not page aligned or
    /// when a page of the range is not mapped; a refused request changes
    /// nothing. An empty request is granted and changes nothing. Any other
    /// request is granted with 0 and unmaps every page that the byte range
    /// touches.
    pub fn munmap(&self, memory_set: &mut MemorySet, start: usize, len: usize) -> (result: isize)
        requires
            old(memory_set).wf(),
        ensures
            final(memory_set).wf(),
            result == munmap_result(old(memory_set)@, start, len),
            final(memory_set)@ == munmap_memory(old(memory_set)@, start, len),
    {
        // the start has to be page aligned
        if page_offset(start) != 0 {
            return -1;
        }
        // an empty request succeeds at once
        if len == 0 {
            return 0;
        }
        let (vpn_start, vpn_end) = page_range(start, len);
        // every page of the range has to be mapped before any is removed
        if !memory_set.covers(vpn_start, vpn_end) {
            return -1;
        }
        memory_set.remove_range(vpn_start, vpn_end);
        0
    }
}

} // verus!
