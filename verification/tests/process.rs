use os5::config::PAGE_SIZE;
use os5::loader::{AppImage, Loader};
use os5::mm::memory_set::MemorySet;
use os5::mm::permission::MapPermission;
use os5::syscall::process::{
    sys_exec, sys_exit, sys_fork, sys_get_time, sys_getpid, sys_mmap, sys_munmap,
    sys_set_priority, sys_spawn, sys_task_info, sys_waitpid, sys_yield, TaskInfo, TimeVal,
};
use os5::task::context::TrapContext;
use os5::task::control_block::{TaskControlBlock, TaskStatus};
use os5::task::kernel::{add_task, fetch_task, mmap, munmap, Kernel};

fn perm(readable: bool, writable: bool, executable: bool) -> MapPermission {
    MapPermission { readable, writable, executable, user: true }
}

fn image(entry: usize, user_sp: usize, first_page: usize) -> AppImage {
    let mut memory_set = MemorySet::new_bare();
    memory_set.insert_framed_area(first_page, first_page + 2, perm(true, false, true));
    AppImage { entry, user_sp, memory_set }
}

fn loader() -> Loader {
    let mut loader = Loader::new();
    assert!(loader.add_app("initproc", image(0x1000, 0x8000, 1)));
    assert!(loader.add_app("shell", image(0x2000, 0x9000, 2)));
    loader
}

/// A kernel whose first task holds the processor.
fn booted(loader: &Loader) -> Kernel {
    let mut kernel = Kernel::new(loader.get_app_data_by_name("initproc").unwrap());
    kernel.run_next();
    kernel
}

fn children(kernel: &Kernel, pid: usize) -> Vec<usize> {
    kernel.task(pid).unwrap().children.clone()
}

fn status(kernel: &Kernel, pid: usize) -> TaskStatus {
    kernel.task(pid).unwrap().task_status
}

#[test]
fn loader_finds_programs_by_name() {
    let loader = loader();
    assert_eq!(loader.get_app_data_by_name("initproc").unwrap().entry, 0x1000);
    assert_eq!(loader.get_app_data_by_name("shell").unwrap().user_sp, 0x9000);
    assert!(loader.get_app_data_by_name("missing").is_none());
    assert!(loader.get_app_data_by_name("").is_none());
    assert!(loader.get_app_data_by_name("shel").is_none());
}

#[test]
fn loader_keeps_the_first_image_of_a_name() {
    let mut loader = loader();
    assert!(!loader.add_app("shell", image(0x7000, 0x7000, 7)));
    assert_eq!(loader.get_app_data_by_name("shell").unwrap().entry, 0x2000);
}

#[test]
fn trap_context_of_a_new_program() {
    let cx = TrapContext::app_init_context(0x1000, 0x8000);
    assert_eq!(cx.sepc, 0x1000);
    assert_eq!(cx.x[2], 0x8000);
    assert_eq!(cx.get_return_value(), 0);
    for i in 0..32 {
        if i != 2 {
            assert_eq!(cx.x[i], 0);
        }
    }
}

#[test]
fn trap_context_return_value() {
    let mut cx = TrapContext::app_init_context(0x1000, 0x8000);
    cx.set_return_value(42);
    assert_eq!(cx.get_return_value(), 42);
    assert_eq!(cx.x[10], 42);
    assert_eq!(cx.x[2], 0x8000);
    assert_eq!(cx.sepc, 0x1000);
}

#[test]
fn control_block_of_a_new_task() {
    let loader = loader();
    let task = TaskControlBlock::new(5, loader.get_app_data_by_name("shell").unwrap());
    assert_eq!(task.getpid(), 5);
    assert_eq!(task.task_status, TaskStatus::Ready);
    assert!(!task.is_zombie());
    assert_eq!(task.parent, None);
    assert!(task.children.is_empty());
    assert_eq!(task.exit_code, 0);
    assert_eq!(task.trap_cx.sepc, 0x2000);
    assert_eq!(task.trap_cx.x[2], 0x9000);
    assert_eq!(task.memory_set.translate(2), Some(perm(true, false, true)));
    assert_eq!(task.memory_set.translate(4), None);
}

#[test]
fn boot_queues_the_first_task() {
    let loader = loader();
    let kernel = Kernel::new(loader.get_app_data_by_name("initproc").unwrap());
    assert_eq!(kernel.current_task(), None);
    assert_eq!(kernel.manager().len(), 1);
    assert_eq!(status(&kernel, 0), TaskStatus::Ready);
    assert_eq!(kernel.task(0).unwrap().parent, None);
    assert!(kernel.task(1).is_none());
    assert!(kernel.has_free_pid());
    assert_eq!(kernel.alloc_pid(), 1);
}

#[test]
fn run_next_dispatches_the_head_of_the_queue() {
    let loader = loader();
    let mut kernel = Kernel::new(loader.get_app_data_by_name("initproc").unwrap());
    kernel.run_next();
    assert_eq!(kernel.current_task(), Some(0));
    assert_eq!(status(&kernel, 0), TaskStatus::Running);
    assert_eq!(kernel.manager().len(), 0);
}

#[test]
fn getpid_returns_the_running_task() {
    let loader = loader();
    let mut kernel = booted(&loader);
    assert_eq!(sys_getpid(&kernel), 0);
    let child = sys_fork(&mut kernel);
    assert_eq!(sys_getpid(&kernel), 0);
    assert_eq!(sys_yield(&mut kernel), 0);
    assert_eq!(sys_getpid(&kernel), child);
}

#[test]
fn fork_returns_child_pid_to_parent_and_zero_to_child() {
    let loader = loader();
    let mut kernel = booted(&loader);
    let result = sys_fork(&mut kernel);
    assert_eq!(result, 1);
    assert!(result >= 0);
    let child = kernel.task(result as usize).unwrap();
    assert_eq!(child.getpid(), result as usize);
    assert_eq!(child.trap_cx.get_return_value(), 0);
    assert_ne!(child.trap_cx.get_return_value() as isize, result);
    assert_eq!(child.parent, Some(0));
    assert_eq!(child.task_status, TaskStatus::Ready);
    assert!(child.children.is_empty());
    assert_eq!(children(&kernel, 0), vec![1]);
    assert_eq!(kernel.manager().len(), 1);
    assert_eq!(kernel.current_task(), Some(0));
}

#[test]
fn fork_copies_registers_but_not_the_return_value() {
    let loader = loader();
    let mut kernel = booted(&loader);
    let child = sys_fork(&mut kernel) as usize;
    let parent_cx = kernel.task(0).unwrap().trap_cx;
    let child_cx = kernel.task(child).unwrap().trap_cx;
    assert_eq!(child_cx.sepc, parent_cx.sepc);
    for i in 0..32 {
        if i != 10 {
            assert_eq!(child_cx.x[i], parent_cx.x[i]);
        }
    }
    assert_eq!(child_cx.x[10], 0);
}

#[test]
fn fork_copies_the_address_space() {
    let loader = loader();
    let mut kernel = booted(&loader);
    assert_eq!(sys_mmap(&mut kernel, 0x10000, PAGE_SIZE, 3), 0);
    let child = sys_fork(&mut kernel) as usize;
    assert_eq!(kernel.task(child).unwrap().memory_set.translate(0x10), Some(perm(true, true, false)));
    assert_eq!(kernel.task(child).unwrap().memory_set.translate(1), Some(perm(true, false, true)));
    // the parent unmaps its page: the child keeps its copy
    assert_eq!(sys_munmap(&mut kernel, 0x10000, PAGE_SIZE), 0);
    assert_eq!(kernel.task(0).unwrap().memory_set.translate(0x10), None);
    assert_eq!(kernel.task(child).unwrap().memory_set.translate(0x10), Some(perm(true, true, false)));
}

#[test]
fn forks_get_distinct_pids() {
    let loader = loader();
    let mut kernel = booted(&loader);
    assert_eq!(sys_fork(&mut kernel), 1);
    assert_eq!(sys_fork(&mut kernel), 2);
    assert_eq!(sys_fork(&mut kernel), 3);
    assert_eq!(children(&kernel, 0), vec![1, 2, 3]);
    assert_eq!(kernel.manager().len(), 3);
}

#[test]
fn yield_moves_the_task_to_the_tail() {
    let loader = loader();
    let mut kernel = booted(&loader);
    sys_fork(&mut kernel);
    sys_fork(&mut kernel);
    assert_eq!(sys_yield(&mut kernel), 0);
    assert_eq!(kernel.current_task(), Some(1));
    assert_eq!(status(&kernel, 0), TaskStatus::Ready);
    assert_eq!(status(&kernel, 1), TaskStatus::Running);
    assert_eq!(sys_yield(&mut kernel), 0);
    assert_eq!(kernel.current_task(), Some(2));
    assert_eq!(sys_yield(&mut kernel), 0);
    assert_eq!(kernel.current_task(), Some(0));
    assert_eq!(sys_yield(&mut kernel), 0);
    assert_eq!(kernel.current_task(), Some(1));
    assert_eq!(kernel.manager().len(), 2);
}

#[test]
fn yield_of_the_only_task_runs_it_again() {
    let loader = loader();
    let mut kernel = booted(&loader);
    assert_eq!(sys_yield(&mut kernel), 0);
    assert_eq!(kernel.current_task(), Some(0));
    assert_eq!(status(&kernel, 0), TaskStatus::Running);
    assert_eq!(kernel.manager().len(), 0);
}

#[test]
fn exit_makes_a_zombie_and_runs_the_next_task() {
    let loader = loader();
    let mut kernel = booted(&loader);
    let child = sys_fork(&mut kernel) as usize;
    sys_yield(&mut kernel);
    assert_eq!(sys_mmap(&mut kernel, 0x20000, PAGE_SIZE, 1), 0);
    sys_exit(&mut kernel, -3);
    assert_eq!(kernel.current_task(), Some(0));
    assert_eq!(status(&kernel, child), TaskStatus::Zombie);
    assert!(kernel.task(child).unwrap().is_zombie());
    assert_eq!(kernel.task(child).unwrap().exit_code, -3);
    assert_eq!(kernel.task(child).unwrap().memory_set.translate(0x20), None);
    assert_eq!(kernel.task(child).unwrap().memory_set.translate(1), None);
    assert_eq!(children(&kernel, 0), vec![child]);
    assert_eq!(kernel.manager().len(), 0);
}

#[test]
fn exit_of_the_last_task_leaves_the_processor_idle() {
    let loader = loader();
    let mut kernel = booted(&loader);
    sys_exit(&mut kernel, 0);
    assert_eq!(kernel.current_task(), None);
    assert_eq!(status(&kernel, 0), TaskStatus::Zombie);
    assert_eq!(kernel.manager().len(), 0);
}

#[test]
fn waitpid_without_children_returns_minus_one() {
    let loader = loader();
    let mut kernel = booted(&loader);
    let mut code = 99;
    assert_eq!(sys_waitpid(&mut kernel, -1, &mut code), -1);
    assert_eq!(sys_waitpid(&mut kernel, 1, &mut code), -1);
    assert_eq!(sys_waitpid(&mut kernel, 0, &mut code), -1);
    assert_eq!(code, 99);
}

#[test]
fn waitpid_with_running_child_returns_minus_two() {
    let loader = loader();
    let mut kernel = booted(&loader);
    let child = sys_fork(&mut kernel);
    let mut code = 99;
    assert_eq!(sys_waitpid(&mut kernel, -1, &mut code), -2);
    assert_eq!(sys_waitpid(&mut kernel, child, &mut code), -2);
    assert_eq!(code, 99);
    assert_eq!(children(&kernel, 0), vec![child as usize]);
}

#[test]
fn waitpid_collects_an_exited_child() {
    let loader = loader();
    let mut kernel = booted(&loader);
    let mut out = 0;
    assert_eq!(sys_waitpid(&mut kernel, -1, &mut out), -1);
    let child = sys_fork(&mut kernel);
    assert_eq!(sys_waitpid(&mut kernel, -1, &mut out), -2);
    sys_yield(&mut kernel);
    assert_eq!(sys_getpid(&kernel), child);
    sys_exit(&mut kernel, 7);
    assert_eq!(sys_getpid(&kernel), 0);
    assert_eq!(sys_waitpid(&mut kernel, -1, &mut out), child);
    assert_eq!(out, 7);
    assert!(children(&kernel, 0).is_empty());
    assert!(kernel.task(child as usize).is_none());
    assert_eq!(sys_waitpid(&mut kernel, -1, &mut out), -1);
    assert_eq!(out, 7);
}

#[test]
fn waitpid_for_a_stranger_returns_minus_one() {
    let loader = loader();
    let mut kernel = booted(&loader);
    let child = sys_fork(&mut kernel);
    let mut code = 99;
    assert_eq!(sys_waitpid(&mut kernel, child + 1, &mut code), -1);
    assert_eq!(sys_waitpid(&mut kernel, 0, &mut code), -1);
    assert_eq!(sys_waitpid(&mut kernel, -2, &mut code), -1);
    assert_eq!(sys_waitpid(&mut kernel, isize::MIN, &mut code), -1);
    assert_eq!(sys_waitpid(&mut kernel, isize::MAX, &mut code), -1);
    assert_eq!(sys_waitpid(&mut kernel, child, &mut code), -2);
    assert_eq!(code, 99);
    assert_eq!(children(&kernel, 0), vec![child as usize]);
}

#[test]
fn waitpid_for_a_grandchild_returns_minus_one() {
    let loader = loader();
    let mut kernel = booted(&loader);
    let child = sys_fork(&mut kernel);
    sys_yield(&mut kernel);
    let grandchild = sys_fork(&mut kernel);
    sys_yield(&mut kernel);
    assert_eq!(sys_getpid(&kernel), 0);
    let mut code = 99;
    assert_eq!(sys_waitpid(&mut kernel, grandchild, &mut code), -1);
    assert_eq!(sys_waitpid(&mut kernel, child, &mut code), -2);
}

#[test]
fn waitpid_by_pid_collects_that_child_only() {
    let loader = loader();
    let mut kernel = booted(&loader);
    let first = sys_fork(&mut kernel);
    let second = sys_fork(&mut kernel);
    sys_yield(&mut kernel);
    sys_exit(&mut kernel, 11);
    sys_exit(&mut kernel, 22);
    assert_eq!(sys_getpid(&kernel), 0);
    let mut code = 0;
    assert_eq!(sys_waitpid(&mut kernel, second, &mut code), second);
    assert_eq!(code, 22);
    assert_eq!(children(&kernel, 0), vec![first as usize]);
    assert_eq!(sys_waitpid(&mut kernel, second, &mut code), -1);
    assert_eq!(sys_waitpid(&mut kernel, first, &mut code), first);
    assert_eq!(code, 11);
    assert!(children(&kernel, 0).is_empty());
}

#[test]
fn waitpid_any_collects_the_first_zombie_in_order() {
    let loader = loader();
    let mut kernel = booted(&loader);
    let first = sys_fork(&mut kernel);
    let second = sys_fork(&mut kernel);
    let third = sys_fork(&mut kernel);
    sys_yield(&mut kernel);
    // the first child keeps running, the other two exit
    sys_yield(&mut kernel);
    sys_exit(&mut kernel, 2);
    sys_exit(&mut kernel, 3);
    assert_eq!(sys_getpid(&kernel), 0);
    let mut code = 0;
    assert_eq!(sys_waitpid(&mut kernel, -1, &mut code), second);
    assert_eq!(code, 2);
    assert_eq!(sys_waitpid(&mut kernel, -1, &mut code), third);
    assert_eq!(code, 3);
    assert_eq!(sys_waitpid(&mut kernel, -1, &mut code), -2);
    assert_eq!(children(&kernel, 0), vec![first as usize]);
}

#[test]
fn collected_pid_is_given_out_again() {
    let loader = loader();
    let mut kernel = booted(&loader);
    let first = sys_fork(&mut kernel);
    let second = sys_fork(&mut kernel);
    sys_yield(&mut kernel);
    sys_exit(&mut kernel, 0);
    sys_yield(&mut kernel);
    assert_eq!(sys_getpid(&kernel), 0);
    let mut code = 0;
    assert_eq!(sys_waitpid(&mut kernel, first, &mut code), first);
    assert_eq!(sys_fork(&mut kernel), first);
    assert_eq!(children(&kernel, 0), vec![second as usize, first as usize]);
}

#[test]
fn children_of_a_collected_task_lose_their_parent() {
    let loader = loader();
    let mut kernel = booted(&loader);
    let child = sys_fork(&mut kernel);
    sys_yield(&mut kernel);
    let grandchild = sys_fork(&mut kernel) as usize;
    sys_exit(&mut kernel, 5);
    assert_eq!(sys_getpid(&kernel), 0);
    assert_eq!(kernel.task(grandchild).unwrap().parent, Some(child as usize));
    let mut code = 0;
    assert_eq!(sys_waitpid(&mut kernel, -1, &mut code), child);
    assert_eq!(code, 5);
    assert_eq!(kernel.task(grandchild).unwrap().parent, None);
    assert_eq!(status(&kernel, grandchild), TaskStatus::Ready);
    assert_eq!(kernel.manager().len(), 1);
}

#[test]
fn spawn_creates_a_child_from_the_named_program() {
    let loader = loader();
    let mut kernel = booted(&loader);
    assert_eq!(sys_mmap(&mut kernel, 0x10000, PAGE_SIZE, 3), 0);
    let pid = sys_spawn(&mut kernel, &loader, "shell");
    assert_eq!(pid, 1);
    let child = kernel.task(1).unwrap();
    assert_eq!(child.getpid(), 1);
    assert_eq!(child.parent, Some(0));
    assert_eq!(child.task_status, TaskStatus::Ready);
    assert_eq!(child.trap_cx.sepc, 0x2000);
    assert_eq!(child.trap_cx.x[2], 0x9000);
    // nothing of the parent's address space is in the child
    assert_eq!(child.memory_set.translate(0x10), None);
    assert_eq!(child.memory_set.translate(1), None);
    assert_eq!(child.memory_set.translate(2), Some(perm(true, false, true)));
    assert_eq!(child.memory_set.translate(3), Some(perm(true, false, true)));
    assert_eq!(children(&kernel, 0), vec![1]);
    assert_eq!(kernel.manager().len(), 1);
    sys_yield(&mut kernel);
    assert_eq!(sys_getpid(&kernel), pid);
}

#[test]
fn spawn_of_unknown_program_creates_nothing() {
    let loader = loader();
    let mut kernel = booted(&loader);
    sys_fork(&mut kernel);
    assert_eq!(sys_spawn(&mut kernel, &loader, "missing"), -1);
    assert_eq!(kernel.manager().len(), 1);
    assert_eq!(children(&kernel, 0), vec![1]);
    assert!(kernel.task(2).is_none());
    assert_eq!(kernel.alloc_pid(), 2);
    assert_eq!(kernel.current_task(), Some(0));
}

#[test]
fn exec_replaces_the_program_in_place() {
    let loader = loader();
    let mut kernel = booted(&loader);
    let child = sys_fork(&mut kernel) as usize;
    sys_yield(&mut kernel);
    let grandchild = sys_fork(&mut kernel) as usize;
    assert_eq!(sys_mmap(&mut kernel, 0x10000, PAGE_SIZE, 3), 0);
    assert_eq!(sys_exec(&mut kernel, &loader, "shell"), 0);
    let task = kernel.task(child).unwrap();
    assert_eq!(task.getpid(), child);
    assert_eq!(task.parent, Some(0));
    assert_eq!(task.children, vec![grandchild]);
    assert_eq!(task.task_status, TaskStatus::Running);
    assert_eq!(task.trap_cx.sepc, 0x2000);
    assert_eq!(task.trap_cx.x[2], 0x9000);
    assert_eq!(task.memory_set.translate(0x10), None);
    assert_eq!(task.memory_set.translate(1), None);
    assert_eq!(task.memory_set.translate(2), Some(perm(true, false, true)));
    assert_eq!(kernel.current_task(), Some(child));
}

#[test]
fn exec_of_unknown_program_changes_nothing() {
    let loader = loader();
    let mut kernel = booted(&loader);
    assert_eq!(sys_mmap(&mut kernel, 0x10000, PAGE_SIZE, 3), 0);
    assert_eq!(sys_exec(&mut kernel, &loader, "missing"), -1);
    let task = kernel.task(0).unwrap();
    assert_eq!(task.trap_cx.sepc, 0x1000);
    assert_eq!(task.memory_set.translate(0x10), Some(perm(true, true, false)));
    assert_eq!(task.memory_set.translate(1), Some(perm(true, false, true)));
    assert_eq!(task.task_status, TaskStatus::Running);
}

#[test]
fn sys_mmap_acts_on_the_running_task_only() {
    let loader = loader();
    let mut kernel = booted(&loader);
    let child = sys_fork(&mut kernel) as usize;
    assert_eq!(sys_mmap(&mut kernel, 0x10000, 2 * PAGE_SIZE, 7), 0);
    assert_eq!(kernel.task(0).unwrap().memory_set.translate(0x11), Some(perm(true, true, true)));
    assert_eq!(kernel.task(child).unwrap().memory_set.translate(0x11), None);
    sys_yield(&mut kernel);
    assert_eq!(sys_munmap(&mut kernel, 0x10000, 2 * PAGE_SIZE), -1);
    assert_eq!(sys_mmap(&mut kernel, 0x10000, 2 * PAGE_SIZE, 1), 0);
    assert_eq!(kernel.task(child).unwrap().memory_set.translate(0x11), Some(perm(true, false, false)));
    assert_eq!(kernel.task(0).unwrap().memory_set.translate(0x11), Some(perm(true, true, true)));
}

#[test]
fn sys_mmap_and_sys_munmap_results() {
    let loader = loader();
    let mut kernel = booted(&loader);
    assert_eq!(sys_mmap(&mut kernel, 0x10000, PAGE_SIZE, 3), 0);
    assert_eq!(sys_mmap(&mut kernel, 0x10000, PAGE_SIZE, 3), -1);
    assert_eq!(sys_mmap(&mut kernel, 0x1000, PAGE_SIZE, 3), -1);
    assert_eq!(sys_mmap(&mut kernel, 0x20000, PAGE_SIZE, 0), -1);
    assert_eq!(sys_mmap(&mut kernel, 0x20001, PAGE_SIZE, 3), -1);
    assert_eq!(sys_mmap(&mut kernel, 0x20000, 0, 3), 0);
    assert_eq!(sys_munmap(&mut kernel, 0x20000, PAGE_SIZE), -1);
    assert_eq!(sys_munmap(&mut kernel, 0x10000, 2 * PAGE_SIZE), -1);
    assert_eq!(sys_munmap(&mut kernel, 0x10000, PAGE_SIZE), 0);
    assert_eq!(sys_munmap(&mut kernel, 0x10000, PAGE_SIZE), -1);
    assert_eq!(mmap(&mut kernel, 0x10000, PAGE_SIZE, 1), 0);
    assert_eq!(munmap(&mut kernel, 0x10000, PAGE_SIZE), 0);
}

#[test]
fn fetch_task_and_add_task_keep_the_order() {
    let loader = loader();
    let mut kernel = booted(&loader);
    sys_fork(&mut kernel);
    sys_fork(&mut kernel);
    assert_eq!(fetch_task(&mut kernel), Some(1));
    assert_eq!(kernel.manager().len(), 1);
    add_task(&mut kernel, 1);
    assert_eq!(fetch_task(&mut kernel), Some(2));
    assert_eq!(fetch_task(&mut kernel), Some(1));
    assert_eq!(fetch_task(&mut kernel), None);
    assert_eq!(kernel.manager().len(), 0);
}

#[test]
fn get_time_splits_microseconds() {
    let mut ts = TimeVal { sec: 9, usec: 9 };
    assert_eq!(sys_get_time(0, &mut ts, 0), 0);
    assert_eq!((ts.sec, ts.usec), (0, 0));
    assert_eq!(sys_get_time(999_999, &mut ts, 0), 0);
    assert_eq!((ts.sec, ts.usec), (0, 999_999));
    assert_eq!(sys_get_time(1_000_000, &mut ts, 5), 0);
    assert_eq!((ts.sec, ts.usec), (1, 0));
    assert_eq!(sys_get_time(3_600_123_456, &mut ts, 0), 0);
    assert_eq!((ts.sec, ts.usec), (3_600, 123_456));
}

#[test]
fn time_val_in_microseconds() {
    assert_eq!(usize::from(TimeVal { sec: 0, usec: 0 }), 0);
    assert_eq!(usize::from(TimeVal { sec: 2, usec: 5 }), 2_000_005);
    assert_eq!(usize::from(TimeVal { sec: 3_600, usec: 123_456 }), 3_600_123_456);
}

#[test]
fn time_val_in_microseconds_wraps() {
    let huge = TimeVal { sec: usize::MAX, usec: 7 };
    assert_eq!(usize::from(huge), usize::MAX.wrapping_mul(1_000_000).wrapping_add(7));
    let edge = TimeVal { sec: 0, usec: usize::MAX };
    assert_eq!(usize::from(edge), usize::MAX);
    let over = TimeVal { sec: 1, usec: usize::MAX };
    assert_eq!(usize::from(over), 999_999);
}

#[test]
fn set_priority_is_not_kept() {
    assert_eq!(sys_set_priority(0), -1);
    assert_eq!(sys_set_priority(2), -1);
    assert_eq!(sys_set_priority(-5), -1);
    assert_eq!(sys_set_priority(isize::MAX), -1);
}

#[test]
fn task_info_is_left_alone() {
    let mut info = TaskInfo { status: TaskStatus::Ready, syscall_times: [3; 500], time: 17 };
    assert_eq!(sys_task_info(&mut info), 0);
    assert_eq!(info.status, TaskStatus::Ready);
    assert_eq!(info.time, 17);
    assert!(info.syscall_times.iter().all(|n| *n == 3));
}
