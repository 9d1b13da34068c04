//! The register state that a task resumes with.
use vstd::prelude::*;
use vstd::array::spec_array_update;
use vstd::array::spec_array_fill_for_copy_type;

verus! {

/// Index of the register that holds the stack pointer.
pub const REG_SP: usize = 2;

/// Index of the register that carries the result of a system call back to
/// the task.
pub const REG_A0: usize = 10;

/// The saved user registers of a task.
#[derive(Clone, Copy, Debug)]
pub struct TrapContext {
    /// The general registers.
    pub x: [usize; 32],
    /// The address at which the task resumes.
    pub sepc: usize,
}

impl TrapContext {
    /// The context of a task that has not run yet: it starts at `entry` with
    /// its stack pointer at `sp` and every other register zero.
    pub open spec fn spec_app_init_context(entry: usize, sp: usize) -> TrapContext {
        TrapContext {
            x: spec_array_update(spec_array_fill_for_copy_type::<usize, 32>(0), REG_SP as int, sp),
            sepc: entry,
        }
    }

    /// This context with `value` as the result that the task will see when
    /// it resumes.
    pub open spec fn with_return_value(self, value: usize) -> TrapContext {
        TrapContext { x: spec_array_update(self.x, REG_A0 as int, value), sepc: self.sepc }
    }

    /// The result that the task will see when it resumes.
    pub open spec fn return_value(self) -> usize {
        self.x[REG_A0 as int]
    }

    /// Builds the context of a task that has not run yet.
    pub fn app_init_context(entry: usize, sp: usize) -> (cx: Self)
        ensures
            cx == Self::spec_app_init_context(entry, sp),
            cx.return_value() == 0,
    {
        let mut cx = TrapContext { x: [0;32], sepc: entry };
        cx.x[REG_SP] = sp;
        cx
    }

    /// Sets the result that the task will see when it resumes.
    pub fn set_return_value(&mut self, value: usize)
        ensures
            *final(self) == old(self).with_return_value(value),
            final(self).return_value() == value,
    {
        self.x[REG_A0] = value;
    }

    /// Reads the result that the task will see when it resumes.
    pub fn get_return_value(&self) -> (value: usize)
        ensures
            value == self.return_value(),
    {
        self.x[REG_A0]
    }
}

} // verus!
