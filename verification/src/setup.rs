use vstd::prelude::*;

verus! {

/// Tracks the completion of the two startup tasks the application waits for
/// before swapping its splash window for the main window.
pub struct SetupState {
    pub frontend_task: bool,
    pub backend_task: bool,
}

/// The two startup tasks that report their completion.
#[derive(Clone, Copy, Debug, PartialEq, Eq, Structural)]
pub enum SetupTask {
    Frontend,
    Backend,
}

impl SetupState {
    /// A fresh state: neither task has completed yet.
    pub fn new() -> (r: SetupState)
        ensures
            !r.frontend_task,
            !r.backend_task,
    {
        SetupState { frontend_task: false, backend_task: false }
    }

    /// Records that one startup task finished and reports whether both have
    /// now completed, the signal to switch windows.  A task that reports
    /// twice stays completed; the other task's flag is untouched.
    pub fn mark_complete(&mut self, task: SetupTask) -> (both_done: bool)
        ensures
            final(self).frontend_task == (old(self).frontend_task || task == SetupTask::Frontend),
            final(self).backend_task == (old(self).backend_task || task == SetupTask::Backend),
            both_done == (final(self).frontend_task && final(self).backend_task),
    {
        match task {
            SetupTask::Frontend => {
                self.frontend_task = true;
            },
            SetupTask::Backend => {
                self.backend_task = true;
            },
        }
        self.frontend_task && self.backend_task
    }
}

} // verus!
