//! The tasks that a client offers.

use vstd::prelude::*;

verus! {

/// The tasks that a client offers, at least one, the most wanted first.
pub struct Tasks<T> {
    pub tasks: Vec<T>,
}

impl<T> View for Tasks<T> {
    type V = Seq<T>;

    open spec fn view(&self) -> Seq<T> {
        self.tasks@
    }
}

/// No task was given.
#[derive(Debug, Copy, Clone, PartialEq, Eq, Structural)]
pub struct NoTask;

impl<T> Tasks<T> {
    /// There is at least one task.
    pub open spec fn wf(&self) -> bool {
        self@.len() > 0
    }

    /// The given tasks, in this order, unless there are none.
    pub fn from_vec(tasks: Vec<T>) -> (result: Result<Tasks<T>, NoTask>)
        ensures
            match result {
                Ok(t) => t.wf() && t@ == tasks@,
                Err(_) => tasks@.len() == 0,
            },
    {
        if tasks.len() == 0 {
            Err(NoTask)
        } else {
            Ok(Tasks { tasks })
        }
    }
}

} // verus!
