use vstd::prelude::*;

verus! {

/// What a recurring task is, as far as its contracts are concerned.
pub ghost struct TaskView<F> {
    pub callback: F,
    pub name: Seq<char>,
}

/// A named callback that runs every time it is asked to.
pub struct Task<F> {
    task: F,
    name: String,
}

impl<F> View for Task<F> {
    type V = TaskView<F>;

    closed spec fn view(&self) -> TaskView<F> {
        TaskView { callback: self.task, name: self.name@ }
    }
}

impl<F> Task<F> {
    /// Wraps `task` under the given name.
    pub fn new(task: F, name: String) -> (r: Self)
        ensures
            r@.callback == task,
            r@.name == name@,
    {
        Self { task, name }
    }

    /// Runs the callback once and hands back what it returned.
    pub fn execute<A, B, R>(&mut self, a: A, b: B) -> (r: R)
        where
            F: FnMut(A, B) -> R,
        requires
            call_requires(old(self)@.callback, (a, b)),
        ensures
            call_ensures(old(self)@.callback, (a, b), r),
            final(self)@ == old(self)@,
    {
        (self.task)(a, b)
    }

    /// The task's name.
    pub fn name(&self) -> (r: &str)
        ensures
            r@ == self@.name,
    {
        self.name.as_str()
    }
}

/// What a one-time initialization task is, as far as its contracts are concerned.
pub ghost struct InitTaskView<F> {
    pub callback: F,
    pub name: Seq<char>,
    pub done: bool,
    pub attempts: nat,
}

/// A named callback that runs until it first reports success, and then never again.
pub struct InitTask<F> {
    task: F,
    initialised: bool,
    name: String,
    attempts: u64,
}

impl<F> View for InitTask<F> {
    type V = InitTaskView<F>;

    closed spec fn view(&self) -> InitTaskView<F> {
        InitTaskView {
            callback: self.task,
            name: self.name@,
            done: self.initialised,
            attempts: self.attempts as nat,
        }
    }
}

impl<F> InitTask<F> {
    /// Wraps `task` under the given name; it has not run yet.
    pub fn new(task: F, name: String) -> (r: Self)
        ensures
            r@.callback == task,
            r@.name == name@,
            !r@.done,
            r@.attempts == 0,
    {
        Self { task, initialised: false, name, attempts: 0 }
    }

    /// Runs the callback unless it has already succeeded. A run stores the
    /// callback's verdict as the new `done` state and counts one attempt.
    /// Returns whether the task is done.
    pub fn execute_if_uninitialised<A>(&mut self, a: A) -> (r: bool)
        where
            F: FnMut(A) -> bool,
        requires
            !old(self)@.done ==> call_requires(old(self)@.callback, (a,)),
            old(self)@.attempts < u64::MAX,
        ensures
            r == final(self)@.done,
            final(self)@.callback == old(self)@.callback,
            final(self)@.name == old(self)@.name,
            old(self)@.done ==> final(self)@ == old(self)@,
            !old(self)@.done ==> final(self)@.attempts == old(self)@.attempts + 1,
            !old(self)@.done ==> call_ensures(old(self)@.callback, (a,), final(self)@.done),
    {
        if !self.initialised {
            self.initialised = (self.task)(a);
            self.attempts = self.attempts + 1;
        }
        self.initialised
    }

    /// The task's name.
    pub fn name(&self) -> (r: &str)
        ensures
            r@ == self@.name,
    {
        self.name.as_str()
    }

    /// Whether the task has reported success.
    pub fn is_done(&self) -> (r: bool)
        ensures
            r == self@.done,
    {
        self.initialised
    }

    /// How many times the callback has run.
    pub fn attempts(&self) -> (r: u64)
        ensures
            r == self@.attempts,
    {
        self.attempts
    }
}

} // verus!
