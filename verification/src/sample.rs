//! A value that a task waits for: setting it wakes the waiting task.

use vstd::prelude::*;

verus! {

/// A value that may not have arrived yet, and the task waiting for it.
pub struct Sample<T> {
    x: i8,
    task: Option<T>,
    foo: Option<i8>,
}

impl<T> Sample<T> {
    /// A sample with the base value `x`, no value yet and no task waiting.
    pub fn new(x: i8) -> (sample: Self)
        ensures
            sample.base() == x,
            sample.task_view() is None,
            sample.value() is None,
    {
        Sample { x, task: None, foo: None }
    }

    /// The base value.
    pub closed spec fn base(&self) -> i8 {
        self.x
    }

    /// The task waiting for the value.
    pub closed spec fn task_view(&self) -> Option<T> {
        self.task
    }

    /// The value, once it has arrived.
    pub closed spec fn value(&self) -> Option<i8> {
        self.foo
    }

    /// Sets the value, and returns whether a task waits for it and must be
    /// woken.
    pub fn set_foo(&mut self, foo: i8) -> (wake: bool)
        ensures
            final(self).value() == Some(foo),
            final(self).task_view() == old(self).task_view(),
            final(self).base() == old(self).base(),
            wake <==> old(self).task_view() is Some,
    {
        self.foo = Some(foo);
        self.task.is_some()
    }

    /// The task waiting for the value.
    pub fn task(&self) -> (task: Option<&T>)
        ensures
            task is None <==> self.task_view() is None,
            task matches Some(t) ==> self.task_view() == Some(*t),
    {
        self.task.as_ref()
    }

    /// The value, once it has arrived.
    pub fn foo(&self) -> (foo: Option<i8>)
        ensures
            foo == self.value(),
    {
        self.foo
    }
}

} // verus!
