//! The reference sink: keeps only the most recently appended value.

use vstd::prelude::*;

use crate::sinks::Sink;

verus! {

/// A sink that discards everything but the latest appended value. The driver
/// drains it between steps.
pub struct MostRecentFrameSink<T: View> {
    inner: Option<T>,
    history: Ghost<Seq<<T as View>::V>>,
}

impl<T: View> MostRecentFrameSink<T> {
    /// The value the sink currently holds, if any.
    pub closed spec fn latest(&self) -> Option<T> {
        self.inner
    }

    pub fn new() -> (r: MostRecentFrameSink<T>)
        ensures
            r.sunk() == Seq::<<T as View>::V>::empty(),
            r.latest() is None,
    {
        MostRecentFrameSink { inner: None, history: Ghost(Seq::empty()) }
    }

    /// Whether a value has been appended since the sink was created.
    pub fn has_frame(&self) -> (r: bool)
        ensures
            r == (self.latest() is Some),
    {
        self.inner.is_some()
    }

    /// Surrenders the held value.
    pub fn into_frame(self) -> (r: Option<T>)
        ensures
            r == self.latest(),
    {
        self.inner
    }
}

impl<T: View> Sink<T> for MostRecentFrameSink<T> {
    closed spec fn sunk(&self) -> Seq<<T as View>::V> {
        self.history@
    }

    /// Records the value in the history and replaces the held value with it:
    /// only the latest appended value survives.
    fn append(&mut self, value: T)
        ensures
            final(self).latest() == Some(value),
    {
        proof {
            self.history@ = self.history@.push(value@);
        }
        self.inner = Some(value);
    }
}

} // verus!
