//! The recording of a simplification: one level per collapse that went well.
//!
//! After every collapse the viewer makes a compacted copy of the mesh. Making
//! the copy can fail, and a failed copy must leave the recording as it was and
//! stop the run. This module keeps the recording and hands out the cursor that
//! plays it back. It does not look into a level, so it holds any kind of them.

use crate::playback::Playback;
use vstd::prelude::*;

verus! {

/// The levels recorded so far, oldest first.
pub struct Recording<T> {
    levels: Vec<T>,
}

impl<T> Recording<T> {
    /// The recorded levels in the order they were recorded.
    pub closed spec fn levels(&self) -> Seq<T> {
        self.levels@
    }

    /// A recording without a level.
    pub fn new() -> (recording: Self)
        ensures
            recording.levels() == Seq::<T>::empty(),
    {
        Recording { levels: Vec::new() }
    }

    /// Takes the outcome of making a level. A level that was made is appended
    /// behind those already there; a failure is handed back and nothing is
    /// recorded.
    pub fn record<E>(&mut self, outcome: Result<T, E>) -> (result: Result<(), E>)
        ensures
            outcome matches Ok(level) ==> result is Ok && final(self).levels() == old(
                self,
            ).levels().push(level),
            outcome matches Err(e) ==> result == Err::<(), E>(e) && final(self).levels() == old(
                self,
            ).levels(),
    {
        match outcome {
            Ok(level) => {
                self.levels.push(level);
                Ok(())
            },
            Err(e) => Err(e),
        }
    }

    /// The recorded levels, oldest first.
    pub fn as_slice(&self) -> (levels: &[T])
        ensures
            levels@ == self.levels(),
    {
        self.levels.as_slice()
    }

    /// A cursor on the first recorded level, or nothing while no level is
    /// recorded. The cursor spans exactly the levels recorded so far.
    pub fn cursor(&self) -> (cursor: Option<Playback>)
        ensures
            cursor is None <==> self.levels().len() == 0,
            cursor matches Some(c) ==> c.position() == 0 && c.length() == self.levels().len(),
    {
        Playback::new(self.levels.len())
    }
}

} // verus!
