//! What a run asks of its caller.

use crate::duration::Duration;
use vstd::prelude::*;

verus! {

/// What to do after a call.
pub enum Step<Run, R, E> {
    /// The run is over, with this result.
    Finish(Result<R, E>),
    /// The task succeeded and is to be called again: go on with `run` after `delay`.
    Again { run: Run, delay: Duration },
    /// The task failed with `error` and is to be called again: go on with `run` after `delay`.
    Retry { run: Run, error: E, delay: Duration },
}

} // verus!
