//! Retry policies with backoff, and the decisions of the loops that they drive.

pub mod backoff;
pub mod backoff_laws;
pub mod collect_and_retry_laws;
pub mod collect_and_retry_run;
pub mod collect_laws;
pub mod collect_run;
pub mod duration;
pub mod equivalence_laws;
pub mod numeric;
pub mod policy;
pub mod retry_laws;
pub mod retry_run;
pub mod step;
pub mod task;
pub mod tracing_init;

pub use backoff::{Backoff, BackoffIter};
pub use collect_and_retry_run::{CollectAndRetryCall, CollectAndRetryRun};
pub use collect_run::{CollectCall, CollectRun};
pub use duration::Duration;
pub use numeric::{Factor, FloatOps};
pub use policy::RetryPolicy;
pub use retry_run::{retry, retry_if, RetryRun};
pub use step::Step;
pub use task::{Always, Condition, SuccessCondition, Task, TaskWithParameter};
