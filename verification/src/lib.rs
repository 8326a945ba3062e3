//! A fixed-size pool of worker threads executing submitted jobs.
//!
//! A [`ThreadPool`](pool::ThreadPool) owns a fixed set of workers, each a
//! dedicated thread bound to one shared job source. Callers hand the pool
//! units of work through [`execute`](pool::ThreadPool::execute); any idle
//! worker picks up the next job, in submission order. Teardown closes the
//! job source first and then joins every worker.

mod channel;
mod http;
mod pool;

pub use http::classify_request;
pub use http::PageRequest;
pub use pool::Job;
pub use pool::PoolCreationError;
pub use pool::PoolView;
pub use pool::TeardownError;
pub use pool::ThreadPool;
