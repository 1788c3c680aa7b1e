//! A verified core for a recurring fetch-job scheduler.
//!
//! The library models cron-scheduled fetch jobs: job descriptors are bound
//! to tasks, a scheduler repeatedly picks the task with the earliest next
//! firing time, and each firing runs the task's action with a bounded retry
//! budget, emitting at most one result per firing into a bounded FIFO queue.
//! Waiting, I/O and the actions themselves live outside the library; every
//! decision (which task fires next, when to retry, when to give up, what to
//! emit) is made by verified functions here.

pub mod channel;
pub mod clock;
pub mod config;
pub mod cron_clock;
pub mod records;
pub mod retry;
pub mod scheduler;
pub mod storage;
pub mod task;
pub mod textutil;

pub use textutil::clean_text;
pub use textutil::extract_number;
