//! A work-stealing M:N task executor: tasks are routed to per-processor
//! injection queues, drained by machines (driver threads) into local FIFO
//! workers, stolen between machines when idle, and a system monitor replaces
//! machines whose heartbeat has gone stale.

pub mod routing;
pub mod walk;
pub mod dispatch;
pub mod primitives;
pub mod tag;
pub mod processor;
pub mod machine;
pub mod executor;
