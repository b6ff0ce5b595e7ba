//! Queueing requests for io_uring.
//!
//! An [`IoUringOperator`] decides what is handed to an io_uring ring. Each call
//! such as `read`, `accept` or `timeout_add` gives the entry to queue, or the
//! error where the kernel does not accept the operation. The holder of the ring
//! pushes the entry and reports to `push_sq` whether there was room; an entry
//! without room waits in a backlog. `select` waits for completions and works off
//! the backlog, step by step.
//!
//! - [`support`]: which operations the kernel accepts.
//! - [`request`]: requests and entries as plain values.
//! - [`sqe`]: the records that the kernel reads, built by the `io_uring` crate.
//! - [`bits`]: casts that keep the low bits.
//! - [`backlog`]: the queue of entries without room.
//! - [`operator`]: the operator and its calls.
//! - [`select`]: waiting and working off the backlog.
//! - [`laws`]: what holds of the whole.
//! - [`record_laws`]: what the kernel reads for each call.

pub mod backlog;
pub mod bits;
pub mod laws;
pub mod operator;
pub mod record_laws;
pub mod request;
pub mod select;
pub mod sqe;
pub mod support;

pub use backlog::Stolen;
pub use operator::{Error, IoUringOperator, RingConfig};
pub use request::{Interval, Request, SqEntry};
pub use select::{Answer, Event, Select, SelectError};
pub use support::{Operation, Support};
