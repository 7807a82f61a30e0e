//! Decision logic of a diagnostic subscriber for a publish/subscribe
//! middleware: the fixed-size sample payload and its text reading, the
//! console lines, the discovery retry rule, the ordered start-up sequence
//! and the bounded or unbounded consumption of samples.
//!
//! Nothing here performs I/O. A driver performs each directive that the
//! state machines hand out and reports back what happened.

pub mod consume;
pub mod discovery;
pub mod lines;
pub mod payload;
pub mod session;
