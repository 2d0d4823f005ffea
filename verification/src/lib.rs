//! Main-thread dispatch and application lifecycle core for a desktop GUI shell.
//!
//! Background threads hand one-shot callbacks to a queue that only the UI
//! thread drains; a small state machine makes shutdown run at most once. The
//! types here are the sequential core: whoever shares them between threads
//! holds them behind a lock and performs the native calls they ask for.

pub mod application;
pub mod delegate;
pub mod lifecycle;
pub mod locale;
pub mod queue;
