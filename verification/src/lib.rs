//! An init process for containers: it starts one immediate child, forwards
//! signals to it, adopts and reaps orphaned descendants, and stops once no
//! immediate child is left.
//!
//! This library holds the decisions of that process as verified state
//! machines; the program around it performs the system calls they ask for.

pub mod child_process;
pub mod cli;
pub mod event;
pub mod event_dispatcher;
pub mod handler;
pub mod signals;

pub use event::Event;
pub use handler::Handler;
