//! Unix signals as a pollable, drainable event stream.
//!
//! This library turns asynchronous Unix signal delivery into a synchronous,
//! readiness-based data stream.  A [`signals::Signals`] value blocks a chosen
//! set of signals on the calling thread and opens a kernel notification
//! descriptor scoped to that set; blocked signals are then queued on the
//! descriptor and can be drained, one decoded record at a time, whenever an
//! external poller reports the descriptor readable.
//!
//! The tracked signal set is the source of truth for the thread-mask slice
//! this instance owns: every mutation is computed as a delta against it, and
//! disposal restores exactly that slice.  The library never installs signal
//! handlers and never blocks; reads are non-blocking by construction.
//!
//! Registration with a poller and delivery of drained events to callbacks are
//! left to the embedding application: the library only exposes the
//! descriptor, its static readiness interest (readable, edge-triggered), and
//! the drain pass.

pub mod errors;
pub mod event;
pub mod os;
pub mod sigset;
pub mod signals;

pub use errors::OsResourceError;
pub use event::{Event, SignalInfo};
pub use signals::Signals;
pub use sigset::SignalSet;
