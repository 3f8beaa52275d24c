//! The verified core of a desktop application that runs sandboxed scripts.
//!
//! A run is one supervised child process of a capability-sandboxed script
//! runtime, addressed by a caller-chosen identifier. The heart of this crate
//! is the part of supervision that can be stated and proved: how a permission
//! request becomes command-line flags ([`permissions`], [`invocation`]), how
//! the table of live runs changes under spawn, send, kill and natural exit
//! ([`registry`], [`control`]), which notifications a run's output and
//! termination produce ([`events`], [`forward`]), and what holds of these
//! taken together ([`laws`]). Starting processes, writing to their pipes and
//! delivering notifications are left to the caller.
//!
//! Beside it stand the rules of the application's other services, as far as
//! they are rules on plain values: the text of database statements ([`sql`]),
//! the headers that the local proxy passes on ([`proxy`]), and the naming of
//! attachment files by their content ([`blobs`]).
pub mod blobs;
pub mod control;
pub mod errors;
pub mod events;
pub mod forward;
pub mod invocation;
pub mod laws;
pub mod permissions;
pub mod proxy;
pub mod registry;
pub mod sql;
pub mod text;
