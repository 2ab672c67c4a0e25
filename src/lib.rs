//! Control logic of a background service: the status records it reports,
//! how it answers control requests, the lifecycle of its main loop, and the
//! sequence of registry calls that clears a service's launch protection.

pub mod control;
pub mod service_loop;
pub mod status;
pub mod unprotect;
