//! Raw receipt printing for a point-of-sale terminal.
//!
//! The library holds the decisions of the printing subsystem: how the
//! installed printers are read from the operating system's listing, how a
//! print job walks through the spooler or the shell utility, what the
//! self-test receipt looks like, and when the update poller checks, installs
//! and announces a newer version.  Talking to the operating system is left to
//! the caller, who hands in what the system answered.

pub mod discovery;
pub mod job;
pub mod job_laws;
pub mod poller;
pub mod poller_laws;
pub mod receipt;
pub mod submit;
pub mod system;
pub mod text;
pub mod wide;
