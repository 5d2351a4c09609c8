//! Lifecycle rules for the control channel of an enclave process and for the
//! hardware resources that back the enclave.
//!
//! Every decision is a function from plain values to plain values. The code
//! that touches the file system, the notification descriptor, threads and the
//! device performs the actions returned here and reports back what happened.

pub mod fatal;
pub mod monitor;
pub mod notify;
pub mod path;
pub mod resource;
pub mod socket;
