//! Control-plane protocol of a kernel fault-injection driver.
//!
//! A caller describes where to intercept execution (a matcher) and which fault
//! to apply there (an injector). This crate turns such a pairing into the
//! fixed-layout records the driver reads, plans each control transaction, and
//! interprets what the driver answered. Performing the transaction itself is
//! left to the program that owns the device handle.

pub mod protocol;
