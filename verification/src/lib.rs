//! Futex-based building blocks for Linux synchronisation primitives that talk
//! to the kernel directly: absolute timestamps for futex deadlines and the
//! decisions taken around the futex wait and wake system calls.

pub mod timespec;

pub mod futex;
