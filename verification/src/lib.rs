//! Host runtime for sandboxed robot-control programs.
//!
//! The library models the operating-system surface that a sandboxed
//! control program expects: cooperative task scheduling, mutexes with
//! timeouts, per-task local storage, a host/guest memory bridge, and a
//! character display peripheral. Every state change is captured by an
//! explicit contract; the asynchronous executor and the sandbox itself
//! live outside the library and drive it through plain values.

use vstd::prelude::*;

pub mod errno;
pub mod events;
pub mod host_calls;
pub mod lcd;
pub mod memory;
pub mod mutex;
pub mod state;
pub mod tasks;
pub mod text;

verus! {

/// Conversion of a flag into the numeric form the guest expects.
pub trait BoolExt {
    /// The value `as_i32` returns.
    spec fn spec_as_i32(&self) -> i32;

    /// One for a set flag, zero for a clear one.
    fn as_i32(&self) -> (r: i32)
        ensures
            r == self.spec_as_i32(),
    ;
}

impl BoolExt for bool {
    open spec fn spec_as_i32(&self) -> i32 {
        if *self {
            1
        } else {
            0
        }
    }

    fn as_i32(&self) -> (r: i32) {
        if *self {
            1
        } else {
            0
        }
    }
}

} // verus!
