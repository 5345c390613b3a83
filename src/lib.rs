//! A safe layer over a native text-to-speech engine's C interface: the
//! translation of initialization options, the encoding of text as C strings,
//! the mapping of native status codes to typed errors, and the lifecycle of
//! the single engine handle that a process may hold.
use vstd::prelude::*;

pub mod cstr;
pub mod engine;
pub mod error;
pub mod options;

verus! {

} // verus!
