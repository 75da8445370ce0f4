//! Classified check-in alerts from a streaming event source.
use vstd::prelude::*;

pub mod decode;
pub mod event;
pub mod session;

verus! {

} // verus!
