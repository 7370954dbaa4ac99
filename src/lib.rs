//! File persistence for a text and markdown editor: the decisions around
//! reading a file, saving it and asking whether it exists, and the
//! diagnostics that accompany each operation. The host performs the
//! filesystem calls and hands their results to this library.
use vstd::prelude::*;

pub mod diagnostics;
pub mod naming;
pub mod records;
pub mod service;

verus! {

} // verus!
