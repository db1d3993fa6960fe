//! The successful answer of a handler.
use vstd::prelude::*;

verus! {

/// A successful answer: the message shown with it and its data.
#[derive(Debug, Clone)]
pub struct Reply<T> {
    pub message: &'static str,
    pub data: T,
}

} // verus!
