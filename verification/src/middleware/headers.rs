//! A request header as the middlewares see it.

use vstd::prelude::*;

verus! {

/// A header of a request: absent, present but not visible ASCII (its
/// value cannot be read as text), or its text.
#[derive(Debug, Clone)]
pub enum HeaderInput {
    Missing,
    Unreadable,
    Text(String),
}

} // verus!
