//! Configuration that is loaded once and only read afterwards.

use vstd::prelude::*;

verus! {

/// The name of the storage bucket that holds sources and derivatives.
pub struct Bucket(pub String);

} // verus!
