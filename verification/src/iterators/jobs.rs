//! The listing of the jobs of a namespace.
use vstd::prelude::*;
use crate::iterators::K8sObjectsIterator;

verus! {

/// A listing of the jobs of a namespace.
pub type JobsIterator = K8sObjectsIterator;

} // verus!
