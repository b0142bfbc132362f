//! The listing of the deployments of a namespace.
use vstd::prelude::*;
use crate::iterators::K8sObjectsIterator;

verus! {

/// A listing of the deployments of a namespace.
pub type DeploymentsIterator = K8sObjectsIterator;

} // verus!
