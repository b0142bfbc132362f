//! The listing of the nodes of the cluster.
use vstd::prelude::*;
use crate::iterators::K8sObjectsIterator;

verus! {

/// A listing of the nodes of the cluster.
pub type NodesIterator = K8sObjectsIterator;

} // verus!
