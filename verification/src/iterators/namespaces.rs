//! The listing of the namespaces of the cluster.
use vstd::prelude::*;
use crate::iterators::K8sObjectsIterator;

verus! {

/// A listing of the namespaces of the cluster.
pub type NamespacesIterator = K8sObjectsIterator;

} // verus!
