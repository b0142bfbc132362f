//! The names of the resources of one kind in a namespace.
use vstd::prelude::*;
use crate::iterators::get_resources;

pub use crate::resources::K8SResources;

verus! {

impl K8SResources {
    /// The names of the resources of this kind in a namespace, given the
    /// outcome of listing the pods there: the pod names for `Pod` when the
    /// listing succeeded; none when it failed, and none for every other kind.
    pub fn get_resource<E>(&self, pod_names: Result<Vec<String>, E>) -> (r: Vec<String>)
        ensures
            (*self == K8SResources::Pod && pod_names is Ok) ==> r@ == pod_names->Ok_0@,
            !(*self == K8SResources::Pod && pod_names is Ok) ==> r@.len() == 0,
    {
        match self {
            K8SResources::Pod => get_resources(pod_names),
            _ => Vec::new(),
        }
    }
}

} // verus!
