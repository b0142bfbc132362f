//! Settings that every call of the plugin shares.
use vstd::prelude::*;

verus! {

/// The plugin's number given by the file manager and the namespace whose
/// resources are listed.
#[derive(Debug, Clone)]
pub struct SharedData {
    pub plugin_nr: i32,
    pub selected_namespace: String,
}

impl SharedData {
    /// Plugin number 1 and the `default` namespace.
    pub fn new() -> (r: Self)
        ensures
            r.plugin_nr == 1,
            r.selected_namespace@ == "default"@,
    {
        SharedData { plugin_nr: 1, selected_namespace: "default".to_owned() }
    }
}

} // verus!
