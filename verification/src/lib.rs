//! Verified core of a Double Commander file-system plugin that shows
//! Kubernetes resources as directories and files.

pub mod consts;
pub mod helper;
pub mod resources;
pub mod iterators;
pub mod shareddata;
pub mod iterator;
pub mod plugin;
pub mod resoures;
