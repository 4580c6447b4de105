use vstd::prelude::*;

verus! {

/// A class that a plugin module exposes.
#[derive(Debug, Clone, PartialEq, Eq)]
pub struct PluginClass {
    pub class_id: Option<String>,
    pub name: String,
}

/// A scanned plugin, with the fields that instance creation reads.
#[derive(Debug, Clone, PartialEq, Eq)]
pub struct PluginDescriptor {
    pub plugin_id: String,
    pub name: String,
    pub path: String,
    pub classes: Vec<PluginClass>,
}

} // verus!
