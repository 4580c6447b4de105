use vstd::prelude::*;

use crate::plugin::{PluginClass, PluginDescriptor};

verus! {

impl PluginClass {
    /// A field-by-field copy.
    pub fn copied(&self) -> (copy: Self)
        ensures
            copy == *self,
    {
        PluginClass {
            class_id: match &self.class_id {
                Some(class_id) => Some(class_id.clone()),
                None => None,
            },
            name: self.name.clone(),
        }
    }
}

impl PluginDescriptor {
    /// A field-by-field copy, classes included.
    pub fn copied(&self) -> (copy: Self)
        ensures
            copy.plugin_id == self.plugin_id,
            copy.name == self.name,
            copy.path == self.path,
            copy.classes@ == self.classes@,
    {
        let mut classes: Vec<PluginClass> = Vec::new();
        let mut index: usize = 0;
        while index < self.classes.len()
            invariant
                index <= self.classes@.len(),
                classes@ == self.classes@.take(index as int),
            decreases self.classes@.len() - index,
        {
            classes.push(self.classes[index].copied());
            index = index + 1;
            assert(classes@ =~= self.classes@.take(index as int));
        }
        assert(classes@ =~= self.classes@);
        PluginDescriptor {
            plugin_id: self.plugin_id.clone(),
            name: self.name.clone(),
            path: self.path.clone(),
            classes,
        }
    }
}

/// Two descriptors that agree on every field.
pub open spec fn same_plugin(a: PluginDescriptor, b: PluginDescriptor) -> bool {
    a.plugin_id == b.plugin_id && a.name == b.name && a.path == b.path && a.classes@ == b.classes@
}

/// The position of the first plugin with the id, if any.
pub open spec fn first_plugin_index(plugins: Seq<PluginDescriptor>, plugin_id: Seq<char>) -> Option<int> {
    if exists|i: int| 0 <= i < plugins.len() && #[trigger] plugins[i].plugin_id@ == plugin_id {
        Some(
            choose|i: int|
                0 <= i < plugins.len() && #[trigger] plugins[i].plugin_id@ == plugin_id && forall|j: int|
                    0 <= j < i ==> plugins[j].plugin_id@ != plugin_id,
        )
    } else {
        None
    }
}

/// The plugins of the last scan, in the order the scan found them.
#[derive(Debug)]
pub struct PluginRegistry {
    plugins: Vec<PluginDescriptor>,
}

impl PluginRegistry {
    pub closed spec fn plugins(&self) -> Seq<PluginDescriptor> {
        self.plugins@
    }

    /// A registry before any scan: no plugins.
    pub fn new() -> (registry: Self)
        ensures
            registry.plugins() == Seq::<PluginDescriptor>::empty(),
    {
        PluginRegistry { plugins: Vec::new() }
    }

    /// The plugins of the last scan.
    pub fn list(&self) -> (plugins: Vec<PluginDescriptor>)
        ensures
            plugins@.len() == self.plugins().len(),
            forall|i: int| 0 <= i < plugins@.len() ==> same_plugin(#[trigger] plugins@[i], self.plugins()[i]),
    {
        let mut plugins: Vec<PluginDescriptor> = Vec::new();
        let mut index: usize = 0;
        while index < self.plugins.len()
            invariant
                index <= self.plugins@.len(),
                plugins@.len() == index,
                forall|i: int| 0 <= i < index ==> same_plugin(#[trigger] plugins@[i], self.plugins@[i]),
            decreases self.plugins@.len() - index,
        {
            plugins.push(self.plugins[index].copied());
            index = index + 1;
        }
        plugins
    }

    /// The first plugin of the last scan with the id, if any.
    pub fn find(&self, plugin_id: &str) -> (found: Option<PluginDescriptor>)
        ensures
            match (found, first_plugin_index(self.plugins(), plugin_id@)) {
                (Some(plugin), Some(index)) => same_plugin(plugin, self.plugins()[index]),
                (None, None) => true,
                _ => false,
            },
    {
        let wanted = String::from_str(plugin_id);
        let mut index: usize = 0;
        while index < self.plugins.len()
            invariant
                index <= self.plugins@.len(),
                wanted@ == plugin_id@,
                forall|j: int| 0 <= j < index ==> (#[trigger] self.plugins@[j]).plugin_id@ != plugin_id@,
            decreases self.plugins@.len() - index,
        {
            if self.plugins[index].plugin_id == wanted {
                let found = self.plugins[index].copied();
                proof {
                    let i = index as int;
                    assert(self.plugins@[i].plugin_id@ == plugin_id@);
                    let chosen = first_plugin_index(self.plugins@, plugin_id@);
                    assert(chosen is Some);
                    let c = chosen->0;
                    if c < i {
                        assert(self.plugins@[c].plugin_id@ != plugin_id@);
                    } else if c > i {
                        assert(self.plugins@[i].plugin_id@ != plugin_id@);
                    }
                    assert(c == i);
                }
                return Some(found);
            }
            index = index + 1;
        }
        proof {
            assert(!(exists|i: int| 0 <= i < self.plugins@.len() && #[trigger] self.plugins@[i].plugin_id@ == plugin_id@));
        }
        None
    }

    /// Puts the plugins of a new scan in place of the old ones.
    pub fn replace_plugins(&mut self, plugins: Vec<PluginDescriptor>)
        ensures
            final(self).plugins() == plugins@,
    {
        self.plugins = plugins;
    }
}

} // verus!
