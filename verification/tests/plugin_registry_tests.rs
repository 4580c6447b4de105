use wvst_bridge_server::plugin::{PluginClass, PluginDescriptor};
use wvst_bridge_server::plugin_registry::PluginRegistry;

fn plugin(plugin_id: &str, name: &str) -> PluginDescriptor {
    PluginDescriptor {
        plugin_id: plugin_id.to_string(),
        name: name.to_string(),
        path: format!("/tmp/{name}.vst3"),
        classes: vec![PluginClass {
            class_id: Some("class-a".to_string()),
            name: format!("{name} Class"),
        }],
    }
}

#[test]
fn finds_the_first_scanned_plugin_with_an_id() {
    let mut registry = PluginRegistry::new();
    assert!(registry.list().is_empty());
    assert_eq!(registry.find("vst3:a"), None);

    registry.replace_plugins(vec![
        plugin("vst3:a", "First"),
        plugin("vst3:b", "Second"),
        plugin("vst3:a", "Duplicate"),
    ]);
    assert_eq!(registry.find("vst3:a"), Some(plugin("vst3:a", "First")));
    assert_eq!(registry.find("vst3:b"), Some(plugin("vst3:b", "Second")));
    assert_eq!(registry.find("vst3:c"), None);
    assert_eq!(registry.list().len(), 3);
    assert_eq!(registry.list()[2], plugin("vst3:a", "Duplicate"));

    registry.replace_plugins(Vec::new());
    assert_eq!(registry.find("vst3:a"), None);
}
