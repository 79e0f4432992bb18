use plugify::plugin::{
    on_plugin_end, on_plugin_start, on_plugin_update, PluginCallbacks, PluginContext, PluginInfo,
};

#[test]
fn fresh_callbacks_report_nothing() {
    let cbs = PluginCallbacks::default();
    assert!(!cbs.has_start());
    assert!(!cbs.has_update());
    assert!(!cbs.has_end());
    let ctx = cbs.context();
    assert!(!ctx.has_start && !ctx.has_update && !ctx.has_end);
}

#[test]
fn default_context_reports_nothing() {
    let ctx = PluginContext::default();
    assert!(!ctx.has_start);
    assert!(!ctx.has_update);
    assert!(!ctx.has_end);
}

#[test]
fn registration_fills_the_named_slot_only() {
    let mut cbs = PluginCallbacks::default();
    on_plugin_start(&mut cbs, 0x100);
    assert!(cbs.has_start());
    assert!(!cbs.has_update());
    assert!(!cbs.has_end());
    assert_eq!(cbs.start(), 0x100);
}

#[test]
fn context_reports_each_registered_callback() {
    let mut cbs = PluginCallbacks::default();
    on_plugin_start(&mut cbs, 0x100);
    on_plugin_update(&mut cbs, 0x200);
    on_plugin_end(&mut cbs, 0x300);
    assert_eq!(cbs.start(), 0x100);
    assert_eq!(cbs.update(), 0x200);
    assert_eq!(cbs.end(), 0x300);
    let ctx = cbs.context();
    assert!(ctx.has_start && ctx.has_update && ctx.has_end);
}

#[test]
fn partial_registration_is_reported_as_such() {
    let mut cbs = PluginCallbacks::default();
    on_plugin_update(&mut cbs, 0x200);
    let ctx = cbs.context();
    assert!(!ctx.has_start);
    assert!(ctx.has_update);
    assert!(!ctx.has_end);
}

#[test]
fn plugin_info_carries_metadata() {
    let info = PluginInfo {
        id: 42,
        name: String::from("sample"),
        description: String::from("a sample plugin"),
        version: String::from("1.0.0"),
        author: String::from("someone"),
        website: String::from("https://example.invalid"),
        license: String::from("MIT"),
        location: String::from("/plugins/sample"),
        dependencies: vec![String::from("core")],
    };
    assert_eq!(info.id, 42);
    assert_eq!(info.name, "sample");
    assert_eq!(info.dependencies.len(), 1);
}
