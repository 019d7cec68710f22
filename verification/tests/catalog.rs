use brian_desktop::desktop_layout::catalog_entry;
use brian_desktop::json::print_json;
use brian_desktop::mcp::{core_tool_stubs, McpError, ToolTier};
use brian_desktop::widget_catalog::{default_allow_multiple, WidgetCatalog, WidgetCatalogEntry, WidgetSize};

fn entry(widget_type: &str, allow_multiple: bool, size: Option<(i32, i32)>) -> WidgetCatalogEntry {
    WidgetCatalogEntry {
        widget_type: widget_type.to_string(),
        display_name: widget_type.to_uppercase(),
        category: None,
        surface_kind: None,
        allow_multiple,
        default_size: size.map(|(width, height)| WidgetSize { width, height }),
    }
}

fn seed() -> WidgetCatalog {
    WidgetCatalog {
        schema_version: 3,
        generated_from: Some("seed".to_string()),
        widgets: vec![entry("clock_widget", true, Some((3, 2))), entry("task_queue", false, None)],
    }
}

#[test]
fn entries_default_to_two_by_two() {
    let e = entry("x", true, None);
    assert_eq!((e.default_width(), e.default_height()), (2, 2));
    let e = entry("x", true, Some((5, 1)));
    assert_eq!((e.default_width(), e.default_height()), (5, 1));
    assert!(default_allow_multiple());
}

#[test]
fn catalog_lookup() {
    let c = seed();
    assert_eq!(c.widget_types(), vec!["clock_widget", "task_queue"]);
    assert_eq!(c.find("task_queue").unwrap().allow_multiple, false);
    assert!(c.find("nope").is_none());
    assert_eq!(catalog_entry(&c, "clock_widget").unwrap().default_width(), 3);
}

#[test]
fn desktop_widgets_are_appended_once() {
    let desktop = WidgetCatalog {
        schema_version: 1,
        generated_from: None,
        widgets: vec![
            entry("desktop_assist", true, None),
            entry("clock_widget", false, Some((9, 9))),
            entry("desktop_sync", false, None),
            entry("desktop_assist", false, None),
        ],
    };
    let merged = seed().with_desktop_widgets(desktop);
    assert_eq!(merged.schema_version, 3);
    assert_eq!(merged.generated_from.as_deref(), Some("seed"));
    assert_eq!(merged.widget_types(), vec!["clock_widget", "task_queue", "desktop_assist", "desktop_sync"]);
    assert_eq!(merged.find("clock_widget").unwrap().default_width(), 3);
    assert!(merged.find("desktop_assist").unwrap().allow_multiple);
}

#[test]
fn tool_registry() {
    let tools = core_tool_stubs();
    assert_eq!(tools.len(), 1);
    assert_eq!(tools[0].name, "list_tasks");
    assert_eq!(tools[0].description, "List active tasks from local CORE projections");
    assert_eq!(tools[0].tier, ToolTier::Core);
    assert_eq!(print_json(&tools[0].input_schema), "{\"properties\":{},\"type\":\"object\"}");
    assert_eq!(McpError::ToolNotFound("x".to_string()).message(), "tool not found: x");
    assert_eq!(McpError::PreviewRequired.message(), "preview required before execution");
}
