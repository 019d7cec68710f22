use brian_desktop::desktop_layout::{
    build_template_slots, desktop_default_layout, right_stack_heights, template_rail_row_units,
    template_slot_for, widgets_overlap, DEFAULT_RAIL_ROW_UNITS,
};
use brian_desktop::ids::Uuid;
use brian_desktop::layout::{can_install, clamp_layout, clamp_layout_desktop, clamp_layout_to, next_available_row, COLUMN_COUNT};
use brian_desktop::projections::WidgetInstanceProjection;

fn widget(widget_type: &str, pos_x: i32, pos_y: i32, width: i32, height: i32) -> WidgetInstanceProjection {
    WidgetInstanceProjection {
        id: Uuid { value: 7 },
        widget_type: widget_type.to_string(),
        pos_x,
        pos_y,
        width,
        height,
        config_json: "{}".to_string(),
    }
}

#[test]
fn right_stack_heights_sum_to_rail_units() {
    for rail in [8, 10, 12, 16] {
        let (task_h, _, note_h, _, sync_h, _) = right_stack_heights(rail);
        assert_eq!(task_h + note_h + sync_h, rail, "rail={rail}");
    }
}

#[test]
fn build_template_slots_default_matches_legacy_ratios() {
    let slots = build_template_slots(8);
    let task = slots.iter().find(|s| s.widget_type == "task_queue").unwrap();
    let note = slots.iter().find(|s| s.widget_type == "note_capture").unwrap();
    let sync = slots.iter().find(|s| s.widget_type == "desktop_sync").unwrap();
    assert_eq!(task.height, 3);
    assert_eq!(note.height, 3);
    assert_eq!(sync.height, 2);
    assert_eq!(sync.pos_y, 6);
}

#[test]
fn desktop_clamp_allows_beyond_core_eight_columns() {
    let (pos_x, width) = clamp_layout_desktop(10, 4);
    assert_eq!(pos_x, 10);
    assert_eq!(width, 4);
}

#[test]
fn next_row_after_tallest_widget() {
    let instances = vec![widget("clock_widget", 0, 4, 2, 3)];
    assert_eq!(next_available_row(&instances), 7);
}

#[test]
fn single_instance_widgets_reject_duplicates() {
    let instances = vec![widget("task_queue", 0, 0, 4, 4)];
    assert!(!can_install("task_queue", false, &instances));
    assert!(can_install("clock_widget", false, &instances));
}

#[test]
fn next_row_of_empty_grid_and_negative_rows() {
    assert_eq!(next_available_row(&[]), 0);
    let instances = vec![widget("a", 0, -5, 1, 1), widget("b", 0, -9, 1, 2)];
    assert_eq!(next_available_row(&instances), -4);
    let instances = vec![widget("a", 0, 1, 1, 1), widget("b", 0, 9, 1, 2), widget("c", 0, 3, 1, 1)];
    assert_eq!(next_available_row(&instances), 11);
}

#[test]
fn multi_instance_widgets_always_install() {
    let instances = vec![widget("clock_widget", 0, 0, 2, 2)];
    assert!(can_install("clock_widget", true, &instances));
}

#[test]
fn clamp_keeps_widgets_inside_the_grid() {
    assert_eq!(clamp_layout(10, 4), (4, 4));
    assert_eq!(clamp_layout(-3, 0), (0, 1));
    assert_eq!(clamp_layout(3, 20), (0, 8));
    assert_eq!(clamp_layout(2, 3), (2, 3));
    assert_eq!(clamp_layout_desktop(60, 50), (0, 48));
    assert_eq!(clamp_layout_to(5, 2, 6), (4, 2));
    assert_eq!(COLUMN_COUNT, 8);
}

#[test]
fn template_rail_is_at_least_four_rows() {
    assert_eq!(template_rail_row_units(2), 4);
    assert_eq!(template_rail_row_units(9), 9);
    let slots = build_template_slots(1);
    assert_eq!(slots[0].height, 4);
    assert_eq!(slots[2].height, 1);
    assert_eq!(slots[3].pos_y, 1);
    assert_eq!(slots[4].height, 2);
    assert_eq!(slots[4].pos_y, 2);
}

#[test]
fn right_stack_uses_three_eighths() {
    assert_eq!(right_stack_heights(10), (3, 0, 3, 3, 4, 6));
    assert_eq!(right_stack_heights(16), (6, 0, 6, 6, 4, 12));
    assert_eq!(right_stack_heights(-3), (-1, 0, -1, -1, -1, -2));
}

#[test]
fn default_layout_places_five_widgets() {
    let slots = desktop_default_layout();
    let types: Vec<&str> = slots.iter().map(|s| s.widget_type).collect();
    assert_eq!(types, vec!["desktop_timeline", "desktop_assist", "task_queue", "note_capture", "desktop_sync"]);
    assert_eq!(slots[1].pos_x, 2);
    assert_eq!(slots[1].width, 4);
    assert_eq!(slots[1].height, DEFAULT_RAIL_ROW_UNITS);
    let slots = build_template_slots(12);
    assert!(!widgets_overlap(&slots.iter().map(|s| widget(s.widget_type, s.pos_x, s.pos_y, s.width, s.height)).collect::<Vec<_>>()));
}

#[test]
fn template_slot_lookup() {
    let slot = template_slot_for("note_capture", 12).unwrap();
    assert_eq!((slot.pos_x, slot.pos_y, slot.width, slot.height), (6, 4, 2, 4));
    assert!(template_slot_for("clock_widget", 12).is_none());
}

#[test]
fn overlap_detection() {
    let a = widget("a", 0, 0, 2, 2);
    let b = widget("b", 1, 1, 2, 2);
    let c = widget("c", 2, 0, 2, 2);
    assert!(widgets_overlap(&[a.clone(), b.clone()]));
    assert!(!widgets_overlap(&[a.clone(), c.clone()]));
    assert!(widgets_overlap(&[c, a, b]));
    assert!(!widgets_overlap(&[]));
    assert!(widgets_overlap(&[widget("x", i32::MAX - 1, 0, 5, 1), widget("y", i32::MAX - 1, 0, 5, 1)]));
}
