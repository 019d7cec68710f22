//! The default desktop workbench layout on the 8-column grid: a timeline rail
//! on the left, Assist in the centre, and a right column that stacks tasks,
//! note capture and sync in a 3:3:2 ratio.

use crate::projections::WidgetInstanceProjection;
use crate::widget_catalog::{first_of_type, WidgetCatalog, WidgetCatalogEntry};
use vstd::prelude::*;

verus! {

/// The epoch of the seeded workbench layout.
pub const WORKBENCH_LAYOUT_EPOCH: i32 = 4;

/// Rail height used when the viewport is not measured (seed and reset).
pub const DEFAULT_RAIL_ROW_UNITS: i32 = 8;

/// A widget's place in the default layout.
#[derive(Debug, Clone, Copy)]
pub struct DesktopLayoutSlot {
    pub widget_type: &'static str,
    pub pos_x: i32,
    pub pos_y: i32,
    pub width: i32,
    pub height: i32,
}

/// A slot as plain values: type, column, row, width, height.
pub type SlotView = (Seq<char>, int, int, int, int);

/// The plain values of a slot.
pub open spec fn slot_view(s: DesktopLayoutSlot) -> SlotView {
    (s.widget_type@, s.pos_x as int, s.pos_y as int, s.width as int, s.height as int)
}

/// Integer division rounding toward zero, as Rust's `/` does.
pub open spec fn trunc_div(a: int, b: int) -> int {
    if a >= 0 {
        a / b
    } else {
        -((-a) / b)
    }
}

/// The rail height of the template: at least 4 rows.
pub open spec fn spec_template_rail(visible_row_units: int) -> int {
    if visible_row_units > 4 {
        visible_row_units
    } else {
        4
    }
}

/// The heights and rows of the right column for a rail of `rail` rows:
/// (task height, task row, note height, note row, sync height, sync row).
/// Tasks and notes get three eighths each, sync the rest.
pub open spec fn spec_right_stack(rail: int) -> (int, int, int, int, int, int) {
    let task_h = trunc_div(rail * 3, 8);
    let note_h = trunc_div(rail * 3, 8);
    let sync_h = rail - task_h - note_h;
    (task_h, 0, note_h, task_h, sync_h, task_h + note_h)
}

/// The five slots of the template for a rail of `rail_row_units` rows.
pub open spec fn spec_template_slots(rail_row_units: int) -> Seq<SlotView> {
    let rail = spec_template_rail(rail_row_units);
    let s = spec_right_stack(rail);
    seq![
        ("desktop_timeline"@, 0, 0, 2, rail),
        ("desktop_assist"@, 2, 0, 4, rail),
        ("task_queue"@, 6, s.1, 2, s.0),
        ("note_capture"@, 6, s.3, 2, s.2),
        ("desktop_sync"@, 6, s.5, 2, s.4),
    ]
}

/// A rail height whose threefold fits an `i32`.
pub open spec fn rail_fits(rail: int) -> bool {
    -715827882 <= rail <= 715827882
}

/// The rail height of the template: `visible_row_units`, but at least 4.
pub fn template_rail_row_units(visible_row_units: i32) -> (r: i32)
    ensures
        r == spec_template_rail(visible_row_units as int),
{
    if visible_row_units > 4 {
        visible_row_units
    } else {
        4
    }
}

/// The right column's heights and rows for a rail of `rail_row_units` rows;
/// the three heights add up to the rail.
pub fn right_stack_heights(rail_row_units: i32) -> (r: (i32, i32, i32, i32, i32, i32))
    requires
        rail_fits(rail_row_units as int),
    ensures
        (r.0 as int, r.1 as int, r.2 as int, r.3 as int, r.4 as int, r.5 as int) == spec_right_stack(rail_row_units as int),
        r.0 + r.2 + r.4 == rail_row_units,
{
    let task_h: i32 = (rail_row_units * 3) / 8;
    let note_h: i32 = (rail_row_units * 3) / 8;
    let sync_h: i32 = rail_row_units - task_h - note_h;
    let task_y: i32 = 0;
    let note_y: i32 = task_h;
    let sync_y: i32 = task_h + note_h;
    (task_h, task_y, note_h, note_y, sync_h, sync_y)
}

/// The five slots of the template for a rail of `rail_row_units` rows (at
/// least 4): timeline and Assist span the rail, the right column stacks
/// tasks, note capture and sync.
pub fn build_template_slots(rail_row_units: i32) -> (r: Vec<DesktopLayoutSlot>)
    requires
        rail_row_units <= 715827882,
    ensures
        r@.map_values(|s: DesktopLayoutSlot| slot_view(s)) == spec_template_slots(rail_row_units as int),
{
    let rail: i32 = template_rail_row_units(rail_row_units);
    let (task_h, task_y, note_h, note_y, sync_h, sync_y) = right_stack_heights(rail);
    let r = vec![
        DesktopLayoutSlot { widget_type: "desktop_timeline", pos_x: 0, pos_y: 0, width: 2, height: rail },
        DesktopLayoutSlot { widget_type: "desktop_assist", pos_x: 2, pos_y: 0, width: 4, height: rail },
        DesktopLayoutSlot { widget_type: "task_queue", pos_x: 6, pos_y: task_y, width: 2, height: task_h },
        DesktopLayoutSlot { widget_type: "note_capture", pos_x: 6, pos_y: note_y, width: 2, height: note_h },
        DesktopLayoutSlot { widget_type: "desktop_sync", pos_x: 6, pos_y: sync_y, width: 2, height: sync_h },
    ];
    proof {
        assert(r@.map_values(|s: DesktopLayoutSlot| slot_view(s)) =~= spec_template_slots(rail_row_units as int));
    }
    r
}

/// The default layout at `DEFAULT_RAIL_ROW_UNITS`.
pub fn desktop_default_layout() -> (r: Vec<DesktopLayoutSlot>)
    ensures
        r@.map_values(|s: DesktopLayoutSlot| slot_view(s)) == spec_template_slots(DEFAULT_RAIL_ROW_UNITS as int),
{
    build_template_slots(DEFAULT_RAIL_ROW_UNITS)
}

/// The catalog entry of `widget_type`, if any.
pub fn catalog_entry<'a>(catalog: &'a WidgetCatalog, widget_type: &str) -> (r: Option<&'a WidgetCatalogEntry>)
    ensures
        match first_of_type(catalog.widgets@, widget_type@) {
            Some(i) => r == Some(&catalog.widgets@[i]),
            None => r is None,
        },
{
    catalog.find(widget_type)
}

/// The index of the first slot of type `t`, if any.
pub open spec fn first_slot_of(slots: Seq<SlotView>, t: Seq<char>) -> Option<int>
    decreases slots.len(),
{
    if slots.len() == 0 {
        None
    } else if slots[0].0 == t {
        Some(0)
    } else {
        match first_slot_of(slots.drop_first(), t) {
            Some(i) => Some(i + 1),
            None => None,
        }
    }
}

proof fn lemma_first_slot_of(slots: Seq<SlotView>, t: Seq<char>)
    ensures
        match first_slot_of(slots, t) {
            Some(i) => 0 <= i < slots.len() && slots[i].0 == t && forall|j: int| 0 <= j < i ==> slots[j].0 != t,
            None => forall|j: int| 0 <= j < slots.len() ==> slots[j].0 != t,
        },
    decreases slots.len(),
{
    if slots.len() > 0 {
        lemma_first_slot_of(slots.drop_first(), t);
        if slots[0].0 != t {
            assert forall|j: int| 1 <= j < slots.len() implies slots[j] == slots.drop_first()[j - 1] by {}
        }
    }
}

/// The template slot of `widget_type` for a rail of `rail_row_units` rows,
/// if the template places that type.
pub fn template_slot_for(widget_type: &str, rail_row_units: i32) -> (r: Option<DesktopLayoutSlot>)
    requires
        rail_row_units <= 715827882,
    ensures
        match first_slot_of(spec_template_slots(rail_row_units as int), widget_type@) {
            Some(i) => r matches Some(s) && slot_view(s) == spec_template_slots(rail_row_units as int)[i],
            None => r is None,
        },
{
    let slots = build_template_slots(rail_row_units);
    let ghost views = slots@.map_values(|s: DesktopLayoutSlot| slot_view(s));
    proof {
        lemma_first_slot_of(views, widget_type@);
    }
    let mut i: usize = 0;
    while i < slots.len()
        invariant
            i <= slots@.len(),
            views == slots@.map_values(|s: DesktopLayoutSlot| slot_view(s)),
            views == spec_template_slots(rail_row_units as int),
            forall|j: int| 0 <= j < i ==> views[j].0 != widget_type@,
            match first_slot_of(views, widget_type@) {
                Some(k) => 0 <= k < views.len() && views[k].0 == widget_type@ && forall|j: int| 0 <= j < k ==> views[j].0 != widget_type@,
                None => forall|j: int| 0 <= j < views.len() ==> views[j].0 != widget_type@,
            },
        decreases slots.len() - i,
    {
        if crate::text::str_eq(slots[i].widget_type, widget_type) {
            assert(views[i as int].0 == widget_type@);
            return Some(slots[i]);
        }
        i = i + 1;
    }
    None
}

/// Whether two widgets share a grid cell.
pub open spec fn overlaps(a: WidgetInstanceProjection, b: WidgetInstanceProjection) -> bool {
    &&& a.pos_x < b.pos_x + b.width
    &&& a.pos_x + a.width > b.pos_x
    &&& a.pos_y < b.pos_y + b.height
    &&& a.pos_y + a.height > b.pos_y
}

/// Whether some two of the widgets share a grid cell.
pub fn widgets_overlap(widgets: &[WidgetInstanceProjection]) -> (r: bool)
    ensures
        r == exists|i: int, j: int| 0 <= i < j < widgets@.len() && overlaps(widgets@[i], widgets@[j]),
{
    let n: usize = widgets.len();
    let mut i: usize = 0;
    while i < n
        invariant
            n == widgets@.len(),
            i <= n,
            forall|p: int, q: int| 0 <= p < i && p < q < n ==> !overlaps(widgets@[p], widgets@[q]),
        decreases n - i,
    {
        let mut j: usize = i + 1;
        while j < n
            invariant
                n == widgets@.len(),
                i < n,
                i + 1 <= j <= n,
                forall|p: int, q: int| 0 <= p < i && p < q < n ==> !overlaps(widgets@[p], widgets@[q]),
                forall|q: int| i < q < j ==> !overlaps(widgets@[i as int], widgets@[q]),
            decreases n - j,
        {
            let a = &widgets[i];
            let b = &widgets[j];
            if (a.pos_x as i64) < (b.pos_x as i64) + (b.width as i64)
                && (a.pos_x as i64) + (a.width as i64) > (b.pos_x as i64)
                && (a.pos_y as i64) < (b.pos_y as i64) + (b.height as i64)
                && (a.pos_y as i64) + (a.height as i64) > (b.pos_y as i64)
            {
                assert(overlaps(widgets@[i as int], widgets@[j as int]));
                return true;
            }
            j = j + 1;
        }
        i = i + 1;
    }
    false
}

/// The three heights of the right column add up to the rail, for every rail
/// whose threefold fits an `i32`.
pub proof fn lemma_right_stack_fills_rail(rail: int)
    requires
        rail_fits(rail),
    ensures
        spec_right_stack(rail).0 + spec_right_stack(rail).2 + spec_right_stack(rail).4 == rail,
        spec_right_stack(rail).3 == spec_right_stack(rail).1 + spec_right_stack(rail).0,
        spec_right_stack(rail).5 == spec_right_stack(rail).3 + spec_right_stack(rail).2,
{
}

} // verus!
