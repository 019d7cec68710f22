//! Dashboard grid helpers: clamping a widget into the grid, the first free
//! row, and whether a widget type may be installed again.

use crate::projections::WidgetInstanceProjection;
use vstd::prelude::*;

verus! {

/// Columns of the mobile dashboard grid.
pub const COLUMN_COUNT: i32 = 8;

/// Columns the desktop workbench grid may grow to.
pub const DESKTOP_MAX_COLUMNS: i32 = 48;

/// `v.clamp(lo, hi)`.
pub open spec fn spec_clamp(v: int, lo: int, hi: int) -> int {
    if v < lo {
        lo
    } else if v > hi {
        hi
    } else {
        v
    }
}

/// The (column, width) of a widget clamped into a grid of `max_columns`
/// columns: the width to 1..=max_columns, then the column so that the widget
/// ends inside the grid.
pub open spec fn spec_clamp_layout_to(pos_x: int, width: int, max_columns: int) -> (int, int) {
    let w = spec_clamp(width, 1, max_columns);
    (spec_clamp(pos_x, 0, max_columns - w), w)
}

/// Clamps a widget's column and width into a grid of `max_columns` columns.
pub fn clamp_layout_to(pos_x: i32, width: i32, max_columns: i32) -> (r: (i32, i32))
    requires
        max_columns >= 1,
    ensures
        r.0 as int == spec_clamp_layout_to(pos_x as int, width as int, max_columns as int).0,
        r.1 as int == spec_clamp_layout_to(pos_x as int, width as int, max_columns as int).1,
        1 <= r.1 <= max_columns,
        0 <= r.0 && r.0 + r.1 <= max_columns,
{
    let width: i32 = if width < 1 {
        1
    } else if width > max_columns {
        max_columns
    } else {
        width
    };
    let hi: i32 = max_columns - width;
    let pos_x: i32 = if pos_x < 0 {
        0
    } else if pos_x > hi {
        hi
    } else {
        pos_x
    };
    (pos_x, width)
}

/// Clamps a widget into the mobile grid of `COLUMN_COUNT` columns.
pub fn clamp_layout(pos_x: i32, width: i32) -> (r: (i32, i32))
    ensures
        r.0 as int == spec_clamp_layout_to(pos_x as int, width as int, COLUMN_COUNT as int).0,
        r.1 as int == spec_clamp_layout_to(pos_x as int, width as int, COLUMN_COUNT as int).1,
{
    clamp_layout_to(pos_x, width, COLUMN_COUNT)
}

/// Clamps a widget into the desktop grid of `DESKTOP_MAX_COLUMNS` columns.
pub fn clamp_layout_desktop(pos_x: i32, width: i32) -> (r: (i32, i32))
    ensures
        r.0 as int == spec_clamp_layout_to(pos_x as int, width as int, DESKTOP_MAX_COLUMNS as int).0,
        r.1 as int == spec_clamp_layout_to(pos_x as int, width as int, DESKTOP_MAX_COLUMNS as int).1,
{
    clamp_layout_to(pos_x, width, DESKTOP_MAX_COLUMNS)
}

/// The row just below a widget.
pub open spec fn bottom(w: WidgetInstanceProjection) -> int {
    w.pos_y + w.height
}

/// The largest bottom row over `ws`; `None` when there are none.
pub open spec fn max_bottom(ws: Seq<WidgetInstanceProjection>) -> Option<int>
    decreases ws.len(),
{
    if ws.len() == 0 {
        None
    } else {
        match max_bottom(ws.drop_last()) {
            Some(m) => Some(if bottom(ws.last()) > m { bottom(ws.last()) } else { m }),
            None => Some(bottom(ws.last())),
        }
    }
}

/// The first row below every installed widget (0 with none installed).
pub open spec fn spec_next_available_row(ws: Seq<WidgetInstanceProjection>) -> int {
    match max_bottom(ws) {
        Some(m) => m,
        None => 0,
    }
}

/// Every widget's bottom row fits an `i32`.
pub open spec fn bottoms_fit(ws: Seq<WidgetInstanceProjection>) -> bool {
    forall|i: int| 0 <= i < ws.len() ==> i32::MIN <= #[trigger] bottom(ws[i]) <= i32::MAX
}

/// A widget installed at the next available row lies below every installed
/// widget: no installed widget reaches past that row.
pub proof fn lemma_next_row_below_all(ws: Seq<WidgetInstanceProjection>)
    ensures
        forall|i: int| 0 <= i < ws.len() ==> bottom(#[trigger] ws[i]) <= spec_next_available_row(ws),
        ws.len() > 0 ==> exists|i: int| 0 <= i < ws.len() && bottom(ws[i]) == spec_next_available_row(ws),
{
    lemma_max_bottom_is_max(ws);
}

proof fn lemma_max_bottom_is_max(ws: Seq<WidgetInstanceProjection>)
    ensures
        ws.len() > 0 ==> max_bottom(ws) is Some,
        max_bottom(ws) matches Some(m) ==> (exists|i: int| 0 <= i < ws.len() && bottom(ws[i]) == m)
            && (forall|i: int| 0 <= i < ws.len() ==> bottom(ws[i]) <= m),
    decreases ws.len(),
{
    if ws.len() > 0 {
        lemma_max_bottom_is_max(ws.drop_last());
        let m = max_bottom(ws).unwrap();
        if max_bottom(ws.drop_last()) is Some {
            let m0 = max_bottom(ws.drop_last()).unwrap();
            let k = choose|i: int| 0 <= i < ws.drop_last().len() && bottom(ws.drop_last()[i]) == m0;
            if m == m0 {
                assert(bottom(ws[k]) == m);
            } else {
                assert(bottom(ws[ws.len() - 1]) == m);
            }
            assert forall|i: int| 0 <= i < ws.len() implies bottom(ws[i]) <= m by {
                if i < ws.len() - 1 {
                    assert(ws[i] == ws.drop_last()[i]);
                }
            }
        } else {
            assert(bottom(ws[0]) == m);
        }
    }
}

/// The first row below every installed widget (0 with none installed): the
/// largest `pos_y + height`.
pub fn next_available_row(instances: &[WidgetInstanceProjection]) -> (r: i32)
    requires
        bottoms_fit(instances@),
    ensures
        r == spec_next_available_row(instances@),
{
    let mut best: Option<i32> = None;
    let mut i: usize = 0;
    assert(instances@.take(0) =~= Seq::<WidgetInstanceProjection>::empty());
    while i < instances.len()
        invariant
            i <= instances@.len(),
            bottoms_fit(instances@),
            match best {
                Some(b) => max_bottom(instances@.take(i as int)) == Some(b as int),
                None => max_bottom(instances@.take(i as int)) is None,
            },
        decreases instances.len() - i,
    {
        let w = &instances[i];
        assert(i32::MIN <= bottom(instances@[i as int]) <= i32::MAX);
        let b: i32 = w.pos_y + w.height;
        proof {
            assert(instances@.take(i + 1).drop_last() =~= instances@.take(i as int));
            assert(instances@.take(i + 1).last() == instances@[i as int]);
        }
        best = match best {
            Some(m) => Some(if b > m { b } else { m }),
            None => Some(b),
        };
        i = i + 1;
    }
    assert(instances@.take(instances@.len() as int) =~= instances@);
    match best {
        Some(b) => b,
        None => 0,
    }
}

/// Whether a widget of `widget_type` may be installed: always when the type
/// allows several, else only when none of that type is installed.
pub fn can_install(widget_type: &str, allow_multiple: bool, instances: &[WidgetInstanceProjection]) -> (r: bool)
    ensures
        r == (allow_multiple || forall|i: int| 0 <= i < instances@.len() ==> instances@[i].widget_type@ != widget_type@),
{
    if allow_multiple {
        return true;
    }
    let mut i: usize = 0;
    while i < instances.len()
        invariant
            !allow_multiple,
            i <= instances@.len(),
            forall|j: int| 0 <= j < i ==> instances@[j].widget_type@ != widget_type@,
        decreases instances.len() - i,
    {
        if crate::text::str_eq(instances[i].widget_type.as_str(), widget_type) {
            assert(instances@[i as int].widget_type@ == widget_type@);
            return false;
        }
        i = i + 1;
    }
    true
}

} // verus!
