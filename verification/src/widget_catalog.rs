//! The widget catalog: the mobile seed plus the desktop shell's own widgets.

use crate::text::str_eq;
use vstd::prelude::*;

verus! {

/// A widget's default size in grid units.
#[derive(Debug, Clone, Copy)]
pub struct WidgetSize {
    pub width: i32,
    pub height: i32,
}

/// One entry of the catalog.
#[derive(Debug, Clone)]
pub struct WidgetCatalogEntry {
    pub widget_type: String,
    pub display_name: String,
    pub category: Option<String>,
    pub surface_kind: Option<String>,
    pub allow_multiple: bool,
    pub default_size: Option<WidgetSize>,
}

/// The catalog of installable widgets.
#[derive(Debug, Clone)]
pub struct WidgetCatalog {
    pub schema_version: i32,
    pub generated_from: Option<String>,
    pub widgets: Vec<WidgetCatalogEntry>,
}

/// Whether an entry that does not say may be installed more than once: yes.
pub fn default_allow_multiple() -> (r: bool)
    ensures
        r,
{
    true
}

impl WidgetCatalogEntry {
    /// The default width: that of the default size, else 2.
    pub fn default_width(&self) -> (r: i32)
        ensures
            r == match self.default_size {
                Some(s) => s.width,
                None => 2,
            },
    {
        match &self.default_size {
            Some(s) => s.width,
            None => 2,
        }
    }

    /// The default height: that of the default size, else 2.
    pub fn default_height(&self) -> (r: i32)
        ensures
            r == match self.default_size {
                Some(s) => s.height,
                None => 2,
            },
    {
        match &self.default_size {
            Some(s) => s.height,
            None => 2,
        }
    }
}

/// The index of the first entry of type `widget_type`, if any.
pub open spec fn first_of_type(entries: Seq<WidgetCatalogEntry>, widget_type: Seq<char>) -> Option<int>
    decreases entries.len(),
{
    if entries.len() == 0 {
        None
    } else if entries[0].widget_type@ == widget_type {
        Some(0)
    } else {
        match first_of_type(entries.drop_first(), widget_type) {
            Some(i) => Some(i + 1),
            None => None,
        }
    }
}

/// `entries` with each entry of `extra` appended, in order, unless an entry
/// of its type is already there.
pub open spec fn merge_entries(entries: Seq<WidgetCatalogEntry>, extra: Seq<WidgetCatalogEntry>) -> Seq<WidgetCatalogEntry>
    decreases extra.len(),
{
    if extra.len() == 0 {
        entries
    } else {
        let merged = merge_entries(entries, extra.drop_last());
        if first_of_type(merged, extra.last().widget_type@) is Some {
            merged
        } else {
            merged.push(extra.last())
        }
    }
}

proof fn lemma_first_of_type_bounds(entries: Seq<WidgetCatalogEntry>, t: Seq<char>)
    ensures
        match first_of_type(entries, t) {
            Some(i) => 0 <= i < entries.len() && entries[i].widget_type@ == t
                && forall|j: int| 0 <= j < i ==> entries[j].widget_type@ != t,
            None => forall|j: int| 0 <= j < entries.len() ==> entries[j].widget_type@ != t,
        },
    decreases entries.len(),
{
    if entries.len() > 0 {
        lemma_first_of_type_bounds(entries.drop_first(), t);
        if entries[0].widget_type@ != t {
            assert forall|j: int| 1 <= j < entries.len() implies entries[j] == entries.drop_first()[j - 1] by {}
        }
    }
}

/// Merging keeps the base entries first and in order, and afterwards every
/// added entry's type is in the catalog.
pub proof fn lemma_merge_keeps_base_and_adds_types(entries: Seq<WidgetCatalogEntry>, extra: Seq<WidgetCatalogEntry>)
    ensures
        merge_entries(entries, extra).len() >= entries.len(),
        forall|i: int| 0 <= i < entries.len() ==> #[trigger] merge_entries(entries, extra)[i] == entries[i],
        forall|j: int| 0 <= j < extra.len() ==> first_of_type(merge_entries(entries, extra), #[trigger] extra[j].widget_type@) is Some,
    decreases extra.len(),
{
    if extra.len() > 0 {
        let prev = merge_entries(entries, extra.drop_last());
        lemma_merge_keeps_base_and_adds_types(entries, extra.drop_last());
        let merged = merge_entries(entries, extra);
        let last = extra.last();
        if first_of_type(prev, last.widget_type@) is None {
            assert(merged == prev.push(last));
            lemma_first_of_type_bounds(merged, last.widget_type@);
            assert(merged[merged.len() - 1].widget_type@ == last.widget_type@);
            assert forall|j: int| 0 <= j < extra.len() implies first_of_type(merged, #[trigger] extra[j].widget_type@) is Some by {
                let t = extra[j].widget_type@;
                lemma_first_of_type_bounds(prev, t);
                lemma_first_of_type_bounds(merged, t);
                if j < extra.len() - 1 {
                    assert(extra.drop_last()[j] == extra[j]);
                    let k = first_of_type(prev, t)->0;
                    assert(merged[k] == prev[k]);
                }
            }
        } else {
            assert forall|j: int| 0 <= j < extra.len() implies first_of_type(merged, #[trigger] extra[j].widget_type@) is Some by {
                if j < extra.len() - 1 {
                    assert(extra.drop_last()[j] == extra[j]);
                }
            }
        }
    }
}

impl WidgetCatalog {
    /// The types of all entries, in order.
    pub fn widget_types(&self) -> (r: Vec<&str>)
        ensures
            r@.len() == self.widgets@.len(),
            forall|i: int| 0 <= i < r@.len() ==> r@[i]@ == self.widgets@[i].widget_type@,
    {
        let mut out: Vec<&str> = Vec::new();
        let mut i: usize = 0;
        while i < self.widgets.len()
            invariant
                i <= self.widgets.len(),
                out@.len() == i,
                forall|j: int| 0 <= j < i ==> out@[j]@ == self.widgets@[j].widget_type@,
            decreases self.widgets.len() - i,
        {
            out.push(self.widgets[i].widget_type.as_str());
            i = i + 1;
        }
        out
    }

    /// The first entry of type `widget_type`, if any.
    pub fn find(&self, widget_type: &str) -> (r: Option<&WidgetCatalogEntry>)
        ensures
            match first_of_type(self.widgets@, widget_type@) {
                Some(i) => r == Some(&self.widgets@[i]),
                None => r is None,
            },
    {
        proof {
            lemma_first_of_type_bounds(self.widgets@, widget_type@);
        }
        let mut i: usize = 0;
        while i < self.widgets.len()
            invariant
                i <= self.widgets.len(),
                forall|j: int| 0 <= j < i ==> self.widgets@[j].widget_type@ != widget_type@,
                match first_of_type(self.widgets@, widget_type@) {
                    Some(k) => 0 <= k < self.widgets@.len() && self.widgets@[k].widget_type@ == widget_type@
                        && forall|j: int| 0 <= j < k ==> self.widgets@[j].widget_type@ != widget_type@,
                    None => forall|j: int| 0 <= j < self.widgets@.len() ==> self.widgets@[j].widget_type@ != widget_type@,
                },
            decreases self.widgets.len() - i,
        {
            if str_eq(self.widgets[i].widget_type.as_str(), widget_type) {
                return Some(&self.widgets[i]);
            }
            i = i + 1;
        }
        None
    }

    /// This catalog with each entry of `desktop` appended, in order, unless
    /// an entry of its type is already there.
    pub fn with_desktop_widgets(self, desktop: WidgetCatalog) -> (r: WidgetCatalog)
        ensures
            r.schema_version == self.schema_version,
            r.generated_from == self.generated_from,
            r.widgets@ == merge_entries(self.widgets@, desktop.widgets@),
    {
        let mut catalog = self;
        let ghost base = catalog.widgets@;
        let ghost extra = desktop.widgets@;
        let mut rest = desktop.widgets;
        let mut i: usize = 0;
        let n = rest.len();
        assert(rest@.skip(0) =~= extra);
        while i < n
            invariant
                n == extra.len(),
                i <= n,
                rest@ == extra.skip(i as int),
                catalog.widgets@ == merge_entries(base, extra.take(i as int)),
                catalog.schema_version == self.schema_version,
                catalog.generated_from == self.generated_from,
            decreases n - i,
        {
            let entry = rest.remove(0);
            proof {
                assert(rest@ =~= extra.skip(i + 1));
                assert(entry == extra[i as int]);
                assert(extra.take(i + 1).drop_last() =~= extra.take(i as int));
                assert(extra.take(i + 1).last() == entry);
            }
            if catalog.find(entry.widget_type.as_str()).is_none() {
                catalog.widgets.push(entry);
            }
            i = i + 1;
        }
        proof {
            assert(extra.take(n as int) =~= extra);
        }
        catalog
    }
}

} // verus!
