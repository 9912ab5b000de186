//! Conversions into the layout types: each wraps its argument in the
//! matching variant or fields.
use vstd::prelude::*;
use vstd::std_specs::convert::FromSpecImpl;
use crate::expression_tree::ElementId;
use crate::layout::gen::{Language, LayoutTreeItem};
use crate::layout::{
    BoxLayout, GridLayout, Layout, LayoutElement, LayoutGeometry, LayoutItem, PathLayout,
};

verus! {

impl From<GridLayout> for Layout {
    fn from(v: GridLayout) -> (r: Self) {
        Layout::GridLayout(v)
    }
}

impl FromSpecImpl<GridLayout> for Layout {
    open spec fn obeys_from_spec() -> bool {
        true
    }

    open spec fn from_spec(v: GridLayout) -> Self {
        Layout::GridLayout(v)
    }
}

impl From<PathLayout> for Layout {
    fn from(v: PathLayout) -> (r: Self) {
        Layout::PathLayout(v)
    }
}

impl FromSpecImpl<PathLayout> for Layout {
    open spec fn obeys_from_spec() -> bool {
        true
    }

    open spec fn from_spec(v: PathLayout) -> Self {
        Layout::PathLayout(v)
    }
}

impl From<BoxLayout> for Layout {
    fn from(v: BoxLayout) -> (r: Self) {
        Layout::BoxLayout(v)
    }
}

impl FromSpecImpl<BoxLayout> for Layout {
    open spec fn obeys_from_spec() -> bool {
        true
    }

    open spec fn from_spec(v: BoxLayout) -> Self {
        Layout::BoxLayout(v)
    }
}

impl From<(ElementId, Option<Layout>)> for LayoutElement {
    fn from(v: (ElementId, Option<Layout>)) -> (r: Self) {
        LayoutElement { element: v.0, layout: v.1 }
    }
}

impl FromSpecImpl<(ElementId, Option<Layout>)> for LayoutElement {
    open spec fn obeys_from_spec() -> bool {
        true
    }

    open spec fn from_spec(v: (ElementId, Option<Layout>)) -> Self {
        LayoutElement { element: v.0, layout: v.1 }
    }
}

impl From<LayoutElement> for LayoutItem {
    fn from(v: LayoutElement) -> (r: Self) {
        LayoutItem::Element(v)
    }
}

impl FromSpecImpl<LayoutElement> for LayoutItem {
    open spec fn obeys_from_spec() -> bool {
        true
    }

    open spec fn from_spec(v: LayoutElement) -> Self {
        LayoutItem::Element(v)
    }
}

impl From<Box<Layout>> for LayoutItem {
    fn from(v: Box<Layout>) -> (r: Self) {
        LayoutItem::Layout(v)
    }
}

impl FromSpecImpl<Box<Layout>> for LayoutItem {
    open spec fn obeys_from_spec() -> bool {
        true
    }

    open spec fn from_spec(v: Box<Layout>) -> Self {
        LayoutItem::Layout(v)
    }
}

impl<'a, L: Language> From<&'a PathLayout> for LayoutTreeItem<'a, L> {
    fn from(v: &'a PathLayout) -> (r: Self) {
        LayoutTreeItem::PathLayout(v)
    }
}

impl<'a, L: Language> FromSpecImpl<&'a PathLayout> for LayoutTreeItem<'a, L> {
    open spec fn obeys_from_spec() -> bool {
        true
    }

    open spec fn from_spec(v: &'a PathLayout) -> Self {
        LayoutTreeItem::PathLayout(v)
    }
}

impl<'a, L: Language> From<
    (&'a LayoutGeometry, L::CompiledCode, L::CompiledCode, L::CompiledCode, L::CompiledCode),
> for LayoutTreeItem<'a, L> {
    fn from(
        v: (&'a LayoutGeometry, L::CompiledCode, L::CompiledCode, L::CompiledCode, L::CompiledCode),
    ) -> (r: Self) {
        let (geometry, spacing, padding, var_creation_code, cell_ref_variable) = v;
        LayoutTreeItem::GridLayout { geometry, spacing, padding, var_creation_code, cell_ref_variable }
    }
}

impl<'a, L: Language> FromSpecImpl<
    (&'a LayoutGeometry, L::CompiledCode, L::CompiledCode, L::CompiledCode, L::CompiledCode),
> for LayoutTreeItem<'a, L> {
    open spec fn obeys_from_spec() -> bool {
        true
    }

    open spec fn from_spec(
        v: (&'a LayoutGeometry, L::CompiledCode, L::CompiledCode, L::CompiledCode, L::CompiledCode),
    ) -> Self {
        LayoutTreeItem::GridLayout {
            geometry: v.0,
            spacing: v.1,
            padding: v.2,
            var_creation_code: v.3,
            cell_ref_variable: v.4,
        }
    }
}

} // verus!
