//! What holds of the layout functions taken together.
use vstd::prelude::*;
use std::rc::Rc;
use crate::expression_tree::{visit_all, ElementId, Expression, ExpressionView, ExpressionVisitor};
use crate::layout::gen::{
    box_cell_requests, grid_cell_requests, grid_generated, grid_generated_through,
    spec_box_cell_position, CellPosition, Language, LayoutTreeItem,
};
use crate::layout::shape::{
    lemma_box_cell_len, lemma_box_cells_len, lemma_concat_split, lemma_constraints_fixed,
    lemma_geometry_fixed, lemma_grid_cell_len, lemma_grid_cells_len, lemma_item_fixed,
    lemma_item_len, lemma_layout_fixed, lemma_layout_same_shape_refl,
};
use crate::layout::visit::{
    box_cells_expressions, box_cells_same_shape, grid_cells_expressions, grid_cells_same_shape,
};
use crate::layout::{
    installed_declarations, with_geometry_defaults, Padding, BoxLayout, BoxLayoutElement, GridLayout, GridLayoutElement, Layout,
    LayoutConstraints, LayoutGeometry, LayoutRect,
};
use crate::object_tree::{Component, ElementView, PropertyDeclaration, Type};

verus! {

/// Once a rectangle is installed on an element, each of its sides maps to
/// the property of the same name: `x` to `x`, `y` to `y`, `width` to `width`
/// and `height` to `height`.
pub proof fn lemma_installed_rect_maps_each_side(rect: LayoutRect, element: ElementId)
    requires
        rect.refers_to(element),
    ensures
        rect.spec_mapped_property_name("x"@) == Some("x"@),
        rect.spec_mapped_property_name("y"@) == Some("y"@),
        rect.spec_mapped_property_name("width"@) == Some("width"@),
        rect.spec_mapped_property_name("height"@) == Some("height"@),
{
}

/// A name that is none of `x`, `y`, `width` and `height` maps to nothing,
/// whatever the rectangle.
pub proof fn lemma_other_names_map_to_nothing(rect: LayoutRect, name: Seq<char>)
    requires
        name != "x"@,
        name != "y"@,
        name != "width"@,
        name != "height"@,
    ensures
        rect.spec_mapped_property_name(name) is None,
{
}

/// Constraints have explicit restrictions exactly when one of the
/// restrictions they list is set.
pub proof fn lemma_explicit_iff_some_restriction(c: LayoutConstraints)
    ensures
        c.spec_has_explicit_restrictions() <==> exists|i: int|
            0 <= i < 4 && (#[trigger] c.restrictions()[i]).0 is Some,
{
    if c.spec_has_explicit_restrictions() {
        if c.minimum_width is Some {
            assert(c.restrictions()[0].0 is Some);
        } else if c.maximum_width is Some {
            assert(c.restrictions()[1].0 is Some);
        } else if c.minimum_height is Some {
            assert(c.restrictions()[2].0 is Some);
        } else {
            assert(c.restrictions()[3].0 is Some);
        }
    }
}

/// The constraints read from an element have explicit restrictions exactly
/// when the element binds one of `minimum_width`, `maximum_width`,
/// `minimum_height` and `maximum_height`.
pub proof fn lemma_constraints_explicit_iff_bound(c: LayoutConstraints, element: ElementView)
    requires
        c.of_element(element),
    ensures
        c.spec_has_explicit_restrictions() <==> (element.bindings.contains_key("minimum_width"@)
            || element.bindings.contains_key("maximum_width"@) || element.bindings.contains_key(
            "minimum_height"@,
        ) || element.bindings.contains_key("maximum_height"@)),
{
}

/// Giving a layout element its geometry defaults keeps its identity, its
/// declarations and every binding it had; a binding is added only for a
/// geometry property that the element declares.
pub proof fn lemma_geometry_defaults_keep_bindings(element: ElementView, rect: LayoutRect)
    ensures
        with_geometry_defaults(element, rect).id == element.id,
        with_geometry_defaults(element, rect).property_declarations == element.property_declarations,
        forall|k: Seq<char>| #[trigger]
            element.bindings.contains_key(k) ==> with_geometry_defaults(
                element,
                rect,
            ).bindings.contains_key(k) && with_geometry_defaults(element, rect).bindings[k]
                == element.bindings[k],
        forall|k: Seq<char>| #[trigger]
            with_geometry_defaults(element, rect).bindings.contains_key(k)
                && !element.bindings.contains_key(k) ==> element.property_declarations.contains_key(k)
                && (k == "width"@ || k == "height"@ || k == "x"@ || k == "y"@ || k == "padding_left"@
                || k == "padding_right"@ || k == "padding_top"@ || k == "padding_bottom"@),
{
}

/// A vertical box places its cells as a horizontal box does, with columns
/// and rows exchanged.
pub proof fn lemma_box_positions_transposed(index: usize)
    ensures
        spec_box_cell_position(false, index) == (CellPosition {
            col: spec_box_cell_position(true, index).row,
            row: spec_box_cell_position(true, index).col,
            colspan: spec_box_cell_position(true, index).rowspan,
            rowspan: spec_box_cell_position(true, index).colspan,
        }),
{
}

/// A box asks the code generator for the same cells as the grid that holds
/// the same items and constraints with each cell at the box's position for
/// it, and generating either, with the same geometry, is the same.
pub proof fn lemma_box_generated_as_grid<'a, L: Language>(
    bl: &'a BoxLayout,
    gl: &'a GridLayout,
    before: Vec<LayoutTreeItem<'a, L>>,
    after: Vec<LayoutTreeItem<'a, L>>,
    component: Rc<Component>,
)
    requires
        gl.elems@.len() == bl.elems@.len(),
        gl.geometry == bl.geometry,
        forall|k: int|
            0 <= k < bl.elems@.len() ==> #[trigger] gl.elems@[k] == (GridLayoutElement {
                col: spec_box_cell_position(bl.is_horizontal, k as usize).col,
                row: spec_box_cell_position(bl.is_horizontal, k as usize).row,
                colspan: 1,
                rowspan: 1,
                item: bl.elems@[k].item,
                constraints: bl.elems@[k].constraints,
            }),
    ensures
        box_cell_requests(bl.elems@, bl.is_horizontal) == grid_cell_requests(gl.elems@),
        grid_generated::<L>(
            before,
            after,
            box_cell_requests(bl.elems@, bl.is_horizontal),
            &bl.geometry,
            component,
        ) == grid_generated::<L>(before, after, grid_cell_requests(gl.elems@), &gl.geometry, component),
{
    let b = box_cell_requests(bl.elems@, bl.is_horizontal);
    let g = grid_cell_requests(gl.elems@);
    assert forall|k: int| 0 <= k < b.len() implies b[k] == g[k] by {
        assert(gl.elems@[k].item == bl.elems@[k].item);
    }
    assert(b =~= g);
}

proof fn lemma_cells_expressions_alike(b: Seq<BoxLayoutElement>, g: Seq<GridLayoutElement>)
    requires
        b.len() == g.len(),
        forall|k: int|
            0 <= k < b.len() ==> (#[trigger] g[k]).item == b[k].item && g[k].constraints
                == b[k].constraints,
    ensures
        box_cells_expressions(b) == grid_cells_expressions(g),
    decreases b.len(),
{
    if b.len() > 0 {
        let b1 = b.drop_last();
        let g1 = g.drop_last();
        assert forall|k: int| 0 <= k < b1.len() implies (#[trigger] g1[k]).item == b1[k].item
            && g1[k].constraints == b1[k].constraints by {
            assert(g[k].item == b[k].item);
        }
        lemma_cells_expressions_alike(b1, g1);
        assert(g[g.len() - 1].item == b[b.len() - 1].item);
        assert(g.last().expressions() == b.last().expressions());
    }
}

/// A box and a grid that hold the same items and constraints, in the same
/// order, with the same geometry, hold the same expressions in the same
/// order: a visitor visits them alike.
pub proof fn lemma_box_visited_as_grid(bl: BoxLayout, gl: GridLayout)
    requires
        gl.elems@.len() == bl.elems@.len(),
        gl.geometry == bl.geometry,
        forall|k: int|
            0 <= k < bl.elems@.len() ==> (#[trigger] gl.elems@[k]).item == bl.elems@[k].item
                && gl.elems@[k].constraints == bl.elems@[k].constraints,
    ensures
        bl.expressions() == gl.expressions(),
        Layout::BoxLayout(bl).expressions() == Layout::GridLayout(gl).expressions(),
{
    lemma_cells_expressions_alike(bl.elems@, gl.elems@);
}

/// Visiting with a visitor whose every step gives back the expression it got
/// gives back the expressions as they were.
pub proof fn lemma_visit_all_identity<V: ExpressionVisitor>(v: V, exprs: Seq<Expression>)
    requires
        forall|s: V, e: Expression| (#[trigger] s.step(e)).1 == e,
    ensures
        visit_all(v, exprs).1 == exprs,
    decreases exprs.len(),
{
    if exprs.len() > 0 {
        let (s1, e1) = v.step(exprs[0]);
        lemma_visit_all_identity(s1, exprs.drop_first());
        assert(seq![e1] + exprs.drop_first() =~= exprs);
    }
}

/// A layout visited by a visitor whose every step gives back the expression
/// it got is left as it was: the same value in every field, nested layouts
/// and cells included.
pub proof fn lemma_identity_visit_keeps_layout<V: ExpressionVisitor>(v: V, before: Layout, after: Layout)
    requires
        forall|s: V, e: Expression| (#[trigger] s.step(e)).1 == e,
        before.same_shape(after),
        after.expressions() == visit_all(v, before.expressions()).1,
    ensures
        before.same_value(after),
{
    lemma_visit_all_identity(v, before.expressions());
    lemma_layout_same_shape_refl(before);
    lemma_layout_fixed(before, before, after);
}

/// The geometry of a layout visited by a visitor whose every step gives back
/// the expression it got is left as it was.
pub proof fn lemma_identity_visit_keeps_geometry<V: ExpressionVisitor>(
    v: V,
    before: LayoutGeometry,
    after: LayoutGeometry,
)
    requires
        forall|s: V, e: Expression| (#[trigger] s.step(e)).1 == e,
        before.same_shape(after),
        after.expressions() == visit_all(v, before.expressions()).1,
    ensures
        after == before,
{
    lemma_visit_all_identity(v, before.expressions());
    lemma_geometry_fixed(before, before, after);
}

proof fn lemma_grid_cells_shape_at(a: Seq<GridLayoutElement>, b: Seq<GridLayoutElement>)
    requires
        grid_cells_same_shape(a, b),
    ensures
        a.len() == b.len(),
        forall|k: int| 0 <= k < a.len() ==> (#[trigger] a[k]).same_shape(b[k]),
    decreases a.len(),
{
    if a.len() > 0 {
        lemma_grid_cells_shape_at(a.drop_last(), b.drop_last());
        assert forall|k: int| 0 <= k < a.len() implies (#[trigger] a[k]).same_shape(b[k]) by {
            if k < a.len() - 1 {
                assert(a.drop_last()[k] == a[k]);
                assert(b.drop_last()[k] == b[k]);
            }
        }
    }
}

proof fn lemma_box_cells_shape_at(a: Seq<BoxLayoutElement>, b: Seq<BoxLayoutElement>)
    requires
        box_cells_same_shape(a, b),
    ensures
        a.len() == b.len(),
        forall|k: int| 0 <= k < a.len() ==> (#[trigger] a[k]).same_shape(b[k]),
    decreases a.len(),
{
    if a.len() > 0 {
        lemma_box_cells_shape_at(a.drop_last(), b.drop_last());
        assert forall|k: int| 0 <= k < a.len() implies (#[trigger] a[k]).same_shape(b[k]) by {
            if k < a.len() - 1 {
                assert(a.drop_last()[k] == a[k]);
                assert(b.drop_last()[k] == b[k]);
            }
        }
    }
}

/// Box cells and grid cells that hold as many expressions, cell by cell, and
/// the same expressions in all, hold the same expressions cell by cell.
proof fn lemma_cells_expressions_at(b: Seq<BoxLayoutElement>, g: Seq<GridLayoutElement>)
    requires
        b.len() == g.len(),
        forall|k: int|
            0 <= k < b.len() ==> (#[trigger] b[k]).expressions().len() == g[k].expressions().len(),
        box_cells_expressions(b) == grid_cells_expressions(g),
    ensures
        forall|k: int| 0 <= k < b.len() ==> (#[trigger] b[k]).expressions() == g[k].expressions(),
    decreases b.len(),
{
    if b.len() > 0 {
        let (b1, g1) = (b.drop_last(), g.drop_last());
        assert forall|k: int| 0 <= k < b1.len() implies (#[trigger] b1[k]).expressions().len()
            == g1[k].expressions().len() by {
            assert(b[k] == b1[k] && g[k] == g1[k]);
        }
        assert(b.last().expressions().len() == g.last().expressions().len());
        assert(box_cells_expressions(b) == box_cells_expressions(b1) + b.last().expressions());
        assert(grid_cells_expressions(g) == grid_cells_expressions(g1) + g.last().expressions());
        lemma_concat_split(
            box_cells_expressions(b1),
            b.last().expressions(),
            grid_cells_expressions(g1),
            g.last().expressions(),
        );
        lemma_cells_expressions_at(b1, g1);
        assert forall|k: int| 0 <= k < b.len() implies (#[trigger] b[k]).expressions()
            == g[k].expressions() by {
            if k < b.len() - 1 {
                assert(b1[k] == b[k] && g1[k] == g[k]);
            }
        }
    }
}

/// A box and a grid that hold the same items and constraints, in the same
/// order, with the same geometry, are visited alike: a visitor goes through
/// the same expressions and ends in the same state, and afterwards the two
/// hold the same items, constraints and geometry, cell by cell.
pub proof fn lemma_box_visited_like_grid<V: ExpressionVisitor>(
    v: V,
    bl0: BoxLayout,
    bl1: BoxLayout,
    gl0: GridLayout,
    gl1: GridLayout,
)
    requires
        gl0.elems@.len() == bl0.elems@.len(),
        gl0.geometry == bl0.geometry,
        forall|k: int|
            0 <= k < bl0.elems@.len() ==> (#[trigger] gl0.elems@[k]).item == bl0.elems@[k].item
                && gl0.elems@[k].constraints == bl0.elems@[k].constraints,
        bl0.same_shape(bl1),
        bl1.expressions() == visit_all(v, bl0.expressions()).1,
        gl0.same_shape(gl1),
        gl1.expressions() == visit_all(v, gl0.expressions()).1,
    ensures
        visit_all(v, bl0.expressions()) == visit_all(v, gl0.expressions()),
        bl1.elems@.len() == gl1.elems@.len(),
        forall|k: int|
            0 <= k < bl1.elems@.len() ==> (#[trigger] bl1.elems@[k]).item.same_value(
                gl1.elems@[k].item,
            ) && bl1.elems@[k].constraints == gl1.elems@[k].constraints,
        bl1.geometry == gl1.geometry,
{
    lemma_box_visited_as_grid(bl0, gl0);
    lemma_cells_expressions_alike(bl0.elems@, gl0.elems@);
    let (b0, b1, g0, g1) = (bl0.elems@, bl1.elems@, gl0.elems@, gl1.elems@);
    lemma_box_cells_shape_at(b0, b1);
    lemma_grid_cells_shape_at(g0, g1);
    lemma_box_cells_len(b0, b1);
    lemma_grid_cells_len(g0, g1);
    lemma_concat_split(
        box_cells_expressions(b1),
        bl1.geometry.expressions(),
        grid_cells_expressions(g1),
        gl1.geometry.expressions(),
    );
    lemma_geometry_fixed(bl0.geometry, bl1.geometry, gl1.geometry);
    assert forall|k: int| 0 <= k < b1.len() implies (#[trigger] b1[k]).expressions().len()
        == g1[k].expressions().len() by {
        assert(b0[k].same_shape(b1[k]));
        assert(g0[k].same_shape(g1[k]));
        lemma_box_cell_len(b0[k], b1[k]);
        lemma_grid_cell_len(g0[k], g1[k]);
        assert(g0[k].item == b0[k].item);
        assert(b0[k].expressions() == g0[k].expressions());
    }
    lemma_cells_expressions_at(b1, g1);
    assert forall|k: int| 0 <= k < b1.len() implies (#[trigger] b1[k]).item.same_value(g1[k].item)
        && b1[k].constraints == g1[k].constraints by {
        assert(b0[k].same_shape(b1[k]));
        assert(g0[k].same_shape(g1[k]));
        assert(g0[k].item == b0[k].item);
        assert(b1[k].expressions() == g1[k].expressions());
        lemma_item_len(b0[k].item, b1[k].item);
        lemma_item_len(b0[k].item, g1[k].item);
        lemma_concat_split(
            b1[k].item.expressions(),
            b1[k].constraints.expressions(),
            g1[k].item.expressions(),
            g1[k].constraints.expressions(),
        );
        lemma_item_fixed(b0[k].item, b1[k].item, g1[k].item);
        lemma_constraints_fixed(b0[k].constraints, b1[k].constraints, g1[k].constraints);
    }
}

/// Collecting a grid asks the code generator for cell `k`, in turn, with
/// that cell's own item and constraints at exactly its own column, row,
/// column span and row span, whatever they are; then for one grid item of
/// the grid's geometry and exactly the cells it gave, which is appended.
pub proof fn lemma_grid_cells_asked_as_placed<'a, L: Language>(
    g: &'a GridLayout,
    before: Vec<LayoutTreeItem<'a, L>>,
    after: Vec<LayoutTreeItem<'a, L>>,
    component: Rc<Component>,
    trees: Seq<Vec<LayoutTreeItem<'a, L>>>,
    cells: Vec<L::CompiledCode>,
    mid: Vec<LayoutTreeItem<'a, L>>,
    item: LayoutTreeItem<'a, L>,
)
    requires
        grid_generated_through(
            before,
            after,
            grid_cell_requests(g.elems@),
            &g.geometry,
            component,
            trees,
            cells,
            mid,
            item,
        ),
    ensures
        trees.len() == g.elems@.len() + 1,
        cells@.len() == g.elems@.len(),
        trees[0] == before,
        forall|k: int|
            0 <= k < g.elems@.len() ==> L::is_cell_data(
                g.elems@[k].item,
                g.elems@[k].constraints,
                g.elems@[k].col,
                g.elems@[k].row,
                g.elems@[k].colspan,
                g.elems@[k].rowspan,
                trees[k],
                trees[k + 1],
                component,
                #[trigger] cells@[k],
            ),
        L::is_grid_item(trees[g.elems@.len() as int], mid, &g.geometry, cells, component, item),
        item is GridLayout,
        after@ == mid@.push(item),
{
    let r = grid_cell_requests(g.elems@);
    assert forall|k: int| 0 <= k < g.elems@.len() implies L::is_cell_data(
        g.elems@[k].item,
        g.elems@[k].constraints,
        g.elems@[k].col,
        g.elems@[k].row,
        g.elems@[k].colspan,
        g.elems@[k].rowspan,
        trees[k],
        trees[k + 1],
        component,
        #[trigger] cells@[k],
    ) by {
        assert(r[k].2.colspan == g.elems@[k].colspan);
    }
}

/// Collecting a box asks the code generator for cell `k`, in turn, with that
/// cell's own item and constraints, one column and one row wide, at column
/// `k` and row 0 of a horizontal box or column 0 and row `k` of a vertical
/// one, `k` taken modulo 2^16; then for one grid item of the box's geometry
/// and exactly the cells it gave, which is appended.
pub proof fn lemma_box_cells_asked_along_axis<'a, L: Language>(
    b: &'a BoxLayout,
    before: Vec<LayoutTreeItem<'a, L>>,
    after: Vec<LayoutTreeItem<'a, L>>,
    component: Rc<Component>,
    trees: Seq<Vec<LayoutTreeItem<'a, L>>>,
    cells: Vec<L::CompiledCode>,
    mid: Vec<LayoutTreeItem<'a, L>>,
    item: LayoutTreeItem<'a, L>,
)
    requires
        grid_generated_through(
            before,
            after,
            box_cell_requests(b.elems@, b.is_horizontal),
            &b.geometry,
            component,
            trees,
            cells,
            mid,
            item,
        ),
    ensures
        trees.len() == b.elems@.len() + 1,
        cells@.len() == b.elems@.len(),
        trees[0] == before,
        forall|k: int|
            0 <= k < b.elems@.len() ==> L::is_cell_data(
                b.elems@[k].item,
                b.elems@[k].constraints,
                (if b.is_horizontal { k % 65536 } else { 0 }) as u16,
                (if b.is_horizontal { 0 } else { k % 65536 }) as u16,
                1,
                1,
                trees[k],
                trees[k + 1],
                component,
                #[trigger] cells@[k],
            ),
        L::is_grid_item(trees[b.elems@.len() as int], mid, &b.geometry, cells, component, item),
        item is GridLayout,
        after@ == mid@.push(item),
{
    let r = box_cell_requests(b.elems@, b.is_horizontal);
    assert forall|k: int| 0 <= k < b.elems@.len() implies L::is_cell_data(
        b.elems@[k].item,
        b.elems@[k].constraints,
        (if b.is_horizontal { k % 65536 } else { 0 }) as u16,
        (if b.is_horizontal { 0 } else { k % 65536 }) as u16,
        1,
        1,
        trees[k],
        trees[k + 1],
        component,
        #[trigger] cells@[k],
    ) by {
        assert(b.elems.len() == b.elems@.len());
        let i = k as usize;
        assert(i == k);
        assert((i as u16) as int == i % 65536) by (bit_vector);
        let p = r[k].2;
        assert(p == spec_box_cell_position(b.is_horizontal, i));
        assert(L::is_cell_data(
            b.elems@[k].item,
            b.elems@[k].constraints,
            p.col,
            p.row,
            p.colspan,
            p.rowspan,
            trees[k],
            trees[k + 1],
            component,
            cells@[k],
        ));
    }
}

/// The geometry built for a layout element takes each padding side from the
/// element's binding of that side when there is one, and otherwise from its
/// binding of `padding`, as a reference to that property of the element;
/// the spacing is a reference to the element's `spacing` when it binds it.
pub proof fn lemma_geometry_padding_sides(g: LayoutGeometry, rect: LayoutRect, element: ElementView)
    requires
        g.built_from(rect, element),
    ensures
        g.rect == rect,
        (g.spacing is Some) == element.bindings.contains_key("spacing"@),
        g.spacing matches Some(e) ==> e@ == ExpressionView::PropertyReference(element.id, "spacing"@),
        element.bindings.contains_key("padding"@) ==> g.padding.left is Some && g.padding.right is Some
            && g.padding.top is Some && g.padding.bottom is Some,
        g.padding.left matches Some(e) ==> e@ == ExpressionView::PropertyReference(
            element.id,
            if element.bindings.contains_key("padding_left"@) {
                "padding_left"@
            } else {
                "padding"@
            },
        ),
        g.padding.right matches Some(e) ==> e@ == ExpressionView::PropertyReference(
            element.id,
            if element.bindings.contains_key("padding_right"@) {
                "padding_right"@
            } else {
                "padding"@
            },
        ),
        g.padding.top matches Some(e) ==> e@ == ExpressionView::PropertyReference(
            element.id,
            if element.bindings.contains_key("padding_top"@) {
                "padding_top"@
            } else {
                "padding"@
            },
        ),
        g.padding.bottom matches Some(e) ==> e@ == ExpressionView::PropertyReference(
            element.id,
            if element.bindings.contains_key("padding_bottom"@) {
                "padding_bottom"@
            } else {
                "padding"@
            },
        ),
        (g.padding.left is Some) == (element.bindings.contains_key("padding_left"@)
            || element.bindings.contains_key("padding"@)),
        (g.padding.right is Some) == (element.bindings.contains_key("padding_right"@)
            || element.bindings.contains_key("padding"@)),
        (g.padding.top is Some) == (element.bindings.contains_key("padding_top"@)
            || element.bindings.contains_key("padding"@)),
        (g.padding.bottom is Some) == (element.bindings.contains_key("padding_bottom"@)
            || element.bindings.contains_key("padding"@)),
{
}

/// Each constraint read from an element is set exactly when the element
/// binds the property of the same name, and is then a reference to that
/// property of the element.
pub proof fn lemma_constraints_refer_to_own_property(c: LayoutConstraints, element: ElementView)
    requires
        c.of_element(element),
    ensures
        (c.minimum_width is Some) == element.bindings.contains_key("minimum_width"@),
        (c.maximum_width is Some) == element.bindings.contains_key("maximum_width"@),
        (c.minimum_height is Some) == element.bindings.contains_key("minimum_height"@),
        (c.maximum_height is Some) == element.bindings.contains_key("maximum_height"@),
        c.minimum_width matches Some(e) ==> (*e)@ == ExpressionView::PropertyReference(
            element.id,
            "minimum_width"@,
        ),
        c.maximum_width matches Some(e) ==> (*e)@ == ExpressionView::PropertyReference(
            element.id,
            "maximum_width"@,
        ),
        c.minimum_height matches Some(e) ==> (*e)@ == ExpressionView::PropertyReference(
            element.id,
            "minimum_height"@,
        ),
        c.maximum_height matches Some(e) ==> (*e)@ == ExpressionView::PropertyReference(
            element.id,
            "maximum_height"@,
        ),
{
}

/// A side of the rectangle maps to the name of the property its expression
/// refers to, whatever that name is, and to nothing when its expression is
/// not a property reference.
pub proof fn lemma_sides_map_to_referenced_property(rect: LayoutRect)
    ensures
        match *rect.x_reference {
            Expression::PropertyReference(r) => rect.spec_mapped_property_name("x"@) == Some(r.name@),
            _ => rect.spec_mapped_property_name("x"@) is None,
        },
        match *rect.y_reference {
            Expression::PropertyReference(r) => rect.spec_mapped_property_name("y"@) == Some(r.name@),
            _ => rect.spec_mapped_property_name("y"@) is None,
        },
        match *rect.width_reference {
            Expression::PropertyReference(r) => rect.spec_mapped_property_name("width"@) == Some(
                r.name@,
            ),
            _ => rect.spec_mapped_property_name("width"@) is None,
        },
        match *rect.height_reference {
            Expression::PropertyReference(r) => rect.spec_mapped_property_name("height"@) == Some(
                r.name@,
            ),
            _ => rect.spec_mapped_property_name("height"@) is None,
        },
{
    reveal_strlit("x");
    reveal_strlit("y");
    reveal_strlit("width");
    reveal_strlit("height");
    assert("x"@.len() == 1 && "y"@.len() == 1 && "width"@.len() == 5 && "height"@.len() == 6);
    assert("x"@[0] == 'x' && "y"@[0] == 'y');
}

/// Each entry of the restriction list holds the constraint that its runtime
/// name names: `min_width` the minimum width, `max_width` the maximum width,
/// `min_height` the minimum height and `max_height` the maximum height.
pub proof fn lemma_restrictions_hold_named_fields(c: LayoutConstraints)
    ensures
        c.restrictions().len() == 4,
        c.restrictions()[0] == (c.minimum_width, "min_width"@),
        c.restrictions()[1] == (c.maximum_width, "max_width"@),
        c.restrictions()[2] == (c.minimum_height, "min_height"@),
        c.restrictions()[3] == (c.maximum_height, "max_height"@),
{
}

/// A rectangle that refers to an element refers, side by side, to the
/// element's property of the same name.
pub proof fn lemma_refers_to_sides(rect: LayoutRect, element: ElementId)
    requires
        rect.refers_to(element),
    ensures
        (*rect.x_reference)@ == ExpressionView::PropertyReference(element, "x"@),
        (*rect.y_reference)@ == ExpressionView::PropertyReference(element, "y"@),
        (*rect.width_reference)@ == ExpressionView::PropertyReference(element, "width"@),
        (*rect.height_reference)@ == ExpressionView::PropertyReference(element, "height"@),
{
}

/// Installing a rectangle declares `x`, `y`, `width` and `height` as lengths
/// that no source declared, and keeps every other declaration.
pub proof fn lemma_installed_declarations(
    declarations: Map<Seq<char>, PropertyDeclaration>,
    name: Seq<char>,
)
    ensures
        installed_declarations(declarations).contains_key(name) == (declarations.contains_key(name)
            || name == "x"@ || name == "y"@ || name == "width"@ || name == "height"@),
        (name == "x"@ || name == "y"@ || name == "width"@ || name == "height"@) ==> installed_declarations(
            declarations,
        )[name] == (PropertyDeclaration { property_type: Type::Length, type_node: None }),
        !(name == "x"@ || name == "y"@ || name == "width"@ || name == "height"@)
            && declarations.contains_key(name) ==> installed_declarations(declarations)[name]
            == declarations[name],
{
}

/// A geometry property named `name` gets the default `default` exactly when
/// the element declares it and does not bind it; a binding it had is kept.
pub open spec fn defaulted_as(
    before: ElementView,
    after: ElementView,
    name: Seq<char>,
    default: Option<ExpressionView>,
) -> bool {
    if before.bindings.contains_key(name) {
        after.bindings.contains_key(name) && after.bindings[name] == before.bindings[name]
    } else if before.property_declarations.contains_key(name) && default is Some {
        after.bindings.contains_key(name) && after.bindings[name] == default->0
    } else {
        !after.bindings.contains_key(name)
    }
}

/// Giving a layout element its geometry defaults binds each of `width`,
/// `height`, `x` and `y` that the element declares and does not bind to the
/// rectangle's side of that name, and each padding side that it declares and
/// does not bind to a reference to its `padding`, when it binds `padding`.
pub proof fn lemma_geometry_defaults_per_property(element: ElementView, rect: LayoutRect)
    ensures
        defaulted_as(element, with_geometry_defaults(element, rect), "width"@, Some(
            (*rect.width_reference)@,
        )),
        defaulted_as(element, with_geometry_defaults(element, rect), "height"@, Some(
            (*rect.height_reference)@,
        )),
        defaulted_as(element, with_geometry_defaults(element, rect), "x"@, Some(
            (*rect.x_reference)@,
        )),
        defaulted_as(element, with_geometry_defaults(element, rect), "y"@, Some(
            (*rect.y_reference)@,
        )),
        defaulted_as(
            element,
            with_geometry_defaults(element, rect),
            "padding_left"@,
            if element.bindings.contains_key("padding"@) {
                Some(ExpressionView::PropertyReference(element.id, "padding"@))
            } else {
                None
            },
        ),
        defaulted_as(
            element,
            with_geometry_defaults(element, rect),
            "padding_right"@,
            if element.bindings.contains_key("padding"@) {
                Some(ExpressionView::PropertyReference(element.id, "padding"@))
            } else {
                None
            },
        ),
        defaulted_as(
            element,
            with_geometry_defaults(element, rect),
            "padding_top"@,
            if element.bindings.contains_key("padding"@) {
                Some(ExpressionView::PropertyReference(element.id, "padding"@))
            } else {
                None
            },
        ),
        defaulted_as(
            element,
            with_geometry_defaults(element, rect),
            "padding_bottom"@,
            if element.bindings.contains_key("padding"@) {
                Some(ExpressionView::PropertyReference(element.id, "padding"@))
            } else {
                None
            },
        ),
{
    reveal_strlit("padding");
    reveal_strlit("width");
    reveal_strlit("height");
    reveal_strlit("x");
    reveal_strlit("y");
    reveal_strlit("padding_left");
    reveal_strlit("padding_right");
    reveal_strlit("padding_top");
    reveal_strlit("padding_bottom");
    assert("padding"@.len() == 7 && "padding_left"@.len() == 12 && "padding_right"@.len() == 13);
    assert("padding_top"@.len() == 11 && "padding_bottom"@.len() == 14);
    assert("width"@.len() == 5 && "height"@.len() == 6);
    assert("x"@.len() == 1 && "y"@.len() == 1);
    assert("x"@[0] == 'x' && "y"@[0] == 'y');
}

/// The sides of a rectangle are visited in the order width, height, x, y.
pub proof fn lemma_rect_visit_order(rect: LayoutRect)
    ensures
        rect.expressions() == seq![
            *rect.width_reference,
            *rect.height_reference,
            *rect.x_reference,
            *rect.y_reference,
        ],
{
}

/// Set constraints are visited in the order maximum width, minimum width,
/// maximum height, minimum height, and unset ones are skipped.
pub proof fn lemma_constraints_visit_order(c: LayoutConstraints)
    ensures
        c.maximum_width is Some && c.minimum_width is Some && c.maximum_height is Some
            && c.minimum_height is Some ==> c.expressions() == seq![
            *c.maximum_width->0,
            *c.minimum_width->0,
            *c.maximum_height->0,
            *c.minimum_height->0,
        ],
        c.maximum_width is None && c.minimum_width is None && c.maximum_height is None
            && c.minimum_height is None ==> c.expressions().len() == 0,
        c.expressions().len() == (if c.maximum_width is Some { 1int } else { 0 }) + (if c.minimum_width is Some { 1int } else { 0 })
            + (if c.maximum_height is Some { 1int } else { 0 }) + (if c.minimum_height is Some { 1int } else { 0 }),
{
    if c.maximum_width is Some && c.minimum_width is Some && c.maximum_height is Some
        && c.minimum_height is Some {
        assert(c.expressions() =~= seq![
            *c.maximum_width->0,
            *c.minimum_width->0,
            *c.maximum_height->0,
            *c.minimum_height->0,
        ]);
    }
}

/// Set padding sides are visited in the order left, right, top, bottom.
pub proof fn lemma_padding_visit_order(p: Padding)
    ensures
        p.left is Some && p.right is Some && p.top is Some && p.bottom is Some ==> p.expressions()
            == seq![p.left->0, p.right->0, p.top->0, p.bottom->0],
{
    if p.left is Some && p.right is Some && p.top is Some && p.bottom is Some {
        assert(p.expressions() =~= seq![p.left->0, p.right->0, p.top->0, p.bottom->0]);
    }
}

/// A geometry's expressions are visited rectangle first, then the spacing,
/// then the padding.
pub proof fn lemma_geometry_visit_order(g: LayoutGeometry)
    ensures
        g.spacing is Some ==> g.expressions() == seq![
            *g.rect.width_reference,
            *g.rect.height_reference,
            *g.rect.x_reference,
            *g.rect.y_reference,
            g.spacing->0,
        ] + g.padding.expressions(),
        g.spacing is None ==> g.expressions() == seq![
            *g.rect.width_reference,
            *g.rect.height_reference,
            *g.rect.x_reference,
            *g.rect.y_reference,
        ] + g.padding.expressions(),
{
    if g.spacing is Some {
        assert(g.rect.expressions() + seq![g.spacing->0] =~= seq![
            *g.rect.width_reference,
            *g.rect.height_reference,
            *g.rect.x_reference,
            *g.rect.y_reference,
            g.spacing->0,
        ]);
    } else {
        assert(g.rect.expressions() + Seq::<Expression>::empty() =~= g.rect.expressions());
    }
}

} // verus!
