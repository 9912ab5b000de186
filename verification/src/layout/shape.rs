//! The shape of a layout and the expressions it holds fix the layout.
//!
//! `same_value` is equality of layouts with each vector compared entry by
//! entry: two `Vec`s are not known to be equal from their entries alone, so
//! this is how equality of values that hold vectors is stated.
use vstd::prelude::*;
use crate::expression_tree::Expression;
use crate::layout::visit::{
    box_cells_expressions, box_cells_same_shape, grid_cells_expressions, grid_cells_same_shape,
    opt_box_expressions, opt_expressions,
};
use crate::layout::{
    BoxLayout, BoxLayoutElement, GridLayout, GridLayoutElement, Layout, LayoutConstraints,
    LayoutGeometry, LayoutItem, PathLayout,
};

verus! {

impl Layout {
    /// The same layout: the same kind, and the same value in every field,
    /// vectors compared entry by entry.
    pub open spec fn same_value(self, other: Self) -> bool
        decreases self,
    {
        match (self, other) {
            (Layout::GridLayout(a), Layout::GridLayout(b)) => a.same_value(b),
            (Layout::BoxLayout(a), Layout::BoxLayout(b)) => a.same_value(b),
            (Layout::PathLayout(a), Layout::PathLayout(b)) => a == b,
            _ => false,
        }
    }
}

impl GridLayout {
    /// The same cells, entry by entry, and the same geometry.
    pub open spec fn same_value(self, other: Self) -> bool
        decreases self,
    {
        grid_cells_same_value(self.elems@, other.elems@) && self.geometry == other.geometry
    }
}

impl BoxLayout {
    /// The same orientation, the same cells, entry by entry, and the same
    /// geometry.
    pub open spec fn same_value(self, other: Self) -> bool
        decreases self,
    {
        self.is_horizontal == other.is_horizontal && box_cells_same_value(self.elems@, other.elems@)
            && self.geometry == other.geometry
    }
}

impl LayoutItem {
    /// The same kind of item with the same element and the same nested
    /// layout.
    pub open spec fn same_value(self, other: Self) -> bool
        decreases self,
    {
        match (self, other) {
            (LayoutItem::Element(a), LayoutItem::Element(b)) => a.element == b.element && match (
                a.layout,
                b.layout,
            ) {
                (Some(x), Some(y)) => x.same_value(y),
                (None, None) => true,
                _ => false,
            },
            (LayoutItem::Layout(x), LayoutItem::Layout(y)) => x.same_value(*y),
            _ => false,
        }
    }
}

impl GridLayoutElement {
    /// The same position, span, item and constraints.
    pub open spec fn same_value(self, other: Self) -> bool
        decreases self,
    {
        &&& self.col == other.col
        &&& self.row == other.row
        &&& self.colspan == other.colspan
        &&& self.rowspan == other.rowspan
        &&& self.item.same_value(other.item)
        &&& self.constraints == other.constraints
    }
}

impl BoxLayoutElement {
    /// The same item and constraints.
    pub open spec fn same_value(self, other: Self) -> bool
        decreases self,
    {
        self.item.same_value(other.item) && self.constraints == other.constraints
    }
}

/// Cell by cell, the same value.
pub open spec fn grid_cells_same_value(a: Seq<GridLayoutElement>, b: Seq<GridLayoutElement>) -> bool
    decreases a,
{
    a.len() == b.len() && (a.len() == 0 || (grid_cells_same_value(a.drop_last(), b.drop_last())
        && a.last().same_value(b.last())))
}

/// Cell by cell, the same value.
pub open spec fn box_cells_same_value(a: Seq<BoxLayoutElement>, b: Seq<BoxLayoutElement>) -> bool
    decreases a,
{
    a.len() == b.len() && (a.len() == 0 || (box_cells_same_value(a.drop_last(), b.drop_last())
        && a.last().same_value(b.last())))
}

// Splitting expression sequences.
pub proof fn lemma_concat_split(
    a1: Seq<Expression>,
    a2: Seq<Expression>,
    b1: Seq<Expression>,
    b2: Seq<Expression>,
)
    requires
        a1.len() == b1.len(),
        a1 + a2 == b1 + b2,
    ensures
        a1 == b1,
        a2 == b2,
{
    assert(a1 =~= (a1 + a2).subrange(0, a1.len() as int));
    assert(b1 =~= (b1 + b2).subrange(0, b1.len() as int));
    assert(a2 =~= (a1 + a2).subrange(a1.len() as int, (a1 + a2).len() as int));
    assert(b2 =~= (b1 + b2).subrange(b1.len() as int, (b1 + b2).len() as int));
}

proof fn lemma_opt_equal(a: Option<Expression>, b: Option<Expression>)
    requires
        a is Some == b is Some,
        opt_expressions(a) == opt_expressions(b),
    ensures
        a == b,
{
    match (a, b) {
        (Some(x), Some(y)) => {
            assert(opt_expressions(a)[0] == x);
            assert(opt_expressions(b)[0] == y);
        },
        _ => {},
    }
}

proof fn lemma_opt_box_equal(a: Option<Box<Expression>>, b: Option<Box<Expression>>)
    requires
        a is Some == b is Some,
        opt_box_expressions(a) == opt_box_expressions(b),
    ensures
        a == b,
{
    match (a, b) {
        (Some(x), Some(y)) => {
            assert(opt_box_expressions(a)[0] == *x);
            assert(opt_box_expressions(b)[0] == *y);
        },
        _ => {},
    }
}

// The parts without vectors: the shape and the expressions give equality.
pub proof fn lemma_constraints_fixed(a: LayoutConstraints, b: LayoutConstraints, c: LayoutConstraints)
    requires
        a.same_shape(b),
        a.same_shape(c),
        b.expressions() == c.expressions(),
    ensures
        b == c,
{
    lemma_concat_split(
        opt_box_expressions(b.maximum_width) + opt_box_expressions(b.minimum_width)
            + opt_box_expressions(b.maximum_height),
        opt_box_expressions(b.minimum_height),
        opt_box_expressions(c.maximum_width) + opt_box_expressions(c.minimum_width)
            + opt_box_expressions(c.maximum_height),
        opt_box_expressions(c.minimum_height),
    );
    lemma_concat_split(
        opt_box_expressions(b.maximum_width) + opt_box_expressions(b.minimum_width),
        opt_box_expressions(b.maximum_height),
        opt_box_expressions(c.maximum_width) + opt_box_expressions(c.minimum_width),
        opt_box_expressions(c.maximum_height),
    );
    lemma_concat_split(
        opt_box_expressions(b.maximum_width),
        opt_box_expressions(b.minimum_width),
        opt_box_expressions(c.maximum_width),
        opt_box_expressions(c.minimum_width),
    );
    lemma_opt_box_equal(b.maximum_width, c.maximum_width);
    lemma_opt_box_equal(b.minimum_width, c.minimum_width);
    lemma_opt_box_equal(b.maximum_height, c.maximum_height);
    lemma_opt_box_equal(b.minimum_height, c.minimum_height);
}

pub proof fn lemma_geometry_fixed(a: LayoutGeometry, b: LayoutGeometry, c: LayoutGeometry)
    requires
        a.same_shape(b),
        a.same_shape(c),
        b.expressions() == c.expressions(),
    ensures
        b == c,
{
    lemma_concat_split(
        b.rect.expressions() + opt_expressions(b.spacing),
        b.padding.expressions(),
        c.rect.expressions() + opt_expressions(c.spacing),
        c.padding.expressions(),
    );
    lemma_concat_split(
        b.rect.expressions(),
        opt_expressions(b.spacing),
        c.rect.expressions(),
        opt_expressions(c.spacing),
    );
    lemma_opt_equal(b.spacing, c.spacing);
    assert(b.rect.expressions()[0] == c.rect.expressions()[0]);
    assert(b.rect.expressions()[1] == c.rect.expressions()[1]);
    assert(b.rect.expressions()[2] == c.rect.expressions()[2]);
    assert(b.rect.expressions()[3] == c.rect.expressions()[3]);
    assert(b.rect == c.rect);
    let (p, q) = (b.padding, c.padding);
    lemma_concat_split(
        opt_expressions(p.left) + opt_expressions(p.right) + opt_expressions(p.top),
        opt_expressions(p.bottom),
        opt_expressions(q.left) + opt_expressions(q.right) + opt_expressions(q.top),
        opt_expressions(q.bottom),
    );
    lemma_concat_split(
        opt_expressions(p.left) + opt_expressions(p.right),
        opt_expressions(p.top),
        opt_expressions(q.left) + opt_expressions(q.right),
        opt_expressions(q.top),
    );
    lemma_concat_split(
        opt_expressions(p.left),
        opt_expressions(p.right),
        opt_expressions(q.left),
        opt_expressions(q.right),
    );
    lemma_opt_equal(p.left, q.left);
    lemma_opt_equal(p.right, q.right);
    lemma_opt_equal(p.top, q.top);
    lemma_opt_equal(p.bottom, q.bottom);
}

pub proof fn lemma_path_fixed(a: PathLayout, b: PathLayout, c: PathLayout)
    requires
        a.same_shape(b),
        a.same_shape(c),
        b.expressions() == c.expressions(),
    ensures
        b == c,
{
    lemma_concat_split(
        b.rect.expressions(),
        seq![*b.offset_reference],
        c.rect.expressions(),
        seq![*c.offset_reference],
    );
    assert(b.rect.expressions()[0] == c.rect.expressions()[0]);
    assert(b.rect.expressions()[1] == c.rect.expressions()[1]);
    assert(b.rect.expressions()[2] == c.rect.expressions()[2]);
    assert(b.rect.expressions()[3] == c.rect.expressions()[3]);
    assert(seq![*b.offset_reference][0] == seq![*c.offset_reference][0]);
    assert(b.rect == c.rect);
}

// Values of the same shape hold as many expressions.
pub proof fn lemma_geometry_len(a: LayoutGeometry, b: LayoutGeometry)
    requires
        a.same_shape(b),
    ensures
        a.expressions().len() == b.expressions().len(),
{
    assert(a.padding.expressions().len() == b.padding.expressions().len());
}

pub proof fn lemma_layout_len(a: Layout, b: Layout)
    requires
        a.same_shape(b),
    ensures
        a.expressions().len() == b.expressions().len(),
    decreases a,
{
    match (a, b) {
        (Layout::GridLayout(x), Layout::GridLayout(y)) => {
            assert(x.same_shape(y));
            lemma_grid_cells_len(x.elems@, y.elems@);
            lemma_geometry_len(x.geometry, y.geometry);
            assert(a.expressions() == x.expressions());
            assert(b.expressions() == y.expressions());
        },
        (Layout::BoxLayout(x), Layout::BoxLayout(y)) => {
            assert(x.same_shape(y));
            lemma_box_cells_len(x.elems@, y.elems@);
            lemma_geometry_len(x.geometry, y.geometry);
            assert(a.expressions() == x.expressions());
            assert(b.expressions() == y.expressions());
        },
        (Layout::PathLayout(x), Layout::PathLayout(y)) => {
            assert(a.expressions() == x.expressions());
            assert(b.expressions() == y.expressions());
        },
        _ => {},
    }
}

pub proof fn lemma_item_len(a: LayoutItem, b: LayoutItem)
    requires
        a.same_shape(b),
    ensures
        a.expressions().len() == b.expressions().len(),
    decreases a,
{
    match (a, b) {
        (LayoutItem::Element(x), LayoutItem::Element(y)) => {
            match (x.layout, y.layout) {
                (Some(p), Some(q)) => lemma_layout_len(p, q),
                _ => {},
            }
        },
        (LayoutItem::Layout(x), LayoutItem::Layout(y)) => lemma_layout_len(*x, *y),
        _ => {},
    }
}

pub proof fn lemma_grid_cell_len(a: GridLayoutElement, b: GridLayoutElement)
    requires
        a.same_shape(b),
    ensures
        a.expressions().len() == b.expressions().len(),
    decreases a,
{
    lemma_item_len(a.item, b.item);
}

pub proof fn lemma_box_cell_len(a: BoxLayoutElement, b: BoxLayoutElement)
    requires
        a.same_shape(b),
    ensures
        a.expressions().len() == b.expressions().len(),
    decreases a,
{
    lemma_item_len(a.item, b.item);
}

pub proof fn lemma_grid_cells_len(a: Seq<GridLayoutElement>, b: Seq<GridLayoutElement>)
    requires
        grid_cells_same_shape(a, b),
    ensures
        grid_cells_expressions(a).len() == grid_cells_expressions(b).len(),
    decreases a,
{
    if a.len() > 0 {
        lemma_grid_cells_len(a.drop_last(), b.drop_last());
        lemma_grid_cell_len(a.last(), b.last());
    }
}

pub proof fn lemma_box_cells_len(a: Seq<BoxLayoutElement>, b: Seq<BoxLayoutElement>)
    requires
        box_cells_same_shape(a, b),
    ensures
        box_cells_expressions(a).len() == box_cells_expressions(b).len(),
    decreases a,
{
    if a.len() > 0 {
        lemma_box_cells_len(a.drop_last(), b.drop_last());
        lemma_box_cell_len(a.last(), b.last());
    }
}

// Every value has its own shape.
pub proof fn lemma_layout_same_shape_refl(a: Layout)
    ensures
        a.same_shape(a),
    decreases a,
{
    match a {
        Layout::GridLayout(x) => {
            lemma_grid_cells_same_shape_refl(x.elems@);
            assert(x.same_shape(x));
        },
        Layout::BoxLayout(x) => {
            lemma_box_cells_same_shape_refl(x.elems@);
            assert(x.same_shape(x));
        },
        Layout::PathLayout(_) => {},
    }
}

pub proof fn lemma_item_same_shape_refl(a: LayoutItem)
    ensures
        a.same_shape(a),
    decreases a,
{
    match a {
        LayoutItem::Element(x) => match x.layout {
            Some(l) => lemma_layout_same_shape_refl(l),
            None => {},
        },
        LayoutItem::Layout(x) => lemma_layout_same_shape_refl(*x),
    }
}

pub proof fn lemma_grid_cells_same_shape_refl(a: Seq<GridLayoutElement>)
    ensures
        grid_cells_same_shape(a, a),
    decreases a,
{
    if a.len() > 0 {
        lemma_grid_cells_same_shape_refl(a.drop_last());
        lemma_item_same_shape_refl(a.last().item);
        assert(a.last().same_shape(a.last()));
    }
}

pub proof fn lemma_box_cells_same_shape_refl(a: Seq<BoxLayoutElement>)
    ensures
        box_cells_same_shape(a, a),
    decreases a,
{
    if a.len() > 0 {
        lemma_box_cells_same_shape_refl(a.drop_last());
        lemma_item_same_shape_refl(a.last().item);
        assert(a.last().same_shape(a.last()));
    }
}

// Two values of the shape of a third, holding the same expressions, are the
// same value.
pub proof fn lemma_layout_fixed(a: Layout, b: Layout, c: Layout)
    requires
        a.same_shape(b),
        a.same_shape(c),
        b.expressions() == c.expressions(),
    ensures
        b.same_value(c),
    decreases a,
{
    match (a, b, c) {
        (Layout::GridLayout(x), Layout::GridLayout(y), Layout::GridLayout(z)) => {
            lemma_grid_cells_len(x.elems@, y.elems@);
            lemma_grid_cells_len(x.elems@, z.elems@);
            lemma_concat_split(
                grid_cells_expressions(y.elems@),
                y.geometry.expressions(),
                grid_cells_expressions(z.elems@),
                z.geometry.expressions(),
            );
            lemma_grid_cells_fixed(x.elems@, y.elems@, z.elems@);
            lemma_geometry_fixed(x.geometry, y.geometry, z.geometry);
        },
        (Layout::BoxLayout(x), Layout::BoxLayout(y), Layout::BoxLayout(z)) => {
            lemma_box_cells_len(x.elems@, y.elems@);
            lemma_box_cells_len(x.elems@, z.elems@);
            lemma_concat_split(
                box_cells_expressions(y.elems@),
                y.geometry.expressions(),
                box_cells_expressions(z.elems@),
                z.geometry.expressions(),
            );
            lemma_box_cells_fixed(x.elems@, y.elems@, z.elems@);
            lemma_geometry_fixed(x.geometry, y.geometry, z.geometry);
        },
        (Layout::PathLayout(x), Layout::PathLayout(y), Layout::PathLayout(z)) => {
            lemma_path_fixed(x, y, z);
        },
        _ => {},
    }
}

pub proof fn lemma_item_fixed(a: LayoutItem, b: LayoutItem, c: LayoutItem)
    requires
        a.same_shape(b),
        a.same_shape(c),
        b.expressions() == c.expressions(),
    ensures
        b.same_value(c),
    decreases a,
{
    match (a, b, c) {
        (LayoutItem::Element(x), LayoutItem::Element(y), LayoutItem::Element(z)) => {
            match (x.layout, y.layout, z.layout) {
                (Some(p), Some(q), Some(r)) => lemma_layout_fixed(p, q, r),
                _ => {},
            }
        },
        (LayoutItem::Layout(x), LayoutItem::Layout(y), LayoutItem::Layout(z)) => {
            lemma_layout_fixed(*x, *y, *z);
        },
        _ => {},
    }
}

pub proof fn lemma_grid_cell_fixed(a: GridLayoutElement, b: GridLayoutElement, c: GridLayoutElement)
    requires
        a.same_shape(b),
        a.same_shape(c),
        b.expressions() == c.expressions(),
    ensures
        b.same_value(c),
    decreases a,
{
    lemma_item_len(a.item, b.item);
    lemma_item_len(a.item, c.item);
    lemma_concat_split(
        b.item.expressions(),
        b.constraints.expressions(),
        c.item.expressions(),
        c.constraints.expressions(),
    );
    lemma_item_fixed(a.item, b.item, c.item);
    lemma_constraints_fixed(a.constraints, b.constraints, c.constraints);
}

pub proof fn lemma_box_cell_fixed(a: BoxLayoutElement, b: BoxLayoutElement, c: BoxLayoutElement)
    requires
        a.same_shape(b),
        a.same_shape(c),
        b.expressions() == c.expressions(),
    ensures
        b.same_value(c),
    decreases a,
{
    lemma_item_len(a.item, b.item);
    lemma_item_len(a.item, c.item);
    lemma_concat_split(
        b.item.expressions(),
        b.constraints.expressions(),
        c.item.expressions(),
        c.constraints.expressions(),
    );
    lemma_item_fixed(a.item, b.item, c.item);
    lemma_constraints_fixed(a.constraints, b.constraints, c.constraints);
}

pub proof fn lemma_grid_cells_fixed(
    a: Seq<GridLayoutElement>,
    b: Seq<GridLayoutElement>,
    c: Seq<GridLayoutElement>,
)
    requires
        grid_cells_same_shape(a, b),
        grid_cells_same_shape(a, c),
        grid_cells_expressions(b) == grid_cells_expressions(c),
    ensures
        grid_cells_same_value(b, c),
    decreases a,
{
    if a.len() > 0 {
        lemma_grid_cells_len(a.drop_last(), b.drop_last());
        lemma_grid_cells_len(a.drop_last(), c.drop_last());
        lemma_concat_split(
            grid_cells_expressions(b.drop_last()),
            b.last().expressions(),
            grid_cells_expressions(c.drop_last()),
            c.last().expressions(),
        );
        lemma_grid_cells_fixed(a.drop_last(), b.drop_last(), c.drop_last());
        lemma_grid_cell_fixed(a.last(), b.last(), c.last());
    }
}

pub proof fn lemma_box_cells_fixed(
    a: Seq<BoxLayoutElement>,
    b: Seq<BoxLayoutElement>,
    c: Seq<BoxLayoutElement>,
)
    requires
        box_cells_same_shape(a, b),
        box_cells_same_shape(a, c),
        box_cells_expressions(b) == box_cells_expressions(c),
    ensures
        box_cells_same_value(b, c),
    decreases a,
{
    if a.len() > 0 {
        lemma_box_cells_len(a.drop_last(), b.drop_last());
        lemma_box_cells_len(a.drop_last(), c.drop_last());
        lemma_concat_split(
            box_cells_expressions(b.drop_last()),
            b.last().expressions(),
            box_cells_expressions(c.drop_last()),
            c.last().expressions(),
        );
        lemma_box_cells_fixed(a.drop_last(), b.drop_last(), c.drop_last());
        lemma_box_cell_fixed(a.last(), b.last(), c.last());
    }
}

} // verus!
