//! Walking the expressions that a layout holds.
//!
//! Each kind of layout data lists the expressions it holds, in the order in
//! which they are visited, and says when two values of it have the same
//! shape: they agree on everything but those expressions. Visiting keeps the
//! shape and replaces the listed expressions by what the visitor gives back.
use vstd::prelude::*;
use crate::expression_tree::{
    lemma_visit_all_concat, lemma_visit_all_single, visit_all, Expression,
    ExpressionVisitor,
};
use crate::layout::{
    BoxLayout, BoxLayoutElement, GridLayout, GridLayoutElement, Layout, LayoutConstraints,
    LayoutGeometry, LayoutItem, LayoutRect, LayoutVec, Padding, PathLayout,
};

verus! {

/// The expression in an optional box, if there is one.
pub open spec fn opt_box_expressions(o: Option<Box<Expression>>) -> Seq<Expression> {
    match o {
        Some(e) => seq![*e],
        None => Seq::empty(),
    }
}

/// The expression in an option, if there is one.
pub open spec fn opt_expressions(o: Option<Expression>) -> Seq<Expression> {
    match o {
        Some(e) => seq![e],
        None => Seq::empty(),
    }
}

fn visit_expression<V: ExpressionVisitor>(e: &mut Expression, visitor: &mut V)
    ensures
        (*final(visitor), *final(e)) == (*old(visitor)).step(*old(e)),
{
    let mut taken = Expression::Invalid;
    std::mem::swap(&mut taken, e);
    *e = visitor.visit(taken);
}

fn visit_boxed<V: ExpressionVisitor>(e: &mut Box<Expression>, visitor: &mut V)
    ensures
        (*final(visitor), **final(e)) == (*old(visitor)).step(**old(e)),
{
    let mut taken = Box::new(Expression::Invalid);
    std::mem::swap(&mut taken, e);
    *e = Box::new(visitor.visit(*taken));
}

fn visit_opt_boxed<V: ExpressionVisitor>(o: &mut Option<Box<Expression>>, visitor: &mut V)
    ensures
        *final(o) is Some == *old(o) is Some,
        (*final(visitor), opt_box_expressions(*final(o))) == visit_all(
            *old(visitor),
            opt_box_expressions(*old(o)),
        ),
{
    let mut taken = None;
    std::mem::swap(&mut taken, o);
    match taken {
        Some(mut b) => {
            proof {
                lemma_visit_all_single(*visitor, *b);
            }
            visit_boxed(&mut b, visitor);
            *o = Some(b);
        },
        None => {},
    }
}

fn visit_opt<V: ExpressionVisitor>(o: &mut Option<Expression>, visitor: &mut V)
    ensures
        *final(o) is Some == *old(o) is Some,
        (*final(visitor), opt_expressions(*final(o))) == visit_all(*old(visitor), opt_expressions(*old(o))),
{
    let mut taken = None;
    std::mem::swap(&mut taken, o);
    match taken {
        Some(mut e) => {
            proof {
                lemma_visit_all_single(*visitor, e);
            }
            visit_expression(&mut e, visitor);
            *o = Some(e);
        },
        None => {},
    }
}

/// Visiting `a + b + c + d` part by part.
proof fn lemma_visit_four<V: ExpressionVisitor>(
    v0: V,
    a: Seq<Expression>,
    b: Seq<Expression>,
    c: Seq<Expression>,
    d: Seq<Expression>,
)
    ensures
        visit_all(v0, a + b + c + d) == ({
            let (v1, a2) = visit_all(v0, a);
            let (v2, b2) = visit_all(v1, b);
            let (v3, c2) = visit_all(v2, c);
            let (v4, d2) = visit_all(v3, d);
            (v4, a2 + b2 + c2 + d2)
        }),
{
    lemma_visit_all_concat(v0, a + b + c, d);
    lemma_visit_all_concat(v0, a + b, c);
    lemma_visit_all_concat(v0, a, b);
}

impl LayoutRect {
    /// The sides in the order they are visited: width, height, x, y.
    pub open spec fn expressions(self) -> Seq<Expression> {
        seq![*self.width_reference, *self.height_reference, *self.x_reference, *self.y_reference]
    }

    pub fn visit_expressions<V: ExpressionVisitor>(&mut self, visitor: &mut V)
        ensures
            (*final(visitor), final(self).expressions()) == visit_all(
                *old(visitor),
                old(self).expressions(),
            ),
    {
        let ghost v0 = *visitor;
        let ghost old_self = *self;
        visit_boxed(&mut self.width_reference, visitor);
        visit_boxed(&mut self.height_reference, visitor);
        visit_boxed(&mut self.x_reference, visitor);
        visit_boxed(&mut self.y_reference, visitor);
        proof {
            let (v1, w) = v0.step(*old_self.width_reference);
            let (v2, h) = v1.step(*old_self.height_reference);
            let (v3, x) = v2.step(*old_self.x_reference);
            let (v4, y) = v3.step(*old_self.y_reference);
            lemma_visit_all_single(v0, *old_self.width_reference);
            lemma_visit_all_single(v1, *old_self.height_reference);
            lemma_visit_all_single(v2, *old_self.x_reference);
            lemma_visit_all_single(v3, *old_self.y_reference);
            lemma_visit_four(
                v0,
                seq![*old_self.width_reference],
                seq![*old_self.height_reference],
                seq![*old_self.x_reference],
                seq![*old_self.y_reference],
            );
            assert(old_self.expressions() =~= seq![*old_self.width_reference] + seq![
                *old_self.height_reference,
            ] + seq![*old_self.x_reference] + seq![*old_self.y_reference]);
            assert(self.expressions() =~= seq![w] + seq![h] + seq![x] + seq![y]);
        }
    }
}

impl LayoutConstraints {
    /// The constraints that are set, in the order they are visited: maximum
    /// width, minimum width, maximum height, minimum height.
    pub open spec fn expressions(self) -> Seq<Expression> {
        opt_box_expressions(self.maximum_width) + opt_box_expressions(self.minimum_width)
            + opt_box_expressions(self.maximum_height) + opt_box_expressions(self.minimum_height)
    }

    /// The same constraints are set.
    pub open spec fn same_shape(self, other: Self) -> bool {
        &&& self.minimum_width is Some == other.minimum_width is Some
        &&& self.maximum_width is Some == other.maximum_width is Some
        &&& self.minimum_height is Some == other.minimum_height is Some
        &&& self.maximum_height is Some == other.maximum_height is Some
    }

    pub fn visit_expressions<V: ExpressionVisitor>(&mut self, visitor: &mut V)
        ensures
            old(self).same_shape(*final(self)),
            (*final(visitor), final(self).expressions()) == visit_all(
                *old(visitor),
                old(self).expressions(),
            ),
    {
        let ghost v0 = *visitor;
        let ghost old_self = *self;
        visit_opt_boxed(&mut self.maximum_width, visitor);
        visit_opt_boxed(&mut self.minimum_width, visitor);
        visit_opt_boxed(&mut self.maximum_height, visitor);
        visit_opt_boxed(&mut self.minimum_height, visitor);
        proof {
            lemma_visit_four(
                v0,
                opt_box_expressions(old_self.maximum_width),
                opt_box_expressions(old_self.minimum_width),
                opt_box_expressions(old_self.maximum_height),
                opt_box_expressions(old_self.minimum_height),
            );
        }
    }
}

impl Padding {
    /// The sides that are set, in the order they are visited: left, right,
    /// top, bottom.
    pub open spec fn expressions(self) -> Seq<Expression> {
        opt_expressions(self.left) + opt_expressions(self.right) + opt_expressions(self.top)
            + opt_expressions(self.bottom)
    }

    /// The same sides are set.
    pub open spec fn same_shape(self, other: Self) -> bool {
        &&& self.left is Some == other.left is Some
        &&& self.right is Some == other.right is Some
        &&& self.top is Some == other.top is Some
        &&& self.bottom is Some == other.bottom is Some
    }

    pub fn visit_expressions<V: ExpressionVisitor>(&mut self, visitor: &mut V)
        ensures
            old(self).same_shape(*final(self)),
            (*final(visitor), final(self).expressions()) == visit_all(
                *old(visitor),
                old(self).expressions(),
            ),
    {
        let ghost v0 = *visitor;
        let ghost old_self = *self;
        visit_opt(&mut self.left, visitor);
        visit_opt(&mut self.right, visitor);
        visit_opt(&mut self.top, visitor);
        visit_opt(&mut self.bottom, visitor);
        proof {
            lemma_visit_four(
                v0,
                opt_expressions(old_self.left),
                opt_expressions(old_self.right),
                opt_expressions(old_self.top),
                opt_expressions(old_self.bottom),
            );
        }
    }
}

impl LayoutGeometry {
    /// The rectangle's sides, then the spacing if set, then the padding.
    pub open spec fn expressions(self) -> Seq<Expression> {
        self.rect.expressions() + opt_expressions(self.spacing) + self.padding.expressions()
    }

    /// The spacing is set in both or in neither, and the paddings have the
    /// same shape.
    pub open spec fn same_shape(self, other: Self) -> bool {
        &&& self.spacing is Some == other.spacing is Some
        &&& self.padding.same_shape(other.padding)
    }

    pub fn visit_expressions<V: ExpressionVisitor>(&mut self, visitor: &mut V)
        ensures
            old(self).same_shape(*final(self)),
            (*final(visitor), final(self).expressions()) == visit_all(
                *old(visitor),
                old(self).expressions(),
            ),
    {
        let ghost v0 = *visitor;
        let ghost old_self = *self;
        self.rect.visit_expressions(visitor);
        visit_opt(&mut self.spacing, visitor);
        self.padding.visit_expressions(visitor);
        proof {
            lemma_visit_all_concat(
                v0,
                old_self.rect.expressions() + opt_expressions(old_self.spacing),
                old_self.padding.expressions(),
            );
            lemma_visit_all_concat(v0, old_self.rect.expressions(), opt_expressions(old_self.spacing));
        }
    }
}

impl PathLayout {
    /// The rectangle's sides, then the offset.
    pub open spec fn expressions(self) -> Seq<Expression> {
        self.rect.expressions() + seq![*self.offset_reference]
    }

    /// Same path and same elements.
    pub open spec fn same_shape(self, other: Self) -> bool {
        &&& self.path == other.path
        &&& self.elements == other.elements
    }

    pub fn visit_expressions<V: ExpressionVisitor>(&mut self, visitor: &mut V)
        ensures
            old(self).same_shape(*final(self)),
            (*final(visitor), final(self).expressions()) == visit_all(
                *old(visitor),
                old(self).expressions(),
            ),
    {
        let ghost v0 = *visitor;
        let ghost old_self = *self;
        self.rect.visit_expressions(visitor);
        proof {
            lemma_visit_all_single(*visitor, *self.offset_reference);
        }
        visit_boxed(&mut self.offset_reference, visitor);
        proof {
            lemma_visit_all_concat(v0, old_self.rect.expressions(), seq![*old_self.offset_reference]);
        }
    }
}

impl Layout {
    /// The expressions of the layout, in the order they are visited.
    pub open spec fn expressions(self) -> Seq<Expression>
        decreases self,
    {
        match self {
            Layout::GridLayout(g) => g.expressions(),
            Layout::BoxLayout(b) => b.expressions(),
            Layout::PathLayout(p) => p.expressions(),
        }
    }

    /// The layouts are of the same kind and agree on everything but their
    /// expressions.
    pub open spec fn same_shape(self, other: Self) -> bool
        decreases self,
    {
        match (self, other) {
            (Layout::GridLayout(a), Layout::GridLayout(b)) => a.same_shape(b),
            (Layout::BoxLayout(a), Layout::BoxLayout(b)) => a.same_shape(b),
            (Layout::PathLayout(a), Layout::PathLayout(b)) => a.same_shape(b),
            _ => false,
        }
    }
}

impl GridLayout {
    /// The expressions of the cells, then those of the geometry.
    pub open spec fn expressions(self) -> Seq<Expression>
        decreases self,
    {
        grid_cells_expressions(self.elems@) + self.geometry.expressions()
    }

    /// The cells and the geometry have the same shape.
    pub open spec fn same_shape(self, other: Self) -> bool
        decreases self,
    {
        grid_cells_same_shape(self.elems@, other.elems@) && self.geometry.same_shape(other.geometry)
    }
}

impl BoxLayout {
    /// The expressions of the cells, then those of the geometry.
    pub open spec fn expressions(self) -> Seq<Expression>
        decreases self,
    {
        box_cells_expressions(self.elems@) + self.geometry.expressions()
    }

    /// The same orientation, and the cells and the geometry have the same
    /// shape.
    pub open spec fn same_shape(self, other: Self) -> bool
        decreases self,
    {
        self.is_horizontal == other.is_horizontal && box_cells_same_shape(self.elems@, other.elems@)
            && self.geometry.same_shape(other.geometry)
    }
}

impl LayoutItem {
    /// The expressions of the nested layout, if there is one.
    pub open spec fn expressions(self) -> Seq<Expression>
        decreases self,
    {
        match self {
            LayoutItem::Element(e) => match e.layout {
                Some(l) => l.expressions(),
                None => Seq::empty(),
            },
            LayoutItem::Layout(l) => l.expressions(),
        }
    }

    /// Items of the same kind, for the same element, whose nested layouts
    /// have the same shape.
    pub open spec fn same_shape(self, other: Self) -> bool
        decreases self,
    {
        match (self, other) {
            (LayoutItem::Element(a), LayoutItem::Element(b)) => a.element == b.element && match (
                a.layout,
                b.layout,
            ) {
                (Some(x), Some(y)) => x.same_shape(y),
                (None, None) => true,
                _ => false,
            },
            (LayoutItem::Layout(x), LayoutItem::Layout(y)) => x.same_shape(*y),
            _ => false,
        }
    }
}

impl GridLayoutElement {
    /// The expressions of the item, then those of the constraints.
    pub open spec fn expressions(self) -> Seq<Expression>
        decreases self,
    {
        self.item.expressions() + self.constraints.expressions()
    }

    /// The same position and span, and the item and the constraints have the
    /// same shape.
    pub open spec fn same_shape(self, other: Self) -> bool
        decreases self,
    {
        &&& self.col == other.col
        &&& self.row == other.row
        &&& self.colspan == other.colspan
        &&& self.rowspan == other.rowspan
        &&& self.item.same_shape(other.item)
        &&& self.constraints.same_shape(other.constraints)
    }
}

impl BoxLayoutElement {
    /// The expressions of the item, then those of the constraints.
    pub open spec fn expressions(self) -> Seq<Expression>
        decreases self,
    {
        self.item.expressions() + self.constraints.expressions()
    }

    /// The item and the constraints have the same shape.
    pub open spec fn same_shape(self, other: Self) -> bool
        decreases self,
    {
        self.item.same_shape(other.item) && self.constraints.same_shape(other.constraints)
    }
}

/// The expressions of grid cells: for each cell in turn, those of its item
/// and then its constraints.
pub open spec fn grid_cells_expressions(cells: Seq<GridLayoutElement>) -> Seq<Expression>
    decreases cells,
{
    if cells.len() == 0 {
        Seq::empty()
    } else {
        grid_cells_expressions(cells.drop_last()) + cells.last().expressions()
    }
}

/// Cell by cell, the same position, span and shape.
pub open spec fn grid_cells_same_shape(a: Seq<GridLayoutElement>, b: Seq<GridLayoutElement>) -> bool
    decreases a,
{
    a.len() == b.len() && (a.len() == 0 || (grid_cells_same_shape(a.drop_last(), b.drop_last())
        && a.last().same_shape(b.last())))
}

/// The expressions of box cells: for each cell in turn, those of its item
/// and then its constraints.
pub open spec fn box_cells_expressions(cells: Seq<BoxLayoutElement>) -> Seq<Expression>
    decreases cells,
{
    if cells.len() == 0 {
        Seq::empty()
    } else {
        box_cells_expressions(cells.drop_last()) + cells.last().expressions()
    }
}

/// Cell by cell, the same shape.
pub open spec fn box_cells_same_shape(a: Seq<BoxLayoutElement>, b: Seq<BoxLayoutElement>) -> bool
    decreases a,
{
    a.len() == b.len() && (a.len() == 0 || (box_cells_same_shape(a.drop_last(), b.drop_last())
        && a.last().same_shape(b.last())))
}

impl Layout {
    pub fn visit_expressions<V: ExpressionVisitor>(&mut self, visitor: &mut V)
        ensures
            old(self).same_shape(*final(self)),
            (*final(visitor), final(self).expressions()) == visit_all(
                *old(visitor),
                old(self).expressions(),
            ),
        decreases *old(self),
    {
        match self {
            Layout::GridLayout(grid) => grid.visit_expressions(visitor),
            Layout::BoxLayout(l) => l.visit_expressions(visitor),
            Layout::PathLayout(path) => path.visit_expressions(visitor),
        }
    }
}

impl LayoutItem {
    /// Visits the nested layout, if there is one. The expressions of the
    /// element itself are visited where the element tree is walked.
    pub fn visit_expressions<V: ExpressionVisitor>(&mut self, visitor: &mut V)
        ensures
            old(self).same_shape(*final(self)),
            (*final(visitor), final(self).expressions()) == visit_all(
                *old(visitor),
                old(self).expressions(),
            ),
        decreases *old(self),
    {
        match self {
            LayoutItem::Element(element) => match &mut element.layout {
                Some(layout) => layout.visit_expressions(visitor),
                None => {},
            },
            LayoutItem::Layout(layout) => layout.visit_expressions(visitor),
        }
    }
}

impl GridLayoutElement {
    fn visit_expressions<V: ExpressionVisitor>(&mut self, visitor: &mut V)
        ensures
            old(self).same_shape(*final(self)),
            (*final(visitor), final(self).expressions()) == visit_all(
                *old(visitor),
                old(self).expressions(),
            ),
        decreases *old(self),
    {
        let ghost v0 = *visitor;
        let ghost old_self = *self;
        self.item.visit_expressions(visitor);
        self.constraints.visit_expressions(visitor);
        proof {
            lemma_visit_all_concat(v0, old_self.item.expressions(), old_self.constraints.expressions());
        }
    }
}

impl GridLayout {
    pub fn visit_expressions<V: ExpressionVisitor>(&mut self, visitor: &mut V)
        ensures
            old(self).same_shape(*final(self)),
            (*final(visitor), final(self).expressions()) == visit_all(
                *old(visitor),
                old(self).expressions(),
            ),
        decreases *old(self),
    {
        let ghost v0 = *visitor;
        let ghost cells0 = self.elems@;
        let n = self.elems.len();
        let mut i: usize = 0;
        while i < n
            invariant
                n == cells0.len(),
                self.elems@.len() == n,
                i <= n,
                forall|j: int| i <= j < n ==> #[trigger] self.elems@[j] == cells0[j],
                grid_cells_same_shape(cells0.take(i as int), self.elems@.take(i as int)),
                (*visitor, grid_cells_expressions(self.elems@.take(i as int))) == visit_all(
                    v0,
                    grid_cells_expressions(cells0.take(i as int)),
                ),
                self.geometry == old(self).geometry,
                cells0 == old(self).elems@,
            decreases n - i,
        {
            let ghost before = self.elems@;
            assert(decreases_to!(*old(self) => self.elems@[i as int]));
            self.elems[i].visit_expressions(visitor);
            proof {
                let after = self.elems@;
                assert(after.take(i as int) =~= before.take(i as int));
                assert(after.take(i + 1).drop_last() =~= after.take(i as int));
                assert(cells0.take(i + 1).drop_last() =~= cells0.take(i as int));
                lemma_visit_all_concat(
                    v0,
                    grid_cells_expressions(cells0.take(i as int)),
                    cells0[i as int].expressions(),
                );
            }
            i = i + 1;
        }
        proof {
            assert(self.elems@.take(n as int) =~= self.elems@);
            assert(cells0.take(n as int) =~= cells0);
        }
        self.geometry.visit_expressions(visitor);
        proof {
            lemma_visit_all_concat(v0, grid_cells_expressions(cells0), old(self).geometry.expressions());
        }
    }
}

impl BoxLayoutElement {
    fn visit_expressions<V: ExpressionVisitor>(&mut self, visitor: &mut V)
        ensures
            old(self).same_shape(*final(self)),
            (*final(visitor), final(self).expressions()) == visit_all(
                *old(visitor),
                old(self).expressions(),
            ),
        decreases *old(self),
    {
        let ghost v0 = *visitor;
        let ghost old_self = *self;
        self.item.visit_expressions(visitor);
        self.constraints.visit_expressions(visitor);
        proof {
            lemma_visit_all_concat(v0, old_self.item.expressions(), old_self.constraints.expressions());
        }
    }
}

impl BoxLayout {
    pub fn visit_expressions<V: ExpressionVisitor>(&mut self, visitor: &mut V)
        ensures
            old(self).same_shape(*final(self)),
            (*final(visitor), final(self).expressions()) == visit_all(
                *old(visitor),
                old(self).expressions(),
            ),
        decreases *old(self),
    {
        let ghost v0 = *visitor;
        let ghost cells0 = self.elems@;
        let n = self.elems.len();
        let mut i: usize = 0;
        while i < n
            invariant
                n == cells0.len(),
                self.elems@.len() == n,
                i <= n,
                forall|j: int| i <= j < n ==> #[trigger] self.elems@[j] == cells0[j],
                box_cells_same_shape(cells0.take(i as int), self.elems@.take(i as int)),
                (*visitor, box_cells_expressions(self.elems@.take(i as int))) == visit_all(
                    v0,
                    box_cells_expressions(cells0.take(i as int)),
                ),
                self.is_horizontal == old(self).is_horizontal,
                self.geometry == old(self).geometry,
                cells0 == old(self).elems@,
            decreases n - i,
        {
            let ghost before = self.elems@;
            assert(decreases_to!(*old(self) => self.elems@[i as int]));
            self.elems[i].visit_expressions(visitor);
            proof {
                let after = self.elems@;
                assert(after.take(i as int) =~= before.take(i as int));
                assert(after.take(i + 1).drop_last() =~= after.take(i as int));
                assert(cells0.take(i + 1).drop_last() =~= cells0.take(i as int));
                lemma_visit_all_concat(
                    v0,
                    box_cells_expressions(cells0.take(i as int)),
                    cells0[i as int].expressions(),
                );
            }
            i = i + 1;
        }
        proof {
            assert(self.elems@.take(n as int) =~= self.elems@);
            assert(cells0.take(n as int) =~= cells0);
        }
        self.geometry.visit_expressions(visitor);
        proof {
            lemma_visit_all_concat(v0, box_cells_expressions(cells0), old(self).geometry.expressions());
        }
    }
}


/// The expressions of a list of layouts, one layout after the other.
pub open spec fn layouts_expressions(layouts: Seq<Layout>) -> Seq<Expression>
    decreases layouts.len(),
{
    if layouts.len() == 0 {
        Seq::empty()
    } else {
        layouts_expressions(layouts.drop_last()) + layouts.last().expressions()
    }
}

/// Layout by layout, the same shape.
pub open spec fn layouts_same_shape(a: Seq<Layout>, b: Seq<Layout>) -> bool
    decreases a.len(),
{
    a.len() == b.len() && (a.len() == 0 || (layouts_same_shape(a.drop_last(), b.drop_last())
        && a.last().same_shape(b.last())))
}

impl LayoutVec {
    /// The expressions of the layouts, one layout after the other.
    pub open spec fn expressions(self) -> Seq<Expression> {
        layouts_expressions(self.0@)
    }

    pub fn visit_expressions<V: ExpressionVisitor>(&mut self, visitor: &mut V)
        ensures
            layouts_same_shape(old(self).0@, final(self).0@),
            (*final(visitor), final(self).expressions()) == visit_all(
                *old(visitor),
                old(self).expressions(),
            ),
    {
        let ghost v0 = *visitor;
        let ghost layouts0 = self.0@;
        let n = self.0.len();
        let mut i: usize = 0;
        while i < n
            invariant
                n == layouts0.len(),
                self.0@.len() == n,
                i <= n,
                forall|j: int| i <= j < n ==> #[trigger] self.0@[j] == layouts0[j],
                layouts_same_shape(layouts0.take(i as int), self.0@.take(i as int)),
                (*visitor, layouts_expressions(self.0@.take(i as int))) == visit_all(
                    v0,
                    layouts_expressions(layouts0.take(i as int)),
                ),
            decreases n - i,
        {
            let ghost before = self.0@;
            self.0[i].visit_expressions(visitor);
            proof {
                let after = self.0@;
                assert(after.take(i as int) =~= before.take(i as int));
                assert(after.take(i + 1).drop_last() =~= after.take(i as int));
                assert(layouts0.take(i + 1).drop_last() =~= layouts0.take(i as int));
                lemma_visit_all_concat(
                    v0,
                    layouts_expressions(layouts0.take(i as int)),
                    layouts0[i as int].expressions(),
                );
            }
            i = i + 1;
        }
        proof {
            assert(self.0@.take(n as int) =~= self.0@);
            assert(layouts0.take(n as int) =~= layouts0);
        }
    }
}

} // verus!
