//! What the code generators share when they lower layouts: the tree of
//! layouts to be generated, collected child first.
use vstd::prelude::*;
use std::rc::Rc;
use crate::layout::{
    BoxLayoutElement, GridLayoutElement, Layout, LayoutConstraints, LayoutElement, LayoutGeometry,
    LayoutItem, PathLayout,
};
use crate::object_tree::Component;

verus! {

/// A code generator's side of layout lowering.
///
/// `is_cell_data` and `is_grid_item` say which results the two methods may
/// give and how they may change the layout tree: the implementor states them
/// beside the methods.
pub trait Language: Sized {
    type CompiledCode;

    /// `code` is a result that `make_grid_layout_cell_data` may give for the
    /// cell `item` with `constraints` at the given position and span, when
    /// called with the tree `before` and `component`, leaving the tree
    /// `after`.
    spec fn is_cell_data<'a>(
        item: LayoutItem,
        constraints: LayoutConstraints,
        col: u16,
        row: u16,
        colspan: u16,
        rowspan: u16,
        before: Vec<LayoutTreeItem<'a, Self>>,
        after: Vec<LayoutTreeItem<'a, Self>>,
        component: Rc<Component>,
        code: Self::CompiledCode,
    ) -> bool;

    /// `item` is a result that `grid_layout_tree_item` may give for
    /// `geometry` and `cells`, when called with the tree `before` and
    /// `component`, leaving the tree `after`.
    spec fn is_grid_item<'a>(
        before: Vec<LayoutTreeItem<'a, Self>>,
        after: Vec<LayoutTreeItem<'a, Self>>,
        geometry: &'a LayoutGeometry,
        cells: Vec<Self::CompiledCode>,
        component: Rc<Component>,
        item: LayoutTreeItem<'a, Self>,
    ) -> bool;

    /// Generate the code that instentiate the runtime struct `GridLayoutCellData` for the given cell parameter
    fn make_grid_layout_cell_data<'a, 'b>(
        item: &'a LayoutItem,
        constraints: &LayoutConstraints,
        col: u16,
        row: u16,
        colspan: u16,
        rowspan: u16,
        layout_tree: &'b mut Vec<LayoutTreeItem<'a, Self>>,
        component: &Rc<Component>,
    ) -> (r: Self::CompiledCode)
        ensures
            Self::is_cell_data(
                *item,
                *constraints,
                col,
                row,
                colspan,
                rowspan,
                *old(layout_tree),
                *final(layout_tree),
                *component,
                r,
            ),
    ;

    /// Returns a LayoutTree::GridLayout
    ///
    /// `cells` is the list of runtime `GridLayoutCellData`
    fn grid_layout_tree_item<'a, 'b>(
        layout_tree: &'b mut Vec<LayoutTreeItem<'a, Self>>,
        geometry: &'a LayoutGeometry,
        cells: Vec<Self::CompiledCode>,
        component: &Rc<Component>,
    ) -> (r: LayoutTreeItem<'a, Self>)
        ensures
            r is GridLayout,
            Self::is_grid_item(*old(layout_tree), *final(layout_tree), geometry, cells, *component, r),
    ;
}

pub enum LayoutTreeItem<'a, L: Language> {
    GridLayout {
        geometry: &'a LayoutGeometry,
        spacing: L::CompiledCode,
        padding: L::CompiledCode,
        var_creation_code: L::CompiledCode,
        cell_ref_variable: L::CompiledCode,
    },
    PathLayout(&'a PathLayout),
}

/// How a code generator refers to the properties and the layout information
/// of layout items.
///
/// `is_property_ref` and `is_layout_info_ref` say which results the
/// implementation may give: the implementor states them beside the two
/// methods.
pub trait LayoutItemCodeGen<L: Language> {
    /// `code` is a result that `get_property_ref` may give for `name`.
    spec fn is_property_ref(&self, name: &str, code: L::CompiledCode) -> bool;

    /// `code` is a result that `get_layout_info_ref` may give when called
    /// with the tree `before` and `component`, leaving the tree `after`.
    spec fn is_layout_info_ref<'a>(
        &'a self,
        before: Vec<LayoutTreeItem<'a, L>>,
        after: Vec<LayoutTreeItem<'a, L>>,
        component: Rc<Component>,
        code: L::CompiledCode,
    ) -> bool;

    fn get_property_ref(&self, name: &str) -> (r: L::CompiledCode)
        ensures
            self.is_property_ref(name, r),
    ;

    fn get_layout_info_ref<'a, 'b>(
        &'a self,
        layout_tree: &'b mut Vec<LayoutTreeItem<'a, L>>,
        component: &Rc<Component>,
    ) -> (r: L::CompiledCode)
        ensures
            self.is_layout_info_ref(*old(layout_tree), *final(layout_tree), *component, r),
    ;
}

/// A layout item refers to its properties and layout information as the
/// element or the nested layout that it holds does.
impl<L: Language> LayoutItemCodeGen<L> for LayoutItem where
    LayoutElement: LayoutItemCodeGen<L>,
    Layout: LayoutItemCodeGen<L>,
 {
    open spec fn is_property_ref(&self, name: &str, code: L::CompiledCode) -> bool {
        match self {
            LayoutItem::Element(e) => e.is_property_ref(name, code),
            LayoutItem::Layout(l) => (**l).is_property_ref(name, code),
        }
    }

    open spec fn is_layout_info_ref<'a>(
        &'a self,
        before: Vec<LayoutTreeItem<'a, L>>,
        after: Vec<LayoutTreeItem<'a, L>>,
        component: Rc<Component>,
        code: L::CompiledCode,
    ) -> bool {
        match self {
            LayoutItem::Element(e) => e.is_layout_info_ref(before, after, component, code),
            LayoutItem::Layout(l) => (**l).is_layout_info_ref(before, after, component, code),
        }
    }

    fn get_property_ref(&self, name: &str) -> L::CompiledCode {
        match self {
            LayoutItem::Element(e) => e.get_property_ref(name),
            LayoutItem::Layout(l) => (**l).get_property_ref(name),
        }
    }

    fn get_layout_info_ref<'a, 'b>(
        &'a self,
        layout_tree: &'b mut Vec<LayoutTreeItem<'a, L>>,
        component: &Rc<Component>,
    ) -> L::CompiledCode {
        match self {
            LayoutItem::Element(e) => e.get_layout_info_ref(layout_tree, component),
            LayoutItem::Layout(l) => (**l).get_layout_info_ref(layout_tree, component),
        }
    }
}

/// Where a cell of a grid is placed and how far it spans.
#[derive(Clone, Copy, Debug, PartialEq, Eq, Structural)]
pub struct CellPosition {
    pub col: u16,
    pub row: u16,
    pub colspan: u16,
    pub rowspan: u16,
}

/// Where the box layout places its cell number `index`: along the row of a
/// horizontal box or down the column of a vertical one, one cell wide and
/// high. The index is taken modulo 2^16, as the runtime stores positions in
/// 16 bits.
pub open spec fn spec_box_cell_position(is_horizontal: bool, index: usize) -> CellPosition {
    if is_horizontal {
        CellPosition { col: index as u16, row: 0, colspan: 1, rowspan: 1 }
    } else {
        CellPosition { col: 0, row: index as u16, colspan: 1, rowspan: 1 }
    }
}

pub fn box_cell_position(is_horizontal: bool, index: usize) -> (r: CellPosition)
    ensures
        r == spec_box_cell_position(is_horizontal, index),
{
    let (c, r) = if is_horizontal {
        (index, 0)
    } else {
        (0, index)
    };
    CellPosition { col: c as u16, row: r as u16, colspan: 1, rowspan: 1 }
}

/// What the code generator is asked for, cell by cell: the cell's item and
/// constraints and where it is placed.
pub type CellRequest = (LayoutItem, LayoutConstraints, CellPosition);

/// The requests for the cells of a grid: each cell at its own position and
/// span, in the order of the cells.
pub open spec fn grid_cell_requests(elems: Seq<GridLayoutElement>) -> Seq<CellRequest> {
    Seq::new(
        elems.len(),
        |k: int|
            (
                elems[k].item,
                elems[k].constraints,
                CellPosition {
                    col: elems[k].col,
                    row: elems[k].row,
                    colspan: elems[k].colspan,
                    rowspan: elems[k].rowspan,
                },
            ),
    )
}

/// The requests for the cells of a box: cell `k` at
/// `spec_box_cell_position(is_horizontal, k)`, in the order of the cells.
pub open spec fn box_cell_requests(elems: Seq<BoxLayoutElement>, is_horizontal: bool) -> Seq<
    CellRequest,
> {
    Seq::new(
        elems.len(),
        |k: int| (elems[k].item, elems[k].constraints, spec_box_cell_position(is_horizontal, k as usize)),
    )
}

/// The code generator was asked for the cells `requests` in turn: call `k`
/// went from the tree `trees[k]` to the tree `trees[k + 1]` and gave
/// `cells[k]`.
pub open spec fn cells_generated<'a, L: Language>(
    requests: Seq<CellRequest>,
    trees: Seq<Vec<LayoutTreeItem<'a, L>>>,
    cells: Seq<L::CompiledCode>,
    component: Rc<Component>,
) -> bool {
    &&& trees.len() == requests.len() + 1
    &&& cells.len() == requests.len()
    &&& forall|k: int|
        #![trigger cells[k]]
        0 <= k < requests.len() ==> L::is_cell_data(
            requests[k].0,
            requests[k].1,
            requests[k].2.col,
            requests[k].2.row,
            requests[k].2.colspan,
            requests[k].2.rowspan,
            trees[k],
            trees[k + 1],
            component,
            cells[k],
        )
}

/// Starting from the tree `before`, the cells `requests` were generated in
/// turn through the trees `trees`, giving `cells`; then the grid item `item`
/// was made of `geometry` and exactly those cells, leaving the tree `mid`,
/// and is a grid layout item;
/// and the tree ends as `mid` with `item` appended.
pub open spec fn grid_generated_through<'a, L: Language>(
    before: Vec<LayoutTreeItem<'a, L>>,
    after: Vec<LayoutTreeItem<'a, L>>,
    requests: Seq<CellRequest>,
    geometry: &'a LayoutGeometry,
    component: Rc<Component>,
    trees: Seq<Vec<LayoutTreeItem<'a, L>>>,
    cells: Vec<L::CompiledCode>,
    mid: Vec<LayoutTreeItem<'a, L>>,
    item: LayoutTreeItem<'a, L>,
) -> bool {
    &&& trees[0] == before
    &&& cells_generated(requests, trees, cells@, component)
    &&& L::is_grid_item(trees.last(), mid, geometry, cells, component, item)
    &&& item is GridLayout
    &&& after@ == mid@.push(item)
}

/// The tree went from `before` to `after` by generating the cells `requests`
/// in turn and then one grid item of `geometry` and those cells, which was
/// appended.
pub open spec fn grid_generated<'a, L: Language>(
    before: Vec<LayoutTreeItem<'a, L>>,
    after: Vec<LayoutTreeItem<'a, L>>,
    requests: Seq<CellRequest>,
    geometry: &'a LayoutGeometry,
    component: Rc<Component>,
) -> bool {
    exists|
        trees: Seq<Vec<LayoutTreeItem<'a, L>>>,
        cells: Vec<L::CompiledCode>,
        mid: Vec<LayoutTreeItem<'a, L>>,
        item: LayoutTreeItem<'a, L>,
    |
        #[trigger] grid_generated_through(
            before,
            after,
            requests,
            geometry,
            component,
            trees,
            cells,
            mid,
            item,
        )
}

/// Appends to `layout_tree` the item that generates `layout`, after whatever
/// the code generator appends while it generates the cells, and returns it.
///
/// A grid asks for its cells at their own positions, a box for cell `k` at
/// column `k` of a horizontal box or row `k` of a vertical one; then the grid
/// item is made of the layout's geometry and those cells. A path layout is
/// appended as it is.
pub fn collect_layouts_recursively<'a, 'b, L: Language>(
    layout_tree: &'b mut Vec<LayoutTreeItem<'a, L>>,
    layout: &'a Layout,
    component: &Rc<Component>,
) -> (r: &'b LayoutTreeItem<'a, L>)
    ensures
        final(layout_tree)@.len() > 0,
        *r == final(layout_tree)@.last(),
        layout matches Layout::GridLayout(g) ==> grid_generated::<L>(
            *old(layout_tree),
            *final(layout_tree),
            grid_cell_requests(g.elems@),
            &g.geometry,
            *component,
        ),
        layout matches Layout::BoxLayout(b) ==> grid_generated::<L>(
            *old(layout_tree),
            *final(layout_tree),
            box_cell_requests(b.elems@, b.is_horizontal),
            &b.geometry,
            *component,
        ),
        layout matches Layout::PathLayout(p) ==> final(layout_tree)@ == old(layout_tree)@.push(
            LayoutTreeItem::PathLayout(p),
        ),
{
    match layout {
        Layout::GridLayout(grid_layout) => {
            let ghost requests = grid_cell_requests(grid_layout.elems@);
            let ghost mut trees = seq![*layout_tree];
            let mut cells: Vec<L::CompiledCode> = Vec::new();
            let n = grid_layout.elems.len();
            let mut i: usize = 0;
            while i < n
                invariant
                    n == grid_layout.elems@.len(),
                    requests == grid_cell_requests(grid_layout.elems@),
                    i <= n,
                    trees[0] == *old(layout_tree),
                    trees.last() == *layout_tree,
                    cells_generated(requests.take(i as int), trees, cells@, *component),
                decreases n - i,
            {
                let cell = &grid_layout.elems[i];
                let data = L::make_grid_layout_cell_data(
                    &cell.item,
                    &cell.constraints,
                    cell.col,
                    cell.row,
                    cell.colspan,
                    cell.rowspan,
                    layout_tree,
                    component,
                );
                proof {
                    trees = trees.push(*layout_tree);
                }
                cells.push(data);
                i = i + 1;
            }
            proof {
                assert(requests.take(n as int) =~= requests);
            }
            let ghost all_cells = cells;
            let item = L::grid_layout_tree_item(layout_tree, &grid_layout.geometry, cells, component);
            let ghost mid = *layout_tree;
            let ghost pushed = item;
            layout_tree.push(item);
            proof {
                assert(grid_generated_through(
                    *old(layout_tree),
                    *layout_tree,
                    requests,
                    &grid_layout.geometry,
                    *component,
                    trees,
                    all_cells,
                    mid,
                    pushed,
                ));
            }
        },
        Layout::BoxLayout(box_layout) => {
            let ghost requests = box_cell_requests(box_layout.elems@, box_layout.is_horizontal);
            let ghost mut trees = seq![*layout_tree];
            let mut cells: Vec<L::CompiledCode> = Vec::new();
            let n = box_layout.elems.len();
            let mut i: usize = 0;
            while i < n
                invariant
                    n == box_layout.elems@.len(),
                    requests == box_cell_requests(box_layout.elems@, box_layout.is_horizontal),
                    i <= n,
                    trees[0] == *old(layout_tree),
                    trees.last() == *layout_tree,
                    cells_generated(requests.take(i as int), trees, cells@, *component),
                decreases n - i,
            {
                let cell = &box_layout.elems[i];
                let position = box_cell_position(box_layout.is_horizontal, i);
                let data = L::make_grid_layout_cell_data(
                    &cell.item,
                    &cell.constraints,
                    position.col,
                    position.row,
                    position.colspan,
                    position.rowspan,
                    layout_tree,
                    component,
                );
                proof {
                    trees = trees.push(*layout_tree);
                }
                cells.push(data);
                i = i + 1;
            }
            proof {
                assert(requests.take(n as int) =~= requests);
            }
            let ghost all_cells = cells;
            let item = L::grid_layout_tree_item(layout_tree, &box_layout.geometry, cells, component);
            let ghost mid = *layout_tree;
            let ghost pushed = item;
            layout_tree.push(item);
            proof {
                assert(grid_generated_through(
                    *old(layout_tree),
                    *layout_tree,
                    requests,
                    &box_layout.geometry,
                    *component,
                    trees,
                    all_cells,
                    mid,
                    pushed,
                ));
            }
        },
        Layout::PathLayout(layout) => layout_tree.push(layout.into()),
    }
    let last = layout_tree.len() - 1;
    &layout_tree[last]
}
} // verus!
