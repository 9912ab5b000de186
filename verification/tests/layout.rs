use std::rc::Rc;

use lib::expression_tree::{str_equal, ElementId, Expression, ExpressionVisitor, NamedReference, Path};
use lib::layout::gen::{
    box_cell_position, collect_layouts_recursively, CellPosition, Language, LayoutItemCodeGen,
    LayoutTreeItem,
};
use lib::layout::{
    BoxLayout, BoxLayoutElement, GridLayout, GridLayoutElement, Layout, LayoutConstraints,
    LayoutElement, LayoutGeometry, LayoutItem, LayoutRect, LayoutVec, Padding, PathLayout,
};
use lib::object_tree::{Component, Element, PropertyDeclaration, PropertyMap, Type};
use lib::passes::lower_layout::{binding_reference, find_expression, init_fake_property};

fn prop(element: usize, name: &str) -> Expression {
    Expression::PropertyReference(NamedReference { element: ElementId(element), name: name.to_string() })
}

fn num(n: i64) -> Expression {
    Expression::NumberLiteral(n)
}

fn literal_rect(base: i64) -> LayoutRect {
    LayoutRect {
        width_reference: Box::new(num(base)),
        height_reference: Box::new(num(base + 1)),
        x_reference: Box::new(num(base + 2)),
        y_reference: Box::new(num(base + 3)),
    }
}

fn no_constraints() -> LayoutConstraints {
    LayoutConstraints { minimum_width: None, maximum_width: None, minimum_height: None, maximum_height: None }
}

fn no_padding() -> Padding {
    Padding { left: None, right: None, top: None, bottom: None }
}

fn geometry(base: i64) -> LayoutGeometry {
    LayoutGeometry { rect: literal_rect(base), spacing: None, padding: no_padding() }
}

fn declared(element: &mut Element, name: &str) {
    element.property_declarations.insert(
        name.to_string(),
        PropertyDeclaration { property_type: Type::Length, type_node: None },
    );
}

/// Collects every visited expression and replaces it by its position.
struct Collector {
    seen: Vec<Expression>,
}

impl ExpressionVisitor for Collector {
    fn step(mut self, expr: Expression) -> (Self, Expression) {
        let replacement = self.visit(expr);
        (self, replacement)
    }

    fn visit(&mut self, expr: Expression) -> Expression {
        self.seen.push(expr);
        num(1000 + self.seen.len() as i64)
    }
}

#[test]
fn property_map_insert_replaces() {
    let mut map: PropertyMap<Expression> = PropertyMap::new();
    assert!(!map.contains_key("a"));
    map.insert("a".to_string(), num(1));
    map.insert("b".to_string(), num(2));
    map.insert("a".to_string(), num(3));
    assert_eq!(map.get("a"), Some(&num(3)));
    assert_eq!(map.get("b"), Some(&num(2)));
    assert_eq!(map.get("c"), None);
    assert!(map.contains_key("b"));
}

#[test]
fn str_equal_compares_characters() {
    assert!(str_equal("width", "width"));
    assert!(!str_equal("width", "widths"));
    assert!(!str_equal("x", "y"));
}

#[test]
fn install_on_element_declares_and_refers() {
    let mut element = Element::new(ElementId(7));
    element.bindings.insert("x".to_string(), num(5));
    let rect = LayoutRect::install_on_element(&mut element);
    for name in ["x", "y", "width", "height"] {
        assert_eq!(
            element.property_declarations.get(name),
            Some(&PropertyDeclaration { property_type: Type::Length, type_node: None })
        );
    }
    assert_eq!(*rect.x_reference, prop(7, "x"));
    assert_eq!(*rect.y_reference, prop(7, "y"));
    assert_eq!(*rect.width_reference, prop(7, "width"));
    assert_eq!(*rect.height_reference, prop(7, "height"));
    // bindings are left alone
    assert_eq!(element.bindings.get("x"), Some(&num(5)));
    assert!(!element.bindings.contains_key("y"));
}

#[test]
fn install_on_element_replaces_declaration() {
    let mut element = Element::new(ElementId(1));
    element.property_declarations.insert(
        "width".to_string(),
        PropertyDeclaration { property_type: Type::Int32, type_node: Some(12) },
    );
    let _ = LayoutRect::install_on_element(&mut element);
    assert_eq!(
        element.property_declarations.get("width"),
        Some(&PropertyDeclaration { property_type: Type::Length, type_node: None })
    );
}

#[test]
fn mapped_property_name_of_installed_rect() {
    let mut element = Element::new(ElementId(2));
    let rect = LayoutRect::install_on_element(&mut element);
    assert_eq!(rect.mapped_property_name("x"), Some("x"));
    assert_eq!(rect.mapped_property_name("y"), Some("y"));
    assert_eq!(rect.mapped_property_name("width"), Some("width"));
    assert_eq!(rect.mapped_property_name("height"), Some("height"));
    assert_eq!(rect.mapped_property_name("padding"), None);
    assert_eq!(rect.mapped_property_name(""), None);
}

#[test]
fn mapped_property_name_of_other_expressions() {
    let mut rect = literal_rect(0);
    rect.y_reference = Box::new(prop(4, "top_edge"));
    assert_eq!(rect.mapped_property_name("x"), None);
    assert_eq!(rect.mapped_property_name("y"), Some("top_edge"));
}

#[test]
fn constraints_from_bindings() {
    let mut element = Element::new(ElementId(9));
    element.bindings.insert("minimum_width".to_string(), num(10));
    element.bindings.insert("maximum_height".to_string(), num(20));
    let c = LayoutConstraints::new(&element);
    assert_eq!(c.minimum_width.as_deref(), Some(&prop(9, "minimum_width")));
    assert_eq!(c.maximum_width, None);
    assert_eq!(c.minimum_height, None);
    assert_eq!(c.maximum_height.as_deref(), Some(&prop(9, "maximum_height")));
    assert!(c.has_explicit_restrictions());
}

#[test]
fn constraints_without_bindings() {
    let element = Element::new(ElementId(9));
    let c = LayoutConstraints::new(&element);
    assert!(!c.has_explicit_restrictions());
    for (e, _) in c.for_each_restrictions() {
        assert!(e.is_none());
    }
}

#[test]
fn for_each_restrictions_names_and_order() {
    let c = LayoutConstraints {
        minimum_width: Some(Box::new(num(1))),
        maximum_width: None,
        minimum_height: Some(Box::new(num(3))),
        maximum_height: Some(Box::new(num(4))),
    };
    let r = c.for_each_restrictions();
    let names: Vec<&str> = r.iter().map(|(_, n)| *n).collect();
    assert_eq!(names, vec!["min_width", "max_width", "min_height", "max_height"]);
    assert_eq!(r[0].0.as_deref(), Some(&num(1)));
    assert!(r[1].0.is_none());
    assert_eq!(r[2].0.as_deref(), Some(&num(3)));
    assert_eq!(r[3].0.as_deref(), Some(&num(4)));
}

#[test]
fn find_expression_and_binding_reference() {
    let mut element = Element::new(ElementId(3));
    element.bindings.insert("spacing".to_string(), num(2));
    assert_eq!(find_expression("spacing", &element).as_deref(), Some(&prop(3, "spacing")));
    assert_eq!(find_expression("padding", &element), None);
    assert_eq!(binding_reference(&element, "spacing"), Some(prop(3, "spacing")));
    assert_eq!(binding_reference(&element, "padding"), None);
}

#[test]
fn init_fake_property_fills_only_declared_unbound() {
    let mut element = Element::new(ElementId(3));
    declared(&mut element, "a");
    declared(&mut element, "b");
    element.bindings.insert("b".to_string(), num(1));
    init_fake_property(&mut element, "a", Some(num(10)));
    init_fake_property(&mut element, "b", Some(num(11)));
    init_fake_property(&mut element, "c", Some(num(12)));
    assert_eq!(element.bindings.get("a"), Some(&num(10)));
    assert_eq!(element.bindings.get("b"), Some(&num(1)));
    assert_eq!(element.bindings.get("c"), None);
    let mut other = Element::new(ElementId(4));
    declared(&mut other, "a");
    init_fake_property(&mut other, "a", None);
    assert!(!other.bindings.contains_key("a"));
}

#[test]
fn geometry_new_fills_defaults() {
    let mut element = Element::new(ElementId(5));
    for name in ["width", "height", "x", "y", "padding_left", "padding_right", "padding_top", "padding_bottom"] {
        declared(&mut element, name);
    }
    element.bindings.insert("padding".to_string(), num(8));
    element.bindings.insert("padding_top".to_string(), num(3));
    element.bindings.insert("x".to_string(), num(100));
    element.bindings.insert("spacing".to_string(), num(4));
    let rect = literal_rect(50);
    let g = LayoutGeometry::new(rect, &mut element);

    assert_eq!(element.bindings.get("width"), Some(&num(50)));
    assert_eq!(element.bindings.get("height"), Some(&num(51)));
    assert_eq!(element.bindings.get("x"), Some(&num(100)));
    assert_eq!(element.bindings.get("y"), Some(&num(53)));
    assert_eq!(element.bindings.get("padding_left"), Some(&prop(5, "padding")));
    assert_eq!(element.bindings.get("padding_right"), Some(&prop(5, "padding")));
    assert_eq!(element.bindings.get("padding_top"), Some(&num(3)));
    assert_eq!(element.bindings.get("padding_bottom"), Some(&prop(5, "padding")));

    assert_eq!(*g.rect.width_reference, num(50));
    assert_eq!(g.spacing, Some(prop(5, "spacing")));
    assert_eq!(g.padding.left, Some(prop(5, "padding_left")));
    assert_eq!(g.padding.right, Some(prop(5, "padding_right")));
    assert_eq!(g.padding.top, Some(prop(5, "padding_top")));
    assert_eq!(g.padding.bottom, Some(prop(5, "padding_bottom")));
}

#[test]
fn geometry_new_falls_back_to_padding() {
    // Nothing declared: no defaults, so the sides fall back to `padding`.
    let mut element = Element::new(ElementId(6));
    element.bindings.insert("padding".to_string(), num(8));
    let g = LayoutGeometry::new(literal_rect(0), &mut element);
    assert!(!element.bindings.contains_key("width"));
    assert_eq!(g.spacing, None);
    assert_eq!(g.padding.left, Some(prop(6, "padding")));
    assert_eq!(g.padding.bottom, Some(prop(6, "padding")));

    let mut bare = Element::new(ElementId(7));
    let g = LayoutGeometry::new(literal_rect(0), &mut bare);
    assert_eq!(g.padding.left, None);
    assert_eq!(g.padding.top, None);
}

#[test]
fn layout_rect_of_each_kind() {
    let grid = Layout::GridLayout(GridLayout { elems: vec![], geometry: geometry(10) });
    assert_eq!(*grid.rect().x_reference, num(12));
    let boxed = Layout::BoxLayout(BoxLayout { is_horizontal: true, elems: vec![], geometry: geometry(20) });
    assert_eq!(*boxed.rect().width_reference, num(20));
    let path = Layout::PathLayout(PathLayout {
        path: Path::Events(vec![]),
        elements: vec![ElementId(1)],
        rect: literal_rect(30),
        offset_reference: Box::new(num(99)),
    });
    assert_eq!(*path.rect().y_reference, num(33));
}

#[test]
fn rect_clone_is_equal() {
    let rect = literal_rect(3);
    let copy = rect.clone();
    assert_eq!(*copy.height_reference, num(4));
    assert_eq!(*copy.y_reference, num(6));
}

#[test]
fn visit_rect_order() {
    let mut rect = literal_rect(0);
    let mut c = Collector { seen: vec![] };
    rect.visit_expressions(&mut c);
    assert_eq!(c.seen, vec![num(0), num(1), num(2), num(3)]);
    assert_eq!(*rect.width_reference, num(1001));
    assert_eq!(*rect.y_reference, num(1004));
}

#[test]
fn visit_constraints_order() {
    let mut cons = LayoutConstraints {
        minimum_width: Some(Box::new(num(1))),
        maximum_width: Some(Box::new(num(2))),
        minimum_height: None,
        maximum_height: Some(Box::new(num(4))),
    };
    let mut c = Collector { seen: vec![] };
    cons.visit_expressions(&mut c);
    // maximum width, minimum width, maximum height, minimum height
    assert_eq!(c.seen, vec![num(2), num(1), num(4)]);
    assert_eq!(cons.maximum_width.as_deref(), Some(&num(1001)));
    assert_eq!(cons.minimum_width.as_deref(), Some(&num(1002)));
    assert_eq!(cons.minimum_height, None);
}

#[test]
fn visit_geometry_order() {
    let mut g = LayoutGeometry {
        rect: literal_rect(0),
        spacing: Some(num(10)),
        padding: Padding { left: Some(num(20)), right: None, top: Some(num(22)), bottom: Some(num(23)) },
    };
    let mut c = Collector { seen: vec![] };
    g.visit_expressions(&mut c);
    assert_eq!(c.seen, vec![num(0), num(1), num(2), num(3), num(10), num(20), num(22), num(23)]);
    assert_eq!(g.padding.right, None);
    assert_eq!(g.padding.bottom, Some(num(1008)));
}

#[test]
fn visit_nested_grid() {
    let inner = Layout::PathLayout(PathLayout {
        path: Path::Events(vec![num(77)]),
        elements: vec![],
        rect: literal_rect(40),
        offset_reference: Box::new(num(44)),
    });
    let mut grid = Layout::GridLayout(GridLayout {
        elems: vec![
            GridLayoutElement {
                col: 0,
                row: 0,
                colspan: 1,
                rowspan: 1,
                item: LayoutItem::Element(LayoutElement { element: ElementId(1), layout: None }),
                constraints: LayoutConstraints {
                    minimum_width: Some(Box::new(num(5))),
                    ..no_constraints()
                },
            },
            GridLayoutElement {
                col: 1,
                row: 0,
                colspan: 2,
                rowspan: 1,
                item: LayoutItem::Layout(Box::new(inner)),
                constraints: no_constraints(),
            },
        ],
        geometry: geometry(0),
    });
    let mut c = Collector { seen: vec![] };
    grid.visit_expressions(&mut c);
    assert_eq!(
        c.seen,
        vec![num(5), num(40), num(41), num(42), num(43), num(44), num(0), num(1), num(2), num(3)]
    );
    match &grid {
        Layout::GridLayout(g) => {
            assert_eq!(g.elems[1].colspan, 2);
            match &g.elems[1].item {
                LayoutItem::Layout(l) => match &**l {
                    Layout::PathLayout(p) => {
                        assert_eq!(*p.offset_reference, num(1006));
                        assert_eq!(p.path, Path::Events(vec![num(77)]));
                    },
                    _ => panic!("the nested layout changed kind"),
                },
                _ => panic!("the item changed kind"),
            }
            assert_eq!(*g.geometry.rect.y_reference, num(1010));
        },
        _ => panic!("the layout changed kind"),
    }
}

#[test]
fn visit_box_with_element_layout() {
    let nested = BoxLayout { is_horizontal: false, elems: vec![], geometry: geometry(60) };
    let mut layouts = LayoutVec(vec![
        Layout::BoxLayout(BoxLayout {
            is_horizontal: true,
            elems: vec![BoxLayoutElement {
                item: LayoutItem::Element(LayoutElement {
                    element: ElementId(3),
                    layout: Some(Layout::BoxLayout(nested)),
                }),
                constraints: LayoutConstraints { maximum_height: Some(Box::new(num(9))), ..no_constraints() },
            }],
            geometry: geometry(0),
        }),
        Layout::GridLayout(GridLayout { elems: vec![], geometry: geometry(90) }),
    ]);
    let mut c = Collector { seen: vec![] };
    layouts.visit_expressions(&mut c);
    assert_eq!(
        c.seen,
        vec![
            num(60), num(61), num(62), num(63), num(9), num(0), num(1), num(2), num(3), num(90),
            num(91), num(92), num(93)
        ]
    );
    assert_eq!(layouts.0.len(), 2);
    // a layout list reads as the vector it wraps
    assert_eq!(layouts.len(), 2);
}

#[test]
fn layout_vec_default_is_empty() {
    let v = LayoutVec::default();
    assert!(v.0.is_empty());
}

#[test]
fn box_cell_positions() {
    assert_eq!(box_cell_position(true, 3), CellPosition { col: 3, row: 0, colspan: 1, rowspan: 1 });
    assert_eq!(box_cell_position(false, 3), CellPosition { col: 0, row: 3, colspan: 1, rowspan: 1 });
    // positions are stored in 16 bits
    assert_eq!(box_cell_position(true, 70000).col, 4464);
}

#[test]
fn conversions() {
    let l: Layout = GridLayout { elems: vec![], geometry: geometry(0) }.into();
    assert!(matches!(l, Layout::GridLayout(_)));
    let l: Layout = BoxLayout { is_horizontal: false, elems: vec![], geometry: geometry(0) }.into();
    assert!(matches!(l, Layout::BoxLayout(_)));
    let e: LayoutElement = (ElementId(4), None).into();
    assert_eq!(e.element, ElementId(4));
    let item: LayoutItem = e.into();
    assert!(matches!(item, LayoutItem::Element(_)));
    let item: LayoutItem = Box::new(l).into();
    assert!(matches!(item, LayoutItem::Layout(_)));
}

/// A code generator that writes each call down.
struct Recorder;

impl Language for Recorder {
    type CompiledCode = String;

    fn is_cell_data<'a>(
        _item: LayoutItem,
        _constraints: LayoutConstraints,
        col: u16,
        row: u16,
        colspan: u16,
        rowspan: u16,
        before: Vec<LayoutTreeItem<'a, Self>>,
        after: Vec<LayoutTreeItem<'a, Self>>,
        _component: Rc<Component>,
        code: String,
    ) -> bool {
        before.len() == after.len() && code == format!("{},{},{},{}", col, row, colspan, rowspan)
    }

    fn is_grid_item<'a>(
        before: Vec<LayoutTreeItem<'a, Self>>,
        after: Vec<LayoutTreeItem<'a, Self>>,
        _geometry: &'a LayoutGeometry,
        cells: Vec<String>,
        _component: Rc<Component>,
        item: LayoutTreeItem<'a, Self>,
    ) -> bool {
        before.len() == after.len()
            && matches!(item, LayoutTreeItem::GridLayout { cell_ref_variable, .. } if cell_ref_variable == cells.join(";"))
    }

    fn make_grid_layout_cell_data<'a, 'b>(
        _item: &'a LayoutItem,
        _constraints: &LayoutConstraints,
        col: u16,
        row: u16,
        colspan: u16,
        rowspan: u16,
        _layout_tree: &'b mut Vec<LayoutTreeItem<'a, Self>>,
        _component: &Rc<Component>,
    ) -> String {
        format!("{},{},{},{}", col, row, colspan, rowspan)
    }

    fn grid_layout_tree_item<'a, 'b>(
        _layout_tree: &'b mut Vec<LayoutTreeItem<'a, Self>>,
        geometry: &'a LayoutGeometry,
        cells: Vec<String>,
        _component: &Rc<Component>,
    ) -> LayoutTreeItem<'a, Self> {
        LayoutTreeItem::GridLayout {
            geometry,
            spacing: String::new(),
            padding: String::new(),
            var_creation_code: String::new(),
            cell_ref_variable: cells.join(";"),
        }
    }
}

impl LayoutItemCodeGen<Recorder> for LayoutElement {
    fn is_property_ref(&self, name: &str, code: String) -> bool {
        code == format!("element{}.{}", self.element.0, name)
    }

    fn is_layout_info_ref<'a>(
        &'a self,
        before: Vec<LayoutTreeItem<'a, Recorder>>,
        after: Vec<LayoutTreeItem<'a, Recorder>>,
        _component: Rc<Component>,
        code: String,
    ) -> bool {
        before.len() == after.len() && code == format!("info{}", self.element.0)
    }

    fn get_property_ref(&self, name: &str) -> String {
        format!("element{}.{}", self.element.0, name)
    }

    fn get_layout_info_ref<'a, 'b>(
        &'a self,
        _layout_tree: &'b mut Vec<LayoutTreeItem<'a, Recorder>>,
        _component: &Rc<Component>,
    ) -> String {
        format!("info{}", self.element.0)
    }
}

impl LayoutItemCodeGen<Recorder> for Layout {
    fn is_property_ref(&self, name: &str, code: String) -> bool {
        code == format!("layout.{}", name)
    }

    fn is_layout_info_ref<'a>(
        &'a self,
        before: Vec<LayoutTreeItem<'a, Recorder>>,
        after: Vec<LayoutTreeItem<'a, Recorder>>,
        _component: Rc<Component>,
        code: String,
    ) -> bool {
        before.len() == after.len() && code == "layoutinfo"
    }

    fn get_property_ref(&self, name: &str) -> String {
        format!("layout.{}", name)
    }

    fn get_layout_info_ref<'a, 'b>(
        &'a self,
        _layout_tree: &'b mut Vec<LayoutTreeItem<'a, Recorder>>,
        _component: &Rc<Component>,
    ) -> String {
        "layoutinfo".to_string()
    }
}

fn component() -> Rc<Component> {
    Rc::new(Component { id: "Main".to_string(), root_element: ElementId(0) })
}

fn cell_refs(item: &LayoutTreeItem<'_, Recorder>) -> String {
    match item {
        LayoutTreeItem::GridLayout { cell_ref_variable, .. } => cell_ref_variable.clone(),
        LayoutTreeItem::PathLayout(_) => "path".to_string(),
    }
}

#[test]
fn collect_box_layout_positions() {
    let cell = |id: usize| BoxLayoutElement {
        item: LayoutItem::Element(LayoutElement { element: ElementId(id), layout: None }),
        constraints: no_constraints(),
    };
    let horizontal =
        Layout::BoxLayout(BoxLayout { is_horizontal: true, elems: vec![cell(1), cell(2), cell(3)], geometry: geometry(0) });
    let vertical = Layout::BoxLayout(BoxLayout { is_horizontal: false, elems: vec![cell(1), cell(2)], geometry: geometry(0) });
    let c = component();
    let mut tree: Vec<LayoutTreeItem<'_, Recorder>> = Vec::new();
    let refs = cell_refs(collect_layouts_recursively(&mut tree, &horizontal, &c));
    assert_eq!(refs, "0,0,1,1;1,0,1,1;2,0,1,1");
    let refs = cell_refs(collect_layouts_recursively(&mut tree, &vertical, &c));
    assert_eq!(refs, "0,0,1,1;0,1,1,1");
    assert_eq!(tree.len(), 2);
}

#[test]
fn collect_grid_layout_positions() {
    let grid = Layout::GridLayout(GridLayout {
        elems: vec![
            GridLayoutElement {
                col: 2,
                row: 1,
                colspan: 3,
                rowspan: 4,
                item: LayoutItem::Element(LayoutElement { element: ElementId(1), layout: None }),
                constraints: no_constraints(),
            },
            GridLayoutElement {
                col: 0,
                row: 5,
                colspan: 1,
                rowspan: 1,
                item: LayoutItem::Element(LayoutElement { element: ElementId(2), layout: None }),
                constraints: no_constraints(),
            },
        ],
        geometry: geometry(0),
    });
    let c = component();
    let mut tree: Vec<LayoutTreeItem<'_, Recorder>> = Vec::new();
    let refs = cell_refs(collect_layouts_recursively(&mut tree, &grid, &c));
    assert_eq!(refs, "2,1,3,4;0,5,1,1");
    assert_eq!(tree.len(), 1);
    match &tree[0] {
        LayoutTreeItem::GridLayout { geometry, .. } => assert_eq!(*geometry.rect.x_reference, num(2)),
        _ => panic!("expected the grid item"),
    }
}

#[test]
fn collect_empty_grid_makes_one_item() {
    let grid = Layout::GridLayout(GridLayout { elems: vec![], geometry: geometry(0) });
    let c = component();
    let mut tree: Vec<LayoutTreeItem<'_, Recorder>> = Vec::new();
    let refs = cell_refs(collect_layouts_recursively(&mut tree, &grid, &c));
    assert_eq!(refs, "");
    assert_eq!(tree.len(), 1);
}

#[test]
fn collect_box_like_equivalent_grid() {
    let item = |id: usize| LayoutItem::Element(LayoutElement { element: ElementId(id), layout: None });
    let boxed = Layout::BoxLayout(BoxLayout {
        is_horizontal: false,
        elems: vec![
            BoxLayoutElement { item: item(1), constraints: no_constraints() },
            BoxLayoutElement { item: item(2), constraints: no_constraints() },
        ],
        geometry: geometry(0),
    });
    let grid = Layout::GridLayout(GridLayout {
        elems: vec![
            GridLayoutElement { col: 0, row: 0, colspan: 1, rowspan: 1, item: item(1), constraints: no_constraints() },
            GridLayoutElement { col: 0, row: 1, colspan: 1, rowspan: 1, item: item(2), constraints: no_constraints() },
        ],
        geometry: geometry(0),
    });
    let c = component();
    let mut t1: Vec<LayoutTreeItem<'_, Recorder>> = Vec::new();
    let mut t2: Vec<LayoutTreeItem<'_, Recorder>> = Vec::new();
    let a = cell_refs(collect_layouts_recursively(&mut t1, &boxed, &c));
    let b = cell_refs(collect_layouts_recursively(&mut t2, &grid, &c));
    assert_eq!(a, b);
    assert_eq!(t1.len(), t2.len());
}

#[test]
fn collect_path_layout_pushes_it() {
    let path = Layout::PathLayout(PathLayout {
        path: Path::Elements(vec![]),
        elements: vec![ElementId(1), ElementId(2)],
        rect: literal_rect(0),
        offset_reference: Box::new(num(0)),
    });
    let c = component();
    let mut tree: Vec<LayoutTreeItem<'_, Recorder>> = Vec::new();
    let last = collect_layouts_recursively(&mut tree, &path, &c);
    match last {
        LayoutTreeItem::PathLayout(p) => assert_eq!(p.elements, vec![ElementId(1), ElementId(2)]),
        _ => panic!("expected the path layout"),
    }
    assert_eq!(tree.len(), 1);
}

#[test]
fn layout_item_code_gen_dispatches() {
    let element = LayoutItem::Element(LayoutElement { element: ElementId(4), layout: None });
    let layout = LayoutItem::Layout(Box::new(Layout::GridLayout(GridLayout { elems: vec![], geometry: geometry(0) })));
    assert_eq!(LayoutItemCodeGen::<Recorder>::get_property_ref(&element, "width"), "element4.width");
    assert_eq!(LayoutItemCodeGen::<Recorder>::get_property_ref(&layout, "width"), "layout.width");
    let c = component();
    let mut tree: Vec<LayoutTreeItem<'_, Recorder>> = Vec::new();
    assert_eq!(element.get_layout_info_ref(&mut tree, &c), "info4");
    assert_eq!(layout.get_layout_info_ref(&mut tree, &c), "layoutinfo");
}

#[test]
fn grid_tree_item_from_fields() {
    let g = geometry(0);
    let item: LayoutTreeItem<'_, Recorder> =
        (&g, "s".to_string(), "p".to_string(), "v".to_string(), "c".to_string()).into();
    match item {
        LayoutTreeItem::GridLayout { geometry, spacing, padding, var_creation_code, cell_ref_variable } => {
            assert_eq!(*geometry.rect.width_reference, num(0));
            assert_eq!((spacing, padding, var_creation_code, cell_ref_variable), (
                "s".to_string(),
                "p".to_string(),
                "v".to_string(),
                "c".to_string()
            ));
        },
        LayoutTreeItem::PathLayout(_) => panic!("expected the grid item"),
    }
}
