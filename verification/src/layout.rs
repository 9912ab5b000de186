//! Datastructures used to represent layouts in the compiler
use vstd::prelude::*;
use crate::expression_tree::{
    property_reference_view, str_equal, ElementId, Expression, ExpressionView, Path,
};
use crate::object_tree::{length_declaration, Element, ElementView, PropertyDeclaration};
use crate::passes::lower_layout::{
    binding_reference, binding_reference_view, find_expression, init_fake_property,
    with_fake_property,
};

pub mod convert;
pub mod gen;
pub mod laws;
pub mod shape;
pub mod visit;

verus! {

#[derive(Debug)]
pub enum Layout {
    GridLayout(GridLayout),
    PathLayout(PathLayout),
    BoxLayout(BoxLayout),
}

impl Layout {
    /// The rectangle that the layout occupies.
    pub open spec fn spec_rect(self) -> LayoutRect {
        match self {
            Layout::GridLayout(g) => g.geometry.rect,
            Layout::BoxLayout(b) => b.geometry.rect,
            Layout::PathLayout(p) => p.rect,
        }
    }

    pub fn rect(&self) -> (r: &LayoutRect)
        ensures
            *r == self.spec_rect(),
    {
        match self {
            Layout::GridLayout(g) => &g.geometry.rect,
            Layout::BoxLayout(g) => &g.geometry.rect,
            Layout::PathLayout(p) => &p.rect,
        }
    }
}

#[derive(Debug)]
pub struct LayoutVec(pub Vec<Layout>);

impl Default for LayoutVec {
    fn default() -> (r: Self)
        ensures
            r.0@ == Seq::<Layout>::empty(),
    {
        LayoutVec(Vec::new())
    }
}

impl std::ops::Deref for LayoutVec {
    type Target = Vec<Layout>;

    fn deref(&self) -> (r: &Vec<Layout>)
        ensures
            *r == self.0,
    {
        &self.0
    }
}

#[derive(Debug)]
pub struct LayoutElement {
    pub element: ElementId,
    pub layout: Option<Layout>,
}

#[derive(Debug)]
pub enum LayoutItem {
    Element(LayoutElement),
    Layout(Box<Layout>),
}

#[derive(Debug)]
pub struct LayoutRect {
    pub width_reference: Box<Expression>,
    pub height_reference: Box<Expression>,
    pub x_reference: Box<Expression>,
    pub y_reference: Box<Expression>,
}

impl Clone for LayoutRect {
    fn clone(&self) -> (r: Self)
        ensures
            r == *self,
    {
        LayoutRect {
            width_reference: Box::new((*self.width_reference).clone()),
            height_reference: Box::new((*self.height_reference).clone()),
            x_reference: Box::new((*self.x_reference).clone()),
            y_reference: Box::new((*self.y_reference).clone()),
        }
    }
}

/// The declarations of an element once a layout rectangle is installed on it:
/// `x`, `y`, `width` and `height` are declared as lengths.
pub open spec fn installed_declarations(declarations: Map<Seq<char>, PropertyDeclaration>) -> Map<
    Seq<char>,
    PropertyDeclaration,
> {
    declarations.insert("x"@, length_declaration()).insert("y"@, length_declaration()).insert(
        "width"@,
        length_declaration(),
    ).insert("height"@, length_declaration())
}

impl LayoutRect {
    /// Each side of the rectangle refers to the property of the same name of
    /// `element`.
    pub open spec fn refers_to(self, element: ElementId) -> bool {
        &&& self.x_reference@ == property_reference_view(element, "x"@)
        &&& self.y_reference@ == property_reference_view(element, "y"@)
        &&& self.width_reference@ == property_reference_view(element, "width"@)
        &&& self.height_reference@ == property_reference_view(element, "height"@)
    }

    /// Declares `x`, `y`, `width` and `height` as length properties of
    /// `element` and returns the rectangle that refers to them.
    pub fn install_on_element(element: &mut Element) -> (r: Self)
        ensures
            final(element)@.id == old(element)@.id,
            final(element)@.bindings == old(element)@.bindings,
            final(element)@.property_declarations == installed_declarations(
                old(element)@.property_declarations,
            ),
            r.refers_to(old(element)@.id),
    {
        let x_reference = Self::install_prop(element, "x");
        let y_reference = Self::install_prop(element, "y");
        let width_reference = Self::install_prop(element, "width");
        let height_reference = Self::install_prop(element, "height");
        Self { x_reference, y_reference, width_reference, height_reference }
    }

    fn install_prop(element: &mut Element, name: &str) -> (r: Box<Expression>)
        ensures
            final(element)@.id == old(element)@.id,
            final(element)@.bindings == old(element)@.bindings,
            final(element)@.property_declarations == old(element)@.property_declarations.insert(
                name@,
                length_declaration(),
            ),
            r@ == property_reference_view(old(element)@.id, name@),
    {
        element.property_declarations.insert(name.to_owned(), PropertyDeclaration::length());
        Box::new(Expression::property_reference(element.id, name))
    }

    /// The expression that stands for the property `name` of the rectangle,
    /// if `name` is one of `x`, `y`, `width` and `height`.
    pub open spec fn side(self, name: Seq<char>) -> Option<Expression> {
        if name == "x"@ {
            Some(*self.x_reference)
        } else if name == "y"@ {
            Some(*self.y_reference)
        } else if name == "width"@ {
            Some(*self.width_reference)
        } else if name == "height"@ {
            Some(*self.height_reference)
        } else {
            None
        }
    }

    /// The name of the property that the side `name` of the rectangle refers
    /// to, if `name` is a side and that side is a property reference.
    pub open spec fn spec_mapped_property_name(self, name: Seq<char>) -> Option<Seq<char>> {
        match self.side(name) {
            Some(Expression::PropertyReference(r)) => Some(r.name@),
            _ => None,
        }
    }

    pub fn mapped_property_name(&self, name: &str) -> (r: Option<&str>)
        ensures
            r matches Some(s) ==> self.spec_mapped_property_name(name@) == Some(s@),
            r is None ==> self.spec_mapped_property_name(name@) is None,
    {
        let expr = if str_equal(name, "x") {
            &self.x_reference
        } else if str_equal(name, "y") {
            &self.y_reference
        } else if str_equal(name, "width") {
            &self.width_reference
        } else if str_equal(name, "height") {
            &self.height_reference
        } else {
            return None;
        };
        match &**expr {
            Expression::PropertyReference(r) => Some(r.name.as_str()),
            _ => None,
        }
    }
}

/// The view of an optional boxed expression.
pub open spec fn opt_box_view(o: Option<Box<Expression>>) -> Option<ExpressionView> {
    match o {
        Some(e) => Some(e@),
        None => None,
    }
}

/// The view of an optional expression.
pub open spec fn opt_view(o: Option<Expression>) -> Option<ExpressionView> {
    match o {
        Some(e) => Some(e@),
        None => None,
    }
}

#[derive(Debug)]
pub struct LayoutConstraints {
    pub minimum_width: Option<Box<Expression>>,
    pub maximum_width: Option<Box<Expression>>,
    pub minimum_height: Option<Box<Expression>>,
    pub maximum_height: Option<Box<Expression>>,
}

impl LayoutConstraints {
    /// The constraints that `element` sets by binding its properties
    /// `minimum_width`, `maximum_width`, `minimum_height` and
    /// `maximum_height`.
    pub open spec fn of_element(self, element: ElementView) -> bool {
        &&& opt_box_view(self.minimum_width) == binding_reference_view(element, "minimum_width"@)
        &&& opt_box_view(self.maximum_width) == binding_reference_view(element, "maximum_width"@)
        &&& opt_box_view(self.minimum_height) == binding_reference_view(element, "minimum_height"@)
        &&& opt_box_view(self.maximum_height) == binding_reference_view(element, "maximum_height"@)
    }

    /// The constraints that `element` sets through its bindings.
    pub fn new(element: &Element) -> (r: Self)
        ensures
            r.of_element(element@),
    {
        Self {
            minimum_width: find_expression("minimum_width", element),
            maximum_width: find_expression("maximum_width", element),
            minimum_height: find_expression("minimum_height", element),
            maximum_height: find_expression("maximum_height", element),
        }
    }

    /// Whether any of the four constraints is set.
    pub open spec fn spec_has_explicit_restrictions(self) -> bool {
        ||| self.minimum_width is Some
        ||| self.maximum_width is Some
        ||| self.minimum_height is Some
        ||| self.maximum_height is Some
    }

    pub fn has_explicit_restrictions(&self) -> (r: bool)
        ensures
            r == self.spec_has_explicit_restrictions(),
    {
        self.minimum_width.is_some() || self.maximum_width.is_some()
            || self.minimum_height.is_some() || self.maximum_height.is_some()
    }

    /// The four constraints, each with the name of the runtime field that
    /// receives it, in the order minimum width, maximum width, minimum
    /// height, maximum height.
    pub open spec fn restrictions(self) -> Seq<(Option<Box<Expression>>, Seq<char>)> {
        seq![
            (self.minimum_width, "min_width"@),
            (self.maximum_width, "max_width"@),
            (self.minimum_height, "min_height"@),
            (self.maximum_height, "max_height"@),
        ]
    }

    pub fn for_each_restrictions<'a>(&'a self) -> (r: [(&'a Option<Box<Expression>>, &'static str); 4])
        ensures
            forall|i: int| 0 <= i < 4 ==> (*#[trigger] r@[i].0, r@[i].1@) == self.restrictions()[i],
    {
        [
            (&self.minimum_width, "min_width"),
            (&self.maximum_width, "max_width"),
            (&self.minimum_height, "min_height"),
            (&self.maximum_height, "max_height"),
        ]
    }
}

/// An element in a GridLayout
#[derive(Debug)]
pub struct GridLayoutElement {
    pub col: u16,
    pub row: u16,
    pub colspan: u16,
    pub rowspan: u16,
    pub item: LayoutItem,
    pub constraints: LayoutConstraints,
}

#[derive(Debug)]
pub struct Padding {
    pub left: Option<Expression>,
    pub right: Option<Expression>,
    pub top: Option<Expression>,
    pub bottom: Option<Expression>,
}

#[derive(Debug)]
pub struct LayoutGeometry {
    pub rect: LayoutRect,
    pub spacing: Option<Expression>,
    pub padding: Padding,
}

/// The layout element after its geometry properties have been given their
/// defaults: the rectangle's expressions for `width`, `height`, `x` and `y`,
/// and a reference to `padding` for each side of the padding.
pub open spec fn with_geometry_defaults(element: ElementView, rect: LayoutRect) -> ElementView {
    let padding = binding_reference_view(element, "padding"@);
    let e1 = with_fake_property(element, "width"@, Some(rect.width_reference@));
    let e2 = with_fake_property(e1, "height"@, Some(rect.height_reference@));
    let e3 = with_fake_property(e2, "x"@, Some(rect.x_reference@));
    let e4 = with_fake_property(e3, "y"@, Some(rect.y_reference@));
    let e5 = with_fake_property(e4, "padding_left"@, padding);
    let e6 = with_fake_property(e5, "padding_right"@, padding);
    let e7 = with_fake_property(e6, "padding_top"@, padding);
    with_fake_property(e7, "padding_bottom"@, padding)
}

/// The padding on one side: a reference to the side's own property when the
/// element binds it, and otherwise a reference to `padding` when the element
/// binds that.
pub open spec fn padding_side_view(element: ElementView, side: Seq<char>, padding: Option<ExpressionView>) -> Option<ExpressionView> {
    match binding_reference_view(element, side) {
        Some(e) => Some(e),
        None => padding,
    }
}

fn or_else_padding(side: Option<Expression>, element: &Element) -> (r: Option<Expression>)
    ensures
        opt_view(r) == match opt_view(side) {
            Some(e) => Some(e),
            None => binding_reference_view(element@, "padding"@),
        },
{
    match side {
        Some(e) => Some(e),
        None => binding_reference(element, "padding"),
    }
}

impl LayoutGeometry {
    /// The geometry built from `rect` for the layout element `element`, as
    /// `element` reads after its geometry properties got their defaults.
    pub open spec fn built_from(self, rect: LayoutRect, element: ElementView) -> bool {
        let padding = binding_reference_view(element, "padding"@);
        &&& self.rect == rect
        &&& opt_view(self.spacing) == binding_reference_view(element, "spacing"@)
        &&& opt_view(self.padding.left) == padding_side_view(element, "padding_left"@, padding)
        &&& opt_view(self.padding.right) == padding_side_view(element, "padding_right"@, padding)
        &&& opt_view(self.padding.top) == padding_side_view(element, "padding_top"@, padding)
        &&& opt_view(self.padding.bottom) == padding_side_view(element, "padding_bottom"@, padding)
    }

    /// Builds the geometry of a layout from its rectangle and the bindings of
    /// the layout element, after giving the element's declared but unbound
    /// geometry properties their defaults.
    pub fn new(rect: LayoutRect, layout_element: &mut Element) -> (r: Self)
        ensures
            final(layout_element)@ == with_geometry_defaults(old(layout_element)@, rect),
            r.built_from(rect, final(layout_element)@),
    {
        proof {
            reveal_strlit("padding");
            reveal_strlit("spacing");
            reveal_strlit("width");
            reveal_strlit("height");
            reveal_strlit("x");
            reveal_strlit("y");
            reveal_strlit("padding_left");
            reveal_strlit("padding_right");
            reveal_strlit("padding_top");
            reveal_strlit("padding_bottom");
            // The names differ in length or in their first character, so no
            // default touches the bindings of `padding` or `spacing`.
            assert("padding"@.len() == 7 && "padding_left"@.len() == 12 && "padding_right"@.len() == 13);
            assert("padding_top"@.len() == 11 && "padding_bottom"@.len() == 14);
            assert("spacing"@.len() == 7 && "width"@.len() == 5 && "height"@.len() == 6);
            assert("x"@.len() == 1 && "y"@.len() == 1);
            assert("x"@[0] == 'x' && "y"@[0] == 'y' && "padding"@[0] == 'p' && "spacing"@[0] == 's');
        }
        let spacing = binding_reference(layout_element, "spacing");

        init_fake_property(layout_element, "width", Some((*rect.width_reference).clone()));
        init_fake_property(layout_element, "height", Some((*rect.height_reference).clone()));
        init_fake_property(layout_element, "x", Some((*rect.x_reference).clone()));
        init_fake_property(layout_element, "y", Some((*rect.y_reference).clone()));
        let padding = binding_reference(layout_element, "padding");
        init_fake_property(layout_element, "padding_left", padding);
        let padding = binding_reference(layout_element, "padding");
        init_fake_property(layout_element, "padding_right", padding);
        let padding = binding_reference(layout_element, "padding");
        init_fake_property(layout_element, "padding_top", padding);
        let padding = binding_reference(layout_element, "padding");
        init_fake_property(layout_element, "padding_bottom", padding);

        let left = or_else_padding(binding_reference(layout_element, "padding_left"), layout_element);
        let right = or_else_padding(binding_reference(layout_element, "padding_right"), layout_element);
        let top = or_else_padding(binding_reference(layout_element, "padding_top"), layout_element);
        let bottom = or_else_padding(binding_reference(layout_element, "padding_bottom"), layout_element);
        let padding = Padding { left, right, top, bottom };

        Self { rect, spacing, padding }
    }
}

/// Internal representation of a grid layout
#[derive(Debug)]
pub struct GridLayout {
    /// All the elements will be layout within that element.
    pub elems: Vec<GridLayoutElement>,
    pub geometry: LayoutGeometry,
}

/// An element in a BoxLayout
#[derive(Debug)]
pub struct BoxLayoutElement {
    pub item: LayoutItem,
    pub constraints: LayoutConstraints,
}

/// Internal representation of a BoxLayout
#[derive(Debug)]
pub struct BoxLayout {
    /// When true, this is a HorizonalLayout, otherwise a VerticalLayout
    pub is_horizontal: bool,
    pub elems: Vec<BoxLayoutElement>,
    pub geometry: LayoutGeometry,
}

/// Internal representation of a path layout
#[derive(Debug)]
pub struct PathLayout {
    pub path: Path,
    pub elements: Vec<ElementId>,
    pub rect: LayoutRect,
    pub offset_reference: Box<Expression>,
}

} // verus!
