//! How the layout lowering pass reads the bindings of an element and fills in
//! the properties that a layout provides.
use vstd::prelude::*;
use crate::expression_tree::{property_reference_view, Expression, ExpressionView};
use crate::object_tree::{Element, ElementView};

verus! {

/// A reference to the property `name` of `element` when the element binds
/// that property, and nothing otherwise.
pub open spec fn binding_reference_view(element: ElementView, name: Seq<char>) -> Option<ExpressionView> {
    if element.bindings.contains_key(name) {
        Some(property_reference_view(element.id, name))
    } else {
        None
    }
}

/// The element after a layout has provided `default` as the binding of its
/// property `name`: this happens only where the element declares the
/// property, does not bind it yet, and there is a default.
pub open spec fn with_fake_property(
    element: ElementView,
    name: Seq<char>,
    default: Option<ExpressionView>,
) -> ElementView {
    if element.property_declarations.contains_key(name) && !element.bindings.contains_key(name)
        && default is Some {
        ElementView { bindings: element.bindings.insert(name, default->0), ..element }
    } else {
        element
    }
}

/// A reference to the property `name` of `item_element`, boxed, when the
/// element binds that property.
pub fn find_expression(name: &str, item_element: &Element) -> (r: Option<Box<Expression>>)
    ensures
        r is Some == item_element@.bindings.contains_key(name@),
        r matches Some(e) ==> Some(e@) == binding_reference_view(item_element@, name@),
{
    if item_element.bindings.contains_key(name) {
        Some(Box::new(Expression::property_reference(item_element.id, name)))
    } else {
        None
    }
}

/// A reference to the property `name` of `element` when the element binds
/// that property.
pub fn binding_reference(element: &Element, name: &str) -> (r: Option<Expression>)
    ensures
        r is Some == element@.bindings.contains_key(name@),
        r matches Some(e) ==> Some(e@) == binding_reference_view(element@, name@),
{
    if element.bindings.contains_key(name) {
        Some(Expression::property_reference(element.id, name))
    } else {
        None
    }
}

/// Binds the property `name` of `element` to `default` where the element
/// declares it and no binding was given.
pub fn init_fake_property(element: &mut Element, name: &str, default: Option<Expression>)
    ensures
        final(element)@ == with_fake_property(
            old(element)@,
            name@,
            match default {
                Some(e) => Some(e@),
                None => None,
            },
        ),
{
    if element.property_declarations.contains_key(name) && !element.bindings.contains_key(name) {
        if let Some(e) = default {
            element.bindings.insert(name.to_owned(), e);
        }
    }
}

} // verus!
