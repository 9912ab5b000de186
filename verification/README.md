# Layouts of the component compiler

The data structures that the compiler uses to represent layouts (grid, box and
path layouts, their cells, constraints and geometry), with the parts of the
component tree they read and write, verified with Verus.

- `src/expression_tree.rs`: expressions, property references, and the visitor
  protocol (`ExpressionVisitor`, `visit_all`) that describes walking them.
- `src/object_tree.rs`: elements, their property declarations and bindings
  (`PropertyMap`, a map from property names with distinct keys).
- `src/passes/lower_layout.rs`: reading bindings and filling in the
  properties a layout provides.
- `src/layout.rs`: the layout types, installing a layout rectangle on an
  element, constraints and geometry.
- `src/layout/visit.rs`: visiting the expressions of every layout type; each
  visit keeps the shape and replaces exactly the listed expressions in order.
- `src/layout/gen.rs`: the code generators' side: collecting the layout tree.
- `src/layout/convert.rs`: conversions into the layout types.
- `src/layout/shape.rs`: the shape of a layout and the expressions it holds
  fix its value (`same_value`, vectors compared entry by entry).
- `src/layout/laws.rs`: what holds of these functions taken together.
