//! The expressions that layouts refer to, and the visitor protocol that
//! walks them.
use vstd::prelude::*;

verus! {

/// Identifies an element of the component tree.
#[derive(Clone, Copy, Debug, PartialEq, Eq, Structural)]
pub struct ElementId(pub usize);

/// A reference to the property `name` of the element `element`.
#[derive(Debug, PartialEq, Eq)]
pub struct NamedReference {
    pub element: ElementId,
    pub name: String,
}

/// The part of the expression tree that layouts build and read.
#[derive(Debug, PartialEq, Eq)]
pub enum Expression {
    /// An expression that could not be resolved.
    Invalid,
    /// A numeric literal.
    NumberLiteral(i64),
    /// A string literal.
    StringLiteral(String),
    /// A reference to a property of an element.
    PropertyReference(NamedReference),
}

/// The mathematical value of an [`Expression`]: strings are taken by their
/// characters.
pub enum ExpressionView {
    Invalid,
    NumberLiteral(int),
    StringLiteral(Seq<char>),
    PropertyReference(ElementId, Seq<char>),
}

impl View for Expression {
    type V = ExpressionView;

    open spec fn view(&self) -> ExpressionView {
        match self {
            Expression::Invalid => ExpressionView::Invalid,
            Expression::NumberLiteral(n) => ExpressionView::NumberLiteral(*n as int),
            Expression::StringLiteral(s) => ExpressionView::StringLiteral(s@),
            Expression::PropertyReference(r) => ExpressionView::PropertyReference(r.element, r.name@),
        }
    }
}

impl Clone for NamedReference {
    fn clone(&self) -> (r: Self)
        ensures
            r == *self,
    {
        NamedReference { element: self.element, name: self.name.clone() }
    }
}

impl Clone for Expression {
    fn clone(&self) -> (r: Self)
        ensures
            r == *self,
    {
        match self {
            Expression::Invalid => Expression::Invalid,
            Expression::NumberLiteral(n) => Expression::NumberLiteral(*n),
            Expression::StringLiteral(s) => Expression::StringLiteral(s.clone()),
            Expression::PropertyReference(r) => Expression::PropertyReference(r.clone()),
        }
    }
}

/// One element of a path, named by the builtin element that draws it.
#[derive(Debug, PartialEq, Eq)]
pub struct PathElement {
    pub element_type: String,
}

/// The geometry of a path: either a list of path elements or a list of
/// drawing events.
#[derive(Debug, PartialEq, Eq)]
pub enum Path {
    Elements(Vec<PathElement>),
    Events(Vec<Expression>),
}

/// The view of a reference to the property `name` of `element`.
pub open spec fn property_reference_view(element: ElementId, name: Seq<char>) -> ExpressionView {
    ExpressionView::PropertyReference(element, name)
}

impl Expression {
    /// Builds a reference to the property `name` of `element`.
    pub fn property_reference(element: ElementId, name: &str) -> (r: Expression)
        ensures
            r@ == property_reference_view(element, name@),
    {
        Expression::PropertyReference(NamedReference { element, name: name.to_owned() })
    }
}

/// Whether two string slices hold the same characters.
pub fn str_equal(a: &str, b: &str) -> (r: bool)
    ensures
        r == (a@ == b@),
{
    let x = a.to_owned();
    let y = b.to_owned();
    x == y
}

/// Something that walks the expressions of a layout in order and may
/// replace each of them, carrying its own state from one to the next.
///
/// `step` describes one visit: from the visitor's state and an expression it
/// gives the state afterwards and the expression that takes the old one's
/// place.
pub trait ExpressionVisitor: Sized {
    spec fn step(self, expr: Expression) -> (Self, Expression);

    fn visit(&mut self, expr: Expression) -> (r: Expression)
        ensures
            (*final(self), r) == (*old(self)).step(expr),
    ;
}

/// What visiting the expressions `exprs` in order from the state `visitor`
/// gives: the final state and the expressions that replace them.
pub open spec fn visit_all<V: ExpressionVisitor>(visitor: V, exprs: Seq<Expression>) -> (V, Seq<Expression>)
    decreases exprs.len(),
{
    if exprs.len() == 0 {
        (visitor, Seq::empty())
    } else {
        let (first_state, first) = visitor.step(exprs[0]);
        let (last_state, rest) = visit_all(first_state, exprs.drop_first());
        (last_state, seq![first] + rest)
    }
}

/// Visiting a concatenation is visiting its first part, then its second part
/// from the state the first part left.
pub proof fn lemma_visit_all_concat<V: ExpressionVisitor>(visitor: V, a: Seq<Expression>, b: Seq<Expression>)
    ensures
        visit_all(visitor, a + b) == ({
            let (mid, a2) = visit_all(visitor, a);
            let (last, b2) = visit_all(mid, b);
            (last, a2 + b2)
        }),
    decreases a.len(),
{
    if a.len() == 0 {
        assert(a + b =~= b);
        assert(Seq::<Expression>::empty() + visit_all(visitor, b).1 =~= visit_all(visitor, b).1);
    } else {
        let (s1, e1) = visitor.step(a[0]);
        assert((a + b).drop_first() =~= a.drop_first() + b);
        lemma_visit_all_concat(s1, a.drop_first(), b);
        let (mid, a2) = visit_all(s1, a.drop_first());
        let (last, b2) = visit_all(mid, b);
        assert(seq![e1] + (a2 + b2) =~= (seq![e1] + a2) + b2);
    }
}

/// Visiting a single expression is one step.
pub proof fn lemma_visit_all_single<V: ExpressionVisitor>(visitor: V, e: Expression)
    ensures
        visit_all(visitor, seq![e]) == ({
            let (s, r) = visitor.step(e);
            (s, seq![r])
        }),
{
    assert(seq![e].drop_first() =~= Seq::<Expression>::empty());
    let (s, r) = visitor.step(e);
    assert(visit_all(s, Seq::<Expression>::empty()) == (s, Seq::<Expression>::empty()));
    assert(seq![r] + Seq::<Expression>::empty() =~= seq![r]);
}

} // verus!
