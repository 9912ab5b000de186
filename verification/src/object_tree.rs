//! The parts of the component tree that layouts read and write: elements,
//! with the properties they declare and the bindings they hold.
use vstd::prelude::*;
use crate::expression_tree::{str_equal, ElementId, Expression, ExpressionView};

verus! {

/// The type of a property.
#[derive(Clone, Copy, Debug, PartialEq, Eq, Structural)]
pub enum Type {
    Invalid,
    Void,
    Length,
    LogicalLength,
    Bool,
    Int32,
    String,
}

/// The declaration of a property on an element.
#[derive(Clone, Copy, Debug, PartialEq, Eq, Structural)]
pub struct PropertyDeclaration {
    pub property_type: Type,
    /// The offset of the syntax node that declared the property, if the
    /// property was declared in source.
    pub type_node: Option<u32>,
}

impl View for PropertyDeclaration {
    type V = PropertyDeclaration;

    open spec fn view(&self) -> PropertyDeclaration {
        *self
    }
}

impl PropertyDeclaration {
    /// The declaration of a length property that no source declared.
    pub fn length() -> (r: PropertyDeclaration)
        ensures
            r == length_declaration(),
    {
        PropertyDeclaration { property_type: Type::Length, type_node: None }
    }
}

/// The declaration that layouts give to the geometry properties they install.
pub open spec fn length_declaration() -> PropertyDeclaration {
    PropertyDeclaration { property_type: Type::Length, type_node: None }
}

/// The map that a sequence of entries with distinct keys stands for.
pub open spec fn entries_map<V: View>(s: Seq<(String, V)>) -> Map<Seq<char>, V::V>
    decreases s.len(),
{
    if s.len() == 0 {
        Map::empty()
    } else {
        entries_map(s.drop_last()).insert(s.last().0@, s.last().1@)
    }
}

/// No two entries have the same key.
pub open spec fn keys_distinct<V>(s: Seq<(String, V)>) -> bool {
    forall|i: int, j: int| 0 <= i < j < s.len() ==> #[trigger] s[i].0@ != #[trigger] s[j].0@
}

proof fn lemma_entries_map_domain<V: View>(s: Seq<(String, V)>, k: Seq<char>)
    ensures
        entries_map(s).contains_key(k) <==> exists|i: int| 0 <= i < s.len() && #[trigger] s[i].0@ == k,
    decreases s.len(),
{
    if s.len() > 0 {
        lemma_entries_map_domain(s.drop_last(), k);
        if entries_map(s).contains_key(k) && k != s.last().0@ {
            let i = choose|i: int| 0 <= i < s.drop_last().len() && #[trigger] s.drop_last()[i].0@ == k;
            assert(s[i].0@ == k);
        }
        if exists|i: int| 0 <= i < s.len() && #[trigger] s[i].0@ == k {
            let i = choose|i: int| 0 <= i < s.len() && #[trigger] s[i].0@ == k;
            if i < s.len() - 1 {
                assert(s.drop_last()[i].0@ == k);
            }
        }
    }
}

proof fn lemma_entries_map_at<V: View>(s: Seq<(String, V)>, i: int)
    requires
        keys_distinct(s),
        0 <= i < s.len(),
    ensures
        entries_map(s).contains_key(s[i].0@),
        entries_map(s)[s[i].0@] == s[i].1@,
    decreases s.len(),
{
    if i < s.len() - 1 {
        assert(keys_distinct(s.drop_last()));
        assert(s.drop_last()[i] == s[i]);
        lemma_entries_map_at(s.drop_last(), i);
        assert(s[i].0@ != s[s.len() - 1].0@);
    }
}

proof fn lemma_entries_map_update<V: View>(s: Seq<(String, V)>, i: int, e: (String, V))
    requires
        keys_distinct(s),
        0 <= i < s.len(),
        e.0@ == s[i].0@,
    ensures
        entries_map(s.update(i, e)) == entries_map(s).insert(e.0@, e.1@),
    decreases s.len(),
{
    let t = s.update(i, e);
    if i == s.len() - 1 {
        assert(t.drop_last() =~= s.drop_last());
        let m = entries_map(s.drop_last());
        assert(m.insert(s.last().0@, s.last().1@).insert(e.0@, e.1@) =~= m.insert(e.0@, e.1@));
    } else {
        assert(t.drop_last() =~= s.drop_last().update(i, e));
        assert(keys_distinct(s.drop_last()));
        lemma_entries_map_update(s.drop_last(), i, e);
        assert(s[i].0@ != s.last().0@);
        let m = entries_map(s.drop_last());
        assert(m.insert(e.0@, e.1@).insert(s.last().0@, s.last().1@) =~= m.insert(
            s.last().0@,
            s.last().1@,
        ).insert(e.0@, e.1@));
    }
}

/// A map from property names to values, as elements hold their property
/// declarations and their bindings. Each name occurs at most once.
#[derive(Debug)]
pub struct PropertyMap<V> {
    entries: Vec<(String, V)>,
}

impl<V: View> View for PropertyMap<V> {
    type V = Map<Seq<char>, V::V>;

    closed spec fn view(&self) -> Map<Seq<char>, V::V> {
        entries_map(self.entries@)
    }
}

impl<V> PropertyMap<V> {
    #[verifier::type_invariant]
    closed spec fn wf(self) -> bool {
        keys_distinct(self.entries@)
    }
}

impl<V: View> PropertyMap<V> {
    /// An empty map.
    pub fn new() -> (r: Self)
        ensures
            r@ == Map::<Seq<char>, V::V>::empty(),
    {
        PropertyMap { entries: Vec::new() }
    }

    /// The position of the entry for `key`, if there is one.
    fn find(&self, key: &str) -> (r: Option<usize>)
        ensures
            match r {
                Some(i) => i < self.entries@.len() && self.entries@[i as int].0@ == key@,
                None => forall|j: int| 0 <= j < self.entries@.len() ==> #[trigger] self.entries@[j].0@ != key@,
            },
    {
        let mut i: usize = 0;
        while i < self.entries.len()
            invariant
                i <= self.entries@.len(),
                forall|j: int| 0 <= j < i ==> #[trigger] self.entries@[j].0@ != key@,
            decreases self.entries@.len() - i,
        {
            if str_equal(self.entries[i].0.as_str(), key) {
                return Some(i);
            }
            i = i + 1;
        }
        None
    }

    /// Whether the map has an entry for `key`.
    pub fn contains_key(&self, key: &str) -> (r: bool)
        ensures
            r == self@.contains_key(key@),
    {
        proof {
            lemma_entries_map_domain(self.entries@, key@);
        }
        self.find(key).is_some()
    }

    /// The value stored under `key`, if any.
    pub fn get(&self, key: &str) -> (r: Option<&V>)
        ensures
            r is Some == self@.contains_key(key@),
            r matches Some(v) ==> v@ == self@[key@],
    {
        proof {
            use_type_invariant(self);
            lemma_entries_map_domain(self.entries@, key@);
        }
        match self.find(key) {
            Some(i) => {
                proof {
                    lemma_entries_map_at(self.entries@, i as int);
                }
                Some(&self.entries[i].1)
            },
            None => None,
        }
    }

    /// Stores `value` under `key`, in place of what was stored there.
    pub fn insert(&mut self, key: String, value: V)
        ensures
            final(self)@ == old(self)@.insert(key@, value@),
    {
        proof {
            use_type_invariant(&*self);
        }
        let found = self.find(key.as_str());
        let mut entries: Vec<(String, V)> = Vec::new();
        std::mem::swap(&mut entries, &mut self.entries);
        let ghost s = entries@;
        match found {
            Some(i) => {
                proof {
                    lemma_entries_map_update(s, i as int, (key, value));
                }
                entries.set(i, (key, value));
                assert(entries@ =~= s.update(i as int, (key, value)));
            },
            None => {
                entries.push((key, value));
                assert(entries@.drop_last() =~= s);
            },
        }
        self.entries = entries;
    }
}

/// An element of the component tree.
#[derive(Debug)]
pub struct Element {
    pub id: ElementId,
    pub property_declarations: PropertyMap<PropertyDeclaration>,
    pub bindings: PropertyMap<Expression>,
}

/// The value of an [`Element`] that contracts speak of.
pub struct ElementView {
    pub id: ElementId,
    pub property_declarations: Map<Seq<char>, PropertyDeclaration>,
    pub bindings: Map<Seq<char>, ExpressionView>,
}

impl View for Element {
    type V = ElementView;

    open spec fn view(&self) -> ElementView {
        ElementView {
            id: self.id,
            property_declarations: self.property_declarations@,
            bindings: self.bindings@,
        }
    }
}

impl Element {
    /// An element that declares and binds nothing.
    pub fn new(id: ElementId) -> (r: Element)
        ensures
            r@.id == id,
            r@.property_declarations == Map::<Seq<char>, PropertyDeclaration>::empty(),
            r@.bindings == Map::<Seq<char>, ExpressionView>::empty(),
    {
        Element { id, property_declarations: PropertyMap::new(), bindings: PropertyMap::new() }
    }
}

/// A component: a tree of elements under a root.
#[derive(Debug)]
pub struct Component {
    pub id: String,
    pub root_element: ElementId,
}

} // verus!
