//! The document tree: a structured value made of scalars, sequences and
//! ordered mappings, with its mathematical model.

use crate::text::text_eq;
use vstd::prelude::*;

verus! {

broadcast use vstd::std_specs::vec::axiom_vec_index_decreases;

/// Mathematical model of a document value.
pub ghost enum Tree {
    /// A floating-point number, as the text that denotes it.
    Real(Seq<char>),
    /// An integer.
    Integer(i64),
    /// A string scalar.
    Str(Seq<char>),
    /// A truth value.
    Boolean(bool),
    /// A sequence, with its elements in order.
    Array(Seq<Tree>),
    /// A mapping, with its entries, key before value, in document order.
    Hash(Seq<(Tree, Tree)>),
    /// A reference to an anchor that was not resolved.
    Alias(usize),
    /// The null value.
    Null,
    /// What stands where a value could not be read.
    BadValue,
}

/// A document value held in memory. Its variants are those of `Tree`.
#[derive(Debug, PartialEq, Eq)]
pub enum Node {
    Real(String),
    Integer(i64),
    Str(String),
    Boolean(bool),
    Array(Vec<Node>),
    Hash(Vec<(Node, Node)>),
    Alias(usize),
    Null,
    BadValue,
}

impl View for Node {
    type V = Tree;

    open spec fn view(&self) -> Tree
        decreases self,
    {
        match self {
            Node::Real(s) => Tree::Real(s@),
            Node::Integer(i) => Tree::Integer(*i),
            Node::Str(s) => Tree::Str(s@),
            Node::Boolean(b) => Tree::Boolean(*b),
            Node::Array(items) => Tree::Array(
                Seq::new(
                    items@.len(),
                    |i: int|
                        if 0 <= i < items@.len() {
                            items[i]@
                        } else {
                            Tree::BadValue
                        },
                ),
            ),
            Node::Hash(entries) => Tree::Hash(
                Seq::new(
                    entries@.len(),
                    |i: int|
                        if 0 <= i < entries@.len() {
                            (entries[i].0@, entries[i].1@)
                        } else {
                            (Tree::BadValue, Tree::BadValue)
                        },
                ),
            ),
            Node::Alias(a) => Tree::Alias(*a),
            Node::Null => Tree::Null,
            Node::BadValue => Tree::BadValue,
        }
    }
}

/// The models of a sequence of nodes, in order.
pub open spec fn trees(nodes: Seq<Node>) -> Seq<Tree> {
    Seq::new(nodes.len(), |i: int| nodes[i]@)
}

/// The value of the first entry of `entries` whose key is the string `key`.
pub open spec fn value_of(entries: Seq<(Tree, Tree)>, key: Seq<char>) -> Option<Tree>
    decreases entries.len(),
{
    if entries.len() == 0 {
        None
    } else if entries[0].0 == Tree::Str(key) {
        Some(entries[0].1)
    } else {
        value_of(entries.drop_first(), key)
    }
}

impl Tree {
    /// The characters of a string scalar; `None` for every other value.
    pub open spec fn text(self) -> Option<Seq<char>> {
        match self {
            Tree::Str(s) => Some(s),
            _ => None,
        }
    }

    /// The elements of a sequence; `None` for every other value.
    pub open spec fn items(self) -> Option<Seq<Tree>> {
        match self {
            Tree::Array(items) => Some(items),
            _ => None,
        }
    }

    /// The value stored in a mapping under the string key `key`; `None` when
    /// the value is no mapping or has no such key.
    pub open spec fn field(self, key: Seq<char>) -> Option<Tree> {
        match self {
            Tree::Hash(entries) => value_of(entries, key),
            _ => None,
        }
    }

    /// The string stored in a mapping under `key`; `None` when there is no
    /// such key or its value is no string scalar.
    pub open spec fn string_field(self, key: Seq<char>) -> Option<Seq<char>> {
        match self.field(key) {
            Some(value) => value.text(),
            None => None,
        }
    }

    /// Whether a mapping holds, under `key`, anything but the null value.
    pub open spec fn has_value(self, key: Seq<char>) -> bool {
        match self.field(key) {
            Some(value) => value != Tree::Null,
            None => false,
        }
    }
}

/// The model of a node that may be absent.
pub open spec fn model(node: Option<&Node>) -> Option<Tree> {
    match node {
        Some(n) => Some(n@),
        None => None,
    }
}

/// The value under `key` in a mapping that may be absent.
pub open spec fn field_in(record: Option<Tree>, key: Seq<char>) -> Option<Tree> {
    match record {
        Some(tree) => tree.field(key),
        None => None,
    }
}

/// The string under `key` in a mapping that may be absent.
pub open spec fn text_in(record: Option<Tree>, key: Seq<char>) -> Option<Seq<char>> {
    match record {
        Some(tree) => tree.string_field(key),
        None => None,
    }
}

/// Whether a mapping that may be absent holds, under `key`, anything but null.
pub open spec fn present_in(record: Option<Tree>, key: Seq<char>) -> bool {
    match record {
        Some(tree) => tree.has_value(key),
        None => false,
    }
}

/// Skipping an entry whose key differs does not change what a key maps to.
pub proof fn lemma_value_of_skip(entries: Seq<(Tree, Tree)>, key: Seq<char>, from: int)
    requires
        0 <= from <= entries.len(),
        forall|j: int| 0 <= j < from ==> entries[j].0 != Tree::Str(key),
    ensures
        value_of(entries, key) == value_of(entries.skip(from), key),
    decreases from,
{
    if from == 0 {
        assert(entries.skip(0) =~= entries);
    } else {
        lemma_value_of_skip(entries, key, from - 1);
        let rest = entries.skip(from - 1);
        assert(rest.drop_first() =~= entries.skip(from));
    }
}

/// The model of `key` paired with the model of `value`, entry by entry.
pub open spec fn pairs(entries: Seq<(Node, Node)>) -> Seq<(Tree, Tree)> {
    Seq::new(entries.len(), |i: int| (entries[i].0@, entries[i].1@))
}

/// A sequence node is modelled by the models of its elements.
pub proof fn lemma_array_view(node: Node)
    requires
        node is Array,
    ensures
        node@ == Tree::Array(trees(node->Array_0@)),
{
    reveal_with_fuel(<Node as View>::view, 2);
    assert(node@->Array_0 =~= trees(node->Array_0@));
}

/// A mapping node is modelled by the models of its entries.
pub proof fn lemma_hash_view(node: Node)
    requires
        node is Hash,
    ensures
        node@ == Tree::Hash(pairs(node->Hash_0@)),
{
    reveal_with_fuel(<Node as View>::view, 2);
    assert(node@->Hash_0 =~= pairs(node->Hash_0@));
}

impl Node {
    /// The text of a string scalar.
    pub fn as_str(&self) -> (r: Option<&str>)
        ensures
            match r {
                Some(s) => self@.text() == Some(s@),
                None => self@.text() is None,
            },
    {
        match self {
            Node::Str(s) => Some(s.as_str()),
            _ => None,
        }
    }

    /// The elements of a sequence.
    pub fn as_vec(&self) -> (r: Option<&Vec<Node>>)
        ensures
            match r {
                Some(items) => self@.items() == Some(trees(items@)),
                None => self@.items() is None,
            },
    {
        match self {
            Node::Array(items) => {
                proof {
                    lemma_array_view(*self);
                }
                Some(items)
            },
            _ => None,
        }
    }

    /// Whether this is the null value.
    pub fn is_null(&self) -> (r: bool)
        ensures
            r == (self@ == Tree::Null),
    {
        match self {
            Node::Null => true,
            _ => false,
        }
    }

    /// The value stored under the string key `key`, if this is a mapping
    /// that has one. Of several entries with that key the first counts.
    pub fn field(&self, key: &str) -> (r: Option<&Node>)
        ensures
            match r {
                Some(value) => self@.field(key@) == Some(value@),
                None => self@.field(key@) is None,
            },
    {
        match self {
            Node::Hash(entries) => {
                let ghost model = pairs(entries@);
                proof {
                    lemma_hash_view(*self);
                }
                let mut i: usize = 0;
                while i < entries.len()
                    invariant
                        0 <= i <= entries.len(),
                        model == pairs(entries@),
                        self@ == Tree::Hash(model),
                        forall|j: int| 0 <= j < i ==> model[j].0 != Tree::Str(key@),
                    decreases entries.len() - i,
                {
                    let hit = match &entries[i].0 {
                        Node::Str(k) => text_eq(k.as_str(), key),
                        _ => false,
                    };
                    if hit {
                        proof {
                            lemma_value_of_skip(model, key@, i as int);
                        }
                        return Some(&entries[i].1);
                    }
                    i += 1;
                }
                proof {
                    lemma_value_of_skip(model, key@, i as int);
                }
                None
            },
            _ => None,
        }
    }

    /// The string stored under the key `key`.
    pub fn string_field(&self, key: &str) -> (r: Option<&str>)
        ensures
            match r {
                Some(s) => self@.string_field(key@) == Some(s@),
                None => self@.string_field(key@) is None,
            },
    {
        match self.field(key) {
            Some(value) => value.as_str(),
            None => None,
        }
    }

    /// Whether a value other than null is stored under the key `key`.
    pub fn has_value(&self, key: &str) -> (r: bool)
        ensures
            r == self@.has_value(key@),
    {
        match self.field(key) {
            Some(value) => !value.is_null(),
            None => false,
        }
    }
}

/// The value under `key` in a mapping that may be absent.
pub fn field_of<'a>(record: Option<&'a Node>, key: &str) -> (r: Option<&'a Node>)
    ensures
        model(r) == field_in(model(record), key@),
{
    match record {
        Some(node) => node.field(key),
        None => None,
    }
}

/// The string under `key` in a mapping that may be absent.
pub fn text_of<'a>(record: Option<&'a Node>, key: &str) -> (r: Option<&'a str>)
    ensures
        match r {
            Some(s) => text_in(model(record), key@) == Some(s@),
            None => text_in(model(record), key@) is None,
        },
{
    match record {
        Some(node) => node.string_field(key),
        None => None,
    }
}

/// Whether a mapping that may be absent holds, under `key`, anything but null.
pub fn present_of(record: Option<&Node>, key: &str) -> (r: bool)
    ensures
        r == present_in(model(record), key@),
{
    match record {
        Some(node) => node.has_value(key),
        None => false,
    }
}

} // verus!
