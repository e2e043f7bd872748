//! A structured configuration value: the data model of a YAML document.
use vstd::prelude::*;

verus! {

/// One configuration value. Numbers keep their textual form, so that any
/// numeric literal survives a round trip unchanged.
#[derive(Debug, PartialEq)]
pub enum Node {
    Null,
    Bool(bool),
    Number(String),
    Str(String),
    List(Vec<Node>),
    Mapping(Vec<(Node, Node)>),
    Tagged(String, Box<Node>),
}

/// The entries of a mapping, in order; any other value has none.
pub open spec fn entries_of(n: Node) -> Seq<(Node, Node)> {
    match n {
        Node::Mapping(es) => es@,
        _ => Seq::empty(),
    }
}

/// `k` is the string key `name`.
pub open spec fn is_key(k: Node, name: Seq<char>) -> bool {
    match k {
        Node::Str(s) => s@ == name,
        _ => false,
    }
}

/// Tests whether `k` is a string key equal to `name`.
pub fn key_is(k: &Node, name: &String) -> (r: bool)
    ensures
        r == is_key(*k, name@),
{
    match k {
        Node::Str(s) => *s == *name,
        _ => false,
    }
}

} // verus!
