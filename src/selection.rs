use vstd::prelude::*;
use crate::value::Value;

verus! {

/// A named, optionally aliased node of a query tree, with its arguments
/// and its child nodes.
#[derive(Debug)]
pub struct Selection {
    pub name: String,
    pub alias: Option<String>,
    pub arguments: Vec<(String, Value)>,
    pub nested_selections: Vec<Selection>,
}

/// Accumulates the parts of a `Selection` before it is frozen.
#[derive(Debug)]
pub struct SelectionBuilder {
    pub name: String,
    pub alias: Option<String>,
    pub arguments: Vec<(String, Value)>,
    pub nested_selections: Vec<Selection>,
}

/// The unit handed to a query engine.
#[derive(Debug)]
pub enum Operation {
    Read(Selection),
    Write(Selection),
}

impl Selection {
    /// Starts a bare node named `name`.
    pub fn builder(name: String) -> (r: SelectionBuilder)
        ensures
            r.name == name,
            r.alias is None,
            r.arguments@ == Seq::<(String, Value)>::empty(),
            r.nested_selections@ == Seq::<Selection>::empty(),
    {
        SelectionBuilder {
            name,
            alias: None,
            arguments: Vec::new(),
            nested_selections: Vec::new(),
        }
    }
}

impl SelectionBuilder {
    /// Sets the key under which the engine reports this node.
    pub fn alias(&mut self, alias: String)
        ensures
            final(self).alias == Some(alias),
            final(self).name == old(self).name,
            final(self).arguments == old(self).arguments,
            final(self).nested_selections == old(self).nested_selections,
    {
        self.alias = Some(alias);
    }

    /// Appends one argument, after those already there.
    pub fn push_argument(&mut self, name: String, value: Value)
        ensures
            final(self).arguments@ == old(self).arguments@.push((name, value)),
            final(self).name == old(self).name,
            final(self).alias == old(self).alias,
            final(self).nested_selections == old(self).nested_selections,
    {
        self.arguments.push((name, value));
    }

    /// Appends child nodes, after those already there.
    pub fn nested_selections(&mut self, children: Vec<Selection>)
        ensures
            final(self).nested_selections@ == old(self).nested_selections@ + children@,
            final(self).name == old(self).name,
            final(self).alias == old(self).alias,
            final(self).arguments == old(self).arguments,
    {
        let mut children = children;
        self.nested_selections.append(&mut children);
    }

    /// Freezes the accumulated parts into a `Selection`.
    pub fn build(self) -> (r: Selection)
        ensures
            r.name == self.name,
            r.alias == self.alias,
            r.arguments == self.arguments,
            r.nested_selections == self.nested_selections,
    {
        Selection {
            name: self.name,
            alias: self.alias,
            arguments: self.arguments,
            nested_selections: self.nested_selections,
        }
    }
}

} // verus!
