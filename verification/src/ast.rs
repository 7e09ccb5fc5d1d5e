//! The query syntax tree that the walker traverses.
//!
//! The tree is built elsewhere (by a parser or by hand) and is only read here:
//! the walker borrows nodes and never moves or mutates them. Every container
//! keeps declaration order, and that order is what the traversal follows.
//!
//! Nodes are generic over the text representation `T` used for names, so the
//! same tree shape works whether names are owned strings, borrowed slices, or
//! any other type with the small [`Text`] capability.
use vstd::prelude::*;

verus! {

/// The capability a name-like type must offer: a mathematical view of its
/// characters, and a way to copy a name out of a borrowed node.
pub trait Text: Sized {
    /// The characters of this piece of text, as seen by specifications.
    spec fn text(&self) -> Seq<char>;

    /// Copy this piece of text; the copy reads the same.
    fn clone_text(&self) -> (r: Self)
        ensures
            r.text() == self.text(),
    ;
}

impl Text for String {
    open spec fn text(&self) -> Seq<char> {
        self@
    }

    fn clone_text(&self) -> (r: Self) {
        self.clone()
    }
}

impl<'a> Text for &'a str {
    open spec fn text(&self) -> Seq<char> {
        (*self)@
    }

    fn clone_text(&self) -> (r: Self) {
        *self
    }
}

/// A whole parsed query source: an ordered sequence of definitions.
pub struct Document<T> {
    pub definitions: Vec<Definition<T>>,
}

/// One top-level entry of a document.
pub enum Definition<T> {
    Operation(OperationDefinition<T>),
    Fragment(FragmentDefinition<T>),
}

/// A named, reusable selection; `fragment Name on Type { ... }`.
pub struct FragmentDefinition<T> {
    pub name: T,
    pub type_condition: T,
    pub selection_set: SelectionSet<T>,
}

/// One operation: either a bare selection set or a typed operation.
pub enum OperationDefinition<T> {
    SelectionSet(SelectionSet<T>),
    Query(Query<T>),
    Mutation(Mutation<T>),
    Subscription(Subscription<T>),
}

/// A `query` operation with its declared variables.
pub struct Query<T> {
    pub name: Option<T>,
    pub variable_definitions: Vec<VariableDefinition<T>>,
    pub selection_set: SelectionSet<T>,
}

/// A `mutation` operation with its declared variables.
pub struct Mutation<T> {
    pub name: Option<T>,
    pub variable_definitions: Vec<VariableDefinition<T>>,
    pub selection_set: SelectionSet<T>,
}

/// A `subscription` operation with its declared variables.
pub struct Subscription<T> {
    pub name: Option<T>,
    pub variable_definitions: Vec<VariableDefinition<T>>,
    pub selection_set: SelectionSet<T>,
}

/// A `{ ... }` block: an ordered sequence of selections.
pub struct SelectionSet<T> {
    pub items: Vec<Selection<T>>,
}

/// One declared variable of an operation; a leaf of the traversal.
pub struct VariableDefinition<T> {
    pub name: T,
}

/// One entry inside a selection set.
pub enum Selection<T> {
    Field(Field<T>),
    FragmentSpread(FragmentSpread<T>),
    InlineFragment(InlineFragment<T>),
}

/// A requested field; its own selection set is empty for a leaf field.
pub struct Field<T> {
    pub name: T,
    pub selection_set: SelectionSet<T>,
}

/// A `...Name` reference to a fragment definition; a leaf of the traversal.
pub struct FragmentSpread<T> {
    pub fragment_name: T,
}

/// A `... on Type { ... }` block.
pub struct InlineFragment<T> {
    pub type_condition: Option<T>,
    pub selection_set: SelectionSet<T>,
}

} // verus!
