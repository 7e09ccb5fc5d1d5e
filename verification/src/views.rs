//! Mathematical views of the syntax tree.
//!
//! Each node type of [`crate::ast`] has a view type here in which every
//! container is a [`Seq`] and every name is its character sequence. Contracts
//! and lemmas speak of these views, never of the executable nodes themselves.
use vstd::prelude::*;

use crate::ast::{
    Definition, Document, Field, FragmentDefinition, FragmentSpread, InlineFragment, Mutation,
    OperationDefinition, Query, Selection, SelectionSet, Subscription, Text, VariableDefinition,
};

verus! {

pub struct DocumentView {
    pub definitions: Seq<DefinitionView>,
}

pub enum DefinitionView {
    Operation(OperationDefinitionView),
    Fragment(FragmentDefinitionView),
}

pub struct FragmentDefinitionView {
    pub name: Seq<char>,
    pub type_condition: Seq<char>,
    pub selection_set: SelectionSetView,
}

pub enum OperationDefinitionView {
    SelectionSet(SelectionSetView),
    Query(QueryView),
    Mutation(MutationView),
    Subscription(SubscriptionView),
}

pub struct QueryView {
    pub name: Option<Seq<char>>,
    pub variable_definitions: Seq<VariableDefinitionView>,
    pub selection_set: SelectionSetView,
}

pub struct MutationView {
    pub name: Option<Seq<char>>,
    pub variable_definitions: Seq<VariableDefinitionView>,
    pub selection_set: SelectionSetView,
}

pub struct SubscriptionView {
    pub name: Option<Seq<char>>,
    pub variable_definitions: Seq<VariableDefinitionView>,
    pub selection_set: SelectionSetView,
}

pub struct SelectionSetView {
    pub items: Seq<SelectionView>,
}

pub struct VariableDefinitionView {
    pub name: Seq<char>,
}

pub enum SelectionView {
    Field(FieldView),
    FragmentSpread(FragmentSpreadView),
    InlineFragment(InlineFragmentView),
}

pub struct FieldView {
    pub name: Seq<char>,
    pub selection_set: SelectionSetView,
}

pub struct FragmentSpreadView {
    pub fragment_name: Seq<char>,
}

pub struct InlineFragmentView {
    pub type_condition: Option<Seq<char>>,
    pub selection_set: SelectionSetView,
}

pub open spec fn view_option_name<T: Text>(name: Option<T>) -> Option<Seq<char>> {
    match name {
        Option::Some(n) => Option::Some(n.text()),
        Option::None => Option::None,
    }
}

pub open spec fn view_document<T: Text>(d: Document<T>) -> DocumentView
    decreases d,
{
    DocumentView {
        definitions: Seq::new(d.definitions@.len(), |i: int| view_definition(d.definitions@[i])),
    }
}

pub open spec fn view_definition<T: Text>(d: Definition<T>) -> DefinitionView
    decreases d,
{
    match d {
        Definition::Operation(op) => DefinitionView::Operation(view_operation_definition(op)),
        Definition::Fragment(f) => DefinitionView::Fragment(view_fragment_definition(f)),
    }
}

pub open spec fn view_fragment_definition<T: Text>(f: FragmentDefinition<T>) -> FragmentDefinitionView
    decreases f,
{
    FragmentDefinitionView {
        name: f.name.text(),
        type_condition: f.type_condition.text(),
        selection_set: view_selection_set(f.selection_set),
    }
}

pub open spec fn view_operation_definition<T: Text>(op: OperationDefinition<T>) -> OperationDefinitionView
    decreases op,
{
    match op {
        OperationDefinition::SelectionSet(s) => OperationDefinitionView::SelectionSet(view_selection_set(s)),
        OperationDefinition::Query(q) => OperationDefinitionView::Query(view_query(q)),
        OperationDefinition::Mutation(m) => OperationDefinitionView::Mutation(view_mutation(m)),
        OperationDefinition::Subscription(s) => OperationDefinitionView::Subscription(view_subscription(s)),
    }
}

pub open spec fn view_query<T: Text>(q: Query<T>) -> QueryView
    decreases q,
{
    QueryView {
        name: view_option_name(q.name),
        variable_definitions: Seq::new(
            q.variable_definitions@.len(),
            |i: int| view_variable_definition(q.variable_definitions@[i]),
        ),
        selection_set: view_selection_set(q.selection_set),
    }
}

pub open spec fn view_mutation<T: Text>(m: Mutation<T>) -> MutationView
    decreases m,
{
    MutationView {
        name: view_option_name(m.name),
        variable_definitions: Seq::new(
            m.variable_definitions@.len(),
            |i: int| view_variable_definition(m.variable_definitions@[i]),
        ),
        selection_set: view_selection_set(m.selection_set),
    }
}

pub open spec fn view_subscription<T: Text>(s: Subscription<T>) -> SubscriptionView
    decreases s,
{
    SubscriptionView {
        name: view_option_name(s.name),
        variable_definitions: Seq::new(
            s.variable_definitions@.len(),
            |i: int| view_variable_definition(s.variable_definitions@[i]),
        ),
        selection_set: view_selection_set(s.selection_set),
    }
}

pub open spec fn view_selection_set<T: Text>(s: SelectionSet<T>) -> SelectionSetView
    decreases s,
{
    SelectionSetView {
        items: Seq::new(
            s.items@.len(),
            // The bounds test only serves the termination checker: a
            // recursive call is only made for indices inside the sequence.
            |i: int|
                if 0 <= i < s.items@.len() {
                    view_selection(s.items@[i])
                } else {
                    SelectionView::FragmentSpread(FragmentSpreadView { fragment_name: Seq::empty() })
                },
        ),
    }
}

pub open spec fn view_variable_definition<T: Text>(v: VariableDefinition<T>) -> VariableDefinitionView {
    VariableDefinitionView { name: v.name.text() }
}

pub open spec fn view_selection<T: Text>(s: Selection<T>) -> SelectionView
    decreases s,
{
    match s {
        Selection::Field(f) => SelectionView::Field(view_field(f)),
        Selection::FragmentSpread(f) => SelectionView::FragmentSpread(view_fragment_spread(f)),
        Selection::InlineFragment(f) => SelectionView::InlineFragment(view_inline_fragment(f)),
    }
}

pub open spec fn view_field<T: Text>(f: Field<T>) -> FieldView
    decreases f,
{
    FieldView { name: f.name.text(), selection_set: view_selection_set(f.selection_set) }
}

pub open spec fn view_fragment_spread<T: Text>(f: FragmentSpread<T>) -> FragmentSpreadView {
    FragmentSpreadView { fragment_name: f.fragment_name.text() }
}

pub open spec fn view_inline_fragment<T: Text>(f: InlineFragment<T>) -> InlineFragmentView
    decreases f,
{
    InlineFragmentView {
        type_condition: view_option_name(f.type_condition),
        selection_set: view_selection_set(f.selection_set),
    }
}

impl<T: Text> View for Document<T> {
    type V = DocumentView;

    open spec fn view(&self) -> DocumentView {
        view_document(*self)
    }
}

impl<T: Text> View for Definition<T> {
    type V = DefinitionView;

    open spec fn view(&self) -> DefinitionView {
        view_definition(*self)
    }
}

impl<T: Text> View for FragmentDefinition<T> {
    type V = FragmentDefinitionView;

    open spec fn view(&self) -> FragmentDefinitionView {
        view_fragment_definition(*self)
    }
}

impl<T: Text> View for OperationDefinition<T> {
    type V = OperationDefinitionView;

    open spec fn view(&self) -> OperationDefinitionView {
        view_operation_definition(*self)
    }
}

impl<T: Text> View for Query<T> {
    type V = QueryView;

    open spec fn view(&self) -> QueryView {
        view_query(*self)
    }
}

impl<T: Text> View for Mutation<T> {
    type V = MutationView;

    open spec fn view(&self) -> MutationView {
        view_mutation(*self)
    }
}

impl<T: Text> View for Subscription<T> {
    type V = SubscriptionView;

    open spec fn view(&self) -> SubscriptionView {
        view_subscription(*self)
    }
}

impl<T: Text> View for SelectionSet<T> {
    type V = SelectionSetView;

    open spec fn view(&self) -> SelectionSetView {
        view_selection_set(*self)
    }
}

impl<T: Text> View for VariableDefinition<T> {
    type V = VariableDefinitionView;

    open spec fn view(&self) -> VariableDefinitionView {
        view_variable_definition(*self)
    }
}

impl<T: Text> View for Selection<T> {
    type V = SelectionView;

    open spec fn view(&self) -> SelectionView {
        view_selection(*self)
    }
}

impl<T: Text> View for Field<T> {
    type V = FieldView;

    open spec fn view(&self) -> FieldView {
        view_field(*self)
    }
}

impl<T: Text> View for FragmentSpread<T> {
    type V = FragmentSpreadView;

    open spec fn view(&self) -> FragmentSpreadView {
        view_fragment_spread(*self)
    }
}

impl<T: Text> View for InlineFragment<T> {
    type V = InlineFragmentView;

    open spec fn view(&self) -> InlineFragmentView {
        view_inline_fragment(*self)
    }
}

} // verus!
