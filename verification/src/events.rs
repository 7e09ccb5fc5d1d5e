//! The pre-order event sequence of a tree.
//!
//! A walk over a tree fires exactly one hook per node, each hook strictly
//! before the hooks of the node's descendants, and sibling subtrees in
//! declared order. These functions write that order down as a sequence of
//! [`Event`]s, one per node, over the views of [`crate::views`]. The walker's
//! contract promises that the visitor went through exactly this sequence.
use vstd::prelude::*;

use crate::views::{
    DefinitionView, DocumentView, FieldView, FragmentDefinitionView, FragmentSpreadView,
    InlineFragmentView, MutationView, OperationDefinitionView, QueryView, SelectionSetView,
    SelectionView, SubscriptionView, VariableDefinitionView,
};

verus! {

/// One hook invocation: which hook fired, and the view of the node it saw.
pub enum Event {
    Document(DocumentView),
    Definition(DefinitionView),
    FragmentDefinition(FragmentDefinitionView),
    OperationDefinition(OperationDefinitionView),
    Query(QueryView),
    Mutation(MutationView),
    Subscription(SubscriptionView),
    SelectionSet(SelectionSetView),
    VariableDefinition(VariableDefinitionView),
    Selection(SelectionView),
    Field(FieldView),
    FragmentSpread(FragmentSpreadView),
    InlineFragment(InlineFragmentView),
}

/// Events of a whole document: the document's own event, then those of its
/// definitions in declared order.
pub open spec fn document_events(d: DocumentView) -> Seq<Event> {
    seq![Event::Document(d)] + definitions_events_upto(d.definitions, d.definitions.len() as int)
}

/// Events of the first `j` definitions, in declared order.
pub open spec fn definitions_events_upto(defs: Seq<DefinitionView>, j: int) -> Seq<Event>
    decreases j,
{
    if 0 < j <= defs.len() {
        definitions_events_upto(defs, j - 1) + definition_events(defs[j - 1])
    } else {
        Seq::empty()
    }
}

pub open spec fn definition_events(d: DefinitionView) -> Seq<Event> {
    seq![Event::Definition(d)] + match d {
        DefinitionView::Operation(op) => operation_definition_events(op),
        DefinitionView::Fragment(f) => fragment_definition_events(f),
    }
}

pub open spec fn fragment_definition_events(f: FragmentDefinitionView) -> Seq<Event> {
    seq![Event::FragmentDefinition(f)] + selection_set_events(f.selection_set)
}

pub open spec fn operation_definition_events(op: OperationDefinitionView) -> Seq<Event> {
    seq![Event::OperationDefinition(op)] + match op {
        OperationDefinitionView::SelectionSet(s) => selection_set_events(s),
        OperationDefinitionView::Query(q) => query_events(q),
        OperationDefinitionView::Mutation(m) => mutation_events(m),
        OperationDefinitionView::Subscription(s) => subscription_events(s),
    }
}

pub open spec fn query_events(q: QueryView) -> Seq<Event> {
    seq![Event::Query(q)]
        + variable_definitions_events_upto(q.variable_definitions, q.variable_definitions.len() as int)
        + selection_set_events(q.selection_set)
}

pub open spec fn mutation_events(m: MutationView) -> Seq<Event> {
    seq![Event::Mutation(m)]
        + variable_definitions_events_upto(m.variable_definitions, m.variable_definitions.len() as int)
        + selection_set_events(m.selection_set)
}

pub open spec fn subscription_events(s: SubscriptionView) -> Seq<Event> {
    seq![Event::Subscription(s)]
        + variable_definitions_events_upto(s.variable_definitions, s.variable_definitions.len() as int)
        + selection_set_events(s.selection_set)
}

/// Events of the first `j` variable definitions, in declared order.
pub open spec fn variable_definitions_events_upto(vds: Seq<VariableDefinitionView>, j: int) -> Seq<Event>
    decreases j,
{
    if 0 < j <= vds.len() {
        variable_definitions_events_upto(vds, j - 1) + variable_definition_events(vds[j - 1])
    } else {
        Seq::empty()
    }
}

pub open spec fn variable_definition_events(v: VariableDefinitionView) -> Seq<Event> {
    seq![Event::VariableDefinition(v)]
}

pub open spec fn selection_set_events(s: SelectionSetView) -> Seq<Event>
    decreases s, 0int,
{
    seq![Event::SelectionSet(s)] + selections_events_upto(s.items, s.items.len() as int)
}

/// Events of the first `j` selections, in declared order.
pub open spec fn selections_events_upto(items: Seq<SelectionView>, j: int) -> Seq<Event>
    decreases items, j,
{
    if 0 < j <= items.len() {
        selections_events_upto(items, j - 1) + selection_events(items[j - 1])
    } else {
        Seq::empty()
    }
}

pub open spec fn selection_events(s: SelectionView) -> Seq<Event>
    decreases s, 0int,
{
    seq![Event::Selection(s)] + match s {
        SelectionView::Field(f) => field_events(f),
        SelectionView::FragmentSpread(f) => fragment_spread_events(f),
        SelectionView::InlineFragment(f) => inline_fragment_events(f),
    }
}

pub open spec fn field_events(f: FieldView) -> Seq<Event>
    decreases f, 0int,
{
    seq![Event::Field(f)] + selection_set_events(f.selection_set)
}

pub open spec fn fragment_spread_events(f: FragmentSpreadView) -> Seq<Event> {
    seq![Event::FragmentSpread(f)]
}

pub open spec fn inline_fragment_events(f: InlineFragmentView) -> Seq<Event>
    decreases f, 0int,
{
    seq![Event::InlineFragment(f)] + selection_set_events(f.selection_set)
}

/// The number of nodes of a document: itself and all its descendants.
pub open spec fn document_node_count(d: DocumentView) -> nat {
    1 + definitions_node_count_upto(d.definitions, d.definitions.len() as int)
}

pub open spec fn definitions_node_count_upto(defs: Seq<DefinitionView>, j: int) -> nat
    decreases j,
{
    if 0 < j <= defs.len() {
        definitions_node_count_upto(defs, j - 1) + definition_node_count(defs[j - 1])
    } else {
        0
    }
}

pub open spec fn definition_node_count(d: DefinitionView) -> nat {
    1 + match d {
        DefinitionView::Operation(op) => operation_definition_node_count(op),
        DefinitionView::Fragment(f) => fragment_definition_node_count(f),
    }
}

pub open spec fn fragment_definition_node_count(f: FragmentDefinitionView) -> nat {
    1 + selection_set_node_count(f.selection_set)
}

pub open spec fn operation_definition_node_count(op: OperationDefinitionView) -> nat {
    1 + match op {
        OperationDefinitionView::SelectionSet(s) => selection_set_node_count(s),
        OperationDefinitionView::Query(q) => query_node_count(q),
        OperationDefinitionView::Mutation(m) => mutation_node_count(m),
        OperationDefinitionView::Subscription(s) => subscription_node_count(s),
    }
}

pub open spec fn query_node_count(q: QueryView) -> nat {
    1 + q.variable_definitions.len() + selection_set_node_count(q.selection_set)
}

pub open spec fn mutation_node_count(m: MutationView) -> nat {
    1 + m.variable_definitions.len() + selection_set_node_count(m.selection_set)
}

pub open spec fn subscription_node_count(s: SubscriptionView) -> nat {
    1 + s.variable_definitions.len() + selection_set_node_count(s.selection_set)
}

pub open spec fn selection_set_node_count(s: SelectionSetView) -> nat
    decreases s, 0int,
{
    1 + selections_node_count_upto(s.items, s.items.len() as int)
}

pub open spec fn selections_node_count_upto(items: Seq<SelectionView>, j: int) -> nat
    decreases items, j,
{
    if 0 < j <= items.len() {
        selections_node_count_upto(items, j - 1) + selection_node_count(items[j - 1])
    } else {
        0
    }
}

pub open spec fn selection_node_count(s: SelectionView) -> nat
    decreases s, 0int,
{
    1 + match s {
        SelectionView::Field(f) => field_node_count(f),
        SelectionView::FragmentSpread(_) => 1,
        SelectionView::InlineFragment(f) => inline_fragment_node_count(f),
    }
}

pub open spec fn field_node_count(f: FieldView) -> nat
    decreases f, 0int,
{
    1 + selection_set_node_count(f.selection_set)
}

pub open spec fn inline_fragment_node_count(f: InlineFragmentView) -> nat
    decreases f, 0int,
{
    1 + selection_set_node_count(f.selection_set)
}

/// A walk fires one hook per node: the event sequence of a document has
/// exactly as many entries as the document has nodes — no node is skipped
/// and none is visited twice.
pub proof fn lemma_document_events_len(d: DocumentView)
    ensures
        document_events(d).len() == document_node_count(d),
{
    lemma_definitions_events_upto_len(d.definitions, d.definitions.len() as int);
}

pub proof fn lemma_definitions_events_upto_len(defs: Seq<DefinitionView>, j: int)
    ensures
        definitions_events_upto(defs, j).len() == definitions_node_count_upto(defs, j),
    decreases j,
{
    if 0 < j <= defs.len() {
        lemma_definitions_events_upto_len(defs, j - 1);
        lemma_definition_events_len(defs[j - 1]);
    }
}

pub proof fn lemma_definition_events_len(d: DefinitionView)
    ensures
        definition_events(d).len() == definition_node_count(d),
{
    match d {
        DefinitionView::Operation(op) => {
            lemma_operation_definition_events_len(op);
        },
        DefinitionView::Fragment(f) => {
            lemma_selection_set_events_len(f.selection_set);
        },
    }
}

pub proof fn lemma_operation_definition_events_len(op: OperationDefinitionView)
    ensures
        operation_definition_events(op).len() == operation_definition_node_count(op),
{
    match op {
        OperationDefinitionView::SelectionSet(s) => {
            lemma_selection_set_events_len(s);
        },
        OperationDefinitionView::Query(q) => {
            lemma_variable_definitions_events_upto_len(
                q.variable_definitions,
                q.variable_definitions.len() as int,
            );
            lemma_selection_set_events_len(q.selection_set);
        },
        OperationDefinitionView::Mutation(m) => {
            lemma_variable_definitions_events_upto_len(
                m.variable_definitions,
                m.variable_definitions.len() as int,
            );
            lemma_selection_set_events_len(m.selection_set);
        },
        OperationDefinitionView::Subscription(s) => {
            lemma_variable_definitions_events_upto_len(
                s.variable_definitions,
                s.variable_definitions.len() as int,
            );
            lemma_selection_set_events_len(s.selection_set);
        },
    }
}

pub proof fn lemma_variable_definitions_events_upto_len(vds: Seq<VariableDefinitionView>, j: int)
    ensures
        variable_definitions_events_upto(vds, j).len() == if 0 <= j <= vds.len() {
            j
        } else {
            0
        },
    decreases j,
{
    if 0 < j <= vds.len() {
        lemma_variable_definitions_events_upto_len(vds, j - 1);
    }
}

pub proof fn lemma_selection_set_events_len(s: SelectionSetView)
    ensures
        selection_set_events(s).len() == selection_set_node_count(s),
    decreases s, 0int,
{
    lemma_selections_events_upto_len(s.items, s.items.len() as int);
}

pub proof fn lemma_selections_events_upto_len(items: Seq<SelectionView>, j: int)
    ensures
        selections_events_upto(items, j).len() == selections_node_count_upto(items, j),
    decreases items, j,
{
    if 0 < j <= items.len() {
        lemma_selections_events_upto_len(items, j - 1);
        lemma_selection_events_len(items[j - 1]);
    }
}

pub proof fn lemma_selection_events_len(s: SelectionView)
    ensures
        selection_events(s).len() == selection_node_count(s),
    decreases s, 0int,
{
    match s {
        SelectionView::Field(f) => {
            lemma_selection_set_events_len(f.selection_set);
        },
        SelectionView::FragmentSpread(_) => {},
        SelectionView::InlineFragment(f) => {
            lemma_selection_set_events_len(f.selection_set);
        },
    }
}

/// Pre-order at an inline fragment: its own event comes first, and
/// everything after it is exactly the events of its nested selection set.
/// So the inline fragment's hook fires strictly before every hook that
/// belongs to a node inside that selection set.
pub proof fn lemma_inline_fragment_preorder(f: InlineFragmentView)
    ensures
        inline_fragment_events(f).len() >= 1,
        inline_fragment_events(f)[0] == Event::InlineFragment(f),
        inline_fragment_events(f).skip(1) == selection_set_events(f.selection_set),
{
    assert(inline_fragment_events(f).skip(1) =~= selection_set_events(f.selection_set));
}

/// Pre-order at a field: its own event comes first, then the events of its
/// own selection set.
pub proof fn lemma_field_preorder(f: FieldView)
    ensures
        field_events(f).len() >= 1,
        field_events(f)[0] == Event::Field(f),
        field_events(f).skip(1) == selection_set_events(f.selection_set),
{
    assert(field_events(f).skip(1) =~= selection_set_events(f.selection_set));
}

/// Pre-order at the root: the document's own event comes first.
pub proof fn lemma_document_preorder(d: DocumentView)
    ensures
        document_events(d).len() >= 1,
        document_events(d)[0] == Event::Document(d),
        document_events(d).skip(1) == definitions_events_upto(
            d.definitions,
            d.definitions.len() as int,
        ),
{
    assert(document_events(d).skip(1) =~= definitions_events_upto(
        d.definitions,
        d.definitions.len() as int,
    ));
}

} // verus!
