//! The traversal driver.
//!
//! One walk function per node kind: it fires the matching hook, then walks
//! the node's children in declared order. Each function's contract says that
//! the visitor went through exactly the pre-order event sequence of the node
//! it was given; [`walk_document`] is the entry point that starts a walk at
//! the root.
use vstd::prelude::*;

use crate::ast::{
    Definition, Document, Field, FragmentDefinition, FragmentSpread, InlineFragment, Mutation,
    OperationDefinition, Query, Selection, SelectionSet, Subscription, Text, VariableDefinition,
};
use crate::events::{
    definition_events, definitions_events_upto, document_events, field_events,
    fragment_definition_events, fragment_spread_events, inline_fragment_events, mutation_events,
    operation_definition_events, query_events, selection_events, selection_set_events,
    selections_events_upto, subscription_events, variable_definition_events,
    variable_definitions_events_upto, Event,
};
use crate::visitor::{lemma_visits_concat, lemma_visits_one, visits, QueryVisitor};

verus! {

/// Walk a whole document: fire the document hook, then walk each definition
/// in declared order. This is how a walk is started.
pub fn walk_document<'ast, T: Text, V: QueryVisitor<'ast, T>>(
    visitor: &mut V,
    node: &'ast Document<T>,
)
    ensures
        visits(*old(visitor), document_events(node@), *final(visitor)),
{
    visitor.visit_document(node);
    proof {
        lemma_visits_one(*old(visitor), Event::Document(node@), *visitor);
        assert(seq![Event::Document(node@)] + definitions_events_upto(node@.definitions, 0int)
            =~= seq![Event::Document(node@)]);
    }
    let mut i: usize = 0;
    while i < node.definitions.len()
        invariant
            i <= node.definitions.len(),
            visits(
                *old(visitor),
                seq![Event::Document(node@)] + definitions_events_upto(
                    node@.definitions,
                    i as int,
                ),
                *visitor,
            ),
        decreases node.definitions.len() - i,
    {
        let ghost mid = *visitor;
        walk_definition(visitor, &node.definitions[i]);
        proof {
            lemma_visits_concat(
                *old(visitor),
                seq![Event::Document(node@)] + definitions_events_upto(node@.definitions, i as int),
                mid,
                definition_events(node@.definitions[i as int]),
                *visitor,
            );
            assert((seq![Event::Document(node@)] + definitions_events_upto(
                node@.definitions,
                i as int,
            )) + definition_events(node@.definitions[i as int]) =~= seq![Event::Document(node@)]
                + definitions_events_upto(node@.definitions, i as int + 1));
        }
        i = i + 1;
    }
}

/// Walk one definition: fire its hook, then walk whichever kind it holds.
pub fn walk_definition<'ast, T: Text, V: QueryVisitor<'ast, T>>(
    visitor: &mut V,
    node: &'ast Definition<T>,
)
    ensures
        visits(*old(visitor), definition_events(node@), *final(visitor)),
{
    visitor.visit_definition(node);
    proof {
        lemma_visits_one(*old(visitor), Event::Definition(node@), *visitor);
    }
    let ghost mid = *visitor;
    match node {
        Definition::Operation(inner) => {
            walk_operation_definition(visitor, inner);
            proof {
                lemma_visits_concat(
                    *old(visitor),
                    seq![Event::Definition(node@)],
                    mid,
                    operation_definition_events(inner@),
                    *visitor,
                );
            }
        },
        Definition::Fragment(inner) => {
            walk_fragment_definition(visitor, inner);
            proof {
                lemma_visits_concat(
                    *old(visitor),
                    seq![Event::Definition(node@)],
                    mid,
                    fragment_definition_events(inner@),
                    *visitor,
                );
            }
        },
    }
}

/// Walk a fragment definition: fire its hook, then walk its selection set.
pub fn walk_fragment_definition<'ast, T: Text, V: QueryVisitor<'ast, T>>(
    visitor: &mut V,
    node: &'ast FragmentDefinition<T>,
)
    ensures
        visits(*old(visitor), fragment_definition_events(node@), *final(visitor)),
{
    visitor.visit_fragment_definition(node);
    proof {
        lemma_visits_one(*old(visitor), Event::FragmentDefinition(node@), *visitor);
    }
    let ghost mid = *visitor;
    walk_selection_set(visitor, &node.selection_set);
    proof {
        lemma_visits_concat(
            *old(visitor),
            seq![Event::FragmentDefinition(node@)],
            mid,
            selection_set_events(node@.selection_set),
            *visitor,
        );
    }
}

/// Walk one operation definition: fire its hook, then walk whichever form
/// of operation it holds.
pub fn walk_operation_definition<'ast, T: Text, V: QueryVisitor<'ast, T>>(
    visitor: &mut V,
    node: &'ast OperationDefinition<T>,
)
    ensures
        visits(*old(visitor), operation_definition_events(node@), *final(visitor)),
{
    visitor.visit_operation_definition(node);
    proof {
        lemma_visits_one(*old(visitor), Event::OperationDefinition(node@), *visitor);
    }
    let ghost mid = *visitor;
    match node {
        OperationDefinition::SelectionSet(inner) => {
            walk_selection_set(visitor, inner);
            proof {
                lemma_visits_concat(
                    *old(visitor),
                    seq![Event::OperationDefinition(node@)],
                    mid,
                    selection_set_events(inner@),
                    *visitor,
                );
            }
        },
        OperationDefinition::Query(inner) => {
            walk_query(visitor, inner);
            proof {
                lemma_visits_concat(
                    *old(visitor),
                    seq![Event::OperationDefinition(node@)],
                    mid,
                    query_events(inner@),
                    *visitor,
                );
            }
        },
        OperationDefinition::Mutation(inner) => {
            walk_mutation(visitor, inner);
            proof {
                lemma_visits_concat(
                    *old(visitor),
                    seq![Event::OperationDefinition(node@)],
                    mid,
                    mutation_events(inner@),
                    *visitor,
                );
            }
        },
        OperationDefinition::Subscription(inner) => {
            walk_subscription(visitor, inner);
            proof {
                lemma_visits_concat(
                    *old(visitor),
                    seq![Event::OperationDefinition(node@)],
                    mid,
                    subscription_events(inner@),
                    *visitor,
                );
            }
        },
    }
}

/// Walk a query operation: fire its hook, walk its variable definitions in
/// declared order, then walk its selection set.
pub fn walk_query<'ast, T: Text, V: QueryVisitor<'ast, T>>(visitor: &mut V, node: &'ast Query<T>)
    ensures
        visits(*old(visitor), query_events(node@), *final(visitor)),
{
    visitor.visit_query(node);
    proof {
        lemma_visits_one(*old(visitor), Event::Query(node@), *visitor);
        assert(seq![Event::Query(node@)] + variable_definitions_events_upto(
            node@.variable_definitions,
            0int,
        ) =~= seq![Event::Query(node@)]);
    }
    let mut i: usize = 0;
    while i < node.variable_definitions.len()
        invariant
            i <= node.variable_definitions.len(),
            visits(
                *old(visitor),
                seq![Event::Query(node@)] + variable_definitions_events_upto(
                    node@.variable_definitions,
                    i as int,
                ),
                *visitor,
            ),
        decreases node.variable_definitions.len() - i,
    {
        let ghost mid = *visitor;
        walk_variable_definition(visitor, &node.variable_definitions[i]);
        proof {
            lemma_visits_concat(
                *old(visitor),
                seq![Event::Query(node@)] + variable_definitions_events_upto(
                    node@.variable_definitions,
                    i as int,
                ),
                mid,
                variable_definition_events(node@.variable_definitions[i as int]),
                *visitor,
            );
            assert((seq![Event::Query(node@)] + variable_definitions_events_upto(
                node@.variable_definitions,
                i as int,
            )) + variable_definition_events(node@.variable_definitions[i as int])
                =~= seq![Event::Query(node@)] + variable_definitions_events_upto(
                node@.variable_definitions,
                i as int + 1,
            ));
        }
        i = i + 1;
    }
    let ghost mid = *visitor;
    walk_selection_set(visitor, &node.selection_set);
    proof {
        lemma_visits_concat(
            *old(visitor),
            seq![Event::Query(node@)] + variable_definitions_events_upto(
                node@.variable_definitions,
                node@.variable_definitions.len() as int,
            ),
            mid,
            selection_set_events(node@.selection_set),
            *visitor,
        );
    }
}

/// Walk a mutation operation: fire its hook, walk its variable definitions
/// in declared order, then walk its selection set.
pub fn walk_mutation<'ast, T: Text, V: QueryVisitor<'ast, T>>(
    visitor: &mut V,
    node: &'ast Mutation<T>,
)
    ensures
        visits(*old(visitor), mutation_events(node@), *final(visitor)),
{
    visitor.visit_mutation(node);
    proof {
        lemma_visits_one(*old(visitor), Event::Mutation(node@), *visitor);
        assert(seq![Event::Mutation(node@)] + variable_definitions_events_upto(
            node@.variable_definitions,
            0int,
        ) =~= seq![Event::Mutation(node@)]);
    }
    let mut i: usize = 0;
    while i < node.variable_definitions.len()
        invariant
            i <= node.variable_definitions.len(),
            visits(
                *old(visitor),
                seq![Event::Mutation(node@)] + variable_definitions_events_upto(
                    node@.variable_definitions,
                    i as int,
                ),
                *visitor,
            ),
        decreases node.variable_definitions.len() - i,
    {
        let ghost mid = *visitor;
        walk_variable_definition(visitor, &node.variable_definitions[i]);
        proof {
            lemma_visits_concat(
                *old(visitor),
                seq![Event::Mutation(node@)] + variable_definitions_events_upto(
                    node@.variable_definitions,
                    i as int,
                ),
                mid,
                variable_definition_events(node@.variable_definitions[i as int]),
                *visitor,
            );
            assert((seq![Event::Mutation(node@)] + variable_definitions_events_upto(
                node@.variable_definitions,
                i as int,
            )) + variable_definition_events(node@.variable_definitions[i as int])
                =~= seq![Event::Mutation(node@)] + variable_definitions_events_upto(
                node@.variable_definitions,
                i as int + 1,
            ));
        }
        i = i + 1;
    }
    let ghost mid = *visitor;
    walk_selection_set(visitor, &node.selection_set);
    proof {
        lemma_visits_concat(
            *old(visitor),
            seq![Event::Mutation(node@)] + variable_definitions_events_upto(
                node@.variable_definitions,
                node@.variable_definitions.len() as int,
            ),
            mid,
            selection_set_events(node@.selection_set),
            *visitor,
        );
    }
}

/// Walk a subscription operation: fire its hook, walk its variable
/// definitions in declared order, then walk its selection set.
pub fn walk_subscription<'ast, T: Text, V: QueryVisitor<'ast, T>>(
    visitor: &mut V,
    node: &'ast Subscription<T>,
)
    ensures
        visits(*old(visitor), subscription_events(node@), *final(visitor)),
{
    visitor.visit_subscription(node);
    proof {
        lemma_visits_one(*old(visitor), Event::Subscription(node@), *visitor);
        assert(seq![Event::Subscription(node@)] + variable_definitions_events_upto(
            node@.variable_definitions,
            0int,
        ) =~= seq![Event::Subscription(node@)]);
    }
    let mut i: usize = 0;
    while i < node.variable_definitions.len()
        invariant
            i <= node.variable_definitions.len(),
            visits(
                *old(visitor),
                seq![Event::Subscription(node@)] + variable_definitions_events_upto(
                    node@.variable_definitions,
                    i as int,
                ),
                *visitor,
            ),
        decreases node.variable_definitions.len() - i,
    {
        let ghost mid = *visitor;
        walk_variable_definition(visitor, &node.variable_definitions[i]);
        proof {
            lemma_visits_concat(
                *old(visitor),
                seq![Event::Subscription(node@)] + variable_definitions_events_upto(
                    node@.variable_definitions,
                    i as int,
                ),
                mid,
                variable_definition_events(node@.variable_definitions[i as int]),
                *visitor,
            );
            assert((seq![Event::Subscription(node@)] + variable_definitions_events_upto(
                node@.variable_definitions,
                i as int,
            )) + variable_definition_events(node@.variable_definitions[i as int])
                =~= seq![Event::Subscription(node@)] + variable_definitions_events_upto(
                node@.variable_definitions,
                i as int + 1,
            ));
        }
        i = i + 1;
    }
    let ghost mid = *visitor;
    walk_selection_set(visitor, &node.selection_set);
    proof {
        lemma_visits_concat(
            *old(visitor),
            seq![Event::Subscription(node@)] + variable_definitions_events_upto(
                node@.variable_definitions,
                node@.variable_definitions.len() as int,
            ),
            mid,
            selection_set_events(node@.selection_set),
            *visitor,
        );
    }
}

/// Walk a selection set: fire its hook, then walk each selection in
/// declared order.
pub fn walk_selection_set<'ast, T: Text, V: QueryVisitor<'ast, T>>(
    visitor: &mut V,
    node: &'ast SelectionSet<T>,
)
    ensures
        visits(*old(visitor), selection_set_events(node@), *final(visitor)),
    decreases *node,
{
    visitor.visit_selection_set(node);
    proof {
        lemma_visits_one(*old(visitor), Event::SelectionSet(node@), *visitor);
        assert(seq![Event::SelectionSet(node@)] + selections_events_upto(node@.items, 0int)
            =~= seq![Event::SelectionSet(node@)]);
    }
    let mut i: usize = 0;
    while i < node.items.len()
        invariant
            i <= node.items.len(),
            visits(
                *old(visitor),
                seq![Event::SelectionSet(node@)] + selections_events_upto(node@.items, i as int),
                *visitor,
            ),
        decreases node.items.len() - i,
    {
        let ghost mid = *visitor;
        walk_selection(visitor, &node.items[i]);
        proof {
            lemma_visits_concat(
                *old(visitor),
                seq![Event::SelectionSet(node@)] + selections_events_upto(node@.items, i as int),
                mid,
                selection_events(node@.items[i as int]),
                *visitor,
            );
            assert((seq![Event::SelectionSet(node@)] + selections_events_upto(
                node@.items,
                i as int,
            )) + selection_events(node@.items[i as int]) =~= seq![Event::SelectionSet(node@)]
                + selections_events_upto(node@.items, i as int + 1));
        }
        i = i + 1;
    }
}

/// Walk one declared variable: fire its hook; it has no children.
pub fn walk_variable_definition<'ast, T: Text, V: QueryVisitor<'ast, T>>(
    visitor: &mut V,
    node: &'ast VariableDefinition<T>,
)
    ensures
        visits(*old(visitor), variable_definition_events(node@), *final(visitor)),
{
    visitor.visit_variable_definition(node);
    proof {
        lemma_visits_one(*old(visitor), Event::VariableDefinition(node@), *visitor);
    }
}

/// Walk one selection: fire its hook, then walk whichever kind it holds.
pub fn walk_selection<'ast, T: Text, V: QueryVisitor<'ast, T>>(
    visitor: &mut V,
    node: &'ast Selection<T>,
)
    ensures
        visits(*old(visitor), selection_events(node@), *final(visitor)),
    decreases *node,
{
    visitor.visit_selection(node);
    proof {
        lemma_visits_one(*old(visitor), Event::Selection(node@), *visitor);
    }
    let ghost mid = *visitor;
    match node {
        Selection::Field(inner) => {
            walk_field(visitor, inner);
            proof {
                lemma_visits_concat(
                    *old(visitor),
                    seq![Event::Selection(node@)],
                    mid,
                    field_events(inner@),
                    *visitor,
                );
            }
        },
        Selection::FragmentSpread(inner) => {
            walk_fragment_spread(visitor, inner);
            proof {
                lemma_visits_concat(
                    *old(visitor),
                    seq![Event::Selection(node@)],
                    mid,
                    fragment_spread_events(inner@),
                    *visitor,
                );
            }
        },
        Selection::InlineFragment(inner) => {
            walk_inline_fragment(visitor, inner);
            proof {
                lemma_visits_concat(
                    *old(visitor),
                    seq![Event::Selection(node@)],
                    mid,
                    inline_fragment_events(inner@),
                    *visitor,
                );
            }
        },
    }
}

/// Walk a field: fire its hook, then walk its own selection set (empty for
/// a leaf field).
pub fn walk_field<'ast, T: Text, V: QueryVisitor<'ast, T>>(visitor: &mut V, node: &'ast Field<T>)
    ensures
        visits(*old(visitor), field_events(node@), *final(visitor)),
    decreases *node,
{
    visitor.visit_field(node);
    proof {
        lemma_visits_one(*old(visitor), Event::Field(node@), *visitor);
    }
    let ghost mid = *visitor;
    walk_selection_set(visitor, &node.selection_set);
    proof {
        lemma_visits_concat(
            *old(visitor),
            seq![Event::Field(node@)],
            mid,
            selection_set_events(node@.selection_set),
            *visitor,
        );
    }
}

/// Walk a fragment spread: fire its hook; it has no children.
pub fn walk_fragment_spread<'ast, T: Text, V: QueryVisitor<'ast, T>>(
    visitor: &mut V,
    node: &'ast FragmentSpread<T>,
)
    ensures
        visits(*old(visitor), fragment_spread_events(node@), *final(visitor)),
{
    visitor.visit_fragment_spread(node);
    proof {
        lemma_visits_one(*old(visitor), Event::FragmentSpread(node@), *visitor);
    }
}

/// Walk an inline fragment: fire its hook, then walk its selection set.
pub fn walk_inline_fragment<'ast, T: Text, V: QueryVisitor<'ast, T>>(
    visitor: &mut V,
    node: &'ast InlineFragment<T>,
)
    ensures
        visits(*old(visitor), inline_fragment_events(node@), *final(visitor)),
    decreases *node,
{
    visitor.visit_inline_fragment(node);
    proof {
        lemma_visits_one(*old(visitor), Event::InlineFragment(node@), *visitor);
    }
    let ghost mid = *visitor;
    walk_selection_set(visitor, &node.selection_set);
    proof {
        lemma_visits_concat(
            *old(visitor),
            seq![Event::InlineFragment(node@)],
            mid,
            selection_set_events(node@.selection_set),
            *visitor,
        );
    }
}

} // verus!
