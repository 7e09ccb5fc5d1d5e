//! The visitor capability and the meaning of a walk.
//!
//! A visitor declares, once, its transition relation [`QueryVisitor::hooked`]:
//! what one hook invocation may do to its state. Each hook method then
//! carries the obligation that it satisfies that relation for its own
//! [`Event`]. The walker's whole contract is the chain predicate [`visits`]:
//! the visitor it hands back is reachable from the visitor it was given by
//! one `hooked` step per event, in exactly the pre-order event sequence of
//! the tree.
//!
//! A hook must not assume it runs before or after any other hook except as
//! the event order of [`crate::events`] dictates, and nothing a hook does
//! can prune its subtree or stop the walk: the walker fires every event of
//! the sequence regardless of the visitor's state.
use vstd::prelude::*;

use crate::ast::{
    Definition, Document, Field, FragmentDefinition, FragmentSpread, InlineFragment, Mutation,
    OperationDefinition, Query, Selection, SelectionSet, Subscription, Text, VariableDefinition,
};
use crate::events::Event;

verus! {

/// The hook interface of a walk: one method per node kind.
///
/// Implementors choose a state type (`Self`), say in [`Self::hooked`] how one
/// hook invocation may change that state, and prove each hook against it. A
/// hook that should do nothing for some kind of event is written with an
/// empty body, and `hooked` lets the state stutter on that event.
pub trait QueryVisitor<'ast, T: Text>: Sized {
    /// What one hook invocation may do: relates the visitor's state before,
    /// the event fired, and the state after.
    spec fn hooked(pre: Self, e: Event, post: Self) -> bool;

    fn visit_document(&mut self, node: &'ast Document<T>)
        ensures
            Self::hooked(*old(self), Event::Document(node@), *final(self)),
    ;

    fn visit_definition(&mut self, node: &'ast Definition<T>)
        ensures
            Self::hooked(*old(self), Event::Definition(node@), *final(self)),
    ;

    fn visit_fragment_definition(&mut self, node: &'ast FragmentDefinition<T>)
        ensures
            Self::hooked(*old(self), Event::FragmentDefinition(node@), *final(self)),
    ;

    fn visit_operation_definition(&mut self, node: &'ast OperationDefinition<T>)
        ensures
            Self::hooked(*old(self), Event::OperationDefinition(node@), *final(self)),
    ;

    fn visit_query(&mut self, node: &'ast Query<T>)
        ensures
            Self::hooked(*old(self), Event::Query(node@), *final(self)),
    ;

    fn visit_mutation(&mut self, node: &'ast Mutation<T>)
        ensures
            Self::hooked(*old(self), Event::Mutation(node@), *final(self)),
    ;

    fn visit_subscription(&mut self, node: &'ast Subscription<T>)
        ensures
            Self::hooked(*old(self), Event::Subscription(node@), *final(self)),
    ;

    fn visit_selection_set(&mut self, node: &'ast SelectionSet<T>)
        ensures
            Self::hooked(*old(self), Event::SelectionSet(node@), *final(self)),
    ;

    fn visit_variable_definition(&mut self, node: &'ast VariableDefinition<T>)
        ensures
            Self::hooked(*old(self), Event::VariableDefinition(node@), *final(self)),
    ;

    fn visit_selection(&mut self, node: &'ast Selection<T>)
        ensures
            Self::hooked(*old(self), Event::Selection(node@), *final(self)),
    ;

    fn visit_field(&mut self, node: &'ast Field<T>)
        ensures
            Self::hooked(*old(self), Event::Field(node@), *final(self)),
    ;

    fn visit_fragment_spread(&mut self, node: &'ast FragmentSpread<T>)
        ensures
            Self::hooked(*old(self), Event::FragmentSpread(node@), *final(self)),
    ;

    fn visit_inline_fragment(&mut self, node: &'ast InlineFragment<T>)
        ensures
            Self::hooked(*old(self), Event::InlineFragment(node@), *final(self)),
    ;
}

/// The visitor state `post` is reachable from `pre` by one
/// [`QueryVisitor::hooked`] step per event of `events`, in order.
pub open spec fn visits<'ast, T: Text, V: QueryVisitor<'ast, T>>(
    pre: V,
    events: Seq<Event>,
    post: V,
) -> bool
    decreases events.len(),
{
    if events.len() == 0 {
        post == pre
    } else {
        exists|mid: V|
            #[trigger] V::hooked(pre, events[0], mid) && visits(mid, events.skip(1), post)
    }
}

/// A single hook invocation is a chain over the one-event sequence.
pub proof fn lemma_visits_one<'ast, T: Text, V: QueryVisitor<'ast, T>>(pre: V, e: Event, post: V)
    requires
        V::hooked(pre, e, post),
    ensures
        visits(pre, seq![e], post),
{
    assert(seq![e].skip(1) =~= Seq::<Event>::empty());
    assert(visits::<'ast, T, V>(post, seq![e].skip(1), post));
    assert(V::hooked(pre, seq![e][0], post));
}

/// Chains compose: a walk over `s1` followed by a walk over `s2` is a walk
/// over `s1 + s2`.
pub proof fn lemma_visits_concat<'ast, T: Text, V: QueryVisitor<'ast, T>>(
    pre: V,
    s1: Seq<Event>,
    mid: V,
    s2: Seq<Event>,
    post: V,
)
    requires
        visits(pre, s1, mid),
        visits(mid, s2, post),
    ensures
        visits(pre, s1 + s2, post),
    decreases s1.len(),
{
    if s1.len() == 0 {
        assert(mid == pre);
        assert(s1 + s2 =~= s2);
    } else {
        let m = choose|m: V| #[trigger] V::hooked(pre, s1[0], m) && visits(m, s1.skip(1), mid);
        lemma_visits_concat(m, s1.skip(1), mid, s2, post);
        assert((s1 + s2).skip(1) =~= s1.skip(1) + s2);
        assert(V::hooked(pre, (s1 + s2)[0], m));
    }
}

/// A visitor whose hook relation only ever stutters comes out of any walk
/// exactly as it went in: hooks that do nothing have no observable effect,
/// however large the tree.
pub proof fn lemma_stutter_visitor_unchanged<'ast, T: Text, V: QueryVisitor<'ast, T>>(
    pre: V,
    events: Seq<Event>,
    post: V,
)
    requires
        visits(pre, events, post),
        forall|a: V, e: Event, b: V| #[trigger] V::hooked(a, e, b) ==> b == a,
    ensures
        post == pre,
    decreases events.len(),
{
    if events.len() > 0 {
        let m = choose|m: V|
            #[trigger] V::hooked(pre, events[0], m) && visits(m, events.skip(1), post);
        lemma_stutter_visitor_unchanged(m, events.skip(1), post);
    }
}

/// A visitor whose hook relation is a function of the state and the event
/// ends a walk over a given event sequence in one possible state only: two
/// walks of the same tree from equal starting states end equal.
pub proof fn lemma_visits_deterministic<'ast, T: Text, V: QueryVisitor<'ast, T>>(
    pre: V,
    events: Seq<Event>,
    post1: V,
    post2: V,
)
    requires
        visits(pre, events, post1),
        visits(pre, events, post2),
        forall|a: V, e: Event, b1: V, b2: V|
            #![trigger V::hooked(a, e, b1), V::hooked(a, e, b2)]
            V::hooked(a, e, b1) && V::hooked(a, e, b2) ==> b1 == b2,
    ensures
        post1 == post2,
    decreases events.len(),
{
    if events.len() > 0 {
        let m1 = choose|m: V|
            #[trigger] V::hooked(pre, events[0], m) && visits(m, events.skip(1), post1);
        let m2 = choose|m: V|
            #[trigger] V::hooked(pre, events[0], m) && visits(m, events.skip(1), post2);
        assert(m1 == m2);
        lemma_visits_deterministic(m1, events.skip(1), post1, post2);
    }
}

} // verus!
