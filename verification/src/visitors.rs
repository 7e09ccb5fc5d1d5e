//! Ready-made visitors, and what a walk does to each of them.
//!
//! Each visitor here declares its transition relation once and proves every
//! hook against it; the lemmas then say what a whole walk does to it, by
//! induction over the chain predicate [`visits`].
use vstd::prelude::*;

use crate::events::{
    document_events, document_node_count, field_events, lemma_document_events_len,
    selection_events, selection_set_events, selections_events_upto, Event,
};
use crate::views::{DocumentView, SelectionSetView, SelectionView};
use crate::visitor::{visits, QueryVisitor};
use crate::ast::{
    Definition, Document, Field, FragmentDefinition, FragmentSpread, InlineFragment, Mutation,
    OperationDefinition, Query, Selection, SelectionSet, Subscription, Text, VariableDefinition,
};

verus! {

/// A counter one step further, stopping at the top of its range.
pub open spec fn bumped(c: u64) -> int {
    if c < u64::MAX {
        c + 1
    } else {
        c as int
    }
}

/// Which hook an event belongs to.
#[derive(Clone, Copy, Debug, PartialEq, Eq, Structural)]
pub enum NodeKind {
    Document,
    Definition,
    FragmentDefinition,
    OperationDefinition,
    Query,
    Mutation,
    Subscription,
    SelectionSet,
    VariableDefinition,
    Selection,
    Field,
    FragmentSpread,
    InlineFragment,
}

pub open spec fn kind_of(e: Event) -> NodeKind {
    match e {
        Event::Document(_) => NodeKind::Document,
        Event::Definition(_) => NodeKind::Definition,
        Event::FragmentDefinition(_) => NodeKind::FragmentDefinition,
        Event::OperationDefinition(_) => NodeKind::OperationDefinition,
        Event::Query(_) => NodeKind::Query,
        Event::Mutation(_) => NodeKind::Mutation,
        Event::Subscription(_) => NodeKind::Subscription,
        Event::SelectionSet(_) => NodeKind::SelectionSet,
        Event::VariableDefinition(_) => NodeKind::VariableDefinition,
        Event::Selection(_) => NodeKind::Selection,
        Event::Field(_) => NodeKind::Field,
        Event::FragmentSpread(_) => NodeKind::FragmentSpread,
        Event::InlineFragment(_) => NodeKind::InlineFragment,
    }
}

/// The hooks of `events`, one kind per event, in order.
pub open spec fn kinds_of(events: Seq<Event>) -> Seq<NodeKind>
    decreases events.len(),
{
    if events.len() == 0 {
        Seq::empty()
    } else {
        seq![kind_of(events[0])] + kinds_of(events.skip(1))
    }
}

/// The names of the field events of `events`, in order.
pub open spec fn field_names(events: Seq<Event>) -> Seq<Seq<char>>
    decreases events.len(),
{
    if events.len() == 0 {
        Seq::empty()
    } else {
        (match events[0] {
            Event::Field(f) => seq![f.name],
            _ => Seq::empty(),
        }) + field_names(events.skip(1))
    }
}

/// How many of `events` are field events.
pub open spec fn field_event_count(events: Seq<Event>) -> nat {
    field_names(events).len()
}

/// The name a selection declares when it is a field; empty otherwise.
pub open spec fn declared_field_name(s: SelectionView) -> Seq<char> {
    match s {
        SelectionView::Field(f) => f.name,
        _ => Seq::empty(),
    }
}

/// Field names distribute over concatenation of event sequences.
pub proof fn lemma_field_names_concat(a: Seq<Event>, b: Seq<Event>)
    ensures
        field_names(a + b) == field_names(a) + field_names(b),
    decreases a.len(),
{
    if a.len() == 0 {
        assert(a + b =~= b);
        assert(field_names(a) + field_names(b) =~= field_names(b));
    } else {
        assert((a + b).skip(1) =~= a.skip(1) + b);
        lemma_field_names_concat(a.skip(1), b);
        assert(field_names(a + b) =~= field_names(a) + field_names(b));
    }
}

/// The events of one plain field selection (a field with no nested
/// selections) hold exactly that field's name.
pub proof fn lemma_flat_selection_field_names(s: SelectionView)
    requires
        s matches SelectionView::Field(f) && f.selection_set.items.len() == 0,
    ensures
        field_names(selection_events(s)) == seq![declared_field_name(s)],
{
    let f = s->Field_0;
    assert(selections_events_upto(f.selection_set.items, 0int) =~= Seq::<Event>::empty());
    assert(selection_set_events(f.selection_set) =~= seq![Event::SelectionSet(f.selection_set)]);
    assert(field_events(f) =~= seq![Event::Field(f), Event::SelectionSet(f.selection_set)]);
    assert(selection_events(s) =~= seq![
        Event::Selection(s),
        Event::Field(f),
        Event::SelectionSet(f.selection_set),
    ]);
    assert(selection_events(s).skip(1) =~= seq![
        Event::Field(f),
        Event::SelectionSet(f.selection_set),
    ]);
    assert(selection_events(s).skip(1).skip(1) =~= seq![Event::SelectionSet(f.selection_set)]);
    assert(selection_events(s).skip(1).skip(1).skip(1) =~= Seq::<Event>::empty());
    assert(field_names(selection_events(s).skip(1).skip(1).skip(1)) =~= Seq::<Seq<char>>::empty());
    assert(field_names(selection_events(s).skip(1).skip(1)) =~= Seq::<Seq<char>>::empty());
    assert(field_names(selection_events(s).skip(1)) =~= seq![f.name]);
    assert(field_names(selection_events(s)) =~= seq![declared_field_name(s)]);
}

/// The order property for a selection set of plain fields: the field names
/// of its events are exactly the declared names, in declared order — a
/// visitor recording field names over `a, b, c` records `a, b, c`.
pub proof fn lemma_flat_selection_set_field_names(ss: SelectionSetView)
    requires
        forall|k: int|
            0 <= k < ss.items.len() ==> (#[trigger] ss.items[k] matches SelectionView::Field(f)
                && f.selection_set.items.len() == 0),
    ensures
        field_names(selection_set_events(ss)) == Seq::new(
            ss.items.len(),
            |k: int| declared_field_name(ss.items[k]),
        ),
{
    lemma_flat_selections_upto(ss.items, ss.items.len() as int);
    assert(selection_set_events(ss).skip(1) =~= selections_events_upto(
        ss.items,
        ss.items.len() as int,
    ));
    assert(field_names(selection_set_events(ss)) =~= field_names(
        selections_events_upto(ss.items, ss.items.len() as int),
    ));
    assert(field_names(selection_set_events(ss)) =~= Seq::new(
        ss.items.len(),
        |k: int| declared_field_name(ss.items[k]),
    ));
}

/// The field names of the events of the first `j` plain field selections
/// are their declared names, in order.
pub proof fn lemma_flat_selections_upto(items: Seq<SelectionView>, j: int)
    requires
        0 <= j <= items.len(),
        forall|k: int|
            0 <= k < items.len() ==> (#[trigger] items[k] matches SelectionView::Field(f)
                && f.selection_set.items.len() == 0),
    ensures
        field_names(selections_events_upto(items, j)) == Seq::new(
            j as nat,
            |k: int| declared_field_name(items[k]),
        ),
    decreases j,
{
    if j == 0 {
        assert(field_names(selections_events_upto(items, 0int)) =~= Seq::new(
            0nat,
            |k: int| declared_field_name(items[k]),
        ));
    } else {
        lemma_flat_selections_upto(items, j - 1);
        lemma_field_names_concat(
            selections_events_upto(items, j - 1),
            selection_events(items[j - 1]),
        );
        lemma_flat_selection_field_names(items[j - 1]);
        assert(field_names(selections_events_upto(items, j)) =~= Seq::new(
            j as nat,
            |k: int| declared_field_name(items[k]),
        ));
    }
}

/// A visitor with no behavior: every hook leaves its state exactly as it
/// was. The field stands for whatever state a consumer might carry; no hook
/// reads or writes it.
pub struct NoopVisitor {
    pub marker: u64,
}

impl<'ast, T: Text> QueryVisitor<'ast, T> for NoopVisitor {
    open spec fn hooked(pre: Self, e: Event, post: Self) -> bool {
        post == pre
    }

    fn visit_document(&mut self, node: &'ast Document<T>) {
    }

    fn visit_definition(&mut self, node: &'ast Definition<T>) {
    }

    fn visit_fragment_definition(&mut self, node: &'ast FragmentDefinition<T>) {
    }

    fn visit_operation_definition(&mut self, node: &'ast OperationDefinition<T>) {
    }

    fn visit_query(&mut self, node: &'ast Query<T>) {
    }

    fn visit_mutation(&mut self, node: &'ast Mutation<T>) {
    }

    fn visit_subscription(&mut self, node: &'ast Subscription<T>) {
    }

    fn visit_selection_set(&mut self, node: &'ast SelectionSet<T>) {
    }

    fn visit_variable_definition(&mut self, node: &'ast VariableDefinition<T>) {
    }

    fn visit_selection(&mut self, node: &'ast Selection<T>) {
    }

    fn visit_field(&mut self, node: &'ast Field<T>) {
    }

    fn visit_fragment_spread(&mut self, node: &'ast FragmentSpread<T>) {
    }

    fn visit_inline_fragment(&mut self, node: &'ast InlineFragment<T>) {
    }
}

/// A visitor that counts every node it is shown, of whatever kind, stopping
/// at the top of its range rather than wrapping.
pub struct CountingVisitor {
    pub count: u64,
}

impl CountingVisitor {
    fn bump(&mut self)
        ensures
            final(self).count == bumped(old(self).count),
    {
        if self.count < u64::MAX {
            self.count = self.count + 1;
        }
    }
}

impl<'ast, T: Text> QueryVisitor<'ast, T> for CountingVisitor {
    open spec fn hooked(pre: Self, e: Event, post: Self) -> bool {
        post.count == bumped(pre.count)
    }

    fn visit_document(&mut self, node: &'ast Document<T>) {
        self.bump();
    }

    fn visit_definition(&mut self, node: &'ast Definition<T>) {
        self.bump();
    }

    fn visit_fragment_definition(&mut self, node: &'ast FragmentDefinition<T>) {
        self.bump();
    }

    fn visit_operation_definition(&mut self, node: &'ast OperationDefinition<T>) {
        self.bump();
    }

    fn visit_query(&mut self, node: &'ast Query<T>) {
        self.bump();
    }

    fn visit_mutation(&mut self, node: &'ast Mutation<T>) {
        self.bump();
    }

    fn visit_subscription(&mut self, node: &'ast Subscription<T>) {
        self.bump();
    }

    fn visit_selection_set(&mut self, node: &'ast SelectionSet<T>) {
        self.bump();
    }

    fn visit_variable_definition(&mut self, node: &'ast VariableDefinition<T>) {
        self.bump();
    }

    fn visit_selection(&mut self, node: &'ast Selection<T>) {
        self.bump();
    }

    fn visit_field(&mut self, node: &'ast Field<T>) {
        self.bump();
    }

    fn visit_fragment_spread(&mut self, node: &'ast FragmentSpread<T>) {
        self.bump();
    }

    fn visit_inline_fragment(&mut self, node: &'ast InlineFragment<T>) {
        self.bump();
    }
}

/// A chain of counting steps adds the number of events to the counter, as
/// long as the counter's range is not exhausted.
pub proof fn lemma_counting_chain<'ast, T: Text>(
    pre: CountingVisitor,
    events: Seq<Event>,
    post: CountingVisitor,
)
    requires
        visits::<T, CountingVisitor>(pre, events, post),
        pre.count + events.len() <= u64::MAX,
    ensures
        post.count == pre.count + events.len(),
    decreases events.len(),
{
    if events.len() > 0 {
        let mid = choose|m: CountingVisitor|
            #[trigger] <CountingVisitor as QueryVisitor<'ast, T>>::hooked(pre, events[0], m)
                && visits::<T, CountingVisitor>(m, events.skip(1), post);
        lemma_counting_chain::<T>(mid, events.skip(1), post);
    }
}

/// A walk of a whole document with every hook counting increments the
/// counter once per node of the document: one increment per node, none
/// skipped, none counted twice.
pub proof fn lemma_counting_walk_counts_nodes<'ast, T: Text>(
    pre: CountingVisitor,
    d: DocumentView,
    post: CountingVisitor,
)
    requires
        visits::<T, CountingVisitor>(pre, document_events(d), post),
        pre.count + document_node_count(d) <= u64::MAX,
    ensures
        post.count == pre.count + document_node_count(d),
{
    lemma_document_events_len(d);
    lemma_counting_chain::<T>(pre, document_events(d), post);
}

/// Two walks of the same document from equal counters end in equal counts:
/// logically identical counting visitors, however independently built,
/// observe the same tree the same way.
pub proof fn lemma_counting_walk_deterministic<'ast, T: Text>(
    pre1: CountingVisitor,
    pre2: CountingVisitor,
    d: DocumentView,
    post1: CountingVisitor,
    post2: CountingVisitor,
)
    requires
        pre1.count == pre2.count,
        visits::<T, CountingVisitor>(pre1, document_events(d), post1),
        visits::<T, CountingVisitor>(pre2, document_events(d), post2),
    ensures
        post1.count == post2.count,
{
    assert(pre1 == pre2);
    crate::visitor::lemma_visits_deterministic::<T, CountingVisitor>(
        pre1,
        document_events(d),
        post1,
        post2,
    );
}

/// A visitor that counts the fields it is shown and nothing else.
pub struct FieldCounter {
    pub count: u64,
}

impl<'ast, T: Text> QueryVisitor<'ast, T> for FieldCounter {
    open spec fn hooked(pre: Self, e: Event, post: Self) -> bool {
        match e {
            Event::Field(_) => post.count == bumped(pre.count),
            _ => post == pre,
        }
    }

    fn visit_document(&mut self, node: &'ast Document<T>) {
    }

    fn visit_definition(&mut self, node: &'ast Definition<T>) {
    }

    fn visit_fragment_definition(&mut self, node: &'ast FragmentDefinition<T>) {
    }

    fn visit_operation_definition(&mut self, node: &'ast OperationDefinition<T>) {
    }

    fn visit_query(&mut self, node: &'ast Query<T>) {
    }

    fn visit_mutation(&mut self, node: &'ast Mutation<T>) {
    }

    fn visit_subscription(&mut self, node: &'ast Subscription<T>) {
    }

    fn visit_selection_set(&mut self, node: &'ast SelectionSet<T>) {
    }

    fn visit_variable_definition(&mut self, node: &'ast VariableDefinition<T>) {
    }

    fn visit_selection(&mut self, node: &'ast Selection<T>) {
    }

    fn visit_field(&mut self, node: &'ast Field<T>) {
        if self.count < u64::MAX {
            self.count = self.count + 1;
        }
    }

    fn visit_fragment_spread(&mut self, node: &'ast FragmentSpread<T>) {
    }

    fn visit_inline_fragment(&mut self, node: &'ast InlineFragment<T>) {
    }
}

/// A chain of field-counting steps adds exactly the number of field events
/// to the counter, as long as the counter's range is not exhausted.
pub proof fn lemma_field_counter_chain<'ast, T: Text>(
    pre: FieldCounter,
    events: Seq<Event>,
    post: FieldCounter,
)
    requires
        visits::<T, FieldCounter>(pre, events, post),
        pre.count + field_event_count(events) <= u64::MAX,
    ensures
        post.count == pre.count + field_event_count(events),
    decreases events.len(),
{
    if events.len() > 0 {
        let mid = choose|m: FieldCounter|
            #[trigger] <FieldCounter as QueryVisitor<'ast, T>>::hooked(pre, events[0], m)
                && visits::<T, FieldCounter>(m, events.skip(1), post);
        lemma_field_counter_chain::<T>(mid, events.skip(1), post);
    }
}

/// A visitor that records the name of every field it is shown, in
/// visitation order.
pub struct FieldCollector<T> {
    pub names: Vec<T>,
}

impl<T: Text> FieldCollector<T> {
    /// The recorded names as character sequences, in recording order.
    pub open spec fn names_text(&self) -> Seq<Seq<char>> {
        self.names@.map(|i: int, t: T| t.text())
    }
}

impl<'ast, T: Text> QueryVisitor<'ast, T> for FieldCollector<T> {
    open spec fn hooked(pre: Self, e: Event, post: Self) -> bool {
        match e {
            Event::Field(f) => post.names_text() == pre.names_text().push(f.name),
            _ => post == pre,
        }
    }

    fn visit_document(&mut self, node: &'ast Document<T>) {
    }

    fn visit_definition(&mut self, node: &'ast Definition<T>) {
    }

    fn visit_fragment_definition(&mut self, node: &'ast FragmentDefinition<T>) {
    }

    fn visit_operation_definition(&mut self, node: &'ast OperationDefinition<T>) {
    }

    fn visit_query(&mut self, node: &'ast Query<T>) {
    }

    fn visit_mutation(&mut self, node: &'ast Mutation<T>) {
    }

    fn visit_subscription(&mut self, node: &'ast Subscription<T>) {
    }

    fn visit_selection_set(&mut self, node: &'ast SelectionSet<T>) {
    }

    fn visit_variable_definition(&mut self, node: &'ast VariableDefinition<T>) {
    }

    fn visit_selection(&mut self, node: &'ast Selection<T>) {
    }

    fn visit_field(&mut self, node: &'ast Field<T>) {
        self.names.push(node.name.clone_text());
        proof {
            assert(self.names_text() =~= old(self).names_text().push(node@.name));
        }
    }

    fn visit_fragment_spread(&mut self, node: &'ast FragmentSpread<T>) {
    }

    fn visit_inline_fragment(&mut self, node: &'ast InlineFragment<T>) {
    }
}

/// A chain of recording steps appends exactly the names of the field
/// events, in their order: fields come out as they were declared.
pub proof fn lemma_collector_chain<'ast, T: Text>(
    pre: FieldCollector<T>,
    events: Seq<Event>,
    post: FieldCollector<T>,
)
    requires
        visits::<T, FieldCollector<T>>(pre, events, post),
    ensures
        post.names_text() == pre.names_text() + field_names(events),
    decreases events.len(),
{
    if events.len() == 0 {
        assert(pre.names_text() + field_names(events) =~= pre.names_text());
    } else {
        let mid = choose|m: FieldCollector<T>|
            #[trigger] <FieldCollector<T> as QueryVisitor<'ast, T>>::hooked(pre, events[0], m)
                && visits::<T, FieldCollector<T>>(m, events.skip(1), post);
        lemma_collector_chain::<T>(mid, events.skip(1), post);
        assert(post.names_text() =~= pre.names_text() + field_names(events));
    }
}

/// A visitor that records which hook fired, in firing order.
pub struct KindRecorder {
    pub kinds: Vec<NodeKind>,
}

impl<'ast, T: Text> QueryVisitor<'ast, T> for KindRecorder {
    open spec fn hooked(pre: Self, e: Event, post: Self) -> bool {
        post.kinds@ == pre.kinds@.push(kind_of(e))
    }

    fn visit_document(&mut self, node: &'ast Document<T>) {
        self.kinds.push(NodeKind::Document);
    }

    fn visit_definition(&mut self, node: &'ast Definition<T>) {
        self.kinds.push(NodeKind::Definition);
    }

    fn visit_fragment_definition(&mut self, node: &'ast FragmentDefinition<T>) {
        self.kinds.push(NodeKind::FragmentDefinition);
    }

    fn visit_operation_definition(&mut self, node: &'ast OperationDefinition<T>) {
        self.kinds.push(NodeKind::OperationDefinition);
    }

    fn visit_query(&mut self, node: &'ast Query<T>) {
        self.kinds.push(NodeKind::Query);
    }

    fn visit_mutation(&mut self, node: &'ast Mutation<T>) {
        self.kinds.push(NodeKind::Mutation);
    }

    fn visit_subscription(&mut self, node: &'ast Subscription<T>) {
        self.kinds.push(NodeKind::Subscription);
    }

    fn visit_selection_set(&mut self, node: &'ast SelectionSet<T>) {
        self.kinds.push(NodeKind::SelectionSet);
    }

    fn visit_variable_definition(&mut self, node: &'ast VariableDefinition<T>) {
        self.kinds.push(NodeKind::VariableDefinition);
    }

    fn visit_selection(&mut self, node: &'ast Selection<T>) {
        self.kinds.push(NodeKind::Selection);
    }

    fn visit_field(&mut self, node: &'ast Field<T>) {
        self.kinds.push(NodeKind::Field);
    }

    fn visit_fragment_spread(&mut self, node: &'ast FragmentSpread<T>) {
        self.kinds.push(NodeKind::FragmentSpread);
    }

    fn visit_inline_fragment(&mut self, node: &'ast InlineFragment<T>) {
        self.kinds.push(NodeKind::InlineFragment);
    }
}

/// A chain of recording steps appends one kind per event, in event order:
/// the recorder comes out holding exactly which hooks fired and in which
/// order.
pub proof fn lemma_kind_recorder_chain<'ast, T: Text>(
    pre: KindRecorder,
    events: Seq<Event>,
    post: KindRecorder,
)
    requires
        visits::<T, KindRecorder>(pre, events, post),
    ensures
        post.kinds@ == pre.kinds@ + kinds_of(events),
    decreases events.len(),
{
    if events.len() == 0 {
        assert(pre.kinds@ + kinds_of(events) =~= pre.kinds@);
    } else {
        let mid = choose|m: KindRecorder|
            #[trigger] <KindRecorder as QueryVisitor<'ast, T>>::hooked(pre, events[0], m)
                && visits::<T, KindRecorder>(m, events.skip(1), post);
        lemma_kind_recorder_chain::<T>(mid, events.skip(1), post);
        assert(post.kinds@ =~= pre.kinds@ + kinds_of(events));
    }
}

} // verus!
