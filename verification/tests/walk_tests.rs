use query_visitor::ast::{
    Definition, Document, Field, FragmentDefinition, FragmentSpread, InlineFragment, Mutation,
    OperationDefinition, Query, Selection, SelectionSet, Subscription, VariableDefinition,
};
use query_visitor::visitors::{
    CountingVisitor, FieldCollector, FieldCounter, KindRecorder, NodeKind, NoopVisitor,
};
use query_visitor::walk::walk_document;

fn ss(items: Vec<Selection<String>>) -> SelectionSet<String> {
    SelectionSet { items }
}

fn leaf(name: &str) -> Selection<String> {
    Selection::Field(Field { name: name.to_string(), selection_set: SelectionSet { items: vec![] } })
}

fn field(name: &str, items: Vec<Selection<String>>) -> Selection<String> {
    Selection::Field(Field { name: name.to_string(), selection_set: SelectionSet { items } })
}

/// `query Q { users { id country { id } } }`
fn nested_query_doc() -> Document<String> {
    Document {
        definitions: vec![Definition::Operation(OperationDefinition::Query(Query {
            name: Some("Q".to_string()),
            variable_definitions: vec![],
            selection_set: ss(vec![field(
                "users",
                vec![leaf("id"), field("country", vec![leaf("id")])],
            )]),
        }))],
    }
}

/// A document that holds every node kind at least once.
fn all_kinds_doc() -> Document<String> {
    Document {
        definitions: vec![
            Definition::Operation(OperationDefinition::SelectionSet(ss(vec![
                Selection::InlineFragment(InlineFragment {
                    type_condition: Some("User".to_string()),
                    selection_set: ss(vec![leaf("a")]),
                }),
            ]))),
            Definition::Operation(OperationDefinition::Query(Query {
                name: None,
                variable_definitions: vec![VariableDefinition { name: "v".to_string() }],
                selection_set: ss(vec![leaf("b")]),
            })),
            Definition::Operation(OperationDefinition::Mutation(Mutation {
                name: Some("M".to_string()),
                variable_definitions: vec![VariableDefinition { name: "w".to_string() }],
                selection_set: ss(vec![leaf("c")]),
            })),
            Definition::Operation(OperationDefinition::Subscription(Subscription {
                name: None,
                variable_definitions: vec![],
                selection_set: ss(vec![leaf("d")]),
            })),
            Definition::Fragment(FragmentDefinition {
                name: "F".to_string(),
                type_condition: "User".to_string(),
                selection_set: ss(vec![Selection::FragmentSpread(FragmentSpread {
                    fragment_name: "G".to_string(),
                })]),
            }),
        ],
    }
}

#[test]
fn nested_query_has_four_fields() {
    let doc = nested_query_doc();
    let mut counter = FieldCounter { count: 0 };
    walk_document(&mut counter, &doc);
    assert_eq!(counter.count, 4);
}

#[test]
fn nested_query_field_names_in_order() {
    let doc = nested_query_doc();
    let mut collector: FieldCollector<String> = FieldCollector { names: vec![] };
    walk_document(&mut collector, &doc);
    assert_eq!(collector.names, vec!["users", "id", "country", "id"]);
}

#[test]
fn counting_visitor_counts_every_node() {
    // 1 document + 1 definition + 1 operation definition + 1 query
    // + 1 selection set, then 3 nodes per field (selection, field, its own
    // selection set) for users, id, country and the inner id.
    let doc = nested_query_doc();
    let mut counter = CountingVisitor { count: 0 };
    walk_document(&mut counter, &doc);
    assert_eq!(counter.count, 17);
}

#[test]
fn noop_visitor_changes_nothing() {
    let doc = nested_query_doc();
    let mut noop = NoopVisitor { marker: 7 };
    walk_document(&mut noop, &doc);
    assert_eq!(noop.marker, 7);
}

#[test]
fn fields_are_recorded_in_declared_order() {
    let doc = Document {
        definitions: vec![Definition::Operation(OperationDefinition::SelectionSet(ss(vec![
            leaf("a"),
            leaf("b"),
            leaf("c"),
        ])))],
    };
    let mut collector: FieldCollector<String> = FieldCollector { names: vec![] };
    walk_document(&mut collector, &doc);
    assert_eq!(collector.names, vec!["a", "b", "c"]);
}

#[test]
fn inline_fragment_hook_fires_before_its_nested_hooks() {
    let doc = Document {
        definitions: vec![Definition::Operation(OperationDefinition::SelectionSet(ss(vec![
            Selection::InlineFragment(InlineFragment {
                type_condition: None,
                selection_set: ss(vec![leaf("f")]),
            }),
        ])))],
    };
    let mut recorder = KindRecorder { kinds: vec![] };
    walk_document(&mut recorder, &doc);
    assert_eq!(
        recorder.kinds,
        vec![
            NodeKind::Document,
            NodeKind::Definition,
            NodeKind::OperationDefinition,
            NodeKind::SelectionSet,
            NodeKind::Selection,
            NodeKind::InlineFragment,
            NodeKind::SelectionSet,
            NodeKind::Selection,
            NodeKind::Field,
            NodeKind::SelectionSet,
        ]
    );
    let fragment_at: usize =
        recorder.kinds.iter().position(|k| *k == NodeKind::InlineFragment).unwrap();
    let field_at: usize = recorder.kinds.iter().position(|k| *k == NodeKind::Field).unwrap();
    assert!(fragment_at < field_at);
}

#[test]
fn two_identical_counting_visitors_agree() {
    let doc = nested_query_doc();
    let mut first = CountingVisitor { count: 0 };
    let mut second = CountingVisitor { count: 0 };
    walk_document(&mut first, &doc);
    walk_document(&mut second, &doc);
    assert_eq!(first.count, second.count);
}

#[test]
fn walking_twice_accumulates() {
    let doc = nested_query_doc();
    let mut counter = CountingVisitor { count: 0 };
    walk_document(&mut counter, &doc);
    walk_document(&mut counter, &doc);
    assert_eq!(counter.count, 34);
}

#[test]
fn every_hook_fires_on_a_full_document() {
    let doc = all_kinds_doc();
    let mut recorder = KindRecorder { kinds: vec![] };
    walk_document(&mut recorder, &doc);
    let all = [
        NodeKind::Document,
        NodeKind::Definition,
        NodeKind::FragmentDefinition,
        NodeKind::OperationDefinition,
        NodeKind::Query,
        NodeKind::Mutation,
        NodeKind::Subscription,
        NodeKind::SelectionSet,
        NodeKind::VariableDefinition,
        NodeKind::Selection,
        NodeKind::Field,
        NodeKind::FragmentSpread,
        NodeKind::InlineFragment,
    ];
    for kind in all {
        assert!(recorder.kinds.contains(&kind), "missing {:?}", kind);
    }
}

#[test]
fn empty_document_fires_only_the_document_hook() {
    let doc: Document<String> = Document { definitions: vec![] };
    let mut counter = CountingVisitor { count: 0 };
    walk_document(&mut counter, &doc);
    assert_eq!(counter.count, 1);
    let mut recorder = KindRecorder { kinds: vec![] };
    walk_document(&mut recorder, &doc);
    assert_eq!(recorder.kinds, vec![NodeKind::Document]);
}

#[test]
fn borrowed_text_trees_walk_too() {
    let doc: Document<&str> = Document {
        definitions: vec![Definition::Operation(OperationDefinition::SelectionSet(
            SelectionSet {
                items: vec![Selection::Field(Field {
                    name: "x",
                    selection_set: SelectionSet { items: vec![] },
                })],
            },
        ))],
    };
    let mut collector: FieldCollector<&str> = FieldCollector { names: vec![] };
    walk_document(&mut collector, &doc);
    assert_eq!(collector.names, vec!["x"]);
}

#[test]
fn variable_definitions_walk_before_the_selection_set() {
    let doc = Document {
        definitions: vec![Definition::Operation(OperationDefinition::Query(Query {
            name: None,
            variable_definitions: vec![
                VariableDefinition { name: "v".to_string() },
                VariableDefinition { name: "w".to_string() },
            ],
            selection_set: ss(vec![leaf("a")]),
        }))],
    };
    let mut recorder = KindRecorder { kinds: vec![] };
    walk_document(&mut recorder, &doc);
    assert_eq!(
        recorder.kinds,
        vec![
            NodeKind::Document,
            NodeKind::Definition,
            NodeKind::OperationDefinition,
            NodeKind::Query,
            NodeKind::VariableDefinition,
            NodeKind::VariableDefinition,
            NodeKind::SelectionSet,
            NodeKind::Selection,
            NodeKind::Field,
            NodeKind::SelectionSet,
        ]
    );
}
