use org::NodeBuilder;
use org::Priority;
use org::Text;
use org::Timestamp;
use org::Weekday;

#[test]
fn new_builder_is_empty_but_for_the_title() {
    let node = NodeBuilder::new("Just a title".to_string()).build();
    assert_eq!(node.title, "Just a title");
    assert!(node.todo.is_none());
    assert!(node.priority.is_none());
    assert!(node.scheduled.is_none());
    assert!(node.interval.is_none());
    assert!(node.properties.is_empty());
    assert!(node.children.is_empty());
    assert!(node.content.is_empty());
}

#[test]
fn build_carries_every_accumulated_field() {
    let start = Timestamp::new(2024, 3, 5, Weekday::Tue, 14, 0);
    let end = Timestamp::new(2024, 3, 5, Weekday::Tue, 15, 0);
    let sched = Timestamp::new(2024, 3, 4, Weekday::Mon, 8, 0);
    let node = NodeBuilder::new("T".to_string())
        .set_todo("TODO".to_string())
        .set_priority(Priority::D)
        .set_schedule_at(sched)
        .set_interval_at(start, end)
        .add_property("K".to_string(), "V".to_string())
        .build();
    assert_eq!(node.todo.as_deref(), Some("TODO"));
    assert_eq!(node.priority, Some(Priority::D));
    assert_eq!(node.scheduled, Some(sched));
    assert_eq!(node.interval, Some((start, end)));
    assert_eq!(node.properties, vec![("K".to_string(), "V".to_string())]);
    assert!(node.content.is_empty());
}

#[test]
fn add_children_twice_keeps_only_the_second_list() {
    let first = vec![
        NodeBuilder::new("a".to_string()).build(),
        NodeBuilder::new("b".to_string()).build(),
    ];
    let second = vec![NodeBuilder::new("c".to_string()).build()];
    let node = NodeBuilder::new("T".to_string())
        .add_children(first)
        .add_children(second)
        .build();
    assert_eq!(node.children.len(), 1);
    assert_eq!(node.children[0].title, "c");
}

#[test]
fn add_property_same_key_keeps_only_the_second_value() {
    let node = NodeBuilder::new("T".to_string())
        .add_property("LOCATION".to_string(), "office".to_string())
        .add_property("LOCATION".to_string(), "zoom".to_string())
        .build();
    assert_eq!(node.properties, vec![("LOCATION".to_string(), "zoom".to_string())]);
}

#[test]
fn add_property_overwrite_keeps_the_key_position() {
    let node = NodeBuilder::new("T".to_string())
        .add_property("A".to_string(), "1".to_string())
        .add_property("B".to_string(), "2".to_string())
        .add_property("A".to_string(), "3".to_string())
        .build();
    assert_eq!(
        node.properties,
        vec![("A".to_string(), "3".to_string()), ("B".to_string(), "2".to_string())]
    );
}

#[test]
fn setters_overwrite_prior_values() {
    let node = NodeBuilder::new("T".to_string())
        .set_todo("TODO".to_string())
        .set_todo("NEXT".to_string())
        .set_priority(Priority::A)
        .set_priority(Priority::B)
        .build();
    assert_eq!(node.todo.as_deref(), Some("NEXT"));
    assert_eq!(node.priority, Some(Priority::B));
}

#[test]
fn set_content_replaces_the_segments() {
    let node = NodeBuilder::new("T".to_string())
        .set_content(vec![Text::PlainText("old".to_string())])
        .set_content(vec![
            Text::PlainText("one".to_string()),
            Text::PlainText("two".to_string()),
        ])
        .build();
    assert_eq!(node.content.len(), 2);
    let mut out = String::new();
    assert!(node.levels_check(1));
    node.display(1, &mut out);
    assert_eq!(out, "* T\none\ntwo\n");
}
