use org::CheckList;
use org::ListItem;
use org::Node;
use org::NodeBuilder;
use org::Priority;
use org::Text;
use org::Timestamp;
use org::Weekday;

fn render(node: &Node, level: usize) -> String {
    let mut out = String::new();
    assert!(node.levels_check(level));
    node.display(level, &mut out);
    out
}

fn plain_node(title: &str) -> Node {
    NodeBuilder::new(title.to_string()).build()
}

#[test]
fn headline_with_todo_and_priority() {
    let node = NodeBuilder::new("Title".to_string())
        .set_todo("TODO".to_string())
        .set_priority(Priority::A)
        .build();
    assert_eq!(render(&node, 2), "** TODO [#A] Title\n");
}

#[test]
fn headline_star_count_matches_level() {
    let node = plain_node("T");
    assert_eq!(render(&node, 1), "* T\n");
    assert_eq!(render(&node, 3), "*** T\n");
    assert_eq!(render(&node, 5), "***** T\n");
}

#[test]
fn headline_todo_without_priority() {
    let node = NodeBuilder::new("T".to_string()).set_todo("NEXT".to_string()).build();
    assert_eq!(render(&node, 1), "* NEXT T\n");
}

#[test]
fn headline_priority_without_todo() {
    let node = NodeBuilder::new("T".to_string()).set_priority(Priority::C).build();
    assert_eq!(render(&node, 1), "* [#C] T\n");
}

#[test]
fn priority_cookies_are_the_four_literals() {
    assert_eq!(Priority::A.display(), "[#A]");
    assert_eq!(Priority::B.display(), "[#B]");
    assert_eq!(Priority::C.display(), "[#C]");
    assert_eq!(Priority::D.display(), "[#D]");
}

#[test]
fn priority_cookie_matches_back_to_variant() {
    let all = [Priority::A, Priority::B, Priority::C, Priority::D];
    for p in all {
        let recovered = match p.display().as_str() {
            "[#A]" => Priority::A,
            "[#B]" => Priority::B,
            "[#C]" => Priority::C,
            "[#D]" => Priority::D,
            other => panic!("unexpected cookie {}", other),
        };
        assert_eq!(recovered, p);
    }
}

#[test]
fn scheduled_line_after_headline() {
    let node = NodeBuilder::new("T".to_string())
        .set_schedule_at(Timestamp::new(2024, 3, 4, Weekday::Mon, 0, 0))
        .build();
    assert_eq!(render(&node, 1), "* T\nSCHEDULED: <2024-03-04 Mon>\n");
}

#[test]
fn interval_line_renders_both_ends_in_full() {
    let node = NodeBuilder::new("T".to_string())
        .set_interval_at(
            Timestamp::new(2024, 3, 5, Weekday::Tue, 14, 0),
            Timestamp::new(2024, 3, 5, Weekday::Tue, 15, 0),
        )
        .build();
    assert_eq!(render(&node, 1), "* T\n<2024-03-05 Tue 14:00>-<2024-03-05 Tue 15:00>\n");
}

#[test]
fn scheduled_and_interval_are_independent() {
    let both = NodeBuilder::new("T".to_string())
        .set_schedule_at(Timestamp::new(2024, 3, 5, Weekday::Tue, 9, 30))
        .set_interval_at(
            Timestamp::new(2024, 3, 5, Weekday::Tue, 14, 0),
            Timestamp::new(2024, 3, 5, Weekday::Tue, 15, 0),
        )
        .build();
    assert_eq!(
        render(&both, 1),
        "* T\nSCHEDULED: <2024-03-05 Tue>\n<2024-03-05 Tue 14:00>-<2024-03-05 Tue 15:00>\n"
    );
    let neither = plain_node("T");
    let out = render(&neither, 1);
    assert!(!out.contains("SCHEDULED"));
    assert!(!out.contains('<'));
}

#[test]
fn single_digit_fields_are_zero_padded() {
    let node = NodeBuilder::new("T".to_string())
        .set_interval_at(
            Timestamp::new(987, 5, 7, Weekday::Wed, 9, 3),
            Timestamp::new(987, 5, 7, Weekday::Wed, 10, 0),
        )
        .build();
    assert_eq!(render(&node, 1), "* T\n<987-05-07 Wed 09:03>-<987-05-07 Wed 10:00>\n");
}

#[test]
fn negative_year_keeps_minus_sign() {
    let node = NodeBuilder::new("T".to_string())
        .set_schedule_at(Timestamp::new(-8, 1, 5, Weekday::Fri, 0, 0))
        .build();
    assert_eq!(render(&node, 1), "* T\nSCHEDULED: <-8-01-05 Fri>\n");
}

#[test]
fn properties_drawer_two_entries_in_insertion_order() {
    let node = NodeBuilder::new("T".to_string())
        .add_property("CATEGORY".to_string(), "X".to_string())
        .add_property("LOCATION".to_string(), "zoom".to_string())
        .build();
    assert_eq!(
        render(&node, 1),
        "* T\n   :PROPERTIES:\n   :CATEGORY: X\n   :LOCATION: zoom\n   :END:\n"
    );
}

#[test]
fn empty_properties_render_no_drawer() {
    let out = render(&plain_node("T"), 1);
    assert!(!out.contains(":PROPERTIES:"));
    assert!(!out.contains(":END:"));
}

#[test]
fn checklist_two_items_at_level_zero() {
    let items = vec![
        ListItem::from_text(Text::PlainText("a".to_string())),
        ListItem::from_text(Text::PlainText("b".to_string())),
    ];
    let list = CheckList { items };
    assert!(list.levels_check(0));
    let mut out = String::new();
    list.display(0, &mut out);
    assert_eq!(out, "\n  - [ ] a\n  - [ ] b");
}

#[test]
fn checklist_marker_is_always_unchecked() {
    let items = vec![
        ListItem::from_text(Text::PlainText("done long ago".to_string())),
        ListItem { content: vec![] },
    ];
    let list = CheckList { items };
    let mut out = String::new();
    list.display(0, &mut out);
    assert_eq!(out, "\n  - [ ] done long ago\n  - [ ] ");
}

#[test]
fn content_segments_each_end_with_newline() {
    let mut node = plain_node("T");
    node.content = vec![
        Text::PlainText("Plan".to_string()),
        Text::PlainText("Act".to_string()),
    ];
    assert_eq!(render(&node, 1), "* T\nPlan\nAct\n");
}

#[test]
fn checklist_in_content_renders_at_level_zero() {
    let list = CheckList {
        items: vec![
            ListItem::from_text(Text::PlainText("a".to_string())),
            ListItem::from_text(Text::PlainText("b".to_string())),
        ],
    };
    let mut node = plain_node("T");
    node.content = vec![Text::ChecklistText(list)];
    assert_eq!(render(&node, 1), "* T\n\n  - [ ] a\n  - [ ] b\n");
}

#[test]
fn nested_checklist_indents_one_level_deeper() {
    let inner = CheckList {
        items: vec![ListItem::from_text(Text::PlainText("b".to_string()))],
    };
    let outer = CheckList {
        items: vec![ListItem {
            content: vec![Text::PlainText("a".to_string()), Text::ChecklistText(inner)],
        }],
    };
    let mut out = String::new();
    assert!(outer.levels_check(0));
    outer.display(0, &mut out);
    assert_eq!(out, "\n  - [ ] a\n    - [ ] b");
}

#[test]
fn children_render_depth_first_one_star_deeper() {
    let grandchild = plain_node("g");
    let child = NodeBuilder::new("c".to_string()).add_children(vec![grandchild]).build();
    let sibling = plain_node("s");
    let root = NodeBuilder::new("r".to_string()).add_children(vec![child, sibling]).build();
    assert_eq!(render(&root, 1), "* r\n** c\n*** g\n** s\n");
}

#[test]
fn full_node_block_order() {
    let list = CheckList {
        items: vec![ListItem::from_text(Text::PlainText("step".to_string()))],
    };
    let child = plain_node("child");
    let mut node = NodeBuilder::new("Weekly".to_string())
        .set_todo("TODO".to_string())
        .set_priority(Priority::B)
        .set_schedule_at(Timestamp::new(2024, 3, 5, Weekday::Tue, 0, 0))
        .set_interval_at(
            Timestamp::new(2024, 3, 5, Weekday::Tue, 14, 0),
            Timestamp::new(2024, 3, 5, Weekday::Tue, 15, 30),
        )
        .add_property("LOCATION".to_string(), "zoom".to_string())
        .add_children(vec![child])
        .build();
    node.content = vec![
        Text::PlainText("Agenda".to_string()),
        Text::ChecklistText(list),
    ];
    assert_eq!(
        render(&node, 2),
        "** TODO [#B] Weekly\n\
         SCHEDULED: <2024-03-05 Tue>\n\
         <2024-03-05 Tue 14:00>-<2024-03-05 Tue 15:30>\n\
         \x20  :PROPERTIES:\n\
         \x20  :LOCATION: zoom\n\
         \x20  :END:\n\
         Agenda\n\
         \n  - [ ] step\n\
         *** child\n"
    );
}

#[test]
fn list_item_from_text_holds_one_segment() {
    let item = ListItem::from_text(Text::PlainText("x".to_string()));
    assert_eq!(item.content.len(), 1);
    match &item.content[0] {
        Text::PlainText(s) => assert_eq!(s, "x"),
        Text::ChecklistText(_) => panic!("expected plain text"),
    }
}
