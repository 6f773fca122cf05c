//! The fluent constructor for a `Node`.

use vstd::prelude::*;
use crate::content::Text;
use crate::node::Node;
use crate::priority::Priority;
use crate::time::Timestamp;

verus! {

/// Accumulates a node's fields; `build` turns them into a `Node`.
/// Construction is total: every operation succeeds on every input.
#[derive(Debug)]
pub struct NodeBuilder {
    pub title: String,
    pub todo: Option<String>,
    pub priority: Option<Priority>,
    pub scheduled: Option<Timestamp>,
    pub interval: Option<(Timestamp, Timestamp)>,
    pub properties: Vec<(String, String)>,
    pub children: Vec<Node>,
    pub content: Vec<Text>,
}

/// The key/value pairs of a properties vector, as character sequences.
pub open spec fn props_view(props: Vec<(String, String)>) -> Seq<(Seq<char>, Seq<char>)> {
    Seq::new(props.len() as nat, |i: int| (props[i].0@, props[i].1@))
}

/// `props` with `key` bound to `value`: the first entry holding that key
/// is overwritten in place, keeping its position; a fresh key is appended
/// at the end.  Insertion order is the drawer's render order.
pub open spec fn spec_upsert(
    props: Seq<(Seq<char>, Seq<char>)>,
    key: Seq<char>,
    value: Seq<char>,
) -> Seq<(Seq<char>, Seq<char>)>
    decreases props.len(),
{
    if props.len() == 0 {
        seq![(key, value)]
    } else if props[0].0 == key {
        seq![(key, value)] + props.drop_first()
    } else {
        seq![props[0]] + spec_upsert(props.drop_first(), key, value)
    }
}

/// When `key` first occurs at position `i`, upserting overwrites exactly
/// that position.
pub proof fn lemma_upsert_found(
    props: Seq<(Seq<char>, Seq<char>)>,
    key: Seq<char>,
    value: Seq<char>,
    i: int,
)
    requires
        0 <= i < props.len(),
        props[i].0 == key,
        forall|j: int| 0 <= j < i ==> props[j].0 != key,
    ensures
        spec_upsert(props, key, value) == props.update(i, (key, value)),
    decreases i,
{
    if i == 0 {
        assert(spec_upsert(props, key, value) =~= props.update(0, (key, value)));
    } else {
        lemma_upsert_found(props.drop_first(), key, value, i - 1);
        assert(spec_upsert(props, key, value) =~= props.update(i, (key, value)));
    }
}

/// When `key` occurs nowhere, upserting appends the pair at the end.
pub proof fn lemma_upsert_absent(
    props: Seq<(Seq<char>, Seq<char>)>,
    key: Seq<char>,
    value: Seq<char>,
)
    requires
        forall|j: int| 0 <= j < props.len() ==> props[j].0 != key,
    ensures
        spec_upsert(props, key, value) == props.push((key, value)),
    decreases props.len(),
{
    if props.len() == 0 {
        assert(spec_upsert(props, key, value) =~= props.push((key, value)));
    } else {
        lemma_upsert_absent(props.drop_first(), key, value);
        assert(spec_upsert(props, key, value) =~= props.push((key, value)));
    }
}

/// Position of the first entry whose key equals `key`, if any.
fn find_key(props: &Vec<(String, String)>, key: &String) -> (r: Option<usize>)
    ensures
        match r {
            Some(i) => i < props.len() && props[i as int].0@ == key@ && forall|j: int|
                0 <= j < i ==> props[j].0@ != key@,
            None => forall|j: int| 0 <= j < props.len() ==> props[j].0@ != key@,
        },
{
    let n = props.len();
    let mut i: usize = 0;
    while i < n
        invariant
            i <= n,
            n == props.len(),
            forall|j: int| 0 <= j < i ==> props[j].0@ != key@,
        decreases n - i,
    {
        if props[i].0 == *key {
            return Some(i);
        }
        i = i + 1;
    }
    None
}

impl NodeBuilder {
    /// Starts a builder with the given title; everything else is empty.
    pub fn new(title: String) -> (r: NodeBuilder)
        ensures
            r.title == title,
            r.todo is None,
            r.priority is None,
            r.scheduled is None,
            r.interval is None,
            r.properties@ == Seq::<(String, String)>::empty(),
            r.children@ == Seq::<Node>::empty(),
            r.content@ == Seq::<Text>::empty(),
    {
        NodeBuilder {
            title,
            todo: None,
            priority: None,
            scheduled: None,
            interval: None,
            properties: Vec::new(),
            children: Vec::new(),
            content: Vec::new(),
        }
    }

    /// Replaces the whole children list; an earlier list is discarded.
    pub fn add_children(self, children: Vec<Node>) -> (r: NodeBuilder)
        ensures
            r == (NodeBuilder { children: children, ..self }),
    {
        NodeBuilder { children, ..self }
    }

    /// Sets the todo keyword, overwriting any prior one.
    pub fn set_todo(self, todo: String) -> (r: NodeBuilder)
        ensures
            r == (NodeBuilder { todo: Some(todo), ..self }),
    {
        NodeBuilder { todo: Some(todo), ..self }
    }

    /// Sets the priority, overwriting any prior one.
    pub fn set_priority(self, priority: Priority) -> (r: NodeBuilder)
        ensures
            r == (NodeBuilder { priority: Some(priority), ..self }),
    {
        NodeBuilder { priority: Some(priority), ..self }
    }

    /// Sets the planning timestamp, overwriting any prior one.
    pub fn set_schedule_at(self, t: Timestamp) -> (r: NodeBuilder)
        ensures
            r == (NodeBuilder { scheduled: Some(t), ..self }),
    {
        NodeBuilder { scheduled: Some(t), ..self }
    }

    /// Sets the time range as one start/end pair.  Whether the start
    /// precedes the end is the caller's concern; nothing is checked.
    pub fn set_interval_at(self, start: Timestamp, end: Timestamp) -> (r: NodeBuilder)
        ensures
            r == (NodeBuilder { interval: Some((start, end)), ..self }),
    {
        NodeBuilder { interval: Some((start, end)), ..self }
    }

    /// Sets the planning timestamp from a chrono point in time.
    pub fn set_schedule(self, dt: chrono::NaiveDateTime) -> (r: NodeBuilder)
        ensures
            r.scheduled matches Some(t) && t.wf(),
            r.title == self.title,
            r.todo == self.todo,
            r.priority == self.priority,
            r.interval == self.interval,
            r.properties == self.properties,
            r.children == self.children,
            r.content == self.content,
    {
        let t = Timestamp::from_datetime(&dt);
        NodeBuilder { scheduled: Some(t), ..self }
    }

    /// Sets the time range from two chrono points in time.
    pub fn set_interval(
        self,
        sd: chrono::NaiveDateTime,
        ed: chrono::NaiveDateTime,
    ) -> (r: NodeBuilder)
        ensures
            r.interval matches Some((s, e)) && s.wf() && e.wf(),
            r.title == self.title,
            r.todo == self.todo,
            r.priority == self.priority,
            r.scheduled == self.scheduled,
            r.properties == self.properties,
            r.children == self.children,
            r.content == self.content,
    {
        let s = Timestamp::from_datetime(&sd);
        let e = Timestamp::from_datetime(&ed);
        NodeBuilder { interval: Some((s, e)), ..self }
    }

    /// Inserts or overwrites one property; a repeated key keeps only the
    /// latest value.
    pub fn add_property(self, key: String, value: String) -> (r: NodeBuilder)
        ensures
            r.title == self.title,
            r.todo == self.todo,
            r.priority == self.priority,
            r.scheduled == self.scheduled,
            r.interval == self.interval,
            r.children == self.children,
            r.content == self.content,
            props_view(r.properties) == spec_upsert(props_view(self.properties), key@, value@),
    {
        let ghost k = key@;
        let ghost v = value@;
        let ghost ps = props_view(self.properties);
        let mut b = self;
        let found = find_key(&b.properties, &key);
        match found {
            Some(i) => {
                b.properties[i] = (key, value);
                proof {
                    lemma_upsert_found(ps, k, v, i as int);
                    assert(props_view(b.properties) =~= ps.update(i as int, (k, v)));
                }
            },
            None => {
                b.properties.push((key, value));
                proof {
                    lemma_upsert_absent(ps, k, v);
                    assert(props_view(b.properties) =~= ps.push((k, v)));
                }
            },
        }
        b
    }

    /// Replaces the content segments; an earlier list is discarded.
    pub fn set_content(self, content: Vec<Text>) -> (r: NodeBuilder)
        ensures
            r == (NodeBuilder { content: content, ..self }),
    {
        NodeBuilder { content, ..self }
    }

    /// Produces the node with all accumulated fields.
    pub fn build(self) -> (r: Node)
        ensures
            r.title == self.title,
            r.todo == self.todo,
            r.priority == self.priority,
            r.scheduled == self.scheduled,
            r.interval == self.interval,
            r.properties == self.properties,
            r.children == self.children,
            r.content == self.content,
    {
        Node {
            title: self.title,
            todo: self.todo,
            priority: self.priority,
            scheduled: self.scheduled,
            interval: self.interval,
            properties: self.properties,
            children: self.children,
            content: self.content,
        }
    }
}

} // verus!
