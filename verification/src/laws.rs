//! Facts the renderer and builder guarantee, stated once over all inputs
//! and proved against the spec functions that the contracts use.

use vstd::prelude::*;
use crate::builder::spec_upsert;
use crate::builder::NodeBuilder;
use crate::chars::spec_repeat;
use crate::content::ListItem;
use crate::node::spec_content_block;
use crate::node::spec_drawer;
use crate::node::spec_drawer_end;
use crate::node::spec_drawer_header;
use crate::node::spec_render_children;
use crate::node::Node;
use crate::priority::Priority;

verus! {

/// Law: a node's rendering decomposes into its six blocks, in order:
/// headline, planning line, time-range line, drawer, content, children.
pub proof fn lemma_render_blocks(n: Node, level: nat)
    ensures
        n.spec_render(level) == n.spec_headline(level) + n.spec_scheduled_block()
            + n.spec_interval_block() + spec_drawer(n.properties) + spec_content_block(
            n.content,
            n.content.len() as int,
        ) + spec_render_children(n.children, n.children.len() as int, level + 1),
{
}

/// Law: the rendering of any node at `level` begins with exactly `level`
/// marker stars followed by one space, whatever the node holds.
pub proof fn lemma_headline_stars(n: Node, level: nat)
    ensures
        n.spec_render(level).len() > level + 1,
        n.spec_render(level).subrange(0, level as int) == spec_repeat('*', level),
        n.spec_render(level)[level as int] == ' ',
{
    assert(n.spec_render(level).subrange(0, level as int) =~= spec_repeat('*', level));
}

/// Law: the priority cookie determines the priority; rendering then
/// matching the four literals recovers the variant.
pub proof fn lemma_priority_cookie_injective(p1: Priority, p2: Priority)
    ensures
        p1.spec_cookie() == p2.spec_cookie() ==> p1 == p2,
{
    if p1.spec_cookie() == p2.spec_cookie() {
        assert(p1.spec_cookie()[2] == p2.spec_cookie()[2]);
    }
}

/// Law: the properties drawer appears exactly when the mapping is
/// non-empty; then it opens with the `:PROPERTIES:` line and closes with
/// the `:END:` line.
pub proof fn lemma_drawer_iff_nonempty(props: Vec<(String, String)>)
    ensures
        props.len() == 0 ==> spec_drawer(props) == Seq::<char>::empty(),
        props.len() > 0 ==> {
            &&& spec_drawer(props).len() >= 25
            &&& spec_drawer(props).subrange(0, 16) == spec_drawer_header()
            &&& spec_drawer(props).subrange(
                spec_drawer(props).len() - 9,
                spec_drawer(props).len() as int,
            ) == spec_drawer_end()
        },
{
    if props.len() > 0 {
        assert(spec_drawer(props).subrange(0, 16) =~= spec_drawer_header());
        assert(spec_drawer(props).subrange(
            spec_drawer(props).len() - 9,
            spec_drawer(props).len() as int,
        ) =~= spec_drawer_end());
    }
}

/// Law: the planning line and the time-range line are independent: each
/// block is non-empty exactly when its own field is set, whatever the
/// other field holds.
pub proof fn lemma_planning_lines_independent(n: Node)
    ensures
        n.spec_scheduled_block().len() > 0 <==> n.scheduled is Some,
        n.spec_interval_block().len() > 0 <==> n.interval is Some,
{
}

/// Law: every checklist item's rendering starts with a newline, the
/// two-space-per-level indent, then the literal unchecked marker
/// `- [ ] `, regardless of the item's content.
pub proof fn lemma_item_marker(it: ListItem, level: nat)
    ensures
        it.spec_render(level).len() >= 7 + 2 * level,
        it.spec_render(level).subrange(0, (1 + 2 * level) as int) == seq!['\n'] + spec_repeat(
            ' ',
            2 * level,
        ),
        it.spec_render(level).subrange((1 + 2 * level) as int, (7 + 2 * level) as int) == seq![
            '-', ' ', '[', ' ', ']', ' ',
        ],
{
    assert(it.spec_render(level).subrange(0, (1 + 2 * level) as int) =~= seq!['\n'] + spec_repeat(
        ' ',
        2 * level,
    ));
    assert(it.spec_render(level).subrange((1 + 2 * level) as int, (7 + 2 * level) as int) =~= seq![
        '-', ' ', '[', ' ', ']', ' ',
    ]);
}

/// Law: replacing the children twice keeps only the second list; nothing
/// of the first remains.
pub proof fn lemma_add_children_replaces(b: NodeBuilder, first: Vec<Node>, second: Vec<Node>)
    ensures
        (NodeBuilder { children: second, ..(NodeBuilder { children: first, ..b }) })
            == (NodeBuilder { children: second, ..b }),
{
}

/// Pairwise distinct keys.
pub open spec fn keys_unique(props: Seq<(Seq<char>, Seq<char>)>) -> bool {
    forall|i: int, j: int| 0 <= i < j < props.len() ==> props[i].0 != props[j].0
}

/// Law: binding a key never duplicates one: when the keys are pairwise
/// distinct before, they are after, and every key afterwards is the bound
/// one or one that was already present.
pub proof fn lemma_upsert_keeps_keys_unique(
    props: Seq<(Seq<char>, Seq<char>)>,
    key: Seq<char>,
    value: Seq<char>,
)
    requires
        keys_unique(props),
    ensures
        keys_unique(spec_upsert(props, key, value)),
        forall|j: int|
            0 <= j < spec_upsert(props, key, value).len() ==> (#[trigger] spec_upsert(
                props,
                key,
                value,
            )[j].0 == key || exists|i: int|
                0 <= i < props.len() && #[trigger] props[i].0 == spec_upsert(props, key, value)[j].0),
    decreases props.len(),
{
    let r = spec_upsert(props, key, value);
    if props.len() == 0 {
        assert(r =~= seq![(key, value)]);
    } else if props[0].0 == key {
        assert(r =~= seq![(key, value)] + props.drop_first());
        assert forall|j: int| 0 < j < r.len() implies r[j] == props[j] by {}
        assert forall|i: int, j: int| 0 <= i < j < r.len() implies r[i].0 != r[j].0 by {
            if i > 0 {
                assert(r[i] == props[i]);
            }
            assert(r[j] == props[j]);
        }
        assert forall|j: int| 0 <= j < r.len() implies (r[j].0 == key || exists|i: int|
            0 <= i < props.len() && #[trigger] props[i].0 == r[j].0) by {
            if j > 0 {
                assert(props[j].0 == r[j].0);
            }
        }
    } else {
        let dropped = props.drop_first();
        assert(keys_unique(dropped)) by {
            assert forall|i: int, j: int| 0 <= i < j < dropped.len() implies dropped[i].0
                != dropped[j].0 by {
                assert(dropped[i] == props[i + 1] && dropped[j] == props[j + 1]);
            }
        }
        lemma_upsert_keeps_keys_unique(dropped, key, value);
        let rd = spec_upsert(dropped, key, value);
        assert(r =~= seq![props[0]] + rd);
        assert forall|j: int| 0 < j < r.len() implies r[0].0 != (#[trigger] r[j]).0 by {
            assert(r[j] == rd[j - 1]);
            if rd[j - 1].0 == key {
            } else {
                let i = choose|i: int| 0 <= i < dropped.len() && #[trigger] dropped[i].0 == rd[j
                    - 1].0;
                assert(props[i + 1].0 == rd[j - 1].0);
                assert(props[0].0 != props[i + 1].0);
            }
        }
        assert forall|i: int, j: int| 0 <= i < j < r.len() implies r[i].0 != r[j].0 by {
            if i > 0 {
                assert(r[i] == rd[i - 1] && r[j] == rd[j - 1]);
            }
        }
        assert forall|j: int| 0 <= j < r.len() implies (r[j].0 == key || exists|i: int|
            0 <= i < props.len() && #[trigger] props[i].0 == r[j].0) by {
            if j == 0 {
                assert(props[0].0 == r[0].0);
            } else {
                assert(r[j] == rd[j - 1]);
                if rd[j - 1].0 != key {
                    let i = choose|i: int| 0 <= i < dropped.len() && #[trigger] dropped[i].0 == rd[j
                        - 1].0;
                    assert(props[i + 1].0 == r[j].0);
                }
            }
        }
    }
}

/// Law: binding the same key twice keeps only the second value, at the
/// position the key already had.
pub proof fn lemma_upsert_last_wins(
    props: Seq<(Seq<char>, Seq<char>)>,
    key: Seq<char>,
    v1: Seq<char>,
    v2: Seq<char>,
)
    ensures
        spec_upsert(spec_upsert(props, key, v1), key, v2) == spec_upsert(props, key, v2),
    decreases props.len(),
{
    if props.len() == 0 {
        assert(spec_upsert(spec_upsert(props, key, v1), key, v2) =~= spec_upsert(props, key, v2));
    } else if props[0].0 == key {
        assert((seq![(key, v1)] + props.drop_first()).drop_first() =~= props.drop_first());
        assert(spec_upsert(spec_upsert(props, key, v1), key, v2) =~= spec_upsert(props, key, v2));
    } else {
        lemma_upsert_last_wins(props.drop_first(), key, v1, v2);
        assert((seq![props[0]] + spec_upsert(props.drop_first(), key, v1)).drop_first()
            =~= spec_upsert(props.drop_first(), key, v1));
        assert(spec_upsert(spec_upsert(props, key, v1), key, v2) =~= spec_upsert(props, key, v2));
    }
}

} // verus!
