//! The outline entity and the depth-first serializer.

use vstd::prelude::*;
use vstd::string::StringExecFns;
use crate::chars::push_stars;
use crate::chars::spec_repeat;
use crate::content::texts_levels_check;
use crate::content::Text;
use crate::content::texts_levels_ok;
use crate::priority::Priority;
use crate::time::Timestamp;

verus! {

/// One outline headline: title, optional metadata, ordered content
/// segments and ordered children.  Properties keep insertion order, which
/// is also their render order in the drawer.
#[derive(Debug)]
pub struct Node {
    pub title: String,
    pub todo: Option<String>,
    pub priority: Option<Priority>,
    pub scheduled: Option<Timestamp>,
    pub interval: Option<(Timestamp, Timestamp)>,
    pub properties: Vec<(String, String)>,
    pub children: Vec<Node>,
    pub content: Vec<Text>,
}

/// One drawer entry: `   :KEY: VALUE` and a newline.
pub open spec fn spec_property_line(p: (String, String)) -> Seq<char> {
    seq![' ', ' ', ' ', ':'] + p.0@ + seq![':', ' '] + p.1@ + seq!['\n']
}

/// The first `n` drawer entries, in insertion order.
pub open spec fn spec_property_lines(props: Vec<(String, String)>, n: int) -> Seq<char>
    decreases n,
{
    if 0 < n <= props.len() {
        spec_property_lines(props, n - 1) + spec_property_line(props[n - 1])
    } else {
        Seq::empty()
    }
}

/// The drawer header line `   :PROPERTIES:`.
pub open spec fn spec_drawer_header() -> Seq<char> {
    seq![' ', ' ', ' ', ':', 'P', 'R', 'O', 'P', 'E', 'R', 'T', 'I', 'E', 'S', ':', '\n']
}

/// The drawer closing line `   :END:`.
pub open spec fn spec_drawer_end() -> Seq<char> {
    seq![' ', ' ', ' ', ':', 'E', 'N', 'D', ':', '\n']
}

/// The whole properties drawer; nothing at all when the mapping is empty.
pub open spec fn spec_drawer(props: Vec<(String, String)>) -> Seq<char> {
    if props.len() == 0 {
        Seq::empty()
    } else {
        spec_drawer_header() + spec_property_lines(props, props.len() as int) + spec_drawer_end()
    }
}

/// The first `n` content segments, each rendered at level zero and
/// followed by one newline.
pub open spec fn spec_content_block(ts: Vec<Text>, n: int) -> Seq<char>
    decreases n,
{
    if 0 < n <= ts.len() {
        spec_content_block(ts, n - 1) + ts[n - 1].spec_render(0) + seq!['\n']
    } else {
        Seq::empty()
    }
}

impl Node {
    /// The headline: `level` stars, a space, the optional todo keyword and
    /// priority cookie each with a trailing space, the title, a newline.
    pub open spec fn spec_headline(self, level: nat) -> Seq<char> {
        spec_repeat('*', level) + seq![' '] + (match self.todo {
            Some(t) => t@ + seq![' '],
            None => Seq::empty(),
        }) + (match self.priority {
            Some(p) => p.spec_cookie() + seq![' '],
            None => Seq::empty(),
        }) + self.title@ + seq!['\n']
    }

    /// The planning line `SCHEDULED: <date>`, or nothing.
    pub open spec fn spec_scheduled_block(self) -> Seq<char> {
        match self.scheduled {
            Some(t) => seq!['S', 'C', 'H', 'E', 'D', 'U', 'L', 'E', 'D', ':', ' ', '<']
                + t.spec_date() + seq!['>', '\n'],
            None => Seq::empty(),
        }
    }

    /// The active time-range line `<start>-<end>`, or nothing.  It is
    /// independent of the planning line: both may appear.
    pub open spec fn spec_interval_block(self) -> Seq<char> {
        match self.interval {
            Some((s, e)) => s.spec_stamp() + seq!['-'] + e.spec_stamp() + seq!['\n'],
            None => Seq::empty(),
        }
    }

    /// The full rendering at `level`: headline, planning line, time-range
    /// line, properties drawer, content segments at level zero, then every
    /// child one star deeper.
    pub open spec fn spec_render(self, level: nat) -> Seq<char>
        decreases self,
    {
        self.spec_headline(level) + self.spec_scheduled_block() + self.spec_interval_block()
            + spec_drawer(self.properties) + spec_content_block(
            self.content,
            self.content.len() as int,
        ) + spec_render_children(self.children, self.children.len() as int, level + 1)
    }

    /// Star depths of the subtree and checklist levels of all content
    /// stay representable in `usize`.
    pub open spec fn levels_ok(self, level: nat) -> bool
        decreases self,
    {
        &&& level + 1 <= usize::MAX
        &&& texts_levels_ok(self.content, 0)
        &&& children_levels_ok(self.children, level + 1)
    }

    /// Appends the node's rendering at `level` to `out`.
    pub fn display(&self, level: usize, out: &mut String)
        requires
            self.levels_ok(level as nat),
        ensures
            final(out)@ == old(out)@ + self.spec_render(level as nat),
        decreases self,
    {
        display_headline(self, level, out);
        display_scheduled(self, out);
        display_interval(self, out);
        display_drawer(&self.properties, out);
        display_content(&self.content, out);
        display_children(&self.children, level + 1, out);
        proof {
            lemma_concat6(
                old(out)@,
                self.spec_headline(level as nat),
                self.spec_scheduled_block(),
                self.spec_interval_block(),
                spec_drawer(self.properties),
                spec_content_block(self.content, self.content.len() as int),
                spec_render_children(self.children, self.children.len() as int, level as nat + 1),
            );
        }
    }

    /// Decides `levels_ok` for a caller that cannot evaluate it itself.
    pub fn levels_check(&self, level: usize) -> (b: bool)
        ensures
            b == self.levels_ok(level as nat),
        decreases self,
    {
        if level == usize::MAX {
            return false;
        }
        if !texts_levels_check(&self.content, 0) {
            return false;
        }
        children_levels_check(&self.children, level + 1)
    }
}

/// Decides `children_levels_ok` by asking every child.
fn children_levels_check(cs: &Vec<Node>, level: usize) -> (b: bool)
    ensures
        b == children_levels_ok(*cs, level as nat),
    decreases cs,
{
    let n = cs.len();
    let mut i: usize = 0;
    while i < n
        invariant
            i <= n,
            n == cs.len(),
            forall|j: int| 0 <= j < i ==> (#[trigger] cs[j]).levels_ok(level as nat),
        decreases n - i,
    {
        if !cs[i].levels_check(level) {
            return false;
        }
        i = i + 1;
    }
    true
}

/// Rendering of the first `n` children, each at `level`.
pub open spec fn spec_render_children(cs: Vec<Node>, n: int, level: nat) -> Seq<char>
    decreases cs, n,
{
    if 0 < n <= cs.len() {
        spec_render_children(cs, n - 1, level) + cs[n - 1].spec_render(level)
    } else {
        Seq::empty()
    }
}

/// Every one of the children is fine at `level`.
pub open spec fn children_levels_ok(cs: Vec<Node>, level: nat) -> bool
    decreases cs,
{
    forall|i: int| 0 <= i < cs.len() ==> (#[trigger] cs[i]).levels_ok(level)
}

/// Concatenation of the six render blocks associates either way.
proof fn lemma_concat6(
    base: Seq<char>,
    a: Seq<char>,
    b: Seq<char>,
    c: Seq<char>,
    d: Seq<char>,
    e: Seq<char>,
    f: Seq<char>,
)
    ensures
        base + (a + b + c + d + e + f) == base + a + b + c + d + e + f,
{
    assert(base + (a + b + c + d + e + f) =~= base + a + b + c + d + e + f);
}

/// Appends the headline of `n` at `level` to `out`.
fn display_headline(n: &Node, level: usize, out: &mut String)
    ensures
        final(out)@ == old(out)@ + n.spec_headline(level as nat),
{
    proof {
        reveal_strlit(" ");
        reveal_strlit("\n");
    }
    push_stars(out, level);
    out.append(" ");
    if let Some(t) = &n.todo {
        out.append(t.as_str());
        out.append(" ");
    }
    if let Some(p) = &n.priority {
        let cookie = p.display();
        out.append(cookie.as_str());
        out.append(" ");
    }
    out.append(n.title.as_str());
    out.append("\n");
    proof {
        assert(" "@ =~= seq![' ']);
        assert("\n"@ =~= seq!['\n']);
        assert(final(out)@ =~= old(out)@ + n.spec_headline(level as nat));
    }
}

/// Appends the `SCHEDULED:` planning line of `n`, if any, to `out`.
fn display_scheduled(n: &Node, out: &mut String)
    ensures
        final(out)@ == old(out)@ + n.spec_scheduled_block(),
{
    if let Some(t) = &n.scheduled {
        proof {
            reveal_strlit("SCHEDULED: <");
            reveal_strlit(">\n");
        }
        out.append("SCHEDULED: <");
        t.push_date(out);
        out.append(">\n");
        proof {
            assert("SCHEDULED: <"@ =~= seq![
                'S', 'C', 'H', 'E', 'D', 'U', 'L', 'E', 'D', ':', ' ', '<',
            ]);
            assert(">\n"@ =~= seq!['>', '\n']);
            assert(final(out)@ =~= old(out)@ + n.spec_scheduled_block());
        }
    } else {
        proof {
            assert(final(out)@ =~= old(out)@ + n.spec_scheduled_block());
        }
    }
}

/// Appends the active time-range line of `n`, if any, to `out`.
fn display_interval(n: &Node, out: &mut String)
    ensures
        final(out)@ == old(out)@ + n.spec_interval_block(),
{
    if let Some((s, e)) = &n.interval {
        proof {
            reveal_strlit("-");
            reveal_strlit("\n");
        }
        s.push_stamp(out);
        out.append("-");
        e.push_stamp(out);
        out.append("\n");
        proof {
            assert("-"@ =~= seq!['-']);
            assert("\n"@ =~= seq!['\n']);
            assert(final(out)@ =~= old(out)@ + n.spec_interval_block());
        }
    } else {
        proof {
            assert(final(out)@ =~= old(out)@ + n.spec_interval_block());
        }
    }
}

/// Appends the properties drawer for `props` to `out`.
fn display_drawer(props: &Vec<(String, String)>, out: &mut String)
    ensures
        final(out)@ == old(out)@ + spec_drawer(*props),
{
    let n = props.len();
    if n == 0 {
        return ;
    }
    proof {
        reveal_strlit("   :PROPERTIES:\n");
    }
    out.append("   :PROPERTIES:\n");
    proof {
        assert("   :PROPERTIES:\n"@ =~= spec_drawer_header());
    }
    let mut i: usize = 0;
    while i < n
        invariant
            i <= n,
            n == props.len(),
            out@ == old(out)@ + spec_drawer_header() + spec_property_lines(*props, i as int),
        decreases n - i,
    {
        proof {
            reveal_strlit("   :");
            reveal_strlit(": ");
            reveal_strlit("\n");
        }
        out.append("   :");
        out.append(props[i].0.as_str());
        out.append(": ");
        out.append(props[i].1.as_str());
        out.append("\n");
        i = i + 1;
        proof {
            assert("   :"@ =~= seq![' ', ' ', ' ', ':']);
            assert(": "@ =~= seq![':', ' ']);
            assert("\n"@ =~= seq!['\n']);
            assert(out@ =~= old(out)@ + spec_drawer_header() + spec_property_lines(
                *props,
                i as int,
            ));
        }
    }
    proof {
        reveal_strlit("   :END:\n");
    }
    out.append("   :END:\n");
    proof {
        assert("   :END:\n"@ =~= spec_drawer_end());
        assert(final(out)@ =~= old(out)@ + spec_drawer(*props));
    }
}

/// Appends every content segment at level zero, a newline after each.
fn display_content(ts: &Vec<Text>, out: &mut String)
    requires
        texts_levels_ok(*ts, 0),
    ensures
        final(out)@ == old(out)@ + spec_content_block(*ts, ts.len() as int),
{
    let n = ts.len();
    let mut i: usize = 0;
    while i < n
        invariant
            i <= n,
            n == ts.len(),
            texts_levels_ok(*ts, 0),
            out@ == old(out)@ + spec_content_block(*ts, i as int),
        decreases n - i,
    {
        ts[i].display(0, out);
        proof {
            reveal_strlit("\n");
        }
        out.append("\n");
        i = i + 1;
        proof {
            assert("\n"@ =~= seq!['\n']);
            assert(out@ =~= old(out)@ + spec_content_block(*ts, i as int));
        }
    }
}

/// Appends the rendering of all children, each at `level`, to `out`.
fn display_children(cs: &Vec<Node>, level: usize, out: &mut String)
    requires
        children_levels_ok(*cs, level as nat),
    ensures
        final(out)@ == old(out)@ + spec_render_children(*cs, cs.len() as int, level as nat),
    decreases cs,
{
    let n = cs.len();
    let mut i: usize = 0;
    while i < n
        invariant
            i <= n,
            n == cs.len(),
            children_levels_ok(*cs, level as nat),
            out@ == old(out)@ + spec_render_children(*cs, i as int, level as nat),
        decreases n - i,
    {
        cs[i].display(level, out);
        i = i + 1;
    }
}

} // verus!
