//! Content segments: plain text and checklists, which nest to any depth.

use vstd::prelude::*;
use vstd::string::StringExecFns;
use crate::chars::push_indent;
use crate::chars::spec_repeat;

verus! {

/// One content segment: a verbatim string, or an embedded checklist.
#[derive(Debug)]
pub enum Text {
    PlainText(String),
    ChecklistText(CheckList),
}

/// An ordered checklist; each item renders on its own line.
#[derive(Debug)]
pub struct CheckList {
    pub items: Vec<ListItem>,
}

/// One checklist item: an ordered run of content segments.
#[derive(Debug)]
pub struct ListItem {
    pub content: Vec<Text>,
}

impl Text {
    /// Rendering of one segment at nesting level `level`: plain text
    /// verbatim with no trailing newline, a checklist by its own rule.
    pub open spec fn spec_render(self, level: nat) -> Seq<char>
        decreases self,
    {
        match self {
            Text::PlainText(s) => s@,
            Text::ChecklistText(c) => c.spec_render(level),
        }
    }

    /// All checklist nesting levels reached from this segment at `level`
    /// stay representable in `usize`.
    pub open spec fn levels_ok(self, level: nat) -> bool
        decreases self,
    {
        match self {
            Text::PlainText(_) => true,
            Text::ChecklistText(c) => c.levels_ok(level),
        }
    }

    /// Appends this segment's rendering at `level` to `out`.
    pub fn display(&self, level: usize, out: &mut String)
        requires
            self.levels_ok(level as nat),
        ensures
            final(out)@ == old(out)@ + self.spec_render(level as nat),
        decreases self,
    {
        match self {
            Text::PlainText(s) => {
                out.append(s.as_str());
            },
            Text::ChecklistText(c) => {
                c.display(level, out);
            },
        }
    }

    /// Decides `levels_ok` for a caller that cannot evaluate it itself.
    pub fn levels_check(&self, level: usize) -> (b: bool)
        ensures
            b == self.levels_ok(level as nat),
        decreases self,
    {
        match self {
            Text::PlainText(_) => true,
            Text::ChecklistText(c) => c.levels_check(level),
        }
    }
}

impl CheckList {
    /// Rendering of a checklist at `level`: each item in order, one
    /// nesting level deeper.
    pub open spec fn spec_render(self, level: nat) -> Seq<char>
        decreases self,
    {
        spec_render_items(self.items, self.items.len() as int, level + 1)
    }

    /// The deeper level fits `usize` and every item is fine there.
    pub open spec fn levels_ok(self, level: nat) -> bool
        decreases self,
    {
        &&& level + 1 <= usize::MAX
        &&& items_levels_ok(self.items, level + 1)
    }

    /// Appends the checklist's rendering at `level` to `out`.
    pub fn display(&self, level: usize, out: &mut String)
        requires
            self.levels_ok(level as nat),
        ensures
            final(out)@ == old(out)@ + self.spec_render(level as nat),
        decreases self,
    {
        display_items(&self.items, level + 1, out);
    }

    /// Decides `levels_ok` for a caller that cannot evaluate it itself.
    pub fn levels_check(&self, level: usize) -> (b: bool)
        ensures
            b == self.levels_ok(level as nat),
        decreases self,
    {
        if level == usize::MAX {
            return false;
        }
        items_levels_check(&self.items, level + 1)
    }
}

impl ListItem {
    /// Wraps a single segment as a one-segment item.
    pub fn from_text(content: Text) -> (r: ListItem)
        ensures
            r.content@ == seq![content],
    {
        let r = ListItem { content: vec![content] };
        proof {
            assert(r.content@ =~= seq![content]);
        }
        r
    }

    /// Rendering of one item at `level`: a newline, two indent spaces per
    /// level, the unchecked box marker, then every contained segment in
    /// order at this same level.
    pub open spec fn spec_render(self, level: nat) -> Seq<char>
        decreases self,
    {
        seq!['\n'] + spec_repeat(' ', 2 * level) + seq!['-', ' ', '[', ' ', ']', ' ']
            + spec_render_texts(self.content, self.content.len() as int, level)
    }

    /// Every contained segment is fine at this item's level.
    pub open spec fn levels_ok(self, level: nat) -> bool
        decreases self,
    {
        texts_levels_ok(self.content, level)
    }

    /// Appends the item's rendering at `level` to `out`.
    pub fn display(&self, level: usize, out: &mut String)
        requires
            self.levels_ok(level as nat),
        ensures
            final(out)@ == old(out)@ + self.spec_render(level as nat),
        decreases self,
    {
        proof {
            reveal_strlit("\n");
            reveal_strlit("- [ ] ");
        }
        out.append("\n");
        push_indent(out, level);
        out.append("- [ ] ");
        display_texts(&self.content, level, out);
        proof {
            assert("\n"@ =~= seq!['\n']);
            assert("- [ ] "@ =~= seq!['-', ' ', '[', ' ', ']', ' ']);
            assert(final(out)@ =~= old(out)@ + self.spec_render(level as nat));
        }
    }

    /// Decides `levels_ok` for a caller that cannot evaluate it itself.
    pub fn levels_check(&self, level: usize) -> (b: bool)
        ensures
            b == self.levels_ok(level as nat),
        decreases self,
    {
        texts_levels_check(&self.content, level)
    }
}

/// Rendering of the first `n` checklist items, each at `level`.
pub open spec fn spec_render_items(items: Vec<ListItem>, n: int, level: nat) -> Seq<char>
    decreases items, n,
{
    if 0 < n <= items.len() {
        spec_render_items(items, n - 1, level) + items[n - 1].spec_render(level)
    } else {
        Seq::empty()
    }
}

/// Rendering of the first `n` segments of an item, each at `level`.
pub open spec fn spec_render_texts(ts: Vec<Text>, n: int, level: nat) -> Seq<char>
    decreases ts, n,
{
    if 0 < n <= ts.len() {
        spec_render_texts(ts, n - 1, level) + ts[n - 1].spec_render(level)
    } else {
        Seq::empty()
    }
}

/// Every one of the items is fine at `level`.
pub open spec fn items_levels_ok(items: Vec<ListItem>, level: nat) -> bool
    decreases items,
{
    forall|i: int| 0 <= i < items.len() ==> (#[trigger] items[i]).levels_ok(level)
}

/// Every one of the segments is fine at `level`.
pub open spec fn texts_levels_ok(ts: Vec<Text>, level: nat) -> bool
    decreases ts,
{
    forall|i: int| 0 <= i < ts.len() ==> (#[trigger] ts[i]).levels_ok(level)
}

/// Decides `items_levels_ok` by asking every item.
fn items_levels_check(items: &Vec<ListItem>, level: usize) -> (b: bool)
    ensures
        b == items_levels_ok(*items, level as nat),
    decreases items,
{
    let n = items.len();
    let mut i: usize = 0;
    while i < n
        invariant
            i <= n,
            n == items.len(),
            forall|j: int| 0 <= j < i ==> (#[trigger] items[j]).levels_ok(level as nat),
        decreases n - i,
    {
        if !items[i].levels_check(level) {
            return false;
        }
        i = i + 1;
    }
    true
}

/// Decides `texts_levels_ok` by asking every segment.
pub(crate) fn texts_levels_check(ts: &Vec<Text>, level: usize) -> (b: bool)
    ensures
        b == texts_levels_ok(*ts, level as nat),
    decreases ts,
{
    let n = ts.len();
    let mut i: usize = 0;
    while i < n
        invariant
            i <= n,
            n == ts.len(),
            forall|j: int| 0 <= j < i ==> (#[trigger] ts[j]).levels_ok(level as nat),
        decreases n - i,
    {
        if !ts[i].levels_check(level) {
            return false;
        }
        i = i + 1;
    }
    true
}

/// Appends the rendering of all `items`, each at `level`, to `out`.
fn display_items(items: &Vec<ListItem>, level: usize, out: &mut String)
    requires
        items_levels_ok(*items, level as nat),
    ensures
        final(out)@ == old(out)@ + spec_render_items(*items, items.len() as int, level as nat),
    decreases items,
{
    let n = items.len();
    let mut i: usize = 0;
    while i < n
        invariant
            i <= n,
            n == items.len(),
            items_levels_ok(*items, level as nat),
            out@ == old(out)@ + spec_render_items(*items, i as int, level as nat),
        decreases n - i,
    {
        items[i].display(level, out);
        i = i + 1;
    }
}

/// Appends the rendering of all segments in `ts`, each at `level`, to `out`.
fn display_texts(ts: &Vec<Text>, level: usize, out: &mut String)
    requires
        texts_levels_ok(*ts, level as nat),
    ensures
        final(out)@ == old(out)@ + spec_render_texts(*ts, ts.len() as int, level as nat),
    decreases ts,
{
    let n = ts.len();
    let mut i: usize = 0;
    while i < n
        invariant
            i <= n,
            n == ts.len(),
            texts_levels_ok(*ts, level as nat),
            out@ == old(out)@ + spec_render_texts(*ts, i as int, level as nat),
        decreases n - i,
    {
        ts[i].display(level, out);
        i = i + 1;
    }
}

} // verus!
