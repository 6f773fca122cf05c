//! The four-valued headline priority and its bracketed cookie form.

use vstd::prelude::*;

verus! {

/// A headline's priority rank; `A` is the highest of the four.
#[derive(Debug, Clone, Copy, PartialEq, Eq, Structural)]
pub enum Priority {
    A,
    B,
    C,
    D,
}

impl Priority {
    /// The bracketed priority cookie, e.g. `[#A]` for rank `A`.
    pub open spec fn spec_cookie(self) -> Seq<char> {
        match self {
            Priority::A => seq!['[', '#', 'A', ']'],
            Priority::B => seq!['[', '#', 'B', ']'],
            Priority::C => seq!['[', '#', 'C', ']'],
            Priority::D => seq!['[', '#', 'D', ']'],
        }
    }

    /// Renders the priority cookie as its four-character literal.
    pub fn display(&self) -> (r: String)
        ensures
            r@ == self.spec_cookie(),
    {
        proof {
            reveal_strlit("[#A]");
            reveal_strlit("[#B]");
            reveal_strlit("[#C]");
            reveal_strlit("[#D]");
        }
        let s = match self {
            Priority::A => "[#A]",
            Priority::B => "[#B]",
            Priority::C => "[#C]",
            Priority::D => "[#D]",
        };
        proof {
            assert(s@ =~= self.spec_cookie());
        }
        s.to_owned()
    }
}

} // verus!
