//! Calendar timestamps as the serializer reads them: plain year, month, day,
//! weekday, hour and minute fields, with their textual date and stamp forms.

use vstd::prelude::*;
use vstd::string::StringExecFns;
use crate::chars::push_padded2;
use crate::chars::push_signed_i32;
use crate::chars::spec_padded2;
use crate::chars::spec_signed;

verus! {

/// A day of the week, rendered by its three-letter English name.
#[derive(Debug, Clone, Copy, PartialEq, Eq, Structural)]
pub enum Weekday {
    Mon,
    Tue,
    Wed,
    Thu,
    Fri,
    Sat,
    Sun,
}

impl Weekday {
    /// The three-letter name used in dates, e.g. `Tue`.
    pub open spec fn spec_name(self) -> Seq<char> {
        match self {
            Weekday::Mon => seq!['M', 'o', 'n'],
            Weekday::Tue => seq!['T', 'u', 'e'],
            Weekday::Wed => seq!['W', 'e', 'd'],
            Weekday::Thu => seq!['T', 'h', 'u'],
            Weekday::Fri => seq!['F', 'r', 'i'],
            Weekday::Sat => seq!['S', 'a', 't'],
            Weekday::Sun => seq!['S', 'u', 'n'],
        }
    }

    /// The three-letter name as a string slice.
    pub fn name(&self) -> (r: &'static str)
        ensures
            r@ == self.spec_name(),
    {
        proof {
            reveal_strlit("Mon");
            reveal_strlit("Tue");
            reveal_strlit("Wed");
            reveal_strlit("Thu");
            reveal_strlit("Fri");
            reveal_strlit("Sat");
            reveal_strlit("Sun");
        }
        let s = match self {
            Weekday::Mon => "Mon",
            Weekday::Tue => "Tue",
            Weekday::Wed => "Wed",
            Weekday::Thu => "Thu",
            Weekday::Fri => "Fri",
            Weekday::Sat => "Sat",
            Weekday::Sun => "Sun",
        };
        proof {
            assert(s@ =~= self.spec_name());
        }
        s
    }
}

/// A timezone-normalized point in time, reduced to the calendar fields the
/// serializer prints.  The weekday is carried along rather than derived:
/// the model does no date arithmetic.
#[derive(Debug, Clone, Copy, PartialEq, Eq, Structural)]
pub struct Timestamp {
    pub year: i32,
    pub month: u32,
    pub day: u32,
    pub weekday: Weekday,
    pub hour: u32,
    pub minute: u32,
}

impl Timestamp {
    /// The field ranges of a civil calendar clock.
    pub open spec fn wf(self) -> bool {
        &&& 1 <= self.month <= 12
        &&& 1 <= self.day <= 31
        &&& self.hour < 24
        &&& self.minute < 60
    }

    /// Builds a timestamp from its fields.
    pub fn new(year: i32, month: u32, day: u32, weekday: Weekday, hour: u32, minute: u32) -> (t:
        Timestamp)
        ensures
            t == (Timestamp { year, month, day, weekday, hour, minute }),
    {
        Timestamp { year, month, day, weekday, hour, minute }
    }

    /// The calendar date with weekday: `YYYY-MM-DD Www`, month and day
    /// zero-padded to two digits, the year unpadded.
    pub open spec fn spec_date(self) -> Seq<char> {
        spec_signed(self.year as int) + seq!['-'] + spec_padded2(self.month as nat) + seq!['-']
            + spec_padded2(self.day as nat) + seq![' '] + self.weekday.spec_name()
    }

    /// The active timestamp form: `<YYYY-MM-DD Www HH:MM>`, 24-hour clock.
    pub open spec fn spec_stamp(self) -> Seq<char> {
        seq!['<'] + self.spec_date() + seq![' '] + spec_padded2(self.hour as nat) + seq![':']
            + spec_padded2(self.minute as nat) + seq!['>']
    }

    /// Appends the `YYYY-MM-DD Www` date form.
    pub fn push_date(&self, out: &mut String)
        ensures
            final(out)@ == old(out)@ + self.spec_date(),
    {
        push_signed_i32(out, self.year);
        proof {
            reveal_strlit("-");
            reveal_strlit(" ");
        }
        out.append("-");
        push_padded2(out, self.month);
        out.append("-");
        push_padded2(out, self.day);
        out.append(" ");
        out.append(self.weekday.name());
        proof {
            assert("-"@ =~= seq!['-']);
            assert(" "@ =~= seq![' ']);
            assert(final(out)@ =~= old(out)@ + self.spec_date());
        }
    }

    /// Appends the `<YYYY-MM-DD Www HH:MM>` stamp form.
    pub fn push_stamp(&self, out: &mut String)
        ensures
            final(out)@ == old(out)@ + self.spec_stamp(),
    {
        proof {
            reveal_strlit("<");
            reveal_strlit(">");
            reveal_strlit(" ");
            reveal_strlit(":");
        }
        out.append("<");
        self.push_date(out);
        out.append(" ");
        push_padded2(out, self.hour);
        out.append(":");
        push_padded2(out, self.minute);
        out.append(">");
        proof {
            assert("<"@ =~= seq!['<']);
            assert(">"@ =~= seq!['>']);
            assert(" "@ =~= seq![' ']);
            assert(":"@ =~= seq![':']);
            assert(final(out)@ =~= old(out)@ + self.spec_stamp());
        }
    }
}

} // verus!
