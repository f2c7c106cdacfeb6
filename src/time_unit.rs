use vstd::prelude::*;

verus! {

/// A unit of time, from the shortest to the longest.
#[derive(Copy, Clone, Debug, PartialEq, Eq, Structural)]
pub enum TimeUnit {
    Seconds,
    Minutes,
    Hours,
    Days,
    Months,
    Years,
}

/// `s` with every trailing `c` removed.
pub open spec fn trim_end_char(s: Seq<char>, c: char) -> Seq<char>
    decreases s.len(),
{
    if s.len() > 0 && s.last() == c {
        trim_end_char(s.drop_last(), c)
    } else {
        s
    }
}

/// Relies on `str::trim_end_matches` with a `char` pattern: every trailing
/// occurrence of `c` is removed.
#[verifier::external_body]
fn trim_end(s: &str, c: char) -> (r: &str)
    ensures
        r@ == trim_end_char(s@, c),
{
    s.trim_end_matches(c)
}

impl TimeUnit {
    /// The English name of the unit in the plural.
    pub open spec fn plural_spec(self) -> Seq<char> {
        match self {
            TimeUnit::Seconds => "seconds"@,
            TimeUnit::Minutes => "minutes"@,
            TimeUnit::Hours => "hours"@,
            TimeUnit::Days => "days"@,
            TimeUnit::Months => "months"@,
            TimeUnit::Years => "years"@,
        }
    }

    /// The English name of the unit in the plural.
    pub fn plural(self) -> (r: &'static str)
        ensures
            r@ == self.plural_spec(),
    {
        match self {
            TimeUnit::Seconds => "seconds",
            TimeUnit::Minutes => "minutes",
            TimeUnit::Hours => "hours",
            TimeUnit::Days => "days",
            TimeUnit::Months => "months",
            TimeUnit::Years => "years",
        }
    }

    /// The English name of the unit in the singular: the plural without its
    /// trailing `s`.
    pub fn singular(self) -> (r: &'static str)
        ensures
            r@ == trim_end_char(self.plural_spec(), 's'),
            r@ == self.plural_spec().drop_last(),
    {
        let p = self.plural();
        proof {
            reveal_strlit("seconds");
            reveal_strlit("minutes");
            reveal_strlit("hours");
            reveal_strlit("days");
            reveal_strlit("months");
            reveal_strlit("years");
            let q = p@.drop_last();
            assert(q.last() != 's');
            assert(trim_end_char(q, 's') == q);
        }
        trim_end(p, 's')
    }
}

} // verus!
