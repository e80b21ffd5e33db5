//! The aggregate kinds and the names they go by.

use vstd::prelude::*;
use vstd::string::StrSliceExecFns;

verus! {

/// What an aggregate computes of a column.
#[derive(Clone, Copy, Debug, PartialEq, Eq, Structural)]
pub enum AggregateKind {
    Count,
    Min,
    Max,
    Sum,
}

/// `c` with an ASCII capital turned into its small letter.
pub open spec fn ascii_lower(c: char) -> char {
    if 'A' <= c && c <= 'Z' {
        ((c as u8 + 32) as u8) as char
    } else {
        c
    }
}

/// `s` with every ASCII capital turned into its small letter.
pub open spec fn lowered(s: Seq<char>) -> Seq<char> {
    s.map_values(|c: char| ascii_lower(c))
}

/// The kind that `name` stands for, whatever the case of its letters.
pub open spec fn kind_of(name: Seq<char>) -> Option<AggregateKind> {
    let l = lowered(name);
    if l == AggregateKind::Count.name() {
        Some(AggregateKind::Count)
    } else if l == AggregateKind::Min.name() {
        Some(AggregateKind::Min)
    } else if l == AggregateKind::Max.name() {
        Some(AggregateKind::Max)
    } else if l == AggregateKind::Sum.name() {
        Some(AggregateKind::Sum)
    } else {
        None
    }
}

/// Turns an ASCII capital into its small letter and leaves any other character as it is.
fn to_ascii_lower(c: char) -> (r: char)
    ensures
        r == ascii_lower(c),
{
    if 'A' <= c && c <= 'Z' {
        ((c as u8) + 32) as char
    } else {
        c
    }
}

/// Tells whether `name`, with its ASCII capitals made small, reads `keyword`.
fn reads_as(name: &str, keyword: &str) -> (b: bool)
    ensures
        b == (lowered(name@) == keyword@),
{
    let n = name.unicode_len();
    if n != keyword.unicode_len() {
        return false;
    }
    let mut i: usize = 0;
    while i < n
        invariant
            i <= n,
            n == name@.len(),
            n == keyword@.len(),
            forall|j: int| 0 <= j < i ==> ascii_lower(#[trigger] name@[j]) == keyword@[j],
        decreases n - i,
    {
        if to_ascii_lower(name.get_char(i)) != keyword.get_char(i) {
            assert(lowered(name@)[i as int] != keyword@[i as int]);
            return false;
        }
        i = i + 1;
    }
    assert(lowered(name@) =~= keyword@);
    true
}

impl AggregateKind {
    /// The name of the kind, in small letters.
    pub open spec fn name(self) -> Seq<char> {
        match self {
            AggregateKind::Count => seq!['c', 'o', 'u', 'n', 't'],
            AggregateKind::Min => seq!['m', 'i', 'n'],
            AggregateKind::Max => seq!['m', 'a', 'x'],
            AggregateKind::Sum => seq!['s', 'u', 'm'],
        }
    }

    /// Returns the name of the kind, in small letters.
    pub fn as_str(self) -> (s: &'static str)
        ensures
            s@ == self.name(),
    {
        proof {
            reveal_strlit("count");
            reveal_strlit("min");
            reveal_strlit("max");
            reveal_strlit("sum");
        }
        let s = match self {
            AggregateKind::Count => "count",
            AggregateKind::Min => "min",
            AggregateKind::Max => "max",
            AggregateKind::Sum => "sum",
        };
        assert(s@ =~= self.name());
        s
    }

    /// Returns the kind that `name` stands for, whatever the case of its
    /// letters; `None` where it stands for none.
    pub fn parse(name: &str) -> (r: Option<AggregateKind>)
        ensures
            r == kind_of(name@),
    {
        if reads_as(name, AggregateKind::Count.as_str()) {
            Some(AggregateKind::Count)
        } else if reads_as(name, AggregateKind::Min.as_str()) {
            Some(AggregateKind::Min)
        } else if reads_as(name, AggregateKind::Max.as_str()) {
            Some(AggregateKind::Max)
        } else if reads_as(name, AggregateKind::Sum.as_str()) {
            Some(AggregateKind::Sum)
        } else {
            None
        }
    }

    /// A name stands for a kind exactly when, with its capitals made small,
    /// it reads the name of that kind; so every way of casing the four
    /// names is understood and nothing else is.
    pub proof fn lemma_name_stands_for_kind(self, name: Seq<char>)
        ensures
            kind_of(name) == Some(self) <==> lowered(name) == self.name(),
    {
        assert(AggregateKind::Count.name().len() == 5);
        assert(AggregateKind::Min.name()[1] == 'i');
        assert(AggregateKind::Max.name()[1] == 'a');
        assert(AggregateKind::Sum.name()[1] == 'u');
        assert(AggregateKind::Min.name()[0] == 'm');
        assert(AggregateKind::Sum.name()[0] == 's');
        assert(AggregateKind::Max.name()[0] == 'm');
    }

    /// The name of a kind stands for that kind.
    pub proof fn lemma_own_name(self)
        ensures
            kind_of(self.name()) == Some(self),
    {
        assert(lowered(self.name()) =~= self.name());
        self.lemma_name_stands_for_kind(self.name());
    }

    /// Changing the case of letters does not change what a name stands for.
    pub proof fn lemma_case_insensitive(a: Seq<char>, b: Seq<char>)
        requires
            lowered(a) == lowered(b),
        ensures
            kind_of(a) == kind_of(b),
    {
    }
}

} // verus!
