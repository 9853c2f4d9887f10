//! The numbers of the members of a generated enum.
//!
//! C# numbers the members of an enum as the source language does: a member
//! declared with a value has that value, any other member has the value of
//! the member before it plus one, and the first member has zero if it
//! declares nothing. A generated enum therefore only spells out the values
//! that were declared. This module computes the numbers that result, for
//! declarations whose values are written in decimal.

use vstd::prelude::*;
use crate::enumeration::{enum_members_view, EnumMemberView, SimpleEnum};

verus! {

/// The largest number that is computed.
pub open spec fn max_value() -> int {
    i128::MAX as int
}

/// The value of a decimal digit.
pub open spec fn digit_value(c: char) -> Option<int> {
    if '0' <= c && c <= '9' {
        Some(c as int - '0' as int)
    } else {
        None
    }
}

/// The number that a run of decimal digits denotes. There is none where
/// the run is empty, where it holds anything but digits, or where the
/// number exceeds `max_value`.
pub open spec fn digits_value(text: Seq<char>) -> Option<int>
    decreases text.len(),
{
    if text.len() == 0 {
        None
    } else {
        match digit_value(text.last()) {
            None => None,
            Some(d) => if text.len() == 1 {
                Some(d)
            } else {
                match digits_value(text.drop_last()) {
                    None => None,
                    Some(high) => if 10 * high + d <= max_value() {
                        Some(10 * high + d)
                    } else {
                        None
                    },
                }
            },
        }
    }
}

/// The position of the first character from `from` on that is not a space.
pub open spec fn skip_spaces(text: Seq<char>, from: int) -> int
    decreases text.len() - from,
{
    if 0 <= from < text.len() && text[from] == ' ' {
        skip_spaces(text, from + 1)
    } else {
        from
    }
}

/// The number that a literal denotes: that of its digits, negated where a
/// minus sign stands before them. Spaces may follow the sign.
pub open spec fn literal_value(text: Seq<char>) -> Option<int> {
    if text.len() > 0 && text[0] == '-' {
        let start = skip_spaces(text, 1);
        match digits_value(text.subrange(start, text.len() as int)) {
            Some(value) => Some(-value),
            None => None,
        }
    } else {
        digits_value(text)
    }
}

/// The number of a member, given the numbers of the members before it.
pub open spec fn member_value(member: EnumMemberView, before: Seq<int>) -> Option<int> {
    match member.literal {
        Some(text) => literal_value(text),
        None => if before.len() == 0 {
            Some(0)
        } else if before.last() < max_value() {
            Some(before.last() + 1)
        } else {
            None
        },
    }
}

/// The numbers of the members of an enum, in order. There are none where
/// some member is declared with a value that `literal_value` does not
/// read, or where the numbering runs past `max_value`.
pub open spec fn member_values(members: Seq<EnumMemberView>) -> Option<Seq<int>>
    decreases members.len(),
{
    if members.len() == 0 {
        Some(Seq::empty())
    } else {
        match member_values(members.drop_last()) {
            None => None,
            Some(before) => match member_value(members.last(), before) {
                None => None,
                Some(value) => Some(before.push(value)),
            },
        }
    }
}

/// Members that declare nothing are numbered from zero.
pub proof fn lemma_default_numbering(members: Seq<EnumMemberView>)
    requires
        forall|i: int| 0 <= i < members.len() ==> (#[trigger] members[i]).literal is None,
        members.len() <= max_value(),
    ensures
        member_values(members) == Some(Seq::new(members.len(), |i: int| i)),
    decreases members.len(),
{
    if members.len() > 0 {
        let front = members.drop_last();
        assert forall|i: int| 0 <= i < front.len() implies (#[trigger] front[i]).literal is None by {
            assert(front[i] == members[i]);
        }
        lemma_default_numbering(front);
        assert(member_values(members)->0 =~= Seq::new(members.len(), |i: int| i));
    } else {
        assert(member_values(members)->0 =~= Seq::new(members.len(), |i: int| i));
    }
}

/// Where the members have numbers, a member that declares nothing has the
/// number of the member before it plus one, and zero if it is the first.
pub proof fn lemma_successor_rule(members: Seq<EnumMemberView>, index: int)
    requires
        member_values(members) is Some,
        0 <= index < members.len(),
    ensures
        member_values(members)->0.len() == members.len(),
        members[index].literal matches Some(text) ==> Some(member_values(members)->0[index])
            == literal_value(text),
        members[index].literal is None && index == 0 ==> member_values(members)->0[index] == 0,
        members[index].literal is None && index > 0 ==> member_values(members)->0[index]
            == member_values(members)->0[index - 1] + 1,
    decreases members.len(),
{
    let front = members.drop_last();
    if index < front.len() {
        lemma_successor_rule(front, index);
        assert(front[index] == members[index]);
    } else if front.len() > 0 {
        lemma_successor_rule(front, front.len() - 1);
    }
}

fn parse_digits(text: &str, start: usize, end: usize) -> (r: Option<i128>)
    requires
        start <= end == text@.len(),
    ensures
        match r {
            Some(value) => digits_value(text@.subrange(start as int, end as int)) == Some(
                value as int,
            ) && value >= 0,
            None => digits_value(text@.subrange(start as int, end as int)) is None,
        },
{
    let ghost run = text@.subrange(start as int, end as int);
    if start == end {
        return None;
    }
    let mut value: i128 = 0;
    let mut i: usize = start;
    while i < end
        invariant
            start <= i <= end == text@.len(),
            run == text@.subrange(start as int, end as int),
            0 <= value,
            i > start ==> digits_value(run.take(i - start)) == Some(value as int),
            i == start ==> value == 0,
        decreases end - i,
    {
        let c = text.get_char(i);
        proof {
            assert(run.take(i - start + 1).drop_last() =~= run.take(i - start));
            assert(run.take(i - start + 1).last() == c);
        }
        if c < '0' || c > '9' {
            proof {
                lemma_digits_stay_unread(run, i - start + 1);
            }
            return None;
        }
        let d: i128 = (c as u32 - '0' as u32) as i128;
        if i > start && value > (i128::MAX - d) / 10 {
            proof {
                lemma_digits_stay_unread(run, i - start + 1);
            }
            return None;
        }
        value = 10 * value + d;
        i += 1;
    }
    assert(run.take(end - start) =~= run);
    Some(value)
}

/// Once a run of characters is not read as a number, no longer run that
/// starts with it is.
proof fn lemma_digits_stay_unread(text: Seq<char>, n: int)
    requires
        0 < n <= text.len(),
        digits_value(text.take(n)) is None,
    ensures
        digits_value(text) is None,
    decreases text.len() - n,
{
    if n < text.len() {
        assert(text.take(n + 1).drop_last() =~= text.take(n));
        lemma_digits_stay_unread(text, n + 1);
    } else {
        assert(text.take(n) =~= text);
    }
}

/// The number that a literal denotes.
pub fn parse_literal(text: &str) -> (r: Option<i128>)
    ensures
        match r {
            Some(value) => literal_value(text@) == Some(value as int),
            None => literal_value(text@) is None,
        },
{
    let n = text.unicode_len();
    if n > 0 && text.get_char(0) == '-' {
        let mut start: usize = 1;
        while start < n && text.get_char(start) == ' '
            invariant
                1 <= start <= n == text@.len(),
                skip_spaces(text@, 1) == skip_spaces(text@, start as int),
            decreases n - start,
        {
            start += 1;
        }
        match parse_digits(text, start, n) {
            Some(value) => Some(-value),
            None => None,
        }
    } else {
        assert(text@.subrange(0, n as int) =~= text@);
        parse_digits(text, 0, n)
    }
}

/// The view of a list of numbers.
pub open spec fn values_view(values: Option<Vec<i128>>) -> Option<Seq<int>> {
    match values {
        Some(values) => Some(Seq::new(values@.len(), |i: int| values@[i] as int)),
        None => None,
    }
}

impl SimpleEnum {
    /// The numbers of the members, in order.
    pub fn values(&self) -> (r: Option<Vec<i128>>)
        ensures
            values_view(r) == member_values(self@.members),
    {
        let ghost all = enum_members_view(self.members@);
        let mut values: Vec<i128> = Vec::new();
        let mut i: usize = 0;
        assert(all.take(0) =~= Seq::<EnumMemberView>::empty());
        assert(values_view(Some(values)) == Some(Seq::<int>::empty())) by {
            assert(values_view(Some(values))->0 =~= Seq::<int>::empty());
        }
        while i < self.members.len()
            invariant
                i <= self.members.len(),
                values.len() == i,
                all == enum_members_view(self.members@),
                member_values(all.take(i as int)) == values_view(Some(values)),
            decreases self.members.len() - i,
        {
            let member = &self.members[i];
            proof {
                assert(all.take(i + 1).drop_last() =~= all.take(i as int));
                assert(all.take(i + 1).last() == member@);
            }
            let ghost before = values_view(Some(values))->0;
            let value = match &member.literal {
                Some(text) => parse_literal(text.as_str()),
                None => {
                    if i == 0 {
                        Some(0)
                    } else if values[i - 1] < i128::MAX {
                        assert(before.last() == values@[i - 1] as int);
                        Some(values[i - 1] + 1)
                    } else {
                        assert(before.last() == values@[i - 1] as int);
                        None
                    }
                },
            };
            match value {
                None => {
                    proof {
                        lemma_values_stay_unknown(all, i + 1);
                    }
                    return None;
                },
                Some(value) => {
                    values.push(value);
                    assert(values_view(Some(values))->0 =~= before.push(value as int));
                },
            }
            i += 1;
        }
        assert(all.take(i as int) =~= all);
        Some(values)
    }
}

/// Once the first `n` members have no numbers, neither have all of them.
proof fn lemma_values_stay_unknown(members: Seq<EnumMemberView>, n: int)
    requires
        0 <= n <= members.len(),
        member_values(members.take(n)) is None,
    ensures
        member_values(members) is None,
    decreases members.len() - n,
{
    if n < members.len() {
        assert(members.take(n + 1).drop_last() =~= members.take(n));
        lemma_values_stay_unknown(members, n + 1);
    } else {
        assert(members.take(n) =~= members);
    }
}

} // verus!
