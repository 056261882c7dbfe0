//! References: the texts by which a user names an item. A reference is either
//! a position in the derived ordering, written as a decimal number, or a full
//! identifier. The position is tried first.

use vstd::prelude::*;
use crate::item::{Todo, TodoDataView, TodoView, views};
use crate::order::derive_order;
use crate::ident::{parse_uuid, uuid_parse};

verus! {

/// A reference that is neither a position in the derived ordering nor an
/// identifier.
#[derive(Clone, Copy, Debug, PartialEq, Eq, Structural)]
pub struct InvalidReference;

/// Whether `c` is one of the ten decimal digits.
pub open spec fn is_digit(c: char) -> bool {
    '0' <= c <= '9'
}

/// The number that the digit `c` stands for.
pub open spec fn digit_of(c: char) -> nat {
    (c as int - '0' as int) as nat
}

/// Whether `s` holds decimal digits only.
pub open spec fn all_digits(s: Seq<char>) -> bool {
    forall|i: int| 0 <= i < s.len() ==> is_digit(#[trigger] s[i])
}

/// The number that a string of decimal digits spells. Leading zeros count for
/// nothing.
pub open spec fn digits_value(s: Seq<char>) -> nat
    decreases s.len(),
{
    if s.len() == 0 {
        0
    } else {
        digits_value(s.drop_last()) * 10 + digit_of(s.last())
    }
}

/// `s` without the plus sign that may stand at its front.
pub open spec fn unsigned_part(s: Seq<char>) -> Seq<char> {
    if s.len() > 0 && s[0] == '+' {
        s.drop_first()
    } else {
        s
    }
}

/// The number that `s` spells as a position: an optional plus sign and then
/// one decimal digit or more. Anything else is no position.
pub open spec fn index_literal(s: Seq<char>) -> Option<nat> {
    let digits = unsigned_part(s);
    if digits.len() > 0 && all_digits(digits) {
        Some(digits_value(digits))
    } else {
        None
    }
}

/// The position that `s` spells, if a `usize` can hold it.
pub open spec fn index_in_range(s: Seq<char>) -> Option<usize> {
    match index_literal(s) {
        Some(n) => if n <= usize::MAX {
            Some(n as usize)
        } else {
            None
        },
        None => None,
    }
}

/// The item that a reference names in the order `order`: the item at
/// `position` if there is one, else the item with the identifier `parsed`.
pub open spec fn resolve(order: Seq<TodoView>, position: Option<usize>, parsed: Option<u128>)
    -> Option<u128> {
    match position {
        Some(n) => if n < order.len() {
            Some(order[n as int].id)
        } else {
            parsed
        },
        None => parsed,
    }
}

/// The identifier that the reference `text` names in the collection `m`, or
/// `None` for an invalid reference. The identifier need not be one of `m`.
pub open spec fn reference_target(m: Map<u128, TodoDataView>, text: Seq<char>) -> Option<u128> {
    resolve(derive_order(m), index_in_range(text), uuid_parse(text))
}

/// A string of digits spells no less than any of its prefixes does.
pub proof fn lemma_digits_value_prefix(s: Seq<char>, k: int)
    requires
        0 <= k <= s.len(),
    ensures
        digits_value(s.take(k)) <= digits_value(s),
    decreases s.len(),
{
    if k == s.len() {
        assert(s.take(k) =~= s);
    } else {
        lemma_digits_value_prefix(s.drop_last(), k);
        assert(s.drop_last().take(k) =~= s.take(k));
    }
}

/// Reads a position: an optional plus sign and then decimal digits. Returns
/// `None` for any other text and for a number that a `usize` cannot hold.
pub fn parse_index(text: &str) -> (r: Option<usize>)
    ensures
        r == index_in_range(text@),
{
    let ghost all = text@;
    let ghost digits = unsigned_part(all);
    let ghost skip: int = all.len() - digits.len();
    let mut value: usize = 0;
    let mut first = true;
    let mut seen = false;
    for c in it: text.chars()
        invariant
            it.seq() == all,
            all == text@,
            digits == unsigned_part(all),
            skip == all.len() - digits.len(),
            first == (it.index() == 0),
            !first ==> it.index() >= skip,
            !first ==> all_digits(digits.take(it.index() - skip)),
            !first ==> value == digits_value(digits.take(it.index() - skip)),
            !first ==> seen == (it.index() - skip > 0),
            first ==> value == 0 && !seen,
    {
        let ghost i = it.index() as int;
        assert(c == all[i]);
        if first && c == '+' {
            first = false;
            assert(digits.take(0) =~= Seq::<char>::empty());
        } else {
            first = false;
            assert(i >= skip);
            assert(digits[i - skip] == c);
            let ghost before = digits.take(i - skip);
            let ghost after = digits.take(i - skip + 1);
            assert(after.drop_last() =~= before);
            assert(after.last() == c);
            if !('0' <= c && c <= '9') {
                assert(!is_digit(digits[i - skip]));
                return None;
            }
            let d: usize = (c as u32 - '0' as u32) as usize;
            assert(d == digit_of(c));
            assert(digits_value(after) == digits_value(before) * 10 + d);
            if value > (usize::MAX - d) / 10 {
                proof {
                    lemma_digits_value_prefix(digits, i - skip + 1);
                    assert(digits_value(digits) > usize::MAX);
                }
                return None;
            }
            value = value * 10 + d;
            seen = true;
            assert(all_digits(after)) by {
                assert forall|j: int| 0 <= j < after.len() implies is_digit(#[trigger] after[j]) by {
                    if j < before.len() {
                        assert(after[j] == before[j]);
                    }
                }
            }
        }
    }
    proof {
        if !first {
            assert(digits.take(all.len() - skip) =~= digits);
        }
    }
    if seen {
        Some(value)
    } else {
        None
    }
}

/// Picks the item that a reference names: the one at `position` in `order` if
/// there is such a position, else the one with the identifier `parsed`.
pub fn resolve_reference(order: &Vec<Todo>, position: Option<usize>, parsed: Option<u128>) -> (r:
    Option<u128>)
    ensures
        r == resolve(views(order@), position, parsed),
{
    match position {
        Some(n) => {
            if n < order.len() {
                Some(order[n].id)
            } else {
                parsed
            }
        },
        None => parsed,
    }
}

/// Reads an identifier from its text.
pub fn parse_identifier(text: &str) -> (r: Option<u128>)
    ensures
        r == uuid_parse(text@),
{
    match parse_uuid(text) {
        Ok(id) => Some(id),
        Err(_) => None,
    }
}

} // verus!
