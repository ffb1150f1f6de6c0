//! Small building blocks for the texts this crate reads and writes: comparison, search,
//! decimal numbers and blocks of lines, each with a mathematical description of what
//! comes out.

use vstd::prelude::*;
use vstd::std_specs::iter::IteratorSpec;

verus! {

/// Whether `wanted` occurs in `text`.
pub fn contains_char(text: &str, wanted: char) -> (found: bool)
    ensures
        found == text@.contains(wanted),
{
    let mut rest = text.chars();
    let ghost mut seen: int = 0;
    loop
        invariant
            0 <= seen <= text@.len(),
            rest.remaining() == text@.skip(seen),
            forall|j: int| 0 <= j < seen ==> text@[j] != wanted,
        decreases text@.len() - seen,
    {
        match rest.next() {
            Some(c) => {
                assert(c == text@[seen]);
                if c == wanted {
                    return true;
                }
                proof {
                    assert(text@.skip(seen).drop_first() == text@.skip(seen + 1));
                    seen = seen + 1;
                }
            },
            None => {
                return false;
            },
        }
    }
}

/// Whether `left` and `right` are the same text, character by character.
pub fn same_text(left: &str, right: &str) -> (same: bool)
    ensures
        same == (left@ == right@),
{
    let mut left_rest = left.chars();
    let mut right_rest = right.chars();
    let ghost mut seen: int = 0;
    loop
        invariant
            0 <= seen <= left@.len(),
            seen <= right@.len(),
            left_rest.remaining() == left@.skip(seen),
            right_rest.remaining() == right@.skip(seen),
            forall|j: int| 0 <= j < seen ==> left@[j] == right@[j],
        decreases left@.len() - seen,
    {
        let left_next = left_rest.next();
        let right_next = right_rest.next();
        match (left_next, right_next) {
            (Some(l), Some(r)) => {
                assert(l == left@[seen]);
                assert(r == right@[seen]);
                if l != r {
                    return false;
                }
                proof {
                    assert(left@.skip(seen).drop_first() == left@.skip(seen + 1));
                    assert(right@.skip(seen).drop_first() == right@.skip(seen + 1));
                    seen = seen + 1;
                }
            },
            (None, None) => {
                assert(left@ =~= right@);
                return true;
            },
            _ => {
                assert(left@.len() != right@.len());
                return false;
            },
        }
    }
}

/// The character that stands for the digit `d`, for `d` below ten.
pub open spec fn digit_char(d: nat) -> char {
    if d == 0 {
        '0'
    } else if d == 1 {
        '1'
    } else if d == 2 {
        '2'
    } else if d == 3 {
        '3'
    } else if d == 4 {
        '4'
    } else if d == 5 {
        '5'
    } else if d == 6 {
        '6'
    } else if d == 7 {
        '7'
    } else if d == 8 {
        '8'
    } else {
        '9'
    }
}

/// The decimal notation of `n`: no sign, no leading zero, a single `0` for zero.
pub open spec fn decimal(n: nat) -> Seq<char>
    decreases n,
{
    if n < 10 {
        seq![digit_char(n)]
    } else {
        decimal(n / 10).push(digit_char(n % 10))
    }
}

/// The text of one decimal digit.
fn digit_text(d: u64) -> (text: &'static str)
    requires
        d < 10,
    ensures
        text@ == seq![digit_char(d as nat)],
{
    proof {
        reveal_strlit("0");
        reveal_strlit("1");
        reveal_strlit("2");
        reveal_strlit("3");
        reveal_strlit("4");
        reveal_strlit("5");
        reveal_strlit("6");
        reveal_strlit("7");
        reveal_strlit("8");
        reveal_strlit("9");
    }
    if d == 0 {
        "0"
    } else if d == 1 {
        "1"
    } else if d == 2 {
        "2"
    } else if d == 3 {
        "3"
    } else if d == 4 {
        "4"
    } else if d == 5 {
        "5"
    } else if d == 6 {
        "6"
    } else if d == 7 {
        "7"
    } else if d == 8 {
        "8"
    } else {
        "9"
    }
}

/// Writes `n` in decimal notation.
pub fn decimal_string(n: u64) -> (text: String)
    ensures
        text@ == decimal(n as nat),
    decreases n,
{
    if n < 10 {
        String::from_str(digit_text(n))
    } else {
        let mut text = decimal_string(n / 10);
        text.append(digit_text(n % 10));
        text
    }
}

/// Every line of `lines`, in order, each one between `prefix` and a line feed.
pub open spec fn line_block(prefix: Seq<char>, lines: Seq<Seq<char>>) -> Seq<char>
    decreases lines.len(),
{
    if lines.len() == 0 {
        Seq::empty()
    } else {
        line_block(prefix, lines.drop_last()) + prefix + lines.last() + seq!['\n']
    }
}

/// Appends every line of `lines` to `out`, each one between `prefix` and a line feed.
pub fn push_lines(out: &mut String, prefix: &str, lines: &Vec<String>)
    ensures
        final(out)@ == old(out)@ + line_block(prefix@, lines.deep_view()),
{
    proof {
        reveal_strlit("\n");
    }
    let ghost all = lines.deep_view();
    let mut i: usize = 0;
    while i < lines.len()
        invariant
            i <= lines.len(),
            all == lines.deep_view(),
            "\n"@ == seq!['\n'],
            out@ == old(out)@ + line_block(prefix@, all.take(i as int)),
        decreases lines.len() - i,
    {
        proof {
            let next = all.take(i + 1);
            assert(next.drop_last() == all.take(i as int));
            assert(next.last() == lines[i as int]@);
        }
        out.append(prefix);
        out.append(lines[i].as_str());
        out.append("\n");
        i += 1;
    }
    proof {
        assert(all.take(i as int) == all);
    }
}

/// The first `limit` of `items`, or all of them where there are fewer, each one behind
/// `prefix`.
pub open spec fn prefixed(prefix: Seq<char>, items: Seq<Seq<char>>, limit: nat) -> Seq<
    Seq<char>,
> {
    Seq::new(
        if limit < items.len() {
            limit
        } else {
            items.len()
        },
        |i: int| prefix + items[i],
    )
}

/// Appends to `out` the first `limit` of `items`, each one behind `prefix`.
pub fn push_prefixed(out: &mut Vec<String>, prefix: &str, items: &Vec<String>, limit: usize)
    ensures
        final(out).deep_view() == old(out).deep_view() + prefixed(
            prefix@,
            items.deep_view(),
            limit as nat,
        ),
{
    let count = if limit < items.len() {
        limit
    } else {
        items.len()
    };
    let ghost wanted = prefixed(prefix@, items.deep_view(), limit as nat);
    let mut i: usize = 0;
    while i < count
        invariant
            i <= count <= items.len(),
            wanted == prefixed(prefix@, items.deep_view(), limit as nat),
            wanted.len() == count,
            out.deep_view() == old(out).deep_view() + wanted.take(i as int),
        decreases count - i,
    {
        let mut line = String::from_str(prefix);
        line.append(items[i].as_str());
        let ghost before = out.deep_view();
        out.push(line);
        proof {
            assert(line@ == wanted[i as int]);
            assert(out.deep_view() =~= before.push(line@));
            assert(wanted.take(i + 1) =~= wanted.take(i as int).push(wanted[i as int]));
        }
        i += 1;
    }
    proof {
        assert(wanted.take(i as int) == wanted);
    }
}

} // verus!
