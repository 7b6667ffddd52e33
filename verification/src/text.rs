//! Small verified string utilities shared by the schema engine and the
//! translation contract: integer-key detection and dot-joining of pointers.

use vstd::prelude::*;
use vstd::string::StringExecFns;
use vstd::std_specs::iter::IteratorSpec;

verus! {

broadcast use vstd::string::group_string_axioms;

/// A decimal digit character.
pub open spec fn is_digit(c: char) -> bool {
    '0' <= c && c <= '9'
}

/// A key that addresses an array element: a non-empty string of decimal
/// digits. Only well-formedness matters, never the magnitude.
pub open spec fn is_integer_key(s: Seq<char>) -> bool {
    s.len() > 0 && forall|i: int| 0 <= i < s.len() ==> is_digit(s[i])
}

/// Decides whether a key is a non-negative-integer array index.
pub fn check_integer_key(key: &str) -> (r: bool)
    ensures
        r == is_integer_key(key@),
{
    if key.is_empty() {
        return false;
    }
    let ghost s = key@;
    let mut it = key.chars();
    let ghost mut i: int = 0;
    loop
        invariant
            0 <= i <= s.len(),
            it.remaining() =~= s.skip(i),
            forall|j: int| 0 <= j < i ==> is_digit(s[j]),
            s == key@,
            s.len() > 0,
        decreases s.len() - i,
    {
        match it.next() {
            Some(c) => {
                if !('0' <= c && c <= '9') {
                    assert(!is_digit(s[i]));
                    return false;
                }
                proof {
                    assert(s.skip(i).drop_first() =~= s.skip(i + 1));
                    i = i + 1;
                }
            },
            None => {
                proof {
                    assert(s.skip(i).len() == 0);
                }
                return true;
            },
        }
    }
}

/// The decimal rendering of a non-negative number, without leading zeros.
pub open spec fn dec_str(n: int) -> Seq<char>
    decreases n,
{
    if n < 0 {
        Seq::empty()
    } else if n < 10 {
        seq![dec_digit(n)]
    } else {
        dec_str(n / 10).push(dec_digit(n % 10))
    }
}

/// The character of one decimal digit.
pub open spec fn dec_digit(d: int) -> char {
    if d == 0 {
        '0'
    } else if d == 1 {
        '1'
    } else if d == 2 {
        '2'
    } else if d == 3 {
        '3'
    } else if d == 4 {
        '4'
    } else if d == 5 {
        '5'
    } else if d == 6 {
        '6'
    } else if d == 7 {
        '7'
    } else if d == 8 {
        '8'
    } else {
        '9'
    }
}

/// Appends one decimal digit to a string.
fn append_digit(s: &mut String, d: u64)
    requires
        d < 10,
    ensures
        final(s)@ == old(s)@ + seq![dec_digit(d as int)],
{
    match d {
        0 => s.append("0"),
        1 => s.append("1"),
        2 => s.append("2"),
        3 => s.append("3"),
        4 => s.append("4"),
        5 => s.append("5"),
        6 => s.append("6"),
        7 => s.append("7"),
        8 => s.append("8"),
        _ => s.append("9"),
    }
    proof {
        reveal_strlit("0");
        reveal_strlit("1");
        reveal_strlit("2");
        reveal_strlit("3");
        reveal_strlit("4");
        reveal_strlit("5");
        reveal_strlit("6");
        reveal_strlit("7");
        reveal_strlit("8");
        reveal_strlit("9");
        assert(final(s)@ =~= old(s)@ + seq![dec_digit(d as int)]);
    }
}

/// Appends the decimal rendering of a number to a string.
fn append_decimal(s: &mut String, n: u64)
    ensures
        final(s)@ == old(s)@ + dec_str(n as int),
    decreases n,
{
    if n < 10 {
        append_digit(s, n);
    } else {
        append_decimal(s, n / 10);
        append_digit(s, n % 10);
        proof {
            assert(final(s)@ =~= old(s)@ + dec_str(n as int));
        }
    }
}

/// Renders a number in decimal, without leading zeros.
pub fn decimal_string(n: u64) -> (r: String)
    ensures
        r@ == dec_str(n as int),
{
    let mut s = String::new();
    append_decimal(&mut s, n);
    proof {
        assert(Seq::<char>::empty() + dec_str(n as int) =~= dec_str(n as int));
    }
    s
}

/// Whether `needle` occurs contiguously somewhere inside `hay`.
pub open spec fn contains_phrase(hay: Seq<char>, needle: Seq<char>) -> bool {
    exists|i: int|
        0 <= i && i + needle.len() <= hay.len() && #[trigger] hay.subrange(i, i + needle.len())
            == needle
}

/// The keys of a pointer joined with `.` separators, the path notation of
/// the backend translation contract.
pub open spec fn joined(parts: Seq<Seq<char>>) -> Seq<char>
    decreases parts.len(),
{
    if parts.len() == 0 {
        Seq::empty()
    } else if parts.len() == 1 {
        parts[0]
    } else {
        joined(parts.drop_last()) + "."@ + parts.last()
    }
}

/// Copies a pointer and appends one more key to it.
pub fn push_key(prefix: &Vec<String>, key: &String) -> (r: Vec<String>)
    ensures
        r.deep_view() == prefix.deep_view().push(key@),
{
    let mut r: Vec<String> = Vec::new();
    let mut i: usize = 0;
    while i < prefix.len()
        invariant
            0 <= i <= prefix.len(),
            r@.len() == i,
            forall|j: int| 0 <= j < i ==> r@[j]@ == prefix@[j]@,
        decreases prefix.len() - i,
    {
        r.push(prefix[i].clone());
        i = i + 1;
    }
    r.push(key.clone());
    proof {
        assert(r.deep_view() =~= prefix.deep_view().push(key@));
    }
    r
}

/// Joins the keys of a pointer into one dot-separated path string.
pub fn join_keys(parts: &Vec<String>) -> (r: String)
    ensures
        r@ == joined(parts.deep_view()),
{
    let mut r = String::new();
    let mut i: usize = 0;
    while i < parts.len()
        invariant
            0 <= i <= parts.len(),
            r@ == joined(parts.deep_view().take(i as int)),
        decreases parts.len() - i,
    {
        if i > 0 {
            r.append(".");
        }
        r.append(parts[i].as_str());
        proof {
            let p = parts.deep_view();
            assert(p.take(i + 1).drop_last() =~= p.take(i as int));
            assert(p.take(i + 1).last() == p[i as int]);
        }
        i = i + 1;
    }
    proof {
        assert(parts.deep_view().take(parts.len() as int) =~= parts.deep_view());
    }
    r
}

} // verus!
