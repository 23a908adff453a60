//! Text helpers over `Seq<char>`: decimal rendering of port numbers and
//! substring tests on diagnostic lines.

use vstd::prelude::*;

verus! {

/// The decimal digit for `d`, for `d` below ten.
pub open spec fn spec_digit(d: nat) -> char {
    if d == 0 {
        '0'
    } else if d == 1 {
        '1'
    } else if d == 2 {
        '2'
    } else if d == 3 {
        '3'
    } else if d == 4 {
        '4'
    } else if d == 5 {
        '5'
    } else if d == 6 {
        '6'
    } else if d == 7 {
        '7'
    } else if d == 8 {
        '8'
    } else {
        '9'
    }
}

/// The shortest decimal numeral for `n`: no sign, no leading zero.
pub open spec fn spec_decimal(n: nat) -> Seq<char>
    decreases n,
{
    if n < 10 {
        seq![spec_digit(n)]
    } else {
        spec_decimal(n / 10).push(spec_digit(n % 10))
    }
}

/// `pat` occurs in `text` starting at index `at`.
pub open spec fn spec_occurs_at(text: Seq<char>, pat: Seq<char>, at: int) -> bool {
    &&& 0 <= at
    &&& at + pat.len() <= text.len()
    &&& text.subrange(at, at + pat.len()) == pat
}

/// `pat` occurs somewhere in `text`.
pub open spec fn spec_occurs_in(text: Seq<char>, pat: Seq<char>) -> bool {
    exists|at: int| spec_occurs_at(text, pat, at)
}

/// `text` begins with `pat`.
pub open spec fn spec_starts_with(text: Seq<char>, pat: Seq<char>) -> bool {
    spec_occurs_at(text, pat, 0)
}

fn digit_str(d: u16) -> (s: &'static str)
    requires
        d < 10,
    ensures
        s@ == seq![spec_digit(d as nat)],
{
    proof {
        reveal_strlit("0");
        reveal_strlit("1");
        reveal_strlit("2");
        reveal_strlit("3");
        reveal_strlit("4");
        reveal_strlit("5");
        reveal_strlit("6");
        reveal_strlit("7");
        reveal_strlit("8");
        reveal_strlit("9");
    }
    let s = if d == 0 {
        "0"
    } else if d == 1 {
        "1"
    } else if d == 2 {
        "2"
    } else if d == 3 {
        "3"
    } else if d == 4 {
        "4"
    } else if d == 5 {
        "5"
    } else if d == 6 {
        "6"
    } else if d == 7 {
        "7"
    } else if d == 8 {
        "8"
    } else {
        "9"
    };
    assert(s@ =~= seq![spec_digit(d as nat)]);
    s
}

/// Renders `n` as its decimal numeral.
pub fn decimal(n: u16) -> (s: String)
    ensures
        s@ == spec_decimal(n as nat),
    decreases n,
{
    if n < 10 {
        String::from_str(digit_str(n))
    } else {
        let mut s = decimal(n / 10);
        s.append(digit_str(n % 10));
        assert(s@ =~= spec_decimal(n as nat));
        s
    }
}

/// The characters of `s`, in order.
pub fn chars_of(s: &str) -> (v: Vec<char>)
    ensures
        v@ == s@,
{
    let mut v: Vec<char> = Vec::new();
    for c in it: s.chars()
        invariant
            v@ == it.seq().take(it.index() as int),
    {
        v.push(c);
    }
    v
}

/// Whether `pat` occurs in `text` starting at index `at`.
pub fn occurs_at(text: &Vec<char>, pat: &Vec<char>, at: usize) -> (b: bool)
    ensures
        b == spec_occurs_at(text@, pat@, at as int),
{
    if pat.len() > text.len() || at > text.len() - pat.len() {
        return false;
    }
    let ghost window = text@.subrange(at as int, at + pat.len());
    let mut j: usize = 0;
    while j < pat.len()
        invariant
            at + pat.len() <= text.len(),
            j <= pat.len(),
            window == text@.subrange(at as int, at + pat.len()),
            forall|k: int| 0 <= k < j ==> text@[at + k] == pat@[k],
        decreases pat.len() - j,
    {
        if text[at + j] != pat[j] {
            assert(window[j as int] == text@[at + j]);
            return false;
        }
        j += 1;
    }
    assert(window =~= pat@);
    true
}

/// Whether `text` begins with `pat`.
pub fn starts_with(text: &Vec<char>, pat: &Vec<char>) -> (b: bool)
    ensures
        b == spec_starts_with(text@, pat@),
{
    occurs_at(text, pat, 0)
}

/// Whether `pat` occurs somewhere in `text`.
pub fn occurs_in(text: &Vec<char>, pat: &Vec<char>) -> (b: bool)
    ensures
        b == spec_occurs_in(text@, pat@),
{
    if pat.len() > text.len() {
        return false;
    }
    if pat.len() == 0 {
        assert(text@.subrange(0, 0) =~= pat@);
        assert(spec_occurs_at(text@, pat@, 0));
        return true;
    }
    let last: usize = text.len() - pat.len();
    let mut at: usize = 0;
    while at <= last
        invariant
            last == text.len() - pat.len(),
            last < usize::MAX,
            at <= last + 1,
            forall|k: int| 0 <= k < at ==> !spec_occurs_at(text@, pat@, k),
        decreases last + 1 - at,
    {
        if occurs_at(text, pat, at) {
            return true;
        }
        at += 1;
    }
    false
}

} // verus!
