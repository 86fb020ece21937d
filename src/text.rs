//! Character-level helpers shared by the parsers and query builders.
use vstd::prelude::*;

verus! {

/// The characters of `s`, in order.
pub fn char_vec(s: &str) -> (v: Vec<char>)
    ensures
        v@ == s@,
{
    let mut v: Vec<char> = Vec::new();
    for c in it: s.chars()
        invariant
            v@ == it.seq().subrange(0, it.index() as int),
            it.seq() == s@,
    {
        v.push(c);
    }
    v
}

/// The decimal digits of `n`, most significant first, without leading zeros.
pub open spec fn decimal_digits(n: nat) -> Seq<char>
    decreases n,
{
    if n < 10 {
        seq![digit_char(n)]
    } else {
        decimal_digits(n / 10).push(digit_char(n % 10))
    }
}

/// The character that writes the decimal digit `d`.
pub open spec fn digit_char(d: nat) -> char {
    if d == 0 { '0' }
    else if d == 1 { '1' }
    else if d == 2 { '2' }
    else if d == 3 { '3' }
    else if d == 4 { '4' }
    else if d == 5 { '5' }
    else if d == 6 { '6' }
    else if d == 7 { '7' }
    else if d == 8 { '8' }
    else { '9' }
}

fn digit_str(d: u32) -> (s: &'static str)
    requires
        d < 10,
    ensures
        s@ == seq![digit_char(d as nat)],
{
    proof {
        reveal_strlit("0");
        reveal_strlit("1");
        reveal_strlit("2");
        reveal_strlit("3");
        reveal_strlit("4");
        reveal_strlit("5");
        reveal_strlit("6");
        reveal_strlit("7");
        reveal_strlit("8");
        reveal_strlit("9");
    }
    match d {
        0 => "0",
        1 => "1",
        2 => "2",
        3 => "3",
        4 => "4",
        5 => "5",
        6 => "6",
        7 => "7",
        8 => "8",
        _ => "9",
    }
}

/// Writes `n` in decimal.
pub fn decimal_string(n: u32) -> (r: String)
    ensures
        r@ == decimal_digits(n as nat),
    decreases n,
{
    if n < 10 {
        String::from_str(digit_str(n))
    } else {
        let mut r = decimal_string(n / 10);
        r.append(digit_str(n % 10));
        r
    }
}

/// The first position at or after `i` where `m` occurs in `s`.
pub open spec fn find_from(s: Seq<char>, m: Seq<char>, i: nat) -> Option<nat>
    decreases s.len() + 1 - i,
{
    if i + m.len() > s.len() {
        None
    } else if s.subrange(i as int, (i + m.len()) as int) == m {
        Some(i)
    } else {
        find_from(s, m, i + 1)
    }
}

/// The first position where `m` occurs in `s`.
pub open spec fn find_first(s: Seq<char>, m: Seq<char>) -> Option<nat> {
    find_from(s, m, 0)
}

/// A position that the search finds holds `m`, and none before it does.
pub proof fn lemma_find_from_bounds(s: Seq<char>, m: Seq<char>, i: nat)
    ensures
        find_from(s, m, i) matches Some(k) ==> i <= k && k + m.len() <= s.len()
            && s.subrange(k as int, (k + m.len()) as int) == m
            && forall|p: int| i <= p < k ==> #[trigger] s.subrange(p, p + m.len()) != m,
    decreases s.len() + 1 - i,
{
    if i + m.len() <= s.len() && s.subrange(i as int, (i + m.len()) as int) != m {
        lemma_find_from_bounds(s, m, i + 1);
    }
}

/// When the search from `i` finds nothing, `m` occurs at no position from `i` on.
pub proof fn lemma_find_absent(s: Seq<char>, m: Seq<char>, i: nat, p: int)
    requires
        find_from(s, m, i) is None,
        i <= p,
        p + m.len() <= s.len(),
    ensures
        s.subrange(p, p + m.len()) != m,
    decreases s.len() + 1 - i,
{
    if i < p {
        lemma_find_absent(s, m, i + 1, p);
    }
}

/// Whether `m` occurs in `s` at position `i`.
fn occurs_at(s: &Vec<char>, m: &Vec<char>, i: usize) -> (b: bool)
    requires
        i + m.len() <= s.len(),
    ensures
        b == (s@.subrange(i as int, (i + m.len()) as int) == m@),
{
    let mut k: usize = 0;
    while k < m.len()
        invariant
            k <= m.len(),
            i + m.len() <= s.len(),
            forall|j: int| 0 <= j < k ==> s@[i + j] == m@[j],
        decreases m.len() - k,
    {
        if s[i + k] != m[k] {
            assert(s@.subrange(i as int, (i + m.len()) as int)[k as int] != m@[k as int]);
            return false;
        }
        k = k + 1;
    }
    assert(s@.subrange(i as int, (i + m.len()) as int) =~= m@);
    true
}

/// The first position where `m` occurs in `s`.
pub fn find_chars(s: &Vec<char>, m: &Vec<char>) -> (r: Option<usize>)
    ensures
        r is Some <==> find_first(s@, m@) is Some,
        r matches Some(k) ==> find_first(s@, m@) == Some(k as nat)
            && k + m.len() <= s.len() && s@.subrange(k as int, (k + m.len()) as int) == m@,
{
    proof {
        lemma_find_from_bounds(s@, m@, 0);
    }
    if m.len() > s.len() {
        return None;
    }
    let last: usize = s.len() - m.len();
    let mut i: usize = 0;
    loop
        invariant
            last == s.len() - m.len(),
            i <= last,
            find_from(s@, m@, 0) == find_from(s@, m@, i as nat),
        decreases last - i,
    {
        if occurs_at(s, m, i) {
            return Some(i);
        }
        if i == last {
            assert(find_from(s@, m@, (i + 1) as nat) is None);
            return None;
        }
        i = i + 1;
    }
}

} // verus!
