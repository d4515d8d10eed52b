use vstd::prelude::*;
use vstd::string::*;

verus! {

/// The decimal digit `d` as a character.
pub open spec fn digit_char(d: nat) -> char {
    if d == 0 { '0' } else if d == 1 { '1' } else if d == 2 { '2' } else if d == 3 { '3' }
    else if d == 4 { '4' } else if d == 5 { '5' } else if d == 6 { '6' } else if d == 7 { '7' }
    else if d == 8 { '8' } else { '9' }
}

/// The decimal text of `n`, without leading zeros.
pub open spec fn decimal(n: nat) -> Seq<char>
    decreases n,
{
    if n < 10 {
        seq![digit_char(n)]
    } else {
        decimal(n / 10).push(digit_char(n % 10))
    }
}

pub fn digit_str(d: usize) -> (r: &'static str)
    requires
        d < 10,
    ensures
        r@ == seq![digit_char(d as nat)],
{
    proof {
        reveal_strlit("0");
        reveal_strlit("1");
        reveal_strlit("2");
        reveal_strlit("3");
        reveal_strlit("4");
        reveal_strlit("5");
        reveal_strlit("6");
        reveal_strlit("7");
        reveal_strlit("8");
        reveal_strlit("9");
    }
    if d == 0 { "0" } else if d == 1 { "1" } else if d == 2 { "2" } else if d == 3 { "3" }
    else if d == 4 { "4" } else if d == 5 { "5" } else if d == 6 { "6" } else if d == 7 { "7" }
    else if d == 8 { "8" } else { "9" }
}

/// Appends the decimal text of `n` to `s`.
pub fn append_decimal(s: &mut String, n: usize)
    ensures
        final(s)@ == old(s)@ + decimal(n as nat),
    decreases n,
{
    if n >= 10 {
        append_decimal(s, n / 10);
    }
    s.append(digit_str(n % 10));
    proof {
        if n >= 10 {
            assert(decimal(n as nat) == decimal((n / 10) as nat).push(digit_char((n % 10) as nat)));
        }
    }
    assert(s@ =~= old(s)@ + decimal(n as nat));
}

/// Appends the decimal text of `n` to `s`.
pub fn append_decimal_u64(s: &mut String, n: u64)
    ensures
        final(s)@ == old(s)@ + decimal(n as nat),
    decreases n,
{
    if n >= 10 {
        append_decimal_u64(s, n / 10);
    }
    s.append(digit_str((n % 10) as usize));
    proof {
        if n >= 10 {
            assert(decimal(n as nat) == decimal((n / 10) as nat).push(digit_char((n % 10) as nat)));
        }
    }
    assert(s@ =~= old(s)@ + decimal(n as nat));
}

/// Whether two texts are the same.
pub fn same_text(a: &str, b: &str) -> (r: bool)
    ensures
        r == (a@ == b@),
{
    a.to_owned() == b.to_owned()
}

/// The decimal text of `n`, with a minus sign when negative.
pub open spec fn signed_decimal(n: int) -> Seq<char> {
    if n < 0 { seq!['-'] + decimal((-n) as nat) } else { decimal(n as nat) }
}

/// Appends the decimal text of `n`, with a minus sign when negative, to `s`.
pub fn append_decimal_i64(s: &mut String, n: i64)
    ensures
        final(s)@ == old(s)@ + signed_decimal(n as int),
{
    if n < 0 {
        s.append("-");
        proof { reveal_strlit("-"); }
        let magnitude: u64 = if n == i64::MIN { 9_223_372_036_854_775_808u64 } else { (-n) as u64 };
        append_decimal_u64(s, magnitude);
        assert(s@ =~= old(s)@ + signed_decimal(n as int));
    } else {
        append_decimal_u64(s, n as u64);
    }
}

/// Whether `pat` stands in `s` at position `i`.
pub open spec fn text_at(s: Seq<char>, pat: Seq<char>, i: int) -> bool {
    0 <= i && i + pat.len() <= s.len() && s.subrange(i, i + pat.len()) == pat
}

/// Whether `i` is the first position at which `pat` stands in `s`.
pub open spec fn first_at(s: Seq<char>, pat: Seq<char>, i: int) -> bool {
    text_at(s, pat, i) && forall|j: int| 0 <= j < i ==> !#[trigger] text_at(s, pat, j)
}

/// What follows the first occurrence of `pat` in `s`, when `pat` occurs.
pub open spec fn after_first(s: Seq<char>, pat: Seq<char>) -> Option<Seq<char>> {
    if exists|i: int| first_at(s, pat, i) {
        let i = choose|i: int| first_at(s, pat, i);
        Some(s.subrange(i + pat.len(), s.len() as int))
    } else {
        None
    }
}

/// Whether `pat` stands in `s` at `i`, compared character by character.
fn matches_chars_at(s: &str, pat: &str, i: usize, n: usize, m: usize) -> (r: bool)
    requires
        n == s@.len(),
        m == pat@.len(),
        i + m <= n,
    ensures
        r == text_at(s@, pat@, i as int),
{
    let mut k: usize = 0;
    while k < m
        invariant
            n == s@.len(),
            m == pat@.len(),
            i + m <= n,
            k <= m,
            forall|t: int| 0 <= t < k ==> s@[i + t] == pat@[t],
        decreases m - k,
    {
        if s.get_char(i + k) != pat.get_char(k) {
            assert(s@.subrange(i as int, i + m)[k as int] != pat@[k as int]);
            return false;
        }
        k = k + 1;
    }
    assert(s@.subrange(i as int, i + m) =~= pat@);
    true
}

/// What follows the first occurrence of `pat` in `s`, or `None` when `pat`
/// does not occur: the second half of `str::split_once`.
pub fn split_after_first(s: &str, pat: &str) -> (r: Option<String>)
    ensures
        r is None <==> after_first(s@, pat@) is None,
        r matches Some(t) ==> after_first(s@, pat@) == Some(t@),
{
    let n = s.unicode_len();
    let m = pat.unicode_len();
    if m > n {
        assert forall|i: int| !first_at(s@, pat@, i) by {}
        return None;
    }
    if m == 0 {
        assert(first_at(s@, pat@, 0)) by {
            assert(s@.subrange(0, 0) =~= pat@);
        }
        let whole = s.to_owned();
        proof {
            let c = choose|c: int| first_at(s@, pat@, c);
            assert(c == 0) by {
                if c > 0 {
                    assert(!text_at(s@, pat@, 0));
                }
            }
            assert(s@.subrange(0, n as int) =~= s@);
        }
        return Some(whole);
    }
    let mut i: usize = 0;
    while i <= n - m
        invariant
            n == s@.len(),
            m == pat@.len(),
            1 <= m <= n,
            i <= n - m + 1,
            forall|j: int| 0 <= j < i ==> !#[trigger] text_at(s@, pat@, j),
        decreases n - m + 1 - i,
    {
        if matches_chars_at(s, pat, i, n, m) {
            assert(first_at(s@, pat@, i as int));
            let tail = s.substring_char(i + m, n).to_owned();
            proof {
                let c = choose|c: int| first_at(s@, pat@, c);
                assert(c == i) by {
                    if c < i {
                        assert(!text_at(s@, pat@, c));
                    } else if c > i {
                        assert(!text_at(s@, pat@, i as int));
                    }
                }
            }
            return Some(tail);
        }
        i = i + 1;
    }
    assert forall|c: int| !first_at(s@, pat@, c) by {
        if first_at(s@, pat@, c) {
            assert(text_at(s@, pat@, c));
        }
    }
    None
}

} // verus!
