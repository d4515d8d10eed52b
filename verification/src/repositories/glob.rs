use vstd::prelude::*;
use vstd::string::*;

verus! {

/// The byte of the `*` wildcard.
pub open spec fn star() -> u8 {
    42u8
}

/// `needle` stands in `hay` at position `k`.
pub open spec fn occurs_at(hay: Seq<u8>, needle: Seq<u8>, k: int) -> bool {
    0 <= k && k + needle.len() <= hay.len() && hay.subrange(k, k + needle.len()) == needle
}

/// Whether `text` matches the glob pattern `pat`: each `*` stands for any
/// run of bytes, possibly empty; every other byte stands for itself.
pub open spec fn glob_match(text: Seq<u8>, pat: Seq<u8>) -> bool
    decreases pat.len(), text.len(),
{
    if pat.len() == 0 {
        text.len() == 0
    } else if pat[0] == star() {
        glob_match(text, pat.drop_first()) || (text.len() > 0 && glob_match(text.drop_first(), pat))
    } else {
        text.len() > 0 && text[0] == pat[0] && glob_match(text.drop_first(), pat.drop_first())
    }
}

/// Whether the text from byte `i` on matches the pattern from byte `j` on.
pub open spec fn suffixes_match(text: Seq<u8>, pat: Seq<u8>, i: int, j: int) -> bool {
    glob_match(text.skip(i), pat.skip(j))
}

proof fn lemma_suffixes_end(text: Seq<u8>, pat: Seq<u8>, i: int)
    requires
        0 <= i <= text.len(),
    ensures
        suffixes_match(text, pat, i, pat.len() as int) == (i == text.len()),
{
    assert(pat.skip(pat.len() as int).len() == 0);
}

proof fn lemma_suffixes_step(text: Seq<u8>, pat: Seq<u8>, i: int, j: int)
    requires
        0 <= i <= text.len(),
        0 <= j < pat.len(),
    ensures
        suffixes_match(text, pat, i, j) == if pat[j] == star() {
            suffixes_match(text, pat, i, j + 1) || (i < text.len() && suffixes_match(text, pat, i + 1, j))
        } else {
            i < text.len() && text[i] == pat[j] && suffixes_match(text, pat, i + 1, j + 1)
        },
{
    assert(pat.skip(j).drop_first() =~= pat.skip(j + 1));
    assert(pat.skip(j)[0] == pat[j]);
    if i < text.len() {
        assert(text.skip(i).drop_first() =~= text.skip(i + 1));
        assert(text.skip(i)[0] == text[i]);
    }
}

/// Whether `needle` stands in `hay` at `start`.
pub(crate) fn matches_at(hay: &[u8], start: usize, needle: &[u8]) -> (r: bool)
    ensures
        r == occurs_at(hay@, needle@, start as int),
{
    if start > hay.len() || needle.len() > hay.len() - start {
        return false;
    }
    let mut j: usize = 0;
    while j < needle.len()
        invariant
            start <= hay.len(),
            start + needle.len() <= hay.len(),
            j <= needle@.len(),
            forall|m: int| 0 <= m < j ==> hay@[start + m] == needle@[m],
        decreases needle@.len() - j,
    {
        assert(start + j < hay@.len());
        if hay[start + j] != needle[j] {
            assert(hay@.subrange(start as int, start + needle@.len())[j as int] != needle@[j as int]);
            return false;
        }
        j = j + 1;
    }
    assert(hay@.subrange(start as int, start + needle@.len()) =~= needle@);
    true
}

/// Glob matching of bytes: `*` stands for any run of bytes, possibly empty.
/// The answer for each suffix of the text is worked out against ever longer
/// suffixes of the pattern, from the end.
pub fn glob_match_bytes(text: &[u8], pat: &[u8]) -> (r: bool)
    ensures
        r == glob_match(text@, pat@),
{
    let n = text.len();
    let m = pat.len();
    let ghost t = text@;
    let ghost p = pat@;
    let mut next: Vec<bool> = Vec::new();
    let mut k: usize = 0;
    while k < n
        invariant
            n == t.len(),
            k <= n,
            next@.len() == k,
            forall|i: int| 0 <= i < k ==> !next@[i],
        decreases n - k,
    {
        next.push(false);
        k = k + 1;
    }
    next.push(true);
    proof {
        assert forall|i: int| 0 <= i <= n implies next@[i] == suffixes_match(t, p, i, m as int) by {
            lemma_suffixes_end(t, p, i);
        }
    }
    let mut j: usize = m;
    while j > 0
        invariant
            n == t.len(),
            m == p.len(),
            t == text@,
            p == pat@,
            j <= m,
            next@.len() == n + 1,
            forall|i: int| 0 <= i <= n ==> next@[i] == suffixes_match(t, p, i, j as int),
        decreases j,
    {
        j = j - 1;
        let star_here = pat[j] == 42u8;
        let mut cur: Vec<bool> = Vec::new();
        let mut c: usize = 0;
        while c < n
            invariant
                c <= n,
                cur@.len() == c,
            decreases n - c,
        {
            cur.push(false);
            c = c + 1;
        }
        cur.push(false);
        let mut i: usize = n;
        let mut done = false;
        while !done
            invariant
                n == t.len(),
                m == p.len(),
                t == text@,
                p == pat@,
                j < m,
                star_here == (p[j as int] == star()),
                i <= n,
                done ==> i == 0,
                cur@.len() == n + 1,
                next@.len() == n + 1,
                forall|x: int| 0 <= x <= n ==> next@[x] == suffixes_match(t, p, x, j + 1),
                forall|x: int| i < x <= n ==> cur@[x] == suffixes_match(t, p, x, j as int),
                done ==> cur@[0] == suffixes_match(t, p, 0, j as int),
            decreases i + if done { 0int } else { 1int },
        {
            let v = if star_here {
                next[i] || (i < n && cur[i + 1])
            } else {
                i < n && text[i] == pat[j] && next[i + 1]
            };
            proof {
                lemma_suffixes_step(t, p, i as int, j as int);
            }
            cur.set(i, v);
            if i == 0 {
                done = true;
            } else {
                i = i - 1;
            }
        }
        next = cur;
    }
    proof {
        assert(t.skip(0) =~= t);
        assert(p.skip(0) =~= p);
    }
    next[0]
}

/// Simple pattern matching on text: `*` in the pattern stands for any run of
/// characters, possibly empty; without a `*` the text must equal the pattern.
pub fn pattern_match(text: &str, pattern: &str) -> (r: bool)
    ensures
        r == glob_match(text.spec_bytes(), pattern.spec_bytes()),
{
    glob_match_bytes(text.as_bytes(), pattern.as_bytes())
}

/// A pattern of a lone `*` matches every text.
pub proof fn law_star_matches_all(text: Seq<u8>)
    ensures
        glob_match(text, seq![star()]),
    decreases text.len(),
{
    let p = seq![star()];
    assert(p[0] == star());
    assert(p.drop_first() =~= Seq::<u8>::empty());
    if text.len() > 0 {
        law_star_matches_all(text.drop_first());
        assert(glob_match(text.drop_first(), p));
    } else {
        assert(glob_match(text, p.drop_first()));
    }
}

/// A pattern without `*` matches exactly the text equal to it.
pub proof fn law_literal_pattern_is_equality(text: Seq<u8>, pat: Seq<u8>)
    requires
        forall|j: int| 0 <= j < pat.len() ==> pat[j] != star(),
    ensures
        glob_match(text, pat) <==> text == pat,
    decreases pat.len(),
{
    if pat.len() == 0 {
        if text.len() == 0 {
            assert(text =~= pat);
        }
    } else if text.len() == 0 {
        assert(text.len() != pat.len());
    } else {
        assert(pat[0] != star());
        assert forall|j: int| 0 <= j < pat.drop_first().len() implies pat.drop_first()[j] != star() by {
            assert(pat.drop_first()[j] == pat[j + 1]);
        }
        law_literal_pattern_is_equality(text.drop_first(), pat.drop_first());
        if text[0] == pat[0] && text.drop_first() == pat.drop_first() {
            assert forall|k: int| 0 <= k < text.len() implies text[k] == pat[k] by {
                if k > 0 {
                    assert(text[k] == text.drop_first()[k - 1]);
                    assert(pat[k] == pat.drop_first()[k - 1]);
                }
            }
            assert(text =~= pat);
        }
        if text == pat {
            assert(text.drop_first() =~= pat.drop_first());
        }
    }
}

/// `needle` stands somewhere in `hay`.
pub open spec fn contains_seq(hay: Seq<u8>, needle: Seq<u8>) -> bool {
    exists|k: int| occurs_at(hay, needle, k)
}

/// Whether `needle` stands somewhere in `hay`.
pub fn contains_text(hay: &str, needle: &str) -> (r: bool)
    ensures
        r == contains_seq(hay.spec_bytes(), needle.spec_bytes()),
{
    let h = hay.as_bytes();
    let n = needle.as_bytes();
    if n.len() > h.len() {
        assert forall|k: int| !occurs_at(h@, n@, k) by {}
        return false;
    }
    let last = h.len() - n.len();
    let mut k: usize = 0;
    while k < last
        invariant
            n@.len() <= h@.len(),
            last == h@.len() - n@.len(),
            h@ == hay.spec_bytes(),
            n@ == needle.spec_bytes(),
            k <= last,
            forall|j: int| 0 <= j < k ==> !occurs_at(h@, n@, j),
        decreases last - k,
    {
        if matches_at(h, k, n) {
            assert(occurs_at(h@, n@, k as int));
            return true;
        }
        k = k + 1;
    }
    if matches_at(h, last, n) {
        assert(occurs_at(h@, n@, last as int));
        return true;
    }
    assert forall|j: int| !occurs_at(h@, n@, j) by {
        if 0 <= j && j <= last {
        }
    }
    false
}

} // verus!
