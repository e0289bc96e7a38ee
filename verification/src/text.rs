//! Text signal helpers: non-whitespace character counting and whitespace
//! trimming, the reductions applied to extracted page text and titles.

use vstd::prelude::*;

verus! {

broadcast use vstd::string::axiom_spec_iter;

/// Whether a character has the Unicode `White_Space` property: the
/// code points that `char::is_whitespace` accepts.
pub open spec fn is_ws(c: char) -> bool {
    let n = c as u32;
    (9 <= n && n <= 13) || n == 32 || n == 0x85 || n == 0xa0 || n == 0x1680 || (0x2000 <= n && n
        <= 0x200a) || n == 0x2028 || n == 0x2029 || n == 0x202f || n == 0x205f || n == 0x3000
}

/// Relies on `char::is_whitespace`: true exactly on the characters with
/// the Unicode `White_Space` property, the set `is_ws` lists.
#[verifier::external_body]
pub fn char_is_whitespace(c: char) -> (r: bool)
    ensures
        r == is_ws(c),
{
    c.is_whitespace()
}

/// The number of non-whitespace characters in `s`.
pub open spec fn non_ws_count_spec(s: Seq<char>) -> nat
    decreases s.len(),
{
    if s.len() == 0 {
        0nat
    } else {
        non_ws_count_spec(s.drop_last()) + if is_ws(s.last()) {
            0nat
        } else {
            1nat
        }
    }
}

/// The characters of `s` as a vector.
pub fn chars_of(s: &str) -> (v: Vec<char>)
    ensures
        v@ == s@,
{
    let mut v: Vec<char> = Vec::new();
    for c in it: s.chars()
        invariant
            v@ =~= it.seq().take(it.index()),
    {
        v.push(c);
    }
    proof {
        assert(v@ =~= s@);
    }
    v
}

/// Relies on std's `FromIterator` impl for `String`: collecting characters
/// yields the string of exactly those characters.
#[verifier::external_body]
pub fn string_from_chars(v: &Vec<char>) -> (s: String)
    ensures
        s@ == v@,
{
    v.iter().collect()
}

/// The characters of valid UTF-8 bytes, or nothing when the bytes are not
/// valid UTF-8, as `String::from_utf8` decodes them.
pub uninterp spec fn utf8_chars(bytes: Seq<u8>) -> Option<Seq<char>>;

/// Relies on `String::from_utf8`: succeeds exactly on valid UTF-8 input and
/// yields the decoded characters; a function of the bytes alone.
#[verifier::external_body]
pub fn string_from_utf8(bytes: Vec<u8>) -> (r: Option<String>)
    ensures
        (r is Some) == (utf8_chars(bytes@) is Some),
        r matches Some(s) ==> Some(s@) == utf8_chars(bytes@),
{
    String::from_utf8(bytes).ok()
}

/// Count the non-whitespace characters of `s`.
pub fn non_whitespace_count(s: &str) -> (n: usize)
    ensures
        n == non_ws_count_spec(s@),
{
    let cs = chars_of(s);
    let mut n: usize = 0;
    let mut i: usize = 0;
    while i < cs.len()
        invariant
            i <= cs@.len(),
            cs@ == s@,
            n <= i,
            n == non_ws_count_spec(s@.take(i as int)),
        decreases cs@.len() - i,
    {
        proof {
            assert(s@.take(i + 1).drop_last() =~= s@.take(i as int));
            assert(s@.take(i + 1).last() == s@[i as int]);
        }
        if !char_is_whitespace(cs[i]) {
            n = n + 1;
        }
        i = i + 1;
    }
    proof {
        assert(s@.take(cs@.len() as int) =~= s@);
    }
    n
}

/// `s` with leading whitespace characters removed.
pub open spec fn trim_front_spec(s: Seq<char>) -> Seq<char>
    decreases s.len(),
{
    if s.len() > 0 && is_ws(s.first()) {
        trim_front_spec(s.drop_first())
    } else {
        s
    }
}

/// `s` with trailing whitespace characters removed.
pub open spec fn trim_back_spec(s: Seq<char>) -> Seq<char>
    decreases s.len(),
{
    if s.len() > 0 && is_ws(s.last()) {
        trim_back_spec(s.drop_last())
    } else {
        s
    }
}

/// `s` with both leading and trailing whitespace characters removed.
pub open spec fn trim_spec(s: Seq<char>) -> Seq<char> {
    trim_back_spec(trim_front_spec(s))
}

proof fn lemma_trim_front_subrange(s: Seq<char>, i: int)
    requires
        0 <= i <= s.len(),
        forall|j: int| 0 <= j < i ==> is_ws(s[j]),
        i < s.len() ==> !is_ws(s[i]),
    ensures
        trim_front_spec(s) =~= s.subrange(i, s.len() as int),
    decreases i,
{
    if i == 0 {
        assert(s.subrange(0, s.len() as int) =~= s);
    } else {
        lemma_trim_front_subrange(s.drop_first(), i - 1);
        assert(s.drop_first().subrange(i - 1, s.drop_first().len() as int) =~= s.subrange(
            i,
            s.len() as int,
        ));
    }
}

proof fn lemma_trim_back_subrange(s: Seq<char>, i: int)
    requires
        0 <= i <= s.len(),
        forall|j: int| i <= j < s.len() ==> is_ws(s[j]),
        i > 0 ==> !is_ws(s[i - 1]),
    ensures
        trim_back_spec(s) =~= s.subrange(0, i),
    decreases s.len() - i,
{
    if i == s.len() {
        assert(s.subrange(0, s.len() as int) =~= s);
    } else {
        lemma_trim_back_subrange(s.drop_last(), i);
        assert(s.drop_last().subrange(0, i) =~= s.subrange(0, i));
    }
}

/// Remove leading and trailing whitespace characters from `v`.
/// The result never starts or ends with a whitespace character.
pub fn trim_chars(v: &Vec<char>) -> (r: Vec<char>)
    ensures
        r@ == trim_spec(v@),
        r@.len() > 0 ==> !is_ws(r@.first()) && !is_ws(r@.last()),
{
    let n = v.len();
    let mut start: usize = 0;
    loop
        invariant
            start <= n,
            n == v@.len(),
            forall|j: int| 0 <= j < start ==> is_ws(v@[j]),
        ensures
            start <= n,
            forall|j: int| 0 <= j < start ==> is_ws(v@[j]),
            start < n ==> !is_ws(v@[start as int]),
        decreases n - start,
    {
        if start == n {
            break ;
        }
        if !char_is_whitespace(v[start]) {
            break ;
        }
        start = start + 1;
    }
    let mut end: usize = n;
    loop
        invariant
            start <= end <= n,
            n == v@.len(),
            forall|j: int| end <= j < n ==> is_ws(v@[j]),
            start < n ==> !is_ws(v@[start as int]),
        ensures
            start <= end <= n,
            forall|j: int| end <= j < n ==> is_ws(v@[j]),
            end > start ==> !is_ws(v@[end - 1]),
        decreases end,
    {
        if end == start {
            break ;
        }
        if !char_is_whitespace(v[end - 1]) {
            break ;
        }
        end = end - 1;
    }
    let mut r: Vec<char> = Vec::new();
    let mut k: usize = start;
    while k < end
        invariant
            start <= k <= end <= n,
            n == v@.len(),
            r@ =~= v@.subrange(start as int, k as int),
        decreases end - k,
    {
        r.push(v[k]);
        k = k + 1;
    }
    proof {
        lemma_trim_front_subrange(v@, start as int);
        let t = v@.subrange(start as int, n as int);
        if end == start {
            lemma_trim_back_subrange(t, 0);
        } else {
            lemma_trim_back_subrange(t, end - start);
        }
        assert(t.subrange(0, end - start) =~= v@.subrange(start as int, end as int));
        assert(r@ =~= trim_spec(v@));
    }
    r
}

} // verus!
