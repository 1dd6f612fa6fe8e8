//! Text helpers over the character sequence of a string.

use vstd::prelude::*;
use vstd::string::*;

verus! {

/// The characters of `s` as a vector.
pub fn chars_of(s: &str) -> (r: Vec<char>)
    ensures
        r@ == s@,
{
    let n: usize = s.unicode_len();
    let mut out: Vec<char> = Vec::new();
    let mut i: usize = 0;
    while i < n
        invariant
            n == s@.len(),
            i <= n,
            out@ == s@.subrange(0, i as int),
        decreases n - i,
    {
        let c: char = s.get_char(i);
        out.push(c);
        i = i + 1;
        assert(out@ =~= s@.subrange(0, i as int));
    }
    assert(s@.subrange(0, n as int) =~= s@);
    out
}

/// Whether `a` and `b` hold the same characters.
pub fn same_text(a: &str, b: &str) -> (r: bool)
    ensures
        r == (a@ == b@),
{
    let x: Vec<char> = chars_of(a);
    let y: Vec<char> = chars_of(b);
    same_chars(&x, &y)
}

/// Whether two character vectors are equal, element by element.
pub fn same_chars(x: &Vec<char>, y: &Vec<char>) -> (r: bool)
    ensures
        r == (x@ == y@),
{
    if x.len() != y.len() {
        return false;
    }
    let n: usize = x.len();
    let mut i: usize = 0;
    while i < n
        invariant
            n == x@.len(),
            n == y@.len(),
            i <= n,
            x@.subrange(0, i as int) == y@.subrange(0, i as int),
        decreases n - i,
    {
        if x[i] != y[i] {
            assert(x@[i as int] != y@[i as int]);
            return false;
        }
        i = i + 1;
        assert(x@.subrange(0, i as int) =~= x@.subrange(0, i - 1).push(x@[i - 1]));
        assert(y@.subrange(0, i as int) =~= y@.subrange(0, i - 1).push(y@[i - 1]));
    }
    assert(x@.subrange(0, n as int) =~= x@);
    assert(y@.subrange(0, n as int) =~= y@);
    true
}

/// Whether `s` begins with the characters of `prefix`.
pub fn starts_with(s: &str, prefix: &str) -> (r: bool)
    ensures
        r == prefix@.is_prefix_of(s@),
{
    let x: Vec<char> = chars_of(s);
    let p: Vec<char> = chars_of(prefix);
    let r = occurs_at_exec(&x, &p, 0);
    assert(r == prefix@.is_prefix_of(s@)) by {
        if x@.len() >= p@.len() {
            assert(x@.subrange(0, p@.len() as int) =~= x@.subrange(0int, 0int + p@.len()));
        }
        if prefix@.is_prefix_of(s@) {
            assert(s@.subrange(0, prefix@.len() as int) =~= prefix@);
        }
    }
    r
}

/// What is left of `s` behind its first `n` characters.
pub fn text_after(s: &str, n: usize) -> (r: String)
    requires
        n <= s@.len(),
    ensures
        r@ == s@.skip(n as int),
{
    let total: usize = s.unicode_len();
    let rest: &str = s.substring_char(n, total);
    let r = rest.to_owned();
    assert(r@ =~= s@.skip(n as int));
    r
}

/// Whether `pat` stands in `s` at position `i`.
pub open spec fn occurs_at(s: Seq<char>, pat: Seq<char>, i: int) -> bool {
    0 <= i && i + pat.len() <= s.len() && s.subrange(i, i + pat.len()) == pat
}

/// The first position at or behind `i` where `pat` stands in `s`, if there is one.
pub open spec fn find_from(s: Seq<char>, pat: Seq<char>, i: int) -> Option<int>
    decreases s.len() - i + 1,
{
    if i < 0 || i + pat.len() > s.len() {
        None
    } else if occurs_at(s, pat, i) {
        Some(i)
    } else {
        find_from(s, pat, i + 1)
    }
}

/// The position of the first occurrence of `pat` in `s`.
pub open spec fn first_occurrence(s: Seq<char>, pat: Seq<char>) -> Option<int> {
    find_from(s, pat, 0)
}

/// `find_from` gives the least position at or behind `i` where `pat` stands, and `None` only
/// where it stands at none.
pub proof fn lemma_find_from_is_least(s: Seq<char>, pat: Seq<char>, i: int)
    requires
        0 <= i,
    ensures
        match find_from(s, pat, i) {
            Some(k) => i <= k && occurs_at(s, pat, k) && forall|j: int|
                i <= j < k ==> !occurs_at(s, pat, j),
            None => forall|j: int| i <= j ==> !occurs_at(s, pat, j),
        },
    decreases s.len() - i + 1,
{
    if i + pat.len() > s.len() {
    } else if occurs_at(s, pat, i) {
    } else {
        lemma_find_from_is_least(s, pat, i + 1);
    }
}

/// Whether `pat` stands in `x` at position `i`.
pub fn occurs_at_exec(x: &Vec<char>, pat: &Vec<char>, i: usize) -> (r: bool)
    ensures
        r == occurs_at(x@, pat@, i as int),
{
    if pat.len() > x.len() || i > x.len() - pat.len() {
        return false;
    }
    let m: usize = pat.len();
    let mut k: usize = 0;
    while k < m
        invariant
            m == pat@.len(),
            i + m <= x.len(),
            k <= m,
            x@.subrange(i as int, i + k) == pat@.subrange(0, k as int),
        decreases m - k,
    {
        if x[i + k] != pat[k] {
            assert(x@.subrange(i as int, i + m)[k as int] != pat@[k as int]);
            return false;
        }
        k = k + 1;
        assert(x@.subrange(i as int, i + k) =~= x@.subrange(i as int, i + k - 1).push(
            x@[i + k - 1],
        ));
        assert(pat@.subrange(0, k as int) =~= pat@.subrange(0, k - 1).push(pat@[k - 1]));
    }
    assert(pat@.subrange(0, m as int) =~= pat@);
    true
}

/// The position of the first occurrence of `pat` in `x` at or behind `start`.
pub fn find_in(x: &Vec<char>, pat: &Vec<char>, start: usize) -> (r: Option<usize>)
    ensures
        match r {
            Some(k) => find_from(x@, pat@, start as int) == Some(k as int),
            None => find_from(x@, pat@, start as int) is None,
        },
{
    if pat.len() > x.len() {
        return None;
    }
    let last: usize = x.len() - pat.len();
    let mut i: usize = start;
    while i <= last
        invariant
            last + pat@.len() == x@.len(),
            start <= i,
            find_from(x@, pat@, start as int) == find_from(x@, pat@, i as int),
        decreases last + 1 - i,
    {
        if occurs_at_exec(x, pat, i) {
            return Some(i);
        }
        if i == last {
            assert(find_from(x@, pat@, i + 1) is None);
            return None;
        }
        i = i + 1;
    }
    None
}

/// Whether `c` is white space: one of the characters with Unicode's White_Space property.
pub open spec fn is_white_space(c: char) -> bool {
    let n = c as u32;
    ||| 0x09 <= n <= 0x0D
    ||| n == 0x20
    ||| n == 0x85
    ||| n == 0xA0
    ||| n == 0x1680
    ||| 0x2000 <= n <= 0x200A
    ||| n == 0x2028
    ||| n == 0x2029
    ||| n == 0x202F
    ||| n == 0x205F
    ||| n == 0x3000
}

/// Whether `c` is white space.
pub fn white_space(c: char) -> (r: bool)
    ensures
        r == is_white_space(c),
{
    let n: u32 = c as u32;
    (0x09 <= n && n <= 0x0D) || n == 0x20 || n == 0x85 || n == 0xA0 || n == 0x1680 || (0x2000 <= n
        && n <= 0x200A) || n == 0x2028 || n == 0x2029 || n == 0x202F || n == 0x205F || n == 0x3000
}

/// Whether `s` holds nothing but white space.
pub open spec fn is_blank(s: Seq<char>) -> bool {
    forall|i: int| 0 <= i < s.len() ==> is_white_space(#[trigger] s[i])
}

/// Whether `s` holds nothing but white space, as an empty line does.
pub fn blank(s: &str) -> (r: bool)
    ensures
        r == is_blank(s@),
{
    let x: Vec<char> = chars_of(s);
    let mut i: usize = 0;
    while i < x.len()
        invariant
            x@ == s@,
            i <= x@.len(),
            forall|j: int| 0 <= j < i ==> is_white_space(#[trigger] x@[j]),
        decreases x@.len() - i,
    {
        if !white_space(x[i]) {
            return false;
        }
        i = i + 1;
    }
    true
}

/// The first position at or behind `i` that holds no white space; the length of `s` where
/// only white space follows.
pub open spec fn first_solid(s: Seq<char>, i: int) -> int
    decreases s.len() - i,
{
    if i < 0 || i >= s.len() {
        s.len() as int
    } else if !is_white_space(s[i]) {
        i
    } else {
        first_solid(s, i + 1)
    }
}

/// The position behind the last character before `j` that is no white space; 0 where only
/// white space stands before `j`.
pub open spec fn solid_end(s: Seq<char>, j: int) -> int
    decreases j,
{
    if j <= 0 || j > s.len() {
        0
    } else if !is_white_space(s[j - 1]) {
        j
    } else {
        solid_end(s, j - 1)
    }
}

/// `s` without the white space at its beginning and at its end.
pub open spec fn trimmed(s: Seq<char>) -> Seq<char> {
    let from = first_solid(s, 0);
    if from >= s.len() {
        Seq::empty()
    } else {
        s.subrange(from, solid_end(s, s.len() as int))
    }
}

/// `first_solid` lies between `i` and the end, and where it lies before the end it names a
/// character that is no white space.
pub proof fn lemma_first_solid(s: Seq<char>, i: int)
    requires
        0 <= i <= s.len(),
    ensures
        i <= first_solid(s, i) <= s.len(),
        first_solid(s, i) < s.len() ==> !is_white_space(s[first_solid(s, i)]),
    decreases s.len() - i,
{
    if i < s.len() && is_white_space(s[i]) {
        lemma_first_solid(s, i + 1);
    }
}

/// `s` without the white space at its beginning and at its end.
pub fn trim(s: &str) -> (r: String)
    ensures
        r@ == trimmed(s@),
{
    let x: Vec<char> = chars_of(s);
    let n: usize = x.len();
    let mut from: usize = 0;
    while from < n && white_space(x[from])
        invariant
            n == x@.len(),
            from <= n,
            first_solid(x@, 0) == first_solid(x@, from as int),
        decreases n - from,
    {
        from = from + 1;
    }
    if from >= n {
        return String::new();
    }
    let mut to: usize = n;
    proof {
        lemma_first_solid(x@, from as int);
    }
    while to > from && white_space(x[to - 1])
        invariant
            n == x@.len(),
            from < to <= n,
            first_solid(x@, from as int) == from,
            !is_white_space(x@[from as int]),
            solid_end(x@, n as int) == solid_end(x@, to as int),
        decreases to,
    {
        to = to - 1;
    }
    let piece: &str = s.substring_char(from, to);
    piece.to_owned()
}

} // verus!
