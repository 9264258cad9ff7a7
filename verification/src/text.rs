//! Character-level helpers on strings: searching, splitting and joining.
//!
//! Every function states its result over the string's view, a `Seq<char>`.

use vstd::prelude::*;

verus! {

/// The views of a sequence of strings.
pub open spec fn views(v: Seq<String>) -> Seq<Seq<char>> {
    Seq::new(v.len(), |i: int| v[i]@)
}

/// The view of an optional string.
pub open spec fn text_view(s: Option<String>) -> Option<Seq<char>> {
    match s {
        Some(s) => Some(s@),
        None => None,
    }
}

/// The position of the first `c` in `s`, or `s.len()` where there is none.
pub open spec fn index_of(s: Seq<char>, c: char) -> int
    decreases s.len(),
{
    if s.len() == 0 {
        0
    } else if s[0] == c {
        0
    } else {
        1 + index_of(s.skip(1), c)
    }
}

/// The pieces of `s` between the occurrences of `sep`: one more than the
/// number of separators, empty pieces included.
pub open spec fn split_on(s: Seq<char>, sep: char) -> Seq<Seq<char>>
    decreases s.len(),
{
    let i = index_of(s, sep);
    if i < 0 || i >= s.len() {
        seq![s]
    } else {
        seq![s.take(i)] + split_on(s.skip(i + 1), sep)
    }
}

/// Whether `needle` stands in `hay` at position `i`.
pub open spec fn occurs_at(hay: Seq<char>, needle: Seq<char>, i: int) -> bool {
    0 <= i && i + needle.len() <= hay.len() && hay.subrange(i, i + needle.len()) == needle
}

/// The first position from `from` on at which `needle` stands in `hay`.
pub open spec fn search(hay: Seq<char>, needle: Seq<char>, from: int) -> Option<int>
    decreases hay.len() - from + 1,
{
    if from < 0 || from + needle.len() > hay.len() {
        None
    } else if occurs_at(hay, needle, from) {
        Some(from)
    } else {
        search(hay, needle, from + 1)
    }
}

/// The first position at which `needle` stands in `hay`.
pub open spec fn first_index(hay: Seq<char>, needle: Seq<char>) -> Option<int> {
    search(hay, needle, 0)
}

/// `s` without its trailing run of `c`.
pub open spec fn trim_end(s: Seq<char>, c: char) -> Seq<char>
    decreases s.len(),
{
    if s.len() > 0 && s.last() == c {
        trim_end(s.drop_last(), c)
    } else {
        s
    }
}

/// `s` without every leading repetition of `prefix`.
pub open spec fn trim_start(s: Seq<char>, prefix: Seq<char>) -> Seq<char>
    decreases s.len(),
{
    if prefix.len() > 0 && prefix.is_prefix_of(s) {
        trim_start(s.skip(prefix.len() as int), prefix)
    } else {
        s
    }
}

pub proof fn lemma_index_of_bounds(s: Seq<char>, c: char)
    ensures
        0 <= index_of(s, c) <= s.len(),
        index_of(s, c) < s.len() ==> s[index_of(s, c)] == c,
        forall|j: int| 0 <= j < index_of(s, c) ==> s[j] != c,
    decreases s.len(),
{
    if s.len() > 0 && s[0] != c {
        let t = s.skip(1);
        lemma_index_of_bounds(t, c);
        assert forall|j: int| 0 <= j < index_of(s, c) implies s[j] != c by {
            if j > 0 {
                assert(t[j - 1] == s[j]);
            }
        }
    }
}

/// A position that holds `c` with none before it is the first one.
pub proof fn lemma_index_of_is(s: Seq<char>, c: char, i: int)
    requires
        0 <= i <= s.len(),
        forall|j: int| 0 <= j < i ==> s[j] != c,
        i < s.len() ==> s[i] == c,
    ensures
        index_of(s, c) == i,
{
    lemma_index_of_bounds(s, c);
}

/// Every string has at least one piece.
pub proof fn lemma_split_nonempty(s: Seq<char>, sep: char)
    ensures
        split_on(s, sep).len() >= 1,
    decreases s.len(),
{
    lemma_index_of_bounds(s, sep);
    let i = index_of(s, sep);
    if i < s.len() {
        lemma_split_nonempty(s.skip(i + 1), sep);
    }
}

/// Two texts without the separator, joined by it, split into themselves.
pub proof fn lemma_split_joined(a: Seq<char>, b: Seq<char>, sep: char)
    requires
        forall|i: int| 0 <= i < a.len() ==> a[i] != sep,
        forall|i: int| 0 <= i < b.len() ==> b[i] != sep,
    ensures
        split_on(a + seq![sep] + b, sep) == seq![a, b],
{
    let s = a + seq![sep] + b;
    lemma_index_of_is(s, sep, a.len() as int);
    assert(s.take(a.len() as int) =~= a);
    assert(s.skip(a.len() as int + 1) =~= b);
    lemma_index_of_is(b, sep, b.len() as int);
    assert(split_on(b, sep) =~= seq![b]);
    assert(split_on(s, sep) =~= seq![a, b]);
}

/// A text of two pieces is the two pieces joined by the separator, and
/// neither piece holds the separator.
pub proof fn lemma_split_in_two(s: Seq<char>, sep: char)
    requires
        split_on(s, sep).len() == 2,
    ensures
        s == split_on(s, sep)[0] + seq![sep] + split_on(s, sep)[1],
        forall|i: int| 0 <= i < split_on(s, sep)[0].len() ==> split_on(s, sep)[0][i] != sep,
        forall|i: int| 0 <= i < split_on(s, sep)[1].len() ==> split_on(s, sep)[1][i] != sep,
{
    lemma_index_of_bounds(s, sep);
    let i = index_of(s, sep);
    let rest = s.skip(i + 1);
    lemma_index_of_bounds(rest, sep);
    lemma_split_nonempty(rest, sep);
    if index_of(rest, sep) < rest.len() {
        lemma_split_nonempty(rest.skip(index_of(rest, sep) + 1), sep);
    }
    assert(split_on(s, sep)[0] == s.take(i));
    assert(split_on(s, sep)[1] == rest);
    assert(s =~= s.take(i) + seq![sep] + rest);
}

/// The number of characters of `s`.
pub fn char_len(s: &str) -> (n: usize)
    ensures
        n == s@.len(),
{
    s.unicode_len()
}

/// Whether the two strings hold the same characters.
pub fn same(a: &str, b: &str) -> (r: bool)
    ensures
        r == (a@ == b@),
{
    let n = a.unicode_len();
    if b.unicode_len() != n {
        return false;
    }
    let mut i: usize = 0;
    while i < n
        invariant
            n == a@.len(),
            n == b@.len(),
            i <= n,
            forall|j: int| 0 <= j < i ==> a@[j] == b@[j],
        decreases n - i,
    {
        if a.get_char(i) != b.get_char(i) {
            return false;
        }
        i += 1;
    }
    assert(a@ =~= b@);
    true
}

/// Whether `needle` stands in `hay` at position `i`.
pub fn matches_at(hay: &str, needle: &str, i: usize) -> (r: bool)
    ensures
        r == occurs_at(hay@, needle@, i as int),
{
    let n = hay.unicode_len();
    let m = needle.unicode_len();
    if i > n || m > n - i {
        return false;
    }
    let mut k: usize = 0;
    while k < m
        invariant
            n == hay@.len(),
            m == needle@.len(),
            i + m <= n,
            k <= m,
            forall|j: int| 0 <= j < k ==> hay@[i + j] == needle@[j],
        decreases m - k,
    {
        if hay.get_char(i + k) != needle.get_char(k) {
            assert(hay@.subrange(i as int, i + m)[k as int] == hay@[i + k]);
            return false;
        }
        k += 1;
    }
    assert(hay@.subrange(i as int, i + m) =~= needle@);
    true
}

/// Whether `s` begins with `prefix`.
pub fn starts_with(s: &str, prefix: &str) -> (r: bool)
    ensures
        r == prefix@.is_prefix_of(s@),
{
    let r = matches_at(s, prefix, 0);
    proof {
        if r {
            assert(s@.subrange(0, prefix@.len() as int) == prefix@);
            assert(prefix@ =~= s@.subrange(0, prefix@.len() as int));
        }
        if prefix@.is_prefix_of(s@) {
            assert(s@.subrange(0, prefix@.len() as int) =~= prefix@);
        }
    }
    r
}

/// The first position at which `needle` stands in `hay`.
pub fn find(hay: &str, needle: &str) -> (r: Option<usize>)
    ensures
        match r {
            Some(i) => first_index(hay@, needle@) == Some(i as int) && occurs_at(
                hay@,
                needle@,
                i as int,
            ),
            None => first_index(hay@, needle@).is_none(),
        },
{
    let n = hay.unicode_len();
    let mut i: usize = 0;
    while i < n
        invariant
            n == hay@.len(),
            i <= n,
            first_index(hay@, needle@) == search(hay@, needle@, i as int),
        decreases n - i,
    {
        if matches_at(hay, needle, i) {
            return Some(i);
        }
        i += 1;
    }
    if matches_at(hay, needle, n) {
        return Some(n);
    }
    assert(search(hay@, needle@, n + 1).is_none());
    None
}

/// `s` without its trailing run of `c`.
pub fn strip_end(s: &str, c: char) -> (r: String)
    ensures
        r@ == trim_end(s@, c),
{
    let n = s.unicode_len();
    let mut end: usize = n;
    assert(s@.take(n as int) =~= s@);
    while end > 0 && s.get_char(end - 1) == c
        invariant
            n == s@.len(),
            end <= n,
            trim_end(s@, c) == trim_end(s@.take(end as int), c),
        decreases end,
    {
        assert(s@.take(end as int).drop_last() =~= s@.take(end - 1));
        end -= 1;
    }
    assert(s@.take(end as int) =~= s@.subrange(0, end as int));
    slice(s, 0, end)
}

/// `s` without every leading repetition of `prefix`.
pub fn strip_start(s: &str, prefix: &str) -> (r: String)
    ensures
        r@ == trim_start(s@, prefix@),
{
    let n = s.unicode_len();
    let m = prefix.unicode_len();
    if m == 0 {
        return s.to_owned();
    }
    let mut start: usize = 0;
    assert(s@.skip(0) =~= s@);
    while matches_at(s, prefix, start)
        invariant
            n == s@.len(),
            m == prefix@.len(),
            m > 0,
            start <= n,
            trim_start(s@, prefix@) == trim_start(s@.skip(start as int), prefix@),
        decreases n - start,
    {
        proof {
            let rest = s@.skip(start as int);
            assert(rest.subrange(0, m as int) =~= s@.subrange(start as int, start + m));
            assert(prefix@.is_prefix_of(rest));
            assert(rest.skip(m as int) =~= s@.skip(start + m));
        }
        start += m;
    }
    proof {
        let rest = s@.skip(start as int);
        if prefix@.is_prefix_of(rest) {
            assert(rest.subrange(0, m as int) =~= s@.subrange(start as int, start + m));
        }
        assert(rest =~= s@.subrange(start as int, n as int));
    }
    slice(s, start, n)
}

/// The characters of `s` from position `from` up to, not including, `to`.
pub fn slice(s: &str, from: usize, to: usize) -> (r: String)
    requires
        from <= to <= s@.len(),
    ensures
        r@ == s@.subrange(from as int, to as int),
{
    s.substring_char(from, to).to_owned()
}

/// `a` followed by `b`.
pub fn join(a: &str, b: &str) -> (r: String)
    ensures
        r@ == a@ + b@,
{
    let mut r = a.to_owned();
    r.append(b);
    r
}

/// The pieces of `s` between the occurrences of `sep`.
pub fn split(s: &str, sep: char) -> (r: Vec<String>)
    ensures
        views(r@) == split_on(s@, sep),
{
    let n = s.unicode_len();
    let mut pieces: Vec<String> = Vec::new();
    let mut start: usize = 0;
    let mut i: usize = 0;
    assert(s@.skip(0) =~= s@);
    assert(views(pieces@) =~= Seq::<Seq<char>>::empty());
    while i < n
        invariant
            n == s@.len(),
            start <= i <= n,
            forall|j: int| start <= j < i ==> s@[j] != sep,
            split_on(s@, sep) =~= views(pieces@) + split_on(s@.skip(start as int), sep),
        decreases n - i,
    {
        if s.get_char(i) == sep {
            let piece = slice(s, start, i);
            proof {
                let rest = s@.skip(start as int);
                lemma_index_of_is(rest, sep, i - start);
                assert(rest.take(i - start) =~= s@.subrange(start as int, i as int));
                assert(rest.skip(i - start + 1) =~= s@.skip(i + 1));
                assert(views(pieces@.push(piece)) =~= views(pieces@) + seq![piece@]);
            }
            pieces.push(piece);
            start = i + 1;
        }
        i += 1;
    }
    let last = slice(s, start, n);
    proof {
        let rest = s@.skip(start as int);
        lemma_index_of_is(rest, sep, n - start);
        assert(rest =~= s@.subrange(start as int, n as int));
        assert(views(pieces@.push(last)) =~= views(pieces@) + seq![last@]);
    }
    pieces.push(last);
    assert(views(pieces@) =~= split_on(s@, sep));
    pieces
}

} // verus!
