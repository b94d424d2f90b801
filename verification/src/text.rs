//! Character-level helpers on string slices: pieces between separators and
//! substitution of a token.

use vstd::prelude::*;
use vstd::string::*;

verus! {

/// Index of the first `sep` in `s`, or `s.len()` where `s` holds none.
pub open spec fn first_index_of(s: Seq<char>, sep: char) -> int
    decreases s.len(),
{
    if s.len() == 0 || s[0] == sep {
        0
    } else {
        1 + first_index_of(s.skip(1), sep)
    }
}

/// The `k`-th piece of `s` when it is cut at every `sep`, counted from zero.
/// A text without any `sep` has exactly one piece, itself.
pub open spec fn piece(s: Seq<char>, sep: char, k: nat) -> Option<Seq<char>>
    decreases k,
{
    let i = first_index_of(s, sep);
    if k == 0 {
        Some(s.take(i))
    } else if i == s.len() {
        None
    } else {
        piece(s.skip(i + 1), sep, (k - 1) as nat)
    }
}

/// `s` with every occurrence of `from` replaced by `to`, scanning from the
/// left and resuming after each occurrence. An empty `from` occurs nowhere.
pub open spec fn replace_all(s: Seq<char>, from: Seq<char>, to: Seq<char>) -> Seq<char>
    decreases s.len(),
{
    if from.len() == 0 || s.len() < from.len() {
        s
    } else if s.take(from.len() as int) == from {
        to + replace_all(s.skip(from.len() as int), from, to)
    } else {
        seq![s[0]] + replace_all(s.skip(1), from, to)
    }
}

/// The view of an optional string slice.
pub open spec fn str_option_view(o: Option<&str>) -> Option<Seq<char>> {
    match o {
        Some(s) => Some(s@),
        None => None,
    }
}

/// The view of an optional string.
pub open spec fn string_option_view(o: Option<String>) -> Option<Seq<char>> {
    match o {
        Some(s) => Some(s@),
        None => None,
    }
}

/// `first_index_of` is the least index that holds `sep`.
pub proof fn lemma_first_index_of(s: Seq<char>, sep: char, m: int)
    requires
        0 <= m <= s.len(),
        forall|j: int| 0 <= j < m ==> s[j] != sep,
        m < s.len() ==> s[m] == sep,
    ensures
        first_index_of(s, sep) == m,
    decreases s.len(),
{
    if s.len() == 0 || s[0] == sep {
    } else {
        let t = s.skip(1);
        assert forall|j: int| 0 <= j < m - 1 implies t[j] != sep by {
            assert(t[j] == s[j + 1]);
        }
        lemma_first_index_of(t, sep, m - 1);
    }
}

/// A text cut at its first `sep`: what stands before it is the first piece,
/// and the second piece is the first piece of what stands behind it.
pub proof fn lemma_pieces_of_join(head: Seq<char>, tail: Seq<char>, sep: char)
    requires
        !head.contains(sep),
    ensures
        piece(head + seq![sep] + tail, sep, 0) == Some(head),
        piece(head + seq![sep] + tail, sep, 1) == piece(tail, sep, 0),
{
    let joined = head + seq![sep] + tail;
    assert forall|j: int| 0 <= j < head.len() implies joined[j] != sep by {
        assert(joined[j] == head[j]);
        assert(head.contains(head[j]));
    }
    assert(joined[head.len() as int] == sep);
    lemma_first_index_of(joined, sep, head.len() as int);
    assert(joined.take(head.len() as int) =~= head);
    assert(joined.skip(head.len() as int + 1) =~= tail);
    reveal_with_fuel(piece, 2);
}

/// A text without `sep` is its own first piece.
pub proof fn lemma_piece_of_plain(s: Seq<char>, sep: char)
    requires
        !s.contains(sep),
    ensures
        piece(s, sep, 0) == Some(s),
{
    assert forall|j: int| 0 <= j < s.len() implies s[j] != sep by {
        assert(s.contains(s[j]));
    }
    lemma_first_index_of(s, sep, s.len() as int);
    assert(s.take(s.len() as int) =~= s);
}

/// The characters of `s`, in order.
pub fn chars_of(s: &str) -> (v: Vec<char>)
    ensures
        v@ == s@,
{
    let mut v: Vec<char> = Vec::new();
    for c in it: s.chars()
        invariant
            it.seq() == s@,
            v@ == it.seq().take(it.index() as int),
    {
        v.push(c);
    }
    v
}

/// Whether two string slices hold the same characters.
pub fn same_text(a: &str, b: &str) -> (r: bool)
    ensures
        r == (a@ == b@),
{
    let x = a.to_owned();
    let y = b.to_owned();
    x == y
}

/// Whether `c` occurs in `s`.
pub fn contains_char(s: &str, c: char) -> (r: bool)
    ensures
        r == s@.contains(c),
{
    let chars = chars_of(s);
    let n = chars.len();
    let mut i: usize = 0;
    while i < n
        invariant
            n == chars@.len(),
            chars@ == s@,
            i <= n,
            forall|j: int| 0 <= j < i ==> chars@[j] != c,
        decreases n - i,
    {
        if chars[i] == c {
            assert(s@[i as int] == c);
            return true;
        }
        i += 1;
    }
    false
}

/// The `k`-th piece of `s` cut at every `sep`, or `None` where `s` has `k`
/// pieces or fewer.
pub fn split_piece<'a>(s: &'a str, sep: char, k: usize) -> (r: Option<&'a str>)
    ensures
        str_option_view(r) == piece(s@, sep, k as nat),
{
    let chars = chars_of(s);
    let n = chars.len();
    let mut start: usize = 0;
    let mut left: usize = k;
    let mut i: usize = 0;
    proof {
        assert(s@.skip(0) == s@);
    }
    while i < n
        invariant
            n == chars@.len(),
            chars@ == s@,
            start <= i <= n,
            piece(s@, sep, k as nat) == piece(s@.skip(start as int), sep, left as nat),
            forall|j: int| start <= j < i ==> chars@[j] != sep,
        decreases n - i,
    {
        if chars[i] == sep {
            let ghost rest = s@.skip(start as int);
            proof {
                assert forall|j: int| 0 <= j < i - start implies rest[j] != sep by {
                    assert(rest[j] == chars@[start + j]);
                }
                assert(rest[i - start] == chars@[i as int]);
                lemma_first_index_of(rest, sep, i - start);
            }
            if left == 0 {
                let found = s.substring_char(start, i);
                assert(found@ == rest.take(i - start));
                return Some(found);
            }
            proof {
                assert(rest.skip(i - start + 1) == s@.skip(i + 1));
            }
            left -= 1;
            start = i + 1;
        }
        i += 1;
    }
    let ghost rest = s@.skip(start as int);
    proof {
        assert forall|j: int| 0 <= j < n - start implies rest[j] != sep by {
            assert(rest[j] == chars@[start + j]);
        }
        lemma_first_index_of(rest, sep, n - start);
    }
    if left == 0 {
        let found = s.substring_char(start, n);
        assert(found@ == rest.take(n - start));
        Some(found)
    } else {
        None
    }
}

/// Whether `pattern` stands in `chars` at index `at`.
fn occurs_at(chars: &Vec<char>, pattern: &Vec<char>, at: usize) -> (r: bool)
    requires
        at + pattern@.len() <= chars@.len(),
    ensures
        r == (chars@.subrange(at as int, at + pattern@.len()) == pattern@),
{
    let m = pattern.len();
    let mut j: usize = 0;
    while j < m
        invariant
            m == pattern@.len(),
            at + m <= chars.len(),
            j <= m,
            forall|t: int| 0 <= t < j ==> chars@[at + t] == pattern@[t],
        decreases m - j,
    {
        if chars[at + j] != pattern[j] {
            assert(chars@.subrange(at as int, at + m)[j as int] != pattern@[j as int]);
            return false;
        }
        j += 1;
    }
    assert(chars@.subrange(at as int, at + m) =~= pattern@);
    true
}

/// `s` with every occurrence of the non-empty `from` replaced by `to`.
pub fn replace_text(s: &str, from: &str, to: &str) -> (r: String)
    ensures
        r@ == replace_all(s@, from@, to@),
{
    let chars = chars_of(s);
    let pattern = chars_of(from);
    let n = chars.len();
    let m = pattern.len();
    if m == 0 || n < m {
        return s.to_owned();
    }
    let mut out = String::new();
    let mut kept: usize = 0;
    let mut i: usize = 0;
    proof {
        assert(s@.skip(0) == s@);
        assert(s@.subrange(0, 0) =~= Seq::<char>::empty());
        assert(out@ + s@.subrange(0, 0) + replace_all(s@, from@, to@) =~= replace_all(s@, from@, to@));
    }
    while i <= n - m
        invariant
            n == chars@.len(),
            m == pattern@.len(),
            chars@ == s@,
            pattern@ == from@,
            0 < m <= n,
            kept <= i <= n,
            replace_all(s@, from@, to@) == out@ + s@.subrange(kept as int, i as int) + replace_all(
                s@.skip(i as int),
                from@,
                to@,
            ),
        decreases n - i,
    {
        let ghost rest = s@.skip(i as int);
        proof {
            assert(rest.take(m as int) =~= chars@.subrange(i as int, i + m));
        }
        if occurs_at(&chars, &pattern, i) {
            out.append(s.substring_char(kept, i));
            out.append(to);
            proof {
                assert(rest.skip(m as int) =~= s@.skip(i + m));
                assert(s@.subrange(i + m, i + m) =~= Seq::<char>::empty());
                assert(out@ + s@.subrange(i + m, i + m) =~= out@);
                assert(replace_all(rest, from@, to@) == to@ + replace_all(
                    s@.skip(i + m),
                    from@,
                    to@,
                ));
                assert(replace_all(s@, from@, to@) =~= out@ + replace_all(
                    s@.skip(i + m),
                    from@,
                    to@,
                ));
            }
            i += m;
            kept = i;
        } else {
            proof {
                assert(rest.skip(1) =~= s@.skip(i + 1));
                assert(s@.subrange(kept as int, i as int) + seq![rest[0]] =~= s@.subrange(
                    kept as int,
                    i + 1,
                ));
                assert(replace_all(s@, from@, to@) =~= out@ + s@.subrange(kept as int, i + 1)
                    + replace_all(s@.skip(i + 1), from@, to@));
            }
            i += 1;
        }
    }
    proof {
        assert(replace_all(s@.skip(i as int), from@, to@) == s@.skip(i as int));
        assert(s@.subrange(kept as int, i as int) + s@.skip(i as int) =~= s@.subrange(
            kept as int,
            n as int,
        ));
        assert(replace_all(s@, from@, to@) =~= out@ + s@.subrange(kept as int, n as int));
    }
    out.append(s.substring_char(kept, n));
    out
}

} // verus!
