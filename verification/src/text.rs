//! Character-level operations on strings: trimming, comparison, slicing and
//! concatenation, each stated over the sequence of characters a string holds.

use vstd::prelude::*;
use vstd::string::*;

verus! {

/// Whether `c` has the Unicode property White_Space.
pub open spec fn is_whitespace(c: char) -> bool {
    let u = c as u32;
    ||| 0x09 <= u <= 0x0D
    ||| u == 0x20
    ||| u == 0x85
    ||| u == 0xA0
    ||| u == 0x1680
    ||| 0x2000 <= u <= 0x200A
    ||| u == 0x2028
    ||| u == 0x2029
    ||| u == 0x202F
    ||| u == 0x205F
    ||| u == 0x3000
}

/// `s` without its leading whitespace.
pub open spec fn skip_leading_whitespace(s: Seq<char>) -> Seq<char>
    decreases s.len(),
{
    if s.len() > 0 && is_whitespace(s[0]) {
        skip_leading_whitespace(s.drop_first())
    } else {
        s
    }
}

/// `s` without its trailing whitespace.
pub open spec fn drop_trailing_whitespace(s: Seq<char>) -> Seq<char>
    decreases s.len(),
{
    if s.len() > 0 && is_whitespace(s.last()) {
        drop_trailing_whitespace(s.drop_last())
    } else {
        s
    }
}

/// `s` with leading and trailing whitespace removed.
pub open spec fn trimmed(s: Seq<char>) -> Seq<char> {
    drop_trailing_whitespace(skip_leading_whitespace(s))
}

/// Whether `s` holds nothing but whitespace.
pub open spec fn is_blank(s: Seq<char>) -> bool {
    trimmed(s).len() == 0
}

/// `s` without the run of `c` at its end.
pub open spec fn strip_trailing(s: Seq<char>, c: char) -> Seq<char>
    decreases s.len(),
{
    if s.len() > 0 && s.last() == c {
        strip_trailing(s.drop_last(), c)
    } else {
        s
    }
}

/// Tells whether `c` has the Unicode property White_Space.
pub fn char_is_whitespace(c: char) -> (b: bool)
    ensures
        b == is_whitespace(c),
{
    let u: u32 = c as u32;
    (0x09 <= u && u <= 0x0D) || u == 0x20 || u == 0x85 || u == 0xA0 || u == 0x1680 || (0x2000 <= u
        && u <= 0x200A) || u == 0x2028 || u == 0x2029 || u == 0x202F || u == 0x205F || u == 0x3000
}

/// Copies the characters of `s` into a vector.
pub fn to_chars(s: &str) -> (chars: Vec<char>)
    ensures
        chars@ == s@,
{
    let mut out: Vec<char> = Vec::new();
    for c in it: s.chars()
        invariant
            it.seq() == s@,
            out@ == it.seq().take(it.index() as int),
    {
        out.push(c);
    }
    out
}

/// The characters of `s` from index `from` up to `to`, as an owned string.
pub fn slice(s: &str, from: usize, to: usize) -> (piece: String)
    requires
        from <= to <= s@.len(),
    ensures
        piece@ == s@.subrange(from as int, to as int),
{
    String::from_str(s.substring_char(from, to))
}

/// An owned copy of `s`.
pub fn owned(s: &str) -> (copy: String)
    ensures
        copy@ == s@,
{
    String::from_str(s)
}

/// Tells whether two strings hold the same characters.
pub fn str_eq(a: &str, b: &str) -> (same: bool)
    ensures
        same == (a@ == b@),
{
    let x = to_chars(a);
    let y = to_chars(b);
    if x.len() != y.len() {
        return false;
    }
    let mut i: usize = 0;
    while i < x.len()
        invariant
            i <= x.len(),
            x.len() == y.len(),
            x@ == a@,
            y@ == b@,
            forall|j: int| 0 <= j < i ==> x@[j] == y@[j],
        decreases x.len() - i,
    {
        if x[i] != y[i] {
            return false;
        }
        i += 1;
    }
    assert(x@ =~= y@);
    true
}

/// The index of the first character of `chars` at or after `from` that is
/// not whitespace, or the length if there is none.
fn skip_whitespace(chars: &Vec<char>, from: usize) -> (i: usize)
    requires
        from <= chars.len(),
    ensures
        from <= i <= chars.len(),
        skip_leading_whitespace(chars@.subrange(from as int, chars.len() as int))
            == chars@.subrange(i as int, chars.len() as int),
        i < chars.len() ==> !is_whitespace(chars@[i as int]),
{
    let n = chars.len();
    let mut i: usize = from;
    while i < n && char_is_whitespace(chars[i])
        invariant
            from <= i <= n,
            n == chars.len(),
            skip_leading_whitespace(chars@.subrange(from as int, n as int))
                == skip_leading_whitespace(chars@.subrange(i as int, n as int)),
        decreases n - i,
    {
        proof {
            let cur = chars@.subrange(i as int, n as int);
            assert(cur.drop_first() =~= chars@.subrange(i + 1, n as int));
        }
        i += 1;
    }
    i
}

/// The end of `chars[from..to]` once its trailing whitespace is dropped.
fn drop_whitespace(chars: &Vec<char>, from: usize, to: usize) -> (j: usize)
    requires
        from <= to <= chars.len(),
    ensures
        from <= j <= to,
        drop_trailing_whitespace(chars@.subrange(from as int, to as int)) == chars@.subrange(
            from as int,
            j as int,
        ),
{
    let mut j: usize = to;
    while j > from && char_is_whitespace(chars[j - 1])
        invariant
            from <= j <= to,
            to <= chars.len(),
            drop_trailing_whitespace(chars@.subrange(from as int, to as int))
                == drop_trailing_whitespace(chars@.subrange(from as int, j as int)),
        decreases j,
    {
        proof {
            let cur = chars@.subrange(from as int, j as int);
            assert(cur.drop_last() =~= chars@.subrange(from as int, j - 1));
        }
        j -= 1;
    }
    j
}

/// The bounds of `chars` once leading and trailing whitespace is removed.
pub fn trim_bounds(chars: &Vec<char>) -> (bounds: (usize, usize))
    ensures
        bounds.0 <= bounds.1 <= chars.len(),
        trimmed(chars@) == chars@.subrange(bounds.0 as int, bounds.1 as int),
{
    let n = chars.len();
    assert(chars@.subrange(0, n as int) =~= chars@);
    let start = skip_whitespace(chars, 0);
    let end = drop_whitespace(chars, start, n);
    (start, end)
}

/// `s` with leading and trailing whitespace removed.
pub fn trim(s: &str) -> (out: String)
    ensures
        out@ == trimmed(s@),
{
    let chars = to_chars(s);
    let (start, end) = trim_bounds(&chars);
    slice(s, start, end)
}

/// Tells whether `s` holds nothing but whitespace.
pub fn blank(s: &str) -> (b: bool)
    ensures
        b == is_blank(s@),
{
    let chars = to_chars(s);
    let (start, end) = trim_bounds(&chars);
    start == end
}

/// `s` without the run of `c` at its end.
pub fn trim_end_matches(s: &str, c: char) -> (out: String)
    ensures
        out@ == strip_trailing(s@, c),
{
    let chars = to_chars(s);
    let mut j: usize = chars.len();
    assert(chars@.subrange(0, j as int) =~= chars@);
    while j > 0 && chars[j - 1] == c
        invariant
            j <= chars.len(),
            chars@ == s@,
            strip_trailing(s@, c) == strip_trailing(chars@.subrange(0, j as int), c),
        decreases j,
    {
        proof {
            let cur = chars@.subrange(0, j as int);
            assert(cur.drop_last() =~= chars@.subrange(0, j - 1));
        }
        j -= 1;
    }
    slice(s, 0, j)
}

/// The views of a sequence of string pairs.
pub open spec fn pairs_view(pairs: Seq<(String, String)>) -> Seq<(Seq<char>, Seq<char>)> {
    pairs.map_values(|p: (String, String)| (p.0@, p.1@))
}

/// The view of an optional string.
pub open spec fn opt_view(s: Option<String>) -> Option<Seq<char>> {
    match s {
        Some(t) => Some(t@),
        None => None,
    }
}

/// A copy of an optional string.
pub fn clone_opt(s: &Option<String>) -> (copy: Option<String>)
    ensures
        opt_view(copy) == opt_view(*s),
{
    match s {
        Some(t) => Some(t.clone()),
        None => None,
    }
}

/// A copy of a list of string pairs.
pub fn clone_pairs(pairs: &Vec<(String, String)>) -> (copy: Vec<(String, String)>)
    ensures
        pairs_view(copy@) == pairs_view(pairs@),
{
    let mut out: Vec<(String, String)> = Vec::new();
    let mut i: usize = 0;
    while i < pairs.len()
        invariant
            i <= pairs.len(),
            out@.len() == i,
            forall|j: int| 0 <= j < i ==> out@[j].0@ == pairs@[j].0@ && out@[j].1@ == pairs@[j].1@,
        decreases pairs.len() - i,
    {
        out.push((pairs[i].0.clone(), pairs[i].1.clone()));
        i += 1;
    }
    out
}

/// The index of the last `c` in `s`.
pub open spec fn last_index_of(s: Seq<char>, c: char) -> Option<int>
    decreases s.len(),
{
    if s.len() == 0 {
        None
    } else if s.last() == c {
        Some(s.len() - 1)
    } else {
        last_index_of(s.drop_last(), c)
    }
}

/// What `last_index_of` returns: the greatest index that holds `c`.
pub proof fn lemma_last_index_of(s: Seq<char>, c: char)
    ensures
        match last_index_of(s, c) {
            Some(i) => 0 <= i < s.len() && s[i] == c && forall|j: int|
                i < j < s.len() ==> s[j] != c,
            None => forall|j: int| 0 <= j < s.len() ==> s[j] != c,
        },
    decreases s.len(),
{
    if s.len() > 0 && s.last() != c {
        let init = s.drop_last();
        lemma_last_index_of(init, c);
        match last_index_of(init, c) {
            Some(i) => {
                assert forall|j: int| i < j < s.len() implies s[j] != c by {
                    if j < init.len() {
                        assert(init[j] == s[j]);
                    }
                }
            },
            None => {
                assert forall|j: int| 0 <= j < s.len() implies s[j] != c by {
                    if j < init.len() {
                        assert(init[j] == s[j]);
                    }
                }
            },
        }
    }
}

/// The index of the last `c` in `chars`.
pub fn find_last(chars: &Vec<char>, c: char) -> (found: Option<usize>)
    ensures
        match found {
            Some(i) => last_index_of(chars@, c) == Some(i as int) && i < chars.len(),
            None => last_index_of(chars@, c) is None,
        },
{
    let mut j: usize = chars.len();
    assert(chars@.subrange(0, j as int) =~= chars@);
    while j > 0
        invariant
            j <= chars.len(),
            last_index_of(chars@, c) == last_index_of(chars@.subrange(0, j as int), c),
        decreases j,
    {
        if chars[j - 1] == c {
            return Some(j - 1);
        }
        proof {
            let cur = chars@.subrange(0, j as int);
            assert(cur.drop_last() =~= chars@.subrange(0, j - 1));
        }
        j -= 1;
    }
    None
}

/// The position of the first item of `keys` equal to `key`.
pub open spec fn index_of(keys: Seq<Seq<char>>, key: Seq<char>) -> Option<int>
    decreases keys.len(),
{
    if keys.len() == 0 {
        None
    } else {
        match index_of(keys.drop_last(), key) {
            Some(i) => Some(i),
            None => if keys.last() == key {
                Some(keys.len() - 1)
            } else {
                None
            },
        }
    }
}

/// What `index_of` returns: the least index that holds `key`.
pub proof fn lemma_index_of(keys: Seq<Seq<char>>, key: Seq<char>)
    ensures
        match index_of(keys, key) {
            Some(i) => 0 <= i < keys.len() && keys[i] == key && forall|j: int|
                0 <= j < i ==> keys[j] != key,
            None => forall|j: int| 0 <= j < keys.len() ==> keys[j] != key,
        },
    decreases keys.len(),
{
    if keys.len() > 0 {
        let init = keys.drop_last();
        lemma_index_of(init, key);
        match index_of(init, key) {
            Some(i) => {
                assert forall|j: int| 0 <= j < i implies keys[j] != key by {
                    assert(init[j] == keys[j]);
                }
                assert(init[i] == keys[i]);
            },
            None => {
                assert forall|j: int| 0 <= j < keys.len() - 1 implies keys[j] != key by {
                    assert(init[j] == keys[j]);
                }
            },
        }
    }
}

/// An index that holds `key` with none before it is what `index_of` returns.
pub proof fn lemma_index_of_is(keys: Seq<Seq<char>>, key: Seq<char>, i: int)
    requires
        0 <= i < keys.len(),
        keys[i] == key,
        forall|j: int| 0 <= j < i ==> keys[j] != key,
    ensures
        index_of(keys, key) == Some(i),
{
    lemma_index_of(keys, key);
}

/// Where no item equals `key`, `index_of` returns nothing.
pub proof fn lemma_index_of_none(keys: Seq<Seq<char>>, key: Seq<char>)
    requires
        forall|j: int| 0 <= j < keys.len() ==> keys[j] != key,
    ensures
        index_of(keys, key) is None,
{
    lemma_index_of(keys, key);
}

/// The concatenation of two strings.
pub fn concat2(a: &str, b: &str) -> (out: String)
    ensures
        out@ == a@ + b@,
{
    let mut out = String::from_str(a);
    out.append(b);
    out
}

/// The concatenation of three strings.
pub fn concat3(a: &str, b: &str, c: &str) -> (out: String)
    ensures
        out@ == a@ + b@ + c@,
{
    let mut out = String::from_str(a);
    out.append(b);
    out.append(c);
    out
}

/// The pieces of `s` between occurrences of `sep`. There is always at least
/// one piece; a text that ends in `sep` has an empty last piece.
pub open spec fn split_on(s: Seq<char>, sep: char) -> Seq<Seq<char>>
    decreases s.len(),
{
    if s.len() == 0 {
        seq![Seq::empty()]
    } else {
        let before = split_on(s.drop_last(), sep);
        if s.last() == sep {
            before.push(Seq::empty())
        } else {
            before.update(before.len() - 1, before.last().push(s.last()))
        }
    }
}

/// The pieces put together with `sep` between each two.
pub open spec fn join_with(pieces: Seq<Seq<char>>, sep: char) -> Seq<char>
    decreases pieces.len(),
{
    if pieces.len() == 0 {
        Seq::empty()
    } else if pieces.len() == 1 {
        pieces[0]
    } else {
        join_with(pieces.drop_last(), sep) + seq![sep] + pieces.last()
    }
}

/// The number of characters of `s` before its first line feed.
pub open spec fn line_end(s: Seq<char>) -> int
    decreases s.len(),
{
    if s.len() == 0 || s[0] == '\n' {
        0
    } else {
        1 + line_end(s.drop_first())
    }
}

/// The first line of `s`: what stands before its first line feed.
pub open spec fn first_line(s: Seq<char>) -> Seq<char> {
    s.take(line_end(s))
}

/// A splitting has at least one piece.
pub proof fn lemma_split_nonempty(s: Seq<char>, sep: char)
    ensures
        split_on(s, sep).len() >= 1,
    decreases s.len(),
{
    if s.len() > 0 {
        lemma_split_nonempty(s.drop_last(), sep);
    }
}

/// The pieces that a list of spans cuts out of `s`.
pub open spec fn spans_view(s: Seq<char>, spans: Seq<(usize, usize)>) -> Seq<Seq<char>> {
    spans.map_values(|span: (usize, usize)| s.subrange(span.0 as int, span.1 as int))
}

/// Whether every span lies within a text of length `len`.
pub open spec fn spans_within(spans: Seq<(usize, usize)>, len: int) -> bool {
    forall|i: int| 0 <= i < spans.len() ==> (#[trigger] spans[i]).0 <= spans[i].1 <= len
}

/// Cuts `chars` at each `sep`: the spans of the pieces, in order.
pub fn split_spans(chars: &Vec<char>, sep: char) -> (spans: Vec<(usize, usize)>)
    ensures
        spans_within(spans@, chars.len() as int),
        spans_view(chars@, spans@) == split_on(chars@, sep),
        spans.len() >= 1,
{
    let mut spans: Vec<(usize, usize)> = Vec::new();
    spans.push((0, 0));
    let mut i: usize = 0;
    assert(spans_view(chars@, spans@) =~= split_on(chars@.take(0), sep)) by {
        assert(chars@.subrange(0, 0) =~= Seq::<char>::empty());
    }
    while i < chars.len()
        invariant
            i <= chars.len(),
            spans.len() >= 1,
            spans_within(spans@, i as int),
            spans@.last().1 == i,
            spans_view(chars@, spans@) == split_on(chars@.take(i as int), sep),
        decreases chars.len() - i,
    {
        proof {
            assert(chars@.take(i + 1).drop_last() =~= chars@.take(i as int));
        }
        if chars[i] == sep {
            spans.push((i + 1, i + 1));
            proof {
                assert(chars@.subrange(i + 1, i + 1) =~= Seq::<char>::empty());
            }
        } else {
            let last = spans.len() - 1;
            let start = spans[last].0;
            spans.set(last, (start, i + 1));
            proof {
                assert(chars@.subrange(start as int, i + 1) =~= chars@.subrange(
                    start as int,
                    i as int,
                ).push(chars@[i as int]));
            }
        }
        i += 1;
    }
    proof {
        assert(chars@.take(i as int) =~= chars@);
    }
    spans
}

/// Puts the pieces `spans[from..to]` of `text` together with line feeds
/// between them.
pub fn join_lines(text: &str, spans: &Vec<(usize, usize)>, from: usize, to: usize) -> (out: String)
    requires
        from <= to <= spans.len(),
        spans_within(spans@, text@.len() as int),
    ensures
        out@ == join_with(spans_view(text@, spans@).subrange(from as int, to as int), '\n'),
{
    let ghost pieces = spans_view(text@, spans@);
    let mut out = String::new();
    let mut i: usize = from;
    while i < to
        invariant
            from <= i <= to,
            to <= spans.len(),
            spans_within(spans@, text@.len() as int),
            pieces == spans_view(text@, spans@),
            out@ == join_with(pieces.subrange(from as int, i as int), '\n'),
        decreases to - i,
    {
        let piece = slice(text, spans[i].0, spans[i].1);
        proof {
            reveal_strlit("\n");
            let grown = pieces.subrange(from as int, i + 1);
            assert(grown.drop_last() =~= pieces.subrange(from as int, i as int));
        }
        if i > from {
            out.append("\n");
        }
        out.append(piece.as_str());
        i += 1;
    }
    out
}

/// The index at which the line that starts at `from` ends, looking no
/// further than `to`.
pub fn scan_line(chars: &Vec<char>, from: usize, to: usize) -> (end: usize)
    requires
        from <= to <= chars.len(),
    ensures
        from <= end <= to,
        end - from == line_end(chars@.subrange(from as int, to as int)),
{
    let mut i: usize = from;
    while i < to && chars[i] != '\n'
        invariant
            from <= i <= to,
            to <= chars.len(),
            line_end(chars@.subrange(from as int, to as int)) == (i - from) + line_end(
                chars@.subrange(i as int, to as int),
            ),
        decreases to - i,
    {
        proof {
            let cur = chars@.subrange(i as int, to as int);
            assert(cur.drop_first() =~= chars@.subrange(i + 1, to as int));
        }
        i += 1;
    }
    i
}

/// The number of characters of `s` before its first `stop`; the length of
/// `s` where it holds none.
pub open spec fn until(s: Seq<char>, stop: char) -> int
    decreases s.len(),
{
    if s.len() == 0 || s[0] == stop {
        0
    } else {
        1 + until(s.drop_first(), stop)
    }
}

/// `until` lies within the text.
pub proof fn lemma_until_bounds(s: Seq<char>, stop: char)
    ensures
        0 <= until(s, stop) <= s.len(),
        until(s, stop) < s.len() ==> s[until(s, stop)] == stop,
    decreases s.len(),
{
    if !(s.len() == 0 || s[0] == stop) {
        lemma_until_bounds(s.drop_first(), stop);
    }
}

/// The index of the first `stop` in `chars[from..to]`, or `to`.
pub fn scan_until(chars: &Vec<char>, from: usize, to: usize, stop: char) -> (end: usize)
    requires
        from <= to <= chars.len(),
    ensures
        from <= end <= to,
        end - from == until(chars@.subrange(from as int, to as int), stop),
{
    let mut i: usize = from;
    while i < to && chars[i] != stop
        invariant
            from <= i <= to,
            to <= chars.len(),
            until(chars@.subrange(from as int, to as int), stop) == (i - from) + until(
                chars@.subrange(i as int, to as int),
                stop,
            ),
        decreases to - i,
    {
        proof {
            let cur = chars@.subrange(i as int, to as int);
            assert(cur.drop_first() =~= chars@.subrange(i + 1, to as int));
        }
        i += 1;
    }
    i
}

} // verus!
