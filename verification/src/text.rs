//! Character-level text utilities with exact specifications: whitespace,
//! trimming, line splitting, whitespace tokenising and joining.
use vstd::prelude::*;

verus! {

/// Unicode `White_Space` characters, the set that `char::is_whitespace` tests.
pub open spec fn is_ws(c: char) -> bool {
    ||| ('\u{9}' <= c && c <= '\u{d}')
    ||| c == ' '
    ||| c == '\u{85}'
    ||| c == '\u{a0}'
    ||| c == '\u{1680}'
    ||| ('\u{2000}' <= c && c <= '\u{200a}')
    ||| c == '\u{2028}'
    ||| c == '\u{2029}'
    ||| c == '\u{202f}'
    ||| c == '\u{205f}'
    ||| c == '\u{3000}'
}

/// Whether `c` is a Unicode whitespace character.
pub fn is_ws_char(c: char) -> (b: bool)
    ensures
        b == is_ws(c),
{
    ('\u{9}' <= c && c <= '\u{d}') || c == ' ' || c == '\u{85}' || c == '\u{a0}' || c == '\u{1680}'
        || ('\u{2000}' <= c && c <= '\u{200a}') || c == '\u{2028}' || c == '\u{2029}' || c
        == '\u{202f}' || c == '\u{205f}' || c == '\u{3000}'
}

/// `s` with its leading whitespace removed.
pub open spec fn trim_start(s: Seq<char>) -> Seq<char>
    decreases s.len(),
{
    if s.len() > 0 && is_ws(s[0]) {
        trim_start(s.drop_first())
    } else {
        s
    }
}

/// `s` with its trailing whitespace removed.
pub open spec fn trim_end(s: Seq<char>) -> Seq<char>
    decreases s.len(),
{
    if s.len() > 0 && is_ws(s.last()) {
        trim_end(s.drop_last())
    } else {
        s
    }
}

/// `s` with whitespace removed at both ends (what `str::trim` returns).
pub open spec fn trim(s: Seq<char>) -> Seq<char> {
    trim_end(trim_start(s))
}

/// Number of leading characters of `s` before the first `c` (the length of `s` if none).
pub open spec fn find_char(s: Seq<char>, c: char) -> nat
    decreases s.len(),
{
    if s.len() == 0 || s[0] == c {
        0
    } else {
        1 + find_char(s.drop_first(), c)
    }
}

/// A line with one trailing carriage return removed.
pub open spec fn strip_cr(l: Seq<char>) -> Seq<char> {
    if l.len() > 0 && l.last() == '\r' {
        l.drop_last()
    } else {
        l
    }
}

/// The lines of `s` as `str::lines` yields them: split at `\n`, a `\r` right
/// before a `\n` dropped, and no empty line after a final `\n`.
pub open spec fn lines(s: Seq<char>) -> Seq<Seq<char>>
    decreases s.len(),
{
    if s.len() == 0 {
        seq![]
    } else {
        let p = find_char(s, '\n');
        if p >= s.len() {
            seq![s]
        } else {
            seq![strip_cr(s.take(p as int))] + lines(s.skip(p + 1 as int))
        }
    }
}

/// Number of leading characters of `s` that are not whitespace.
pub open spec fn word_len(s: Seq<char>) -> nat
    decreases s.len(),
{
    if s.len() == 0 || is_ws(s[0]) {
        0
    } else {
        1 + word_len(s.drop_first())
    }
}

/// The maximal runs of non-whitespace characters of `s`, in order
/// (what `str::split_whitespace` yields).
pub open spec fn words(s: Seq<char>) -> Seq<Seq<char>>
    decreases s.len(),
{
    if s.len() == 0 {
        seq![]
    } else if is_ws(s[0]) {
        words(s.drop_first())
    } else {
        let p = word_len(s);
        proof {
            lemma_word_len_bound(s);
        }
        seq![s.take(p as int)] + words(s.skip(p as int))
    }
}

/// The leading word of `s` lies within `s`.
pub proof fn lemma_word_len_bound(s: Seq<char>)
    ensures
        word_len(s) <= s.len(),
        s.len() > 0 && !is_ws(s[0]) ==> word_len(s) >= 1,
    decreases s.len(),
{
    if s.len() > 0 && !is_ws(s[0]) {
        lemma_word_len_bound(s.drop_first());
    }
}

/// The pieces of `s` between occurrences of `c` (what `str::split(c)` yields;
/// always at least one piece).
pub open spec fn split_on(s: Seq<char>, c: char) -> Seq<Seq<char>>
    decreases s.len(),
{
    let p = find_char(s, c);
    if p >= s.len() {
        seq![s]
    } else {
        seq![s.take(p as int)] + split_on(s.skip(p + 1 as int), c)
    }
}

/// The pieces joined with single spaces.
pub open spec fn join_spaced(parts: Seq<Seq<char>>) -> Seq<char>
    decreases parts.len(),
{
    if parts.len() == 0 {
        seq![]
    } else if parts.len() == 1 {
        parts[0]
    } else {
        join_spaced(parts.drop_last()) + seq![' '] + parts.last()
    }
}

/// The character sequences viewed by a vector of character vectors.
pub open spec fn views(v: Seq<Vec<char>>) -> Seq<Seq<char>> {
    v.map_values(|l: Vec<char>| l@)
}

/// Copies the characters of a string slice into a vector.
pub fn chars_of(s: &str) -> (v: Vec<char>)
    ensures
        v@ == s@,
{
    let mut v: Vec<char> = Vec::new();
    for c in it: s.chars()
        invariant
            v@ == it.seq().take(it.index() as int),
    {
        v.push(c);
    }
    v
}

/// Copies `v[lo..hi]`.
pub fn slice_of(v: &Vec<char>, lo: usize, hi: usize) -> (r: Vec<char>)
    requires
        lo <= hi <= v.len(),
    ensures
        r@ == v@.subrange(lo as int, hi as int),
{
    let mut r: Vec<char> = Vec::new();
    let mut i = lo;
    while i < hi
        invariant
            lo <= i <= hi <= v.len(),
            r@ == v@.subrange(lo as int, i as int),
        decreases hi - i,
    {
        r.push(v[i]);
        i += 1;
        assert(r@ =~= v@.subrange(lo as int, i as int));
    }
    r
}

/// Whether two character vectors hold the same characters.
pub fn chars_eq(a: &Vec<char>, b: &Vec<char>) -> (r: bool)
    ensures
        r == (a@ == b@),
{
    if a.len() != b.len() {
        return false;
    }
    let mut i: usize = 0;
    while i < a.len()
        invariant
            a.len() == b.len(),
            i <= a.len(),
            forall|j: int| 0 <= j < i ==> a@[j] == b@[j],
        decreases a.len() - i,
    {
        if a[i] != b[i] {
            return false;
        }
        i += 1;
    }
    assert(a@ =~= b@);
    true
}

proof fn lemma_trim_start_skip(s: Seq<char>, a: int)
    requires
        0 <= a <= s.len(),
        forall|i: int| 0 <= i < a ==> is_ws(s[i]),
    ensures
        trim_start(s) == trim_start(s.skip(a)),
    decreases a,
{
    if a > 0 {
        lemma_trim_start_skip(s.drop_first(), a - 1);
        assert(s.drop_first().skip(a - 1) =~= s.skip(a));
    } else {
        assert(s.skip(0) =~= s);
    }
}

proof fn lemma_trim_end_take(s: Seq<char>, b: int)
    requires
        0 <= b <= s.len(),
        forall|i: int| b <= i < s.len() ==> is_ws(s[i]),
    ensures
        trim_end(s) == trim_end(s.take(b)),
    decreases s.len() - b,
{
    if b < s.len() {
        assert(s.drop_last().take(b) =~= s.take(b));
        lemma_trim_end_take(s.drop_last(), b);
    } else {
        assert(s.take(b) =~= s);
    }
}

/// `v` with whitespace removed at both ends.
pub fn trim_chars(v: &Vec<char>) -> (r: Vec<char>)
    ensures
        r@ == trim(v@),
{
    let n = v.len();
    let mut a: usize = 0;
    while a < n && is_ws_char(v[a])
        invariant
            a <= n == v.len(),
            forall|i: int| 0 <= i < a ==> is_ws(v@[i]),
        decreases n - a,
    {
        a += 1;
    }
    let mut b: usize = n;
    while b > a && is_ws_char(v[b - 1])
        invariant
            a <= b <= n == v.len(),
            forall|i: int| b <= i < n ==> is_ws(v@[i]),
        decreases b,
    {
        b -= 1;
    }
    proof {
        lemma_trim_start_skip(v@, a as int);
        let t = v@.skip(a as int);
        assert(trim_start(t) == t);
        lemma_trim_end_take(t, (b - a) as int);
        assert(t.take((b - a) as int) =~= v@.subrange(a as int, b as int));
    }
    slice_of(v, a, b)
}

proof fn lemma_find_char(s: Seq<char>, c: char, p: int)
    requires
        0 <= p <= s.len(),
        forall|i: int| 0 <= i < p ==> s[i] != c,
        p == s.len() || s[p] == c,
    ensures
        find_char(s, c) == p,
    decreases p,
{
    if p > 0 {
        lemma_find_char(s.drop_first(), c, p - 1);
    }
}

/// Position of the first `c` in `v` at or after `from`, or the length of `v`.
pub fn find_from(v: &Vec<char>, from: usize, c: char) -> (p: usize)
    requires
        from <= v.len(),
    ensures
        from <= p <= v.len(),
        find_char(v@.skip(from as int), c) == p - from,
        forall|i: int| from <= i < p ==> v@[i] != c,
        p < v.len() ==> v@[p as int] == c,
{
    let mut p = from;
    while p < v.len() && v[p] != c
        invariant
            from <= p <= v.len(),
            forall|i: int| from <= i < p ==> v@[i] != c,
        decreases v.len() - p,
    {
        p += 1;
    }
    proof {
        lemma_find_char(v@.skip(from as int), c, (p - from) as int);
    }
    p
}

/// The lines of `v` (see `lines`).
pub fn split_lines(v: &Vec<char>) -> (r: Vec<Vec<char>>)
    ensures
        views(r@) == lines(v@),
{
    let n = v.len();
    let mut r: Vec<Vec<char>> = Vec::new();
    let mut pos: usize = 0;
    assert(v@.skip(0) =~= v@);
    while pos < n
        invariant
            pos <= n == v.len(),
            lines(v@) == views(r@) + lines(v@.skip(pos as int)),
        decreases n - pos,
    {
        let ghost rest = v@.skip(pos as int);
        let p = find_from(v, pos, '\n');
        if p == n {
            let line = slice_of(v, pos, n);
            assert(line@ =~= rest);
            assert(lines(rest) == seq![rest]);
            let ghost prev = views(r@);
            r.push(line);
            assert(views(r@) =~= prev.push(rest));
            pos = n;
            assert(v@.skip(n as int) =~= Seq::<char>::empty());
            assert(lines(v@.skip(pos as int)) == Seq::<Seq<char>>::empty());
            assert(lines(v@) =~= views(r@) + lines(v@.skip(pos as int)));
        } else {
            let mut q = p;
            if q > pos && v[q - 1] == '\r' {
                q = q - 1;
            }
            let line = slice_of(v, pos, q);
            assert(rest.take((p - pos) as int) =~= v@.subrange(pos as int, p as int));
            assert(line@ =~= strip_cr(rest.take((p - pos) as int)));
            assert(rest.skip((p - pos) + 1) =~= v@.skip(p + 1));
            let ghost prev = views(r@);
            r.push(line);
            assert(views(r@) =~= prev.push(line@));
            pos = p + 1;
            assert(lines(v@) =~= views(r@) + lines(v@.skip(pos as int)));
        }
    }
    assert(v@.skip(pos as int) =~= Seq::<char>::empty());
    assert(views(r@) + Seq::<Seq<char>>::empty() =~= views(r@));
    r
}


proof fn lemma_word_len(s: Seq<char>, p: int)
    requires
        0 <= p <= s.len(),
        forall|i: int| 0 <= i < p ==> !is_ws(s[i]),
        p == s.len() || is_ws(s[p]),
    ensures
        word_len(s) == p,
    decreases p,
{
    if p > 0 {
        lemma_word_len(s.drop_first(), p - 1);
    }
}

/// The whitespace-separated words of `v` (see `words`).
pub fn split_words(v: &Vec<char>) -> (r: Vec<Vec<char>>)
    ensures
        views(r@) == words(v@),
{
    let n = v.len();
    let mut r: Vec<Vec<char>> = Vec::new();
    let mut pos: usize = 0;
    assert(v@.skip(0) =~= v@);
    while pos < n
        invariant
            pos <= n == v.len(),
            words(v@) == views(r@) + words(v@.skip(pos as int)),
        decreases n - pos,
    {
        let ghost rest = v@.skip(pos as int);
        if is_ws_char(v[pos]) {
            assert(rest.drop_first() =~= v@.skip(pos + 1));
            pos += 1;
        } else {
            let mut q = pos;
            while q < n && !is_ws_char(v[q])
                invariant
                    pos <= q <= n == v.len(),
                    forall|i: int| pos <= i < q ==> !is_ws(v@[i]),
                decreases n - q,
            {
                q += 1;
            }
            proof {
                lemma_word_len(rest, (q - pos) as int);
            }
            let word = slice_of(v, pos, q);
            assert(rest.take((q - pos) as int) =~= word@);
            assert(rest.skip((q - pos) as int) =~= v@.skip(q as int));
            let ghost prev = views(r@);
            r.push(word);
            assert(views(r@) =~= prev.push(word@));
            pos = q;
            assert(words(v@) =~= views(r@) + words(v@.skip(pos as int)));
        }
    }
    assert(v@.skip(pos as int) =~= Seq::<char>::empty());
    assert(views(r@) + Seq::<Seq<char>>::empty() =~= views(r@));
    r
}

/// The pieces of `v` between occurrences of `c` (see `split_on`).
pub fn split_on_char(v: &Vec<char>, c: char) -> (r: Vec<Vec<char>>)
    ensures
        views(r@) == split_on(v@, c),
{
    let n = v.len();
    let mut r: Vec<Vec<char>> = Vec::new();
    let mut pos: usize = 0;
    let mut done = false;
    assert(v@.skip(0) =~= v@);
    while !done
        invariant
            pos <= n == v.len(),
            !done ==> split_on(v@, c) == views(r@) + split_on(v@.skip(pos as int), c),
            done ==> split_on(v@, c) == views(r@),
        decreases n - pos + (if done { 0int } else { 1int }),
    {
        let ghost rest = v@.skip(pos as int);
        let p = find_from(v, pos, c);
        let piece = slice_of(v, pos, p);
        let ghost prev = views(r@);
        r.push(piece);
        assert(views(r@) =~= prev.push(piece@));
        if p == n {
            assert(piece@ =~= rest);
            assert(split_on(v@, c) =~= views(r@));
            done = true;
        } else {
            assert(rest.take((p - pos) as int) =~= piece@);
            assert(rest.skip((p - pos) + 1) =~= v@.skip(p + 1));
            pos = p + 1;
            assert(split_on(v@, c) =~= views(r@) + split_on(v@.skip(pos as int), c));
        }
    }
    r
}

/// The first `k` pieces joined with single spaces.
pub fn join_prefix_spaced(parts: &Vec<Vec<char>>, k: usize) -> (r: Vec<char>)
    requires
        k <= parts.len(),
    ensures
        r@ == join_spaced(views(parts@).take(k as int)),
{
    let mut r: Vec<char> = Vec::new();
    let mut i: usize = 0;
    assert(views(parts@).take(0) =~= Seq::<Seq<char>>::empty());
    while i < k
        invariant
            i <= k <= parts.len(),
            r@ == join_spaced(views(parts@).take(i as int)),
        decreases k - i,
    {
        let ghost t = views(parts@).take(i + 1);
        assert(t.drop_last() =~= views(parts@).take(i as int));
        assert(t.last() == parts@[i as int]@);
        if i > 0 {
            r.push(' ');
        }
        let part = &parts[i];
        let mut j: usize = 0;
        let ghost base = r@;
        while j < part.len()
            invariant
                j <= part.len(),
                r@ == base + part@.take(j as int),
            decreases part.len() - j,
        {
            r.push(part[j]);
            j += 1;
            assert(r@ =~= base + part@.take(j as int));
        }
        assert(part@.take(part.len() as int) =~= part@);
        if i == 0 {
            assert(r@ =~= join_spaced(t));
        } else {
            assert(r@ =~= join_spaced(t));
        }
        i += 1;
    }
    r
}


/// `String::push`: appends one character.
#[verifier::external_body]
fn push_char(s: &mut String, c: char)
    ensures
        final(s)@ == old(s)@.push(c),
{
    s.push(c);
}

/// A string holding the characters of `v`.
pub fn string_of(v: &Vec<char>) -> (r: String)
    ensures
        r@ == v@,
{
    let mut r = String::new();
    let mut i: usize = 0;
    while i < v.len()
        invariant
            i <= v.len(),
            r@ == v@.take(i as int),
        decreases v.len() - i,
    {
        push_char(&mut r, v[i]);
        i += 1;
        assert(r@ =~= v@.take(i as int));
    }
    assert(v@.take(v.len() as int) =~= v@);
    r
}


/// A line without line breaks, then `\n`, then more text: the line (with a
/// final carriage return dropped) comes first among the lines.
pub proof fn lemma_lines_first(a: Seq<char>, b: Seq<char>)
    requires
        forall|i: int| 0 <= i < a.len() ==> a[i] != '\n',
    ensures
        lines(a + seq!['\n'] + b) == seq![strip_cr(a)] + lines(b),
{
    let s = a + seq!['\n'] + b;
    lemma_find_char(s, '\n', a.len() as int);
    assert(s.take(a.len() as int) =~= a);
    assert(s.skip(a.len() + 1 as int) =~= b);
}

/// A nonempty text without line breaks is a single line.
pub proof fn lemma_lines_single(s: Seq<char>)
    requires
        s.len() > 0,
        forall|i: int| 0 <= i < s.len() ==> s[i] != '\n',
    ensures
        lines(s) == seq![s],
{
    lemma_find_char(s, '\n', s.len() as int);
}

/// A text without whitespace at either end is its own trim.
pub proof fn lemma_trim_unchanged(s: Seq<char>)
    requires
        s.len() > 0,
        !is_ws(s[0]),
        !is_ws(s.last()),
    ensures
        trim(s) == s,
{
}

/// The leading word of `s` holds no whitespace and, unless it is all of
/// `s`, is followed by whitespace.
pub proof fn lemma_word_len_ends(s: Seq<char>)
    ensures
        forall|i: int| 0 <= i < word_len(s) ==> !is_ws(#[trigger] s[i]),
        word_len(s) < s.len() ==> is_ws(s[word_len(s) as int]),
    decreases s.len(),
{
    lemma_word_len_bound(s);
    if s.len() > 0 && !is_ws(s[0]) {
        lemma_word_len_ends(s.drop_first());
        assert forall|i: int| 0 <= i < word_len(s) implies !is_ws(#[trigger] s[i]) by {
            if i > 0 {
                assert(s[i] == s.drop_first()[i - 1]);
            }
        }
        if word_len(s) < s.len() {
            assert(s[word_len(s) as int] == s.drop_first()[word_len(s) - 1]);
        }
    }
}

/// A nonempty text without whitespace is a single word.
pub proof fn lemma_words_single(s: Seq<char>)
    requires
        s.len() > 0,
        forall|i: int| 0 <= i < s.len() ==> !is_ws(#[trigger] s[i]),
    ensures
        words(s) == seq![s],
{
    lemma_word_len(s, s.len() as int);
    assert(s.take(s.len() as int) =~= s);
    assert(s.skip(s.len() as int) =~= Seq::<char>::empty());
    assert(words(Seq::<char>::empty()) =~= Seq::<Seq<char>>::empty());
    assert(seq![s] + Seq::<Seq<char>>::empty() =~= seq![s]);
}

/// The words of two texts with a space between them are the words of the
/// first followed by the words of the second.
pub proof fn lemma_words_space_concat(a: Seq<char>, b: Seq<char>)
    ensures
        words(a + seq![' '] + b) == words(a) + words(b),
    decreases a.len(),
{
    let s = a + seq![' '] + b;
    if a.len() == 0 {
        assert(s[0] == ' ');
        assert(s.drop_first() =~= b);
        assert(words(a) + words(b) =~= words(b));
    } else if is_ws(a[0]) {
        assert(s[0] == a[0]);
        assert(s.drop_first() =~= a.drop_first() + seq![' '] + b);
        lemma_words_space_concat(a.drop_first(), b);
    } else {
        lemma_word_len_bound(a);
        lemma_word_len_ends(a);
        let p = word_len(a) as int;
        assert forall|i: int| 0 <= i < p implies !is_ws(s[i]) by {
            assert(s[i] == a[i]);
            assert(!is_ws(a[i]));
        }
        if p < a.len() {
            assert(s[p] == a[p]);
        } else {
            assert(s[p] == ' ');
        }
        lemma_word_len(s, p);
        assert(s[0] == a[0]);
        assert(s.take(p) =~= a.take(p));
        assert(s.skip(p) =~= a.skip(p) + seq![' '] + b);
        lemma_words_space_concat(a.skip(p), b);
        assert(seq![a.take(p)] + (words(a.skip(p)) + words(b)) =~= (seq![a.take(p)] + words(
            a.skip(p),
        )) + words(b));
    }
}

/// The pieces joined with `c` between them (what `slice::join` gives).
pub open spec fn join_with(parts: Seq<Seq<char>>, c: char) -> Seq<char>
    decreases parts.len(),
{
    if parts.len() == 0 {
        seq![]
    } else if parts.len() == 1 {
        parts[0]
    } else {
        parts[0] + seq![c] + join_with(parts.drop_first(), c)
    }
}

/// `find_char` stops at the first `c`, or at the end when there is none.
pub proof fn lemma_find_char_ends(s: Seq<char>, c: char)
    ensures
        find_char(s, c) <= s.len(),
        forall|i: int| 0 <= i < find_char(s, c) ==> #[trigger] s[i] != c,
        find_char(s, c) < s.len() ==> s[find_char(s, c) as int] == c,
    decreases s.len(),
{
    if s.len() > 0 && s[0] != c {
        lemma_find_char_ends(s.drop_first(), c);
        assert forall|i: int| 0 <= i < find_char(s, c) implies #[trigger] s[i] != c by {
            if i > 0 {
                assert(s[i] == s.drop_first()[i - 1]);
            }
        }
        if find_char(s, c) < s.len() {
            assert(s[find_char(s, c) as int] == s.drop_first()[find_char(s, c) - 1]);
        }
    }
}

/// Splitting at `c` loses nothing: there is at least one piece, no piece
/// holds `c`, and joining the pieces with `c` gives the text back.
pub proof fn lemma_split_on_join(s: Seq<char>, c: char)
    ensures
        split_on(s, c).len() >= 1,
        forall|i: int, j: int|
            0 <= i < split_on(s, c).len() && 0 <= j < split_on(s, c)[i].len() ==> #[trigger] split_on(
                s,
                c,
            )[i][j] != c,
        join_with(split_on(s, c), c) == s,
    decreases s.len(),
{
    lemma_find_char_ends(s, c);
    let p = find_char(s, c) as int;
    if p >= s.len() {
        assert(split_on(s, c) == seq![s]);
        assert forall|i: int, j: int|
            0 <= i < split_on(s, c).len() && 0 <= j < split_on(s, c)[i].len() implies #[trigger] split_on(
                s,
                c,
            )[i][j] != c by {
            assert(split_on(s, c)[i] == s);
        }
    } else {
        let rest = s.skip(p + 1);
        lemma_split_on_join(rest, c);
        let head = s.take(p);
        let ps = split_on(s, c);
        assert(ps == seq![head] + split_on(rest, c));
        assert(ps.drop_first() =~= split_on(rest, c));
        assert(ps[0] == head);
        assert forall|i: int, j: int|
            0 <= i < ps.len() && 0 <= j < ps[i].len() implies #[trigger] ps[i][j] != c by {
            if i == 0 {
                assert(ps[0][j] == s[j]);
            } else {
                assert(ps[i] == split_on(rest, c)[i - 1]);
            }
        }
        assert(join_with(ps, c) == head + seq![c] + join_with(ps.drop_first(), c));
        assert(head + seq![c] + rest =~= s);
    }
}

/// Where `trim_start` starts: past the leading whitespace only.
proof fn lemma_trim_start_at(s: Seq<char>) -> (a: int)
    ensures
        0 <= a <= s.len(),
        trim_start(s) == s.skip(a),
        forall|i: int| 0 <= i < a ==> is_ws(#[trigger] s[i]),
        a < s.len() ==> !is_ws(s[a]),
    decreases s.len(),
{
    if s.len() > 0 && is_ws(s[0]) {
        let a1 = lemma_trim_start_at(s.drop_first());
        assert(s.drop_first().skip(a1) =~= s.skip(a1 + 1));
        assert forall|i: int| 0 <= i < a1 + 1 implies is_ws(#[trigger] s[i]) by {
            if i > 0 {
                assert(s[i] == s.drop_first()[i - 1]);
            }
        }
        if a1 + 1 < s.len() {
            assert(s[a1 + 1] == s.drop_first()[a1]);
        }
        a1 + 1
    } else {
        assert(s.skip(0) =~= s);
        0
    }
}

/// Where `trim_end` stops: before the trailing whitespace only.
proof fn lemma_trim_end_at(s: Seq<char>) -> (b: int)
    ensures
        0 <= b <= s.len(),
        trim_end(s) == s.take(b),
        forall|i: int| b <= i < s.len() ==> is_ws(#[trigger] s[i]),
        b > 0 ==> !is_ws(s[b - 1]),
    decreases s.len(),
{
    if s.len() > 0 && is_ws(s.last()) {
        let b = lemma_trim_end_at(s.drop_last());
        assert(s.drop_last().take(b) =~= s.take(b));
        assert forall|i: int| b <= i < s.len() implies is_ws(#[trigger] s[i]) by {
            if i < s.len() - 1 {
                assert(s[i] == s.drop_last()[i]);
            }
        }
        if b > 0 {
            assert(s[b - 1] == s.drop_last()[b - 1]);
        }
        b
    } else {
        assert(s.take(s.len() as int) =~= s);
        s.len() as int
    }
}

/// Trimming cuts whitespace, and only whitespace, off both ends: the result
/// is the part of `s` between `a` and `b`, everything before `a` and from
/// `b` on is whitespace, and the result neither starts nor ends with it.
pub proof fn law_trim(s: Seq<char>) -> (ab: (int, int))
    ensures
        0 <= ab.0 <= ab.1 <= s.len(),
        trim(s) == s.subrange(ab.0, ab.1),
        forall|i: int| 0 <= i < ab.0 ==> is_ws(#[trigger] s[i]),
        forall|i: int| ab.1 <= i < s.len() ==> is_ws(#[trigger] s[i]),
        trim(s).len() > 0 ==> !is_ws(trim(s)[0]) && !is_ws(trim(s).last()),
{
    let a = lemma_trim_start_at(s);
    let t = s.skip(a);
    let b = lemma_trim_end_at(t);
    assert(t.take(b) =~= s.subrange(a, a + b));
    assert forall|i: int| a + b <= i < s.len() implies is_ws(#[trigger] s[i]) by {
        assert(s[i] == t[i - a]);
    }
    if b > 0 {
        assert(trim(s)[0] == t[0]);
        assert(t[0] == s[a]);
        assert(trim(s).last() == t[b - 1]);
    }
    (a, a + b)
}

} // verus!
