//! Reading `sccache --show-stats` output: the cache hit and miss counts, and
//! the size lines whose amounts the caller scales.
use vstd::prelude::*;
use crate::number::{decimal, is_digit, lemma_decimal, lemma_parse_decimal, parse_u64, parse_u64_chars};
use crate::text::{
    chars_eq, chars_of, is_ws, join_prefix_spaced, join_spaced, lemma_words_single,
    lemma_words_space_concat, lines, split_lines, split_words, string_of, views, words,
};

verus! {

/// A size line's amount and unit, as written (e.g. `2.1` and `GiB`).
pub struct SizeEntry {
    /// The amount.
    pub numeral: String,
    /// The unit.
    pub unit: String,
}

/// What the statistics text states.
pub struct SccacheStats {
    /// The `Cache hits` count (0 if absent).
    pub cache_hits: u64,
    /// The `Cache misses` count (0 if absent).
    pub cache_misses: u64,
    /// The `Cache size` lines, in order.
    pub cache_size: Vec<SizeEntry>,
    /// The `Max cache size` lines, in order.
    pub max_cache_size: Vec<SizeEntry>,
}

/// The count a line states for `key`: the line's last word is a `u64`
/// numeral and its other words, joined by single spaces, are `key`.
pub open spec fn count_in_line(line: Seq<char>, key: Seq<char>) -> Option<u64> {
    let p = words(line);
    if p.len() < 2 {
        None
    } else {
        match parse_u64(p.last()) {
            Ok(n) => if join_spaced(p.take(p.len() - 1)) == key {
                Some(n)
            } else {
                None
            },
            Err(_) => None,
        }
    }
}

/// The count of the first line that states one for `key`.
pub open spec fn first_count(ls: Seq<Seq<char>>, key: Seq<char>) -> Option<u64>
    decreases ls.len(),
{
    if ls.len() == 0 {
        None
    } else {
        match count_in_line(ls[0], key) {
            Some(n) => Some(n),
            None => first_count(ls.drop_first(), key),
        }
    }
}

/// The amount and unit a line states for `key`: the line has at least
/// three words, and those before the last two, joined by single spaces, are
/// `key`.
pub open spec fn size_in_line(line: Seq<char>, key: Seq<char>) -> Option<(Seq<char>, Seq<char>)> {
    let p = words(line);
    if p.len() < 3 {
        None
    } else if join_spaced(p.take(p.len() - 2)) == key {
        Some((p[p.len() - 2], p[p.len() - 1]))
    } else {
        None
    }
}

/// The amounts and units the lines state for `key`, in order.
pub open spec fn sizes_in(ls: Seq<Seq<char>>, key: Seq<char>) -> Seq<(Seq<char>, Seq<char>)>
    decreases ls.len(),
{
    if ls.len() == 0 {
        seq![]
    } else {
        match size_in_line(ls[0], key) {
            Some(e) => seq![e] + sizes_in(ls.drop_first(), key),
            None => sizes_in(ls.drop_first(), key),
        }
    }
}

/// The views of size entries.
pub open spec fn entry_views(v: Seq<SizeEntry>) -> Seq<(Seq<char>, Seq<char>)> {
    v.map_values(|e: SizeEntry| (e.numeral@, e.unit@))
}

/// Bytes per size unit: `GiB`, `MiB`, `KiB`, `B`.
pub open spec fn unit_bytes(unit: Seq<char>) -> Option<u64> {
    if unit == seq!['G', 'i', 'B'] {
        Some(1073741824)
    } else if unit == seq!['M', 'i', 'B'] {
        Some(1048576)
    } else if unit == seq!['K', 'i', 'B'] {
        Some(1024)
    } else if unit == seq!['B'] {
        Some(1)
    } else {
        None
    }
}

/// The count stated for `key` by the first line that states one.
pub fn extract_count(text: &str, key: &str) -> (r: Option<u64>)
    ensures
        r == first_count(lines(text@), key@),
{
    let v = chars_of(text);
    let k = chars_of(key);
    let ls = split_lines(&v);
    let mut i: usize = 0;
    assert(views(ls@).skip(0) =~= views(ls@));
    while i < ls.len()
        invariant
            i <= ls.len(),
            k@ == key@,
            views(ls@) == lines(text@),
            first_count(lines(text@), key@) == first_count(views(ls@).skip(i as int), key@),
        decreases ls.len() - i,
    {
        let ghost rest = views(ls@).skip(i as int);
        assert(rest[0] == ls@[i as int]@);
        assert(rest.drop_first() =~= views(ls@).skip(i + 1));
        let parts = split_words(&ls[i]);
        let n = parts.len();
        if n >= 2 {
            let last = &parts[n - 1];
            assert(views(parts@).last() == last@);
            assert(last@.subrange(0, last@.len() as int) =~= last@);
            match parse_u64_chars(last, 0, last.len()) {
                Ok(count) => {
                    let joined = join_prefix_spaced(&parts, n - 1);
                    if chars_eq(&joined, &k) {
                        return Some(count);
                    }
                },
                Err(_) => {},
            }
        }
        i += 1;
    }
    None
}

/// The amounts and units stated for `key`, in the order of their lines.
pub fn extract_size_entries(text: &str, key: &str) -> (r: Vec<SizeEntry>)
    ensures
        entry_views(r@) == sizes_in(lines(text@), key@),
{
    let v = chars_of(text);
    let k = chars_of(key);
    let ls = split_lines(&v);
    let mut r: Vec<SizeEntry> = Vec::new();
    let mut i: usize = 0;
    assert(views(ls@).skip(0) =~= views(ls@));
    while i < ls.len()
        invariant
            i <= ls.len(),
            k@ == key@,
            views(ls@) == lines(text@),
            sizes_in(lines(text@), key@) == entry_views(r@) + sizes_in(
                views(ls@).skip(i as int),
                key@,
            ),
        decreases ls.len() - i,
    {
        let ghost rest = views(ls@).skip(i as int);
        assert(rest[0] == ls@[i as int]@);
        assert(rest.drop_first() =~= views(ls@).skip(i + 1));
        let parts = split_words(&ls[i]);
        let n = parts.len();
        if n >= 3 {
            let joined = join_prefix_spaced(&parts, n - 2);
            if chars_eq(&joined, &k) {
                let e = SizeEntry { numeral: string_of(&parts[n - 2]), unit: string_of(&parts[n - 1]) };
                let ghost prev = entry_views(r@);
                r.push(e);
                assert(entry_views(r@) =~= prev.push((parts@[n - 2]@, parts@[n - 1]@)));
            }
        }
        i += 1;
        assert(sizes_in(lines(text@), key@) =~= entry_views(r@) + sizes_in(
            views(ls@).skip(i as int),
            key@,
        ));
    }
    assert(views(ls@).skip(ls.len() as int) =~= Seq::<Seq<char>>::empty());
    assert(entry_views(r@) + Seq::<(Seq<char>, Seq<char>)>::empty() =~= entry_views(r@));
    r
}

/// Bytes per size unit (`GiB`, `MiB`, `KiB`, `B`); none for another unit.
pub fn size_unit_multiplier(unit: &str) -> (r: Option<u64>)
    ensures
        r == unit_bytes(unit@),
{
    let u = chars_of(unit);
    let gib = vec!['G', 'i', 'B'];
    let mib = vec!['M', 'i', 'B'];
    let kib = vec!['K', 'i', 'B'];
    let b = vec!['B'];
    assert(gib@ =~= seq!['G', 'i', 'B']);
    assert(mib@ =~= seq!['M', 'i', 'B']);
    assert(kib@ =~= seq!['K', 'i', 'B']);
    assert(b@ =~= seq!['B']);
    if chars_eq(&u, &gib) {
        Some(1073741824)
    } else if chars_eq(&u, &mib) {
        Some(1048576)
    } else if chars_eq(&u, &kib) {
        Some(1024)
    } else if chars_eq(&u, &b) {
        Some(1)
    } else {
        None
    }
}

/// Reads the hit and miss counts (0 when absent) and the cache size lines
/// out of `sccache --show-stats` output.
pub fn parse_stats(text: &str) -> (r: SccacheStats)
    ensures
        r.cache_hits == match first_count(lines(text@), "Cache hits"@) {
            Some(n) => n,
            None => 0,
        },
        r.cache_misses == match first_count(lines(text@), "Cache misses"@) {
            Some(n) => n,
            None => 0,
        },
        entry_views(r.cache_size@) == sizes_in(lines(text@), "Cache size"@),
        entry_views(r.max_cache_size@) == sizes_in(lines(text@), "Max cache size"@),
{
    let cache_hits = match extract_count(text, "Cache hits") {
        Some(n) => n,
        None => 0,
    };
    let cache_misses = match extract_count(text, "Cache misses") {
        Some(n) => n,
        None => 0,
    };
    let cache_size = extract_size_entries(text, "Cache size");
    let max_cache_size = extract_size_entries(text, "Max cache size");
    SccacheStats { cache_hits, cache_misses, cache_size, max_cache_size }
}

/// A line that is the key followed by a `u64` numeral states that number
/// for the key, whatever its size, and a text whose first line is such a
/// line gives that count. The key is written as its words joined by single
/// spaces, as `Cache hits` is.
pub proof fn law_count_line(key: Seq<char>, n: u64, ls: Seq<Seq<char>>)
    requires
        words(key).len() > 0,
        join_spaced(words(key)) == key,
        ls.len() > 0,
        ls[0] == key + seq![' '] + decimal(n as nat),
    ensures
        count_in_line(key + seq![' '] + decimal(n as nat), key) == Some(n),
        first_count(ls, key) == Some(n),
{
    let d = decimal(n as nat);
    lemma_decimal(n as nat);
    lemma_parse_decimal(n);
    assert forall|i: int| 0 <= i < d.len() implies !is_ws(#[trigger] d[i]) by {
        assert(is_digit(d[i]));
    }
    lemma_words_single(d);
    lemma_words_space_concat(key, d);
    let p = words(key + seq![' '] + d);
    assert(p == words(key) + seq![d]);
    assert(p.last() == d);
    assert(p.take(p.len() - 1) =~= words(key));
}

/// A line that is the key followed by an amount and a unit (each one word)
/// states that amount and unit for the key, and a text with that one line
/// gives just that entry. The key is written as its words joined by single
/// spaces, as `Cache size` is.
pub proof fn law_size_line(key: Seq<char>, amount: Seq<char>, unit: Seq<char>)
    requires
        words(key).len() > 0,
        join_spaced(words(key)) == key,
        amount.len() > 0,
        unit.len() > 0,
        forall|i: int| 0 <= i < amount.len() ==> !is_ws(#[trigger] amount[i]),
        forall|i: int| 0 <= i < unit.len() ==> !is_ws(#[trigger] unit[i]),
    ensures
        size_in_line(key + seq![' '] + amount + seq![' '] + unit, key) == Some((amount, unit)),
        sizes_in(seq![key + seq![' '] + amount + seq![' '] + unit], key) == seq![(amount, unit)],
{
    let line = key + seq![' '] + amount + seq![' '] + unit;
    let rest = amount + seq![' '] + unit;
    assert(line =~= key + seq![' '] + rest);
    lemma_words_single(amount);
    lemma_words_single(unit);
    lemma_words_space_concat(amount, unit);
    lemma_words_space_concat(key, rest);
    let p = words(line);
    assert(p =~= words(key) + seq![amount, unit]);
    assert(p.take(p.len() - 2) =~= words(key));
    let ls = seq![line];
    assert(ls[0] == line);
    assert(ls.drop_first() =~= Seq::<Seq<char>>::empty());
    assert(sizes_in(ls.drop_first(), key) =~= Seq::<(Seq<char>, Seq<char>)>::empty());
    assert(seq![(amount, unit)] + Seq::<(Seq<char>, Seq<char>)>::empty() =~= seq![(amount, unit)]);
}

} // verus!
