//! The `status` subcommand: what it reports of installation and wiring, and
//! how it reads the size cap back out of the sccache config, whether that
//! holds the bare byte count that `wire` records or a TOML `size` line.
use vstd::prelude::*;
use crate::config::{
    cargo_config_under, get_max_size_from, opt_view, sccache_dir_under, size_result,
    stored_size, wire_result, wired_result, ConfigError,
};
use crate::number::{decimal, is_digit, lemma_decimal};
use crate::paths::path_join;
use crate::size::{size_arg_ok, size_bytes, size_of_chars, size_of_str, SizeReading};
use crate::text::{chars_of, lines, slice_of, split_lines, trim, trim_chars, views};
use crate::toml_doc::{document_is_wired, is_wired_document, load_document, toml_parse};
use crate::text::strip_cr;
use crate::wire::{cache_dir_text, sccache_config_text};

verus! {

/// Arguments of `status`.
pub struct StatusArgs {
    /// Path to the fleet cargo config.toml.
    pub config: Option<String>,
    /// Path to the sccache config directory.
    pub sccache_config_dir: Option<String>,
}

/// What `status` reports.
pub struct StatusOutput {
    /// Whether the sccache binary answers on $PATH.
    pub installed: bool,
    /// Whether `build.rustc-wrapper = "sccache"` is in the fleet config.
    pub wired: bool,
    /// Current cache size in bytes (none if unknown or not installed).
    pub cache_bytes: Option<u64>,
    /// Maximum cache size in bytes (none if not configured).
    pub max_bytes: Option<u64>,
    /// The fleet config file checked.
    pub config_path: String,
    /// The sccache config file checked.
    pub sccache_config_path: String,
}

/// The files `status` looks at.
pub struct StatusPaths {
    /// The fleet config file.
    pub config_path: String,
    /// The sccache config directory.
    pub sccache_config_dir: String,
}

/// What the caller found out for `status`.
pub struct StatusProbe {
    /// Whether `sccache --version` ran and succeeded.
    pub installed: bool,
    /// The fleet config's text, if it exists and could be read.
    pub config_text: Option<String>,
    /// The sccache config's text, if it could be read.
    pub sccache_config_text: Option<String>,
    /// The cache size that live sccache statistics report, if they could be had.
    pub live_cache_bytes: Option<u64>,
}

/// `s` without its leading spaces and `=` signs.
pub open spec fn skip_assign(s: Seq<char>) -> Seq<char>
    decreases s.len(),
{
    if s.len() > 0 && (s[0] == ' ' || s[0] == '=') {
        skip_assign(s.drop_first())
    } else {
        s
    }
}

/// `s` without its leading double quotes.
pub open spec fn strip_quotes_start(s: Seq<char>) -> Seq<char>
    decreases s.len(),
{
    if s.len() > 0 && s[0] == '"' {
        strip_quotes_start(s.drop_first())
    } else {
        s
    }
}

/// `s` without its trailing double quotes.
pub open spec fn strip_quotes_end(s: Seq<char>) -> Seq<char>
    decreases s.len(),
{
    if s.len() > 0 && s.last() == '"' {
        strip_quotes_end(s.drop_last())
    } else {
        s
    }
}

/// The value a line gives for `size`: the trimmed line starts with `size`;
/// after that come spaces and `=` signs, and the rest, trimmed and stripped
/// of double quotes at both ends, is the value.
pub open spec fn size_field(line: Seq<char>) -> Option<Seq<char>> {
    let l = trim(line);
    if l.len() >= 4 && l.take(4) == seq!['s', 'i', 'z', 'e'] {
        Some(strip_quotes_end(strip_quotes_start(trim(skip_assign(l.skip(4))))))
    } else {
        None
    }
}

/// The value of the first line that gives one.
pub open spec fn first_size_field(ls: Seq<Seq<char>>) -> Option<Seq<char>>
    decreases ls.len(),
{
    if ls.len() == 0 {
        None
    } else {
        match size_field(ls[0]) {
            Some(v) => Some(v),
            None => first_size_field(ls.drop_first()),
        }
    }
}

/// The size cap an sccache config's text states (`None`: unreadable file):
/// the first `size` line's value read as a size argument; a text with no
/// `size` line is read as the byte count that `wire` records (see
/// `stored_size`).
pub open spec fn max_size_in(text: Option<Seq<char>>) -> Option<u64> {
    match text {
        None => None,
        Some(t) => match first_size_field(lines(t)) {
            None => match stored_size(Some(t)) {
                Ok(Some(n)) => Some(n),
                _ => None,
            },
            Some(v) => match size_bytes(v) {
                Ok(n) => Some(n),
                Err(_) => None,
            },
        },
    }
}

/// The texts on which reading the size cap completes: the value of the
/// first `size` line, if any, is one on which reading a size completes.
pub open spec fn max_size_readable(text: Option<Seq<char>>) -> bool {
    match text {
        None => true,
        Some(t) => match first_size_field(lines(t)) {
            None => true,
            Some(v) => size_arg_ok(v),
        },
    }
}

/// Whether a fleet config's text (`None`: missing or unreadable) sets
/// `build.rustc-wrapper = "sccache"`; text that is not TOML is not wired.
pub open spec fn wired_in(text: Option<Seq<char>>) -> bool {
    match text {
        None => false,
        Some(t) => match toml_parse(t) {
            Ok(d) => document_is_wired(d),
            Err(_) => false,
        },
    }
}

/// Reads a size string such as `20G` into bytes (none if it is refused).
pub fn parse_size_str(s: &str) -> (r: Option<u64>)
    requires
        size_arg_ok(s@),
    ensures
        r == match size_bytes(s@) {
            Ok(n) => Some(n),
            Err(_) => None::<u64>,
        },
{
    match size_of_str(s) {
        Ok(n) => Some(n),
        Err(_) => None,
    }
}

/// Position after the spaces and `=` signs that start `v[lo..]`.
fn skip_assign_from(v: &Vec<char>, lo: usize) -> (p: usize)
    requires
        lo <= v.len(),
    ensures
        lo <= p <= v.len(),
        skip_assign(v@.skip(lo as int)) == v@.skip(p as int),
{
    let mut p = lo;
    while p < v.len() && (v[p] == ' ' || v[p] == '=')
        invariant
            lo <= p <= v.len(),
            skip_assign(v@.skip(lo as int)) == skip_assign(v@.skip(p as int)),
        decreases v.len() - p,
    {
        assert(v@.skip(p as int).drop_first() =~= v@.skip(p + 1));
        p += 1;
    }
    p
}

proof fn lemma_strip_quotes_start(s: Seq<char>, a: int)
    requires
        0 <= a <= s.len(),
        forall|i: int| 0 <= i < a ==> s[i] == '"',
        a == s.len() || s[a] != '"',
    ensures
        strip_quotes_start(s) == s.skip(a),
    decreases a,
{
    if a > 0 {
        lemma_strip_quotes_start(s.drop_first(), a - 1);
        assert(s.drop_first().skip(a - 1) =~= s.skip(a));
    } else {
        assert(s.skip(0) =~= s);
    }
}

proof fn lemma_strip_quotes_end(s: Seq<char>, b: int)
    requires
        0 <= b <= s.len(),
        forall|i: int| b <= i < s.len() ==> s[i] == '"',
        b == 0 || s[b - 1] != '"',
    ensures
        strip_quotes_end(s) == s.take(b),
    decreases s.len() - b,
{
    if b < s.len() {
        assert(s.drop_last().take(b) =~= s.take(b));
        lemma_strip_quotes_end(s.drop_last(), b);
    } else {
        assert(s.take(b) =~= s);
    }
}

/// `v` without double quotes at either end.
fn strip_quotes(v: &Vec<char>) -> (r: Vec<char>)
    ensures
        r@ == strip_quotes_end(strip_quotes_start(v@)),
{
    let n = v.len();
    let mut a: usize = 0;
    while a < n && v[a] == '"'
        invariant
            a <= n == v.len(),
            forall|i: int| 0 <= i < a ==> v@[i] == '"',
        decreases n - a,
    {
        a += 1;
    }
    let mut b: usize = n;
    while b > a && v[b - 1] == '"'
        invariant
            a <= b <= n == v.len(),
            forall|i: int| b <= i < n ==> v@[i] == '"',
        decreases b,
    {
        b -= 1;
    }
    proof {
        lemma_strip_quotes_start(v@, a as int);
        let t = v@.skip(a as int);
        lemma_strip_quotes_end(t, (b - a) as int);
        assert(t.take((b - a) as int) =~= v@.subrange(a as int, b as int));
    }
    slice_of(v, a, b)
}

/// The value a line gives for `size` (see `size_field`).
fn size_field_of(line: &Vec<char>) -> (r: Option<Vec<char>>)
    ensures
        match r {
            Some(v) => size_field(line@) == Some(v@),
            None => size_field(line@) is None,
        },
{
    let l = trim_chars(line);
    if l.len() >= 4 && l[0] == 's' && l[1] == 'i' && l[2] == 'z' && l[3] == 'e' {
        assert(l@.take(4) =~= seq!['s', 'i', 'z', 'e']);
        let p = skip_assign_from(&l, 4);
        let rest = slice_of(&l, p, l.len());
        assert(rest@ =~= l@.skip(p as int));
        let t = trim_chars(&rest);
        Some(strip_quotes(&t))
    } else {
        assert(!(l@.len() >= 4 && l@.take(4) == seq!['s', 'i', 'z', 'e'])) by {
            if l@.len() >= 4 && l@.take(4) == seq!['s', 'i', 'z', 'e'] {
                assert(l@.take(4)[0] == l@[0]);
                assert(l@.take(4)[1] == l@[1]);
                assert(l@.take(4)[2] == l@[2]);
                assert(l@.take(4)[3] == l@[3]);
            }
        }
        None
    }
}

/// The first `size` value in a text's lines.
fn first_size_field_of(text: &str) -> (r: Option<Vec<char>>)
    ensures
        match r {
            Some(v) => first_size_field(lines(text@)) == Some(v@),
            None => first_size_field(lines(text@)) is None,
        },
{
    let v = chars_of(text);
    let ls = split_lines(&v);
    let mut i: usize = 0;
    assert(views(ls@).skip(0) =~= views(ls@));
    while i < ls.len()
        invariant
            i <= ls.len(),
            views(ls@) == lines(text@),
            first_size_field(lines(text@)) == first_size_field(views(ls@).skip(i as int)),
        decreases ls.len() - i,
    {
        let ghost rest = views(ls@).skip(i as int);
        assert(rest[0] == ls@[i as int]@);
        assert(rest.drop_first() =~= views(ls@).skip(i + 1));
        match size_field_of(&ls[i]) {
            Some(val) => {
                return Some(val);
            },
            None => {},
        }
        i += 1;
    }
    None
}

/// Whether reading the size cap from a text would not complete (see
/// `max_size_readable`).
pub fn read_max_size_panics(text: Option<&str>) -> (b: bool)
    ensures
        b == !max_size_readable(opt_view(text)),
{
    match text {
        None => false,
        Some(t) => match first_size_field_of(t) {
            None => false,
            Some(v) => {
                let n = v.len();
                if n == 0 {
                    false
                } else if (v[n - 1] as u32) >= 0x80 {
                    true
                } else {
                    match size_of_chars(&v) {
                        Err(SizeReading::Overflow) => true,
                        _ => false,
                    }
                }
            },
        },
    }
}

/// Reads the size cap out of an sccache config's text (`None`: the file
/// could not be read): the first line that, trimmed, starts with `size`
/// gives the value after its spaces, `=` signs and quotes; without such a
/// line, the text is read as the bare byte count that `wire` records.
pub fn read_max_size(text: Option<&str>) -> (r: Option<u64>)
    requires
        max_size_readable(opt_view(text)),
    ensures
        r == max_size_in(opt_view(text)),
{
    match text {
        None => None,
        Some(t) => match first_size_field_of(t) {
            None => match get_max_size_from(Some(t)) {
                Ok(Some(n)) => Some(n),
                _ => None,
            },
            Some(v) => match size_of_chars(&v) {
                Ok(n) => Some(n),
                Err(_) => None,
            },
        },
    }
}

/// Whether a fleet config's text (`None`: missing or unreadable) sets
/// `build.rustc-wrapper = "sccache"`.
pub fn check_wired(text: Option<&str>) -> (b: bool)
    ensures
        b == wired_in(opt_view(text)),
{
    match text {
        None => false,
        Some(t) => match load_document(Some(t)) {
            Ok(doc) => is_wired_document(&doc),
            Err(_) => false,
        },
    }
}

/// The paths `status` looks at: each given, else the default under `home`,
/// else a `~`-prefixed fallback.
pub fn status_paths(args: &StatusArgs, home: Option<&str>) -> (r: StatusPaths)
    ensures
        r.config_path@ == match args.config {
            Some(p) => p@,
            None => match home {
                Some(h) => cargo_config_under(h@),
                None => "~/.cargo/config.toml"@,
            },
        },
        r.sccache_config_dir@ == match args.sccache_config_dir {
            Some(p) => p@,
            None => match home {
                Some(h) => sccache_dir_under(h@),
                None => "~/.config/sccache"@,
            },
        },
{
    let config_path = match &args.config {
        Some(p) => p.clone(),
        None => match crate::wire::default_fleet_config(home) {
            Ok(p) => p,
            Err(_) => "~/.cargo/config.toml".to_owned(),
        },
    };
    let sccache_config_dir = match &args.sccache_config_dir {
        Some(p) => p.clone(),
        None => match crate::wire::default_sccache_config_dir(home) {
            Ok(p) => p,
            Err(_) => "~/.config/sccache".to_owned(),
        },
    };
    StatusPaths { config_path, sccache_config_dir }
}

/// The view of an optional owned string.
pub open spec fn owned_view(s: Option<String>) -> Option<Seq<char>> {
    match s {
        Some(t) => Some(t@),
        None => None,
    }
}

/// Builds the status report from what the caller found: the live cache
/// size counts only when sccache is installed.
pub fn run(args: &StatusArgs, home: Option<&str>, probe: &StatusProbe) -> (r: StatusOutput)
    requires
        max_size_readable(owned_view(probe.sccache_config_text)),
    ensures
        r.installed == probe.installed,
        r.wired == wired_in(owned_view(probe.config_text)),
        r.cache_bytes == (if probe.installed {
            probe.live_cache_bytes
        } else {
            None
        }),
        r.max_bytes == max_size_in(owned_view(probe.sccache_config_text)),
        r.config_path@ == status_paths_spec_config(args, home),
        r.config_path@ == match args.config {
            Some(p) => p@,
            None => match home {
                Some(h) => cargo_config_under(h@),
                None => "~/.cargo/config.toml"@,
            },
        },
        r.sccache_config_path@ == path_join(
            match args.sccache_config_dir {
                Some(p) => p@,
                None => match home {
                    Some(h) => sccache_dir_under(h@),
                    None => "~/.config/sccache"@,
                },
            },
            "config"@,
        ),
        r.sccache_config_path@ == path_join(status_paths_spec_dir(args, home), "config"@),
{
    let paths = status_paths(args, home);
    let config_text = match &probe.config_text {
        Some(t) => Some(t.as_str()),
        None => None,
    };
    let sccache_text = match &probe.sccache_config_text {
        Some(t) => Some(t.as_str()),
        None => None,
    };
    let wired = check_wired(config_text);
    let max_bytes = read_max_size(sccache_text);
    let cache_bytes = if probe.installed {
        probe.live_cache_bytes
    } else {
        None
    };
    StatusOutput {
        installed: probe.installed,
        wired,
        cache_bytes,
        max_bytes,
        config_path: paths.config_path,
        sccache_config_path: crate::config::sccache_config_path(paths.sccache_config_dir.as_str()),
    }
}

/// The fleet config path `status` checks.
pub open spec fn status_paths_spec_config(args: &StatusArgs, home: Option<&str>) -> Seq<char> {
    match args.config {
        Some(p) => p@,
        None => match home {
            Some(h) => cargo_config_under(h@),
            None => "~/.cargo/config.toml"@,
        },
    }
}

/// The sccache config directory `status` checks.
pub open spec fn status_paths_spec_dir(args: &StatusArgs, home: Option<&str>) -> Seq<char> {
    match args.sccache_config_dir {
        Some(p) => p@,
        None => match home {
            Some(h) => sccache_dir_under(h@),
            None => "~/.config/sccache"@,
        },
    }
}


/// The line `size = "M"` gives `M` for `size`, when `M` neither begins
/// nor ends with a double quote.
proof fn lemma_size_line(m: Seq<char>)
    requires
        m.len() > 0 ==> m[0] != '"' && m.last() != '"',
    ensures
        size_field(seq!['s', 'i', 'z', 'e', ' ', '=', ' '] + (seq!['"'] + m + seq!['"'])) == Some(m),
{
    let tail = seq!['"'] + m + seq!['"'];
    let l4 = seq!['s', 'i', 'z', 'e', ' ', '=', ' '] + tail;
    crate::text::lemma_trim_unchanged(l4);
    assert(l4.take(4) =~= seq!['s', 'i', 'z', 'e']);
    let a = l4.skip(4);
    let a1 = a.drop_first();
    let a2 = a1.drop_first();
    assert(a =~= seq![' ', '=', ' '] + tail);
    assert(a1 =~= seq!['=', ' '] + tail);
    assert(a2 =~= seq![' '] + tail);
    assert(a2.drop_first() =~= tail);
    assert(a[0] == ' ' && a1[0] == '=' && a2[0] == ' ');
    assert(tail[0] == '"');
    assert(skip_assign(tail) == tail);
    assert(skip_assign(a2) == skip_assign(tail));
    assert(skip_assign(a1) == skip_assign(a2));
    assert(skip_assign(a) == skip_assign(a1));
    crate::text::lemma_trim_unchanged(tail);
    assert(tail.drop_first() =~= m + seq!['"']);
    if m.len() > 0 {
        let mq = m + seq!['"'];
        assert(mq[0] == m[0]);
        assert(strip_quotes_start(tail) == strip_quotes_start(mq));
        assert(strip_quotes_start(mq) == mq);
        assert(mq.drop_last() =~= m);
        assert(mq.last() == '"');
        assert(strip_quotes_end(mq) == strip_quotes_end(m));
        assert(m.last() == m[m.len() - 1]);
        assert(strip_quotes_end(m) == m);
    } else {
        let q = seq!['"'];
        assert(m + q =~= q);
        assert(q.drop_first() =~= Seq::<char>::empty());
        assert(strip_quotes_start(q) == strip_quotes_start(Seq::<char>::empty()));
        assert(strip_quotes_start(tail) == strip_quotes_start(q));
        assert(strip_quotes_start(tail) =~= Seq::<char>::empty());
    }
}

/// The size cap that the TOML-form sccache config of `write_sccache_config`
/// lays out is read back by `status`: the config's first `size` line gives
/// the size argument as given, so the reported cap is that argument's byte
/// count. This holds
/// when neither the size argument nor the cache directory it names
/// contains a line break, and the argument does not begin or end with a
/// double quote.
pub proof fn lemma_written_size_reads_back(config_dir: Seq<char>, max_size: Seq<char>)
    requires
        forall|i: int| 0 <= i < max_size.len() ==> max_size[i] != '\n',
        forall|i: int|
            0 <= i < cache_dir_text(config_dir).len() ==> cache_dir_text(config_dir)[i] != '\n',
        max_size.len() > 0 ==> max_size[0] != '"' && max_size.last() != '"',
    ensures
        first_size_field(lines(sccache_config_text(config_dir, max_size))) == Some(max_size),
        max_size_readable(Some(sccache_config_text(config_dir, max_size))) == size_arg_ok(max_size),
        max_size_in(Some(sccache_config_text(config_dir, max_size))) == match size_bytes(max_size) {
            Ok(n) => Some(n),
            Err(_) => None::<u64>,
        },
{
    let x = cache_dir_text(config_dir);
    let m = max_size;
    reveal_strlit("# sccache configuration \u{2014} managed by hold-sccache\n[cache.disk]\ndir = \"");
    reveal_strlit("\"\nsize = \"");
    reveal_strlit("\"\n");
    reveal_strlit("# sccache configuration \u{2014} managed by hold-sccache");
    let l1 = "# sccache configuration \u{2014} managed by hold-sccache"@;
    let l2 = seq!['[', 'c', 'a', 'c', 'h', 'e', '.', 'd', 'i', 's', 'k', ']'];
    let l3 = seq!['d', 'i', 'r', ' ', '=', ' ', '"'] + x + seq!['"'];
    let tail = seq!['"'] + m + seq!['"'];
    let l4 = seq!['s', 'i', 'z', 'e', ' ', '=', ' '] + tail;
    let content = sccache_config_text(config_dir, max_size);
    let r4 = l4 + seq!['\n'] + Seq::<char>::empty();
    let r3 = l3 + seq!['\n'] + r4;
    let r2 = l2 + seq!['\n'] + r3;
    assert(content =~= l1 + seq!['\n'] + r2);
    assert forall|i: int| 0 <= i < l3.len() implies l3[i] != '\n' by {
        if 7 <= i < 7 + x.len() {
            assert(l3[i] == x[i - 7]);
        }
    }
    assert forall|i: int| 0 <= i < l4.len() implies l4[i] != '\n' by {
        if 8 <= i < 8 + m.len() {
            assert(l4[i] == m[i - 8]);
        }
    }
    crate::text::lemma_lines_first(l1, r2);
    crate::text::lemma_lines_first(l2, r3);
    crate::text::lemma_lines_first(l3, r4);
    crate::text::lemma_lines_first(l4, Seq::<char>::empty());
    assert(lines(Seq::<char>::empty()) == Seq::<Seq<char>>::empty());
    assert(strip_cr(l1) == l1);
    assert(strip_cr(l2) == l2);
    assert(strip_cr(l3) == l3);
    assert(strip_cr(l4) == l4);
    let ls = lines(content);
    assert(ls =~= seq![l1, l2, l3, l4]);
    crate::text::lemma_trim_unchanged(l1);
    crate::text::lemma_trim_unchanged(l2);
    crate::text::lemma_trim_unchanged(l3);
    crate::text::lemma_trim_unchanged(l4);
    assert(size_field(l1) is None) by {
        assert(l1.take(4)[0] == '#');
    }
    assert(size_field(l2) is None) by {
        assert(l2.take(4)[0] == '[');
    }
    assert(size_field(l3) is None) by {
        assert(l3.take(4)[0] == 'd');
    }
    lemma_size_line(m);
    assert(size_field(l4) == Some(m));
    assert(ls.drop_first() =~= seq![l2, l3, l4]);
    assert(ls.drop_first().drop_first() =~= seq![l3, l4]);
    assert(ls.drop_first().drop_first().drop_first() =~= seq![l4]);
    assert(first_size_field(seq![l4]) == Some(m));
    assert(first_size_field(seq![l3, l4]) == first_size_field(seq![l3, l4].drop_first()));
    assert(first_size_field(seq![l2, l3, l4]) == first_size_field(seq![l2, l3, l4].drop_first()));
    assert(first_size_field(ls) == first_size_field(ls.drop_first()));
}


/// The size cap that `wire` records is what `status` reports: the sccache
/// config text that wiring produces has no `size` line, and its byte count
/// is the size argument's.
pub proof fn lemma_wire_then_status(existing: Option<Seq<char>>, max_size: Seq<char>)
    requires
        wire_result(existing, max_size) is Ok,
    ensures
        max_size_readable(Some(wire_result(existing, max_size)->Ok_0.1)),
        max_size_in(Some(wire_result(existing, max_size)->Ok_0.1)) == Some(
            size_bytes(max_size)->Ok_0,
        ),
{
    let n = size_bytes(max_size)->Ok_0;
    let s = wire_result(existing, max_size)->Ok_0.1;
    assert(s == decimal(n as nat));
    lemma_decimal(n as nat);
    assert forall|i: int| 0 <= i < s.len() implies s[i] != '\n' by {
        assert(is_digit(s[i]));
    }
    crate::text::lemma_lines_single(s);
    assert(!crate::text::is_ws(s[0])) by {
        assert(is_digit(s[0]));
    }
    assert(!crate::text::is_ws(s.last())) by {
        assert(is_digit(s[s.len() - 1]));
    }
    crate::text::lemma_trim_unchanged(s);
    assert(size_field(s) is None) by {
        if s.len() >= 4 && s.take(4) == seq!['s', 'i', 'z', 'e'] {
            assert(s.take(4)[0] == s[0]);
            assert(is_digit(s[0]));
        }
    }
    let ls = seq![s];
    assert(ls[0] == s);
    assert(ls.drop_first() =~= Seq::<Seq<char>>::empty());
    assert(first_size_field(ls.drop_first()) is None);
    assert(first_size_field(ls) is None);
    crate::config::lemma_wired_size_reads_back(existing, max_size);
}

/// `status` reports a cargo config as wired exactly when `is_wired_at`
/// reads its text as wired; a text that is not TOML, which `is_wired_at`
/// refuses, is reported as not wired.
pub proof fn lemma_status_wired_agrees(text: Option<Seq<char>>)
    ensures
        wired_in(text) <==> wired_result(text) == Ok::<bool, ConfigError>(true),
        wired_result(text) is Err ==> !wired_in(text),
{
}

/// `status` reads a size string as `wire` reads its size argument: the
/// same byte count, and nothing where `wire` refuses the argument.
pub proof fn lemma_size_readers_agree(s: Seq<char>)
    ensures
        match size_result(s) {
            Ok(n) => size_bytes(s) == Ok::<u64, crate::size::SizeError>(n),
            Err(_) => size_bytes(s) is Err,
        },
{
}

/// `status` reports the fleet config it checked: the `--config` path when
/// one is given, whatever else is given, else the default under the home
/// directory; likewise the sccache config file is `config` inside the given
/// `--sccache-config-dir`, whatever else is given, else inside the default.
pub proof fn law_status_reports_given_paths(args: &StatusArgs, home: Option<&str>)
    ensures
        args.config matches Some(p) ==> status_paths_spec_config(args, home) == p@,
        args.config is None && home is Some ==> status_paths_spec_config(args, home)
            == cargo_config_under(home.unwrap()@),
        args.sccache_config_dir matches Some(p) ==> status_paths_spec_dir(args, home) == p@,
        args.sccache_config_dir is None && home is Some ==> status_paths_spec_dir(args, home)
            == sccache_dir_under(home.unwrap()@),
{
}

} // verus!
