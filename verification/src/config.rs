//! Wiring sccache into a cargo config and recording its size cap: the
//! decisions of `wire`, `unwire` and the readers of what they wrote. Reading
//! and writing the files is the caller's part: each function here takes the
//! text a file holds (`None` when it does not exist) and returns the text to
//! write.
use vstd::prelude::*;
use toml_edit::TomlError;
use crate::number::{IntErrorKind, decimal, decimal_string, parse_u64, parse_u64_chars};
use crate::paths::{join_path, path_join};
use crate::size::{SizeError, size_arg_ok, size_bytes, size_of_str};
use crate::text::{chars_of, trim, trim_chars};
use crate::toml_doc::{
    build_table, document_is_wired, has_wrapper_entry, is_wired_document, load_document,
    build_without_wrapper, loaded_document, render_document, root_entry, toml_get, toml_parse,
    toml_render,
    unwire_document, unwired_document, wire_document, wired_document, with_build_table,
};

verus! {

/// Why a configuration step failed.
#[derive(Debug)]
pub enum ConfigError {
    /// `HOME` is not set and a default path was needed.
    HomeNotSet,
    /// The size argument was refused.
    Size(SizeError),
    /// The cargo config is not valid TOML.
    Toml(TomlError),
    /// The cargo config's `build` entry is not a table.
    BuildNotTable,
    /// The stored size cap is not a `u64` numeral.
    StoredSize(IntErrorKind),
}

/// The paths `wire` works on and the size cap it records.
pub struct WirePlan {
    /// The cargo config file.
    pub cargo_path: String,
    /// The sccache config file.
    pub sccache_path: String,
    /// The size cap in bytes.
    pub size_bytes: u64,
}

/// The texts `wire` writes.
pub struct WireOutput {
    /// The new text of the cargo config.
    pub cargo_text: String,
    /// The text of the sccache config: the size cap in bytes.
    pub sccache_text: String,
}

/// `~/wintermute/.cargo/config.toml` for a home directory.
pub open spec fn cargo_config_under(home: Seq<char>) -> Seq<char> {
    path_join(path_join(path_join(home, "wintermute"@), ".cargo"@), "config.toml"@)
}

/// `~/.config/sccache` for a home directory.
pub open spec fn sccache_dir_under(home: Seq<char>) -> Seq<char> {
    path_join(path_join(home, ".config"@), "sccache"@)
}

/// The view of an optional string.
pub open spec fn opt_view(s: Option<&str>) -> Option<Seq<char>> {
    match s {
        Some(t) => Some(t@),
        None => None,
    }
}

/// Whether `wire` gets past resolving its paths.
pub open spec fn wire_paths_resolve(
    cargo_config: Option<Seq<char>>,
    sccache_config_dir: Option<Seq<char>>,
    home: Option<Seq<char>>,
) -> bool {
    (cargo_config is Some || home is Some) && (sccache_config_dir is Some || home is Some)
}

/// The size cap in bytes, or the refusal as a configuration error.
pub open spec fn size_result(max_size: Seq<char>) -> Result<u64, ConfigError> {
    match size_bytes(max_size) {
        Ok(n) => Ok(n),
        Err(e) => Err(ConfigError::Size(e)),
    }
}

/// What wiring gives for the cargo config's text (`None`: no file) and a
/// size argument: the new cargo config text and the sccache config text.
pub open spec fn wire_result(existing: Option<Seq<char>>, max_size: Seq<char>) -> Result<
    (Seq<char>, Seq<char>),
    ConfigError,
> {
    match size_bytes(max_size) {
        Err(e) => Err(ConfigError::Size(e)),
        Ok(n) => match loaded_document(existing) {
            Err(e) => Err(ConfigError::Toml(e)),
            Ok(d) => if build_table(with_build_table(d)) is None {
                Err(ConfigError::BuildNotTable)
            } else {
                Ok((toml_render(wired_document(d)), decimal(n as nat)))
            },
        },
    }
}

/// What unwiring gives for the cargo config's text: `None` when there is no
/// file (nothing is written), else the text to write back.
pub open spec fn unwire_result(existing: Option<Seq<char>>) -> Result<
    Option<Seq<char>>,
    ConfigError,
> {
    match existing {
        None => Ok(None),
        Some(t) => match toml_parse(t) {
            Err(e) => Err(ConfigError::Toml(e)),
            Ok(d) => Ok(Some(toml_render(unwired_document(d)))),
        },
    }
}

/// Whether the cargo config's text sets `build.rustc-wrapper = "sccache"`
/// (a missing file is not wired).
pub open spec fn wired_result(existing: Option<Seq<char>>) -> Result<bool, ConfigError> {
    match existing {
        None => Ok(false),
        Some(t) => match toml_parse(t) {
            Err(e) => Err(ConfigError::Toml(e)),
            Ok(d) => Ok(document_is_wired(d)),
        },
    }
}

/// The size cap stored in the sccache config's text: none for a missing
/// file or one that is blank, else the trimmed text read as a `u64`.
pub open spec fn stored_size(content: Option<Seq<char>>) -> Result<Option<u64>, ConfigError> {
    match content {
        None => Ok(None),
        Some(t) => if trim(t).len() == 0 {
            Ok(None)
        } else {
            match parse_u64(trim(t)) {
                Ok(n) => Ok(Some(n)),
                Err(k) => Err(ConfigError::StoredSize(k)),
            }
        },
    }
}

/// The default cargo config path, `~/wintermute/.cargo/config.toml`.
pub fn default_cargo_config_path(home: Option<&str>) -> (r: Result<String, ConfigError>)
    ensures
        match home {
            Some(h) => r matches Ok(p) && p@ == cargo_config_under(h@),
            None => r is Err && r->Err_0 is HomeNotSet,
        },
{
    match home {
        None => Err(ConfigError::HomeNotSet),
        Some(h) => {
            let a = join_path(h, "wintermute");
            let b = join_path(a.as_str(), ".cargo");
            Ok(join_path(b.as_str(), "config.toml"))
        },
    }
}

/// The default sccache config directory, `~/.config/sccache`.
pub fn default_sccache_config_dir(home: Option<&str>) -> (r: Result<String, ConfigError>)
    ensures
        match home {
            Some(h) => r matches Ok(p) && p@ == sccache_dir_under(h@),
            None => r is Err && r->Err_0 is HomeNotSet,
        },
{
    match home {
        None => Err(ConfigError::HomeNotSet),
        Some(h) => {
            let a = join_path(h, ".config");
            Ok(join_path(a.as_str(), "sccache"))
        },
    }
}

/// The sccache config file inside an sccache config directory.
pub fn sccache_config_path(sccache_config_dir: &str) -> (r: String)
    ensures
        r@ == path_join(sccache_config_dir@, "config"@),
{
    join_path(sccache_config_dir, "config")
}

/// Reads a size argument such as `20G`: a `u64` count followed by one of
/// the units `G`, `M`, `K`, `B` (either case), times 2^30, 2^20, 2^10 or 1.
pub fn parse_max_size(s: &str) -> (r: Result<u64, ConfigError>)
    requires
        size_arg_ok(s@),
    ensures
        match r {
            Ok(n) => size_result(s@) == Ok::<u64, ConfigError>(n),
            Err(e) => size_result(s@) == Err::<u64, ConfigError>(e),
        },
{
    match size_of_str(s) {
        Ok(n) => Ok(n),
        Err(e) => Err(ConfigError::Size(e)),
    }
}

/// The first part of `wire`: the cargo config path (given, or the default
/// under `home`), the sccache config file (inside the given directory, or the
/// default one), and the size cap.
pub fn wire_cmd(
    max_size: &str,
    cargo_config: Option<&str>,
    sccache_config_dir: Option<&str>,
    home: Option<&str>,
) -> (r: Result<WirePlan, ConfigError>)
    requires
        wire_paths_resolve(opt_view(cargo_config), opt_view(sccache_config_dir), opt_view(home))
            ==> size_arg_ok(max_size@),
    ensures
        !wire_paths_resolve(opt_view(cargo_config), opt_view(sccache_config_dir), opt_view(home))
            ==> r is Err && r->Err_0 is HomeNotSet,
        wire_paths_resolve(opt_view(cargo_config), opt_view(sccache_config_dir), opt_view(home))
            ==> match r {
            Ok(plan) => {
                &&& size_result(max_size@) == Ok::<u64, ConfigError>(plan.size_bytes)
                &&& plan.cargo_path@ == match cargo_config {
                    Some(p) => p@,
                    None => cargo_config_under(home.unwrap()@),
                }
                &&& plan.sccache_path@ == path_join(
                    match sccache_config_dir {
                        Some(p) => p@,
                        None => sccache_dir_under(home.unwrap()@),
                    },
                    "config"@,
                )
            },
            Err(e) => size_result(max_size@) == Err::<u64, ConfigError>(e),
        },
{
    let cargo_path = match cargo_config {
        Some(p) => p.to_owned(),
        None => default_cargo_config_path(home)?,
    };
    let sccache_dir = match sccache_config_dir {
        Some(p) => p.to_owned(),
        None => default_sccache_config_dir(home)?,
    };
    let sccache_path = sccache_config_path(sccache_dir.as_str());
    let size = parse_max_size(max_size)?;
    Ok(WirePlan { cargo_path, sccache_path, size_bytes: size })
}

/// The first part of `unwire`: the cargo config path (given, or the default
/// under `home`).
pub fn unwire_cmd(cargo_config: Option<&str>, home: Option<&str>) -> (r: Result<
    String,
    ConfigError,
>)
    ensures
        match cargo_config {
            Some(p) => r matches Ok(s) && s@ == p@,
            None => match home {
                Some(h) => r matches Ok(s) && s@ == cargo_config_under(h@),
                None => r is Err && r->Err_0 is HomeNotSet,
            },
        },
{
    match cargo_config {
        Some(p) => Ok(p.to_owned()),
        None => default_cargo_config_path(home),
    }
}

/// Wires sccache into a cargo config. Given the config's text (`None`: no
/// file) and the size argument, checks the size, reads the document (an
/// empty one when there is no file), adds an explicit `[build]` table if the
/// document has no `build` entry, sets `rustc-wrapper = "sccache"` in it
/// unless it is already so, and returns the document's new text with the
/// size cap in bytes as the sccache config's text. It succeeds whenever the
/// size is valid and the text is TOML whose `build` entry, if any, is a
/// table. Unwiring the wired document gives the original document back when
/// `[build]` was a table with no `rustc-wrapper` entry. Wiring the written
/// text again writes the same texts when `toml_edit` reads it as wired and
/// renders what it read back to the same text; the byte-for-byte
/// idempotence of `wire` rests on those two `toml_edit` behaviours.
pub fn wire_to(existing: Option<&str>, max_size: &str) -> (r: Result<WireOutput, ConfigError>)
    requires
        size_arg_ok(max_size@),
    ensures
        match r {
            Ok(out) => wire_result(opt_view(existing), max_size@) == Ok::<
                (Seq<char>, Seq<char>),
                ConfigError,
            >((out.cargo_text@, out.sccache_text@)),
            Err(e) => wire_result(opt_view(existing), max_size@) == Err::<
                (Seq<char>, Seq<char>),
                ConfigError,
            >(e),
        },
        size_bytes(max_size@) is Ok && existing is None ==> r is Ok,
        size_bytes(max_size@) is Ok && (loaded_document(opt_view(existing)) matches Ok(d) && (
        root_entry(d, "build"@) is None || build_table(d) is Some)) ==> r is Ok,
        r matches Ok(out) ==> {
            let d = loaded_document(opt_view(existing))->Ok_0;
            &&& out.cargo_text@ == toml_render(wired_document(d))
            &&& out.sccache_text@ == decimal(size_bytes(max_size@)->Ok_0 as nat)
            &&& document_is_wired(wired_document(d))
            &&& (build_without_wrapper(d) ==> unwired_document(wired_document(d)) == d)
            &&& (toml_parse(out.cargo_text@) matches Ok(d2) && document_is_wired(d2) && toml_render(
                d2,
            ) == out.cargo_text@) ==> wire_result(Some(out.cargo_text@), max_size@) == Ok::<
                (Seq<char>, Seq<char>),
                ConfigError,
            >((out.cargo_text@, out.sccache_text@))
            &&& forall|k: Seq<char>|
                k != "build"@ ==> root_entry(wired_document(d), k) == root_entry(d, k)
            &&& forall|k: Seq<char>|
                k != "rustc-wrapper"@ ==> toml_get(build_table(wired_document(d))->Some_0, k)
                    == match build_table(d) {
                    Some(b) => toml_get(b, k),
                    None => None,
                }
        },
{
    let size = parse_max_size(max_size)?;
    let mut doc = match load_document(existing) {
        Ok(d) => d,
        Err(e) => {
            return Err(ConfigError::Toml(e));
        },
    };
    match wire_document(&mut doc) {
        None => Err(ConfigError::BuildNotTable),
        Some(_) => {
            let cargo_text = render_document(&doc);
            let sccache_text = decimal_string(size);
            Ok(WireOutput { cargo_text, sccache_text })
        },
    }
}

/// Unwires sccache from a cargo config. Given the config's text (`None`: no
/// file, and nothing to write), reads the document, takes the
/// `rustc-wrapper` entry out of `[build]` if `[build]` is a table that has
/// one, and returns the document's text to write back. Unwiring the written
/// text again gives the same text when `toml_edit` finds no `rustc-wrapper`
/// entry in it and renders what it read back to the same text; the
/// byte-for-byte idempotence of `unwire` rests on those two behaviours.
pub fn unwire_from(existing: Option<&str>) -> (r: Result<Option<String>, ConfigError>)
    ensures
        match r {
            Ok(Some(t)) => unwire_result(opt_view(existing)) == Ok::<
                Option<Seq<char>>,
                ConfigError,
            >(Some(t@)),
            Ok(None) => unwire_result(opt_view(existing)) == Ok::<
                Option<Seq<char>>,
                ConfigError,
            >(None),
            Err(e) => unwire_result(opt_view(existing)) == Err::<Option<Seq<char>>, ConfigError>(e),
        },
        r matches Ok(Some(t)) ==> {
            let d = toml_parse(existing.unwrap()@)->Ok_0;
            &&& t@ == toml_render(unwired_document(d))
            &&& (toml_parse(t@) matches Ok(d2) && !has_wrapper_entry(d2) && toml_render(d2) == t@)
                ==> unwire_result(Some(t@)) == Ok::<Option<Seq<char>>, ConfigError>(Some(t@))
            &&& !has_wrapper_entry(unwired_document(d))
            &&& !document_is_wired(unwired_document(d))
            &&& forall|k: Seq<char>|
                k != "build"@ ==> root_entry(unwired_document(d), k) == root_entry(d, k)
            &&& build_table(unwired_document(d)) is Some <==> build_table(d) is Some
            &&& forall|k: Seq<char>|
                k != "rustc-wrapper"@ && build_table(d) is Some ==> toml_get(
                    build_table(unwired_document(d))->Some_0,
                    k,
                ) == toml_get(build_table(d)->Some_0, k)
        },
{
    match existing {
        None => Ok(None),
        Some(text) => {
            let mut doc = match load_document(Some(text)) {
                Ok(d) => d,
                Err(e) => {
                    return Err(ConfigError::Toml(e));
                },
            };
            unwire_document(&mut doc);
            Ok(Some(render_document(&doc)))
        },
    }
}

/// Whether a cargo config's text sets `build.rustc-wrapper = "sccache"`; a
/// missing file (`None`) is not wired.
pub fn is_wired_at(existing: Option<&str>) -> (r: Result<bool, ConfigError>)
    ensures
        match r {
            Ok(b) => wired_result(opt_view(existing)) == Ok::<bool, ConfigError>(b),
            Err(e) => wired_result(opt_view(existing)) == Err::<bool, ConfigError>(e),
        },
{
    match existing {
        None => Ok(false),
        Some(text) => match load_document(Some(text)) {
            Ok(doc) => Ok(is_wired_document(&doc)),
            Err(e) => Err(ConfigError::Toml(e)),
        },
    }
}

/// Whether the fleet cargo config at the default path sets
/// `build.rustc-wrapper = "sccache"`: `content` is the text of the file at
/// `default_cargo_config_path(home)` (`None` when it does not exist). Without
/// a home directory there is no default path, and the answer is `HomeNotSet`.
pub fn is_wired(home: Option<&str>, content: Option<&str>) -> (r: Result<bool, ConfigError>)
    ensures
        home is None ==> r is Err && r->Err_0 is HomeNotSet,
        home is Some ==> match r {
            Ok(b) => wired_result(opt_view(content)) == Ok::<bool, ConfigError>(b),
            Err(e) => wired_result(opt_view(content)) == Err::<bool, ConfigError>(e),
        },
{
    match home {
        None => Err(ConfigError::HomeNotSet),
        Some(_) => is_wired_at(content),
    }
}

/// The size cap recorded at the default sccache config path: `content` is
/// the text of the file `config` in `default_sccache_config_dir(home)`
/// (`None` when it does not exist). Without a home directory there is no
/// default path, and the answer is `HomeNotSet`.
pub fn get_max_size(home: Option<&str>, content: Option<&str>) -> (r: Result<
    Option<u64>,
    ConfigError,
>)
    ensures
        home is None ==> r is Err && r->Err_0 is HomeNotSet,
        home is Some ==> match r {
            Ok(v) => stored_size(opt_view(content)) == Ok::<Option<u64>, ConfigError>(v),
            Err(e) => stored_size(opt_view(content)) == Err::<Option<u64>, ConfigError>(e),
        },
{
    match home {
        None => Err(ConfigError::HomeNotSet),
        Some(_) => get_max_size_from(content),
    }
}

/// The size cap recorded in an sccache config directory: the file it is read
/// from, `config` in that directory, and the reading of `content`, that
/// file's text (`None` when it does not exist).
pub fn get_max_size_dir(sccache_config_dir: &str, content: Option<&str>) -> (r: (
    String,
    Result<Option<u64>, ConfigError>,
))
    ensures
        r.0@ == path_join(sccache_config_dir@, "config"@),
        match r.1 {
            Ok(v) => stored_size(opt_view(content)) == Ok::<Option<u64>, ConfigError>(v),
            Err(e) => stored_size(opt_view(content)) == Err::<Option<u64>, ConfigError>(e),
        },
{
    (sccache_config_path(sccache_config_dir), get_max_size_from(content))
}

/// Reads the size cap from the sccache config's text (`None`: no file):
/// none when the file is missing or blank, else the trimmed text as a `u64`.
pub fn get_max_size_from(content: Option<&str>) -> (r: Result<Option<u64>, ConfigError>)
    ensures
        match r {
            Ok(v) => stored_size(opt_view(content)) == Ok::<Option<u64>, ConfigError>(v),
            Err(e) => stored_size(opt_view(content)) == Err::<Option<u64>, ConfigError>(e),
        },
{
    match content {
        None => Ok(None),
        Some(text) => {
            let v = chars_of(text);
            let t = trim_chars(&v);
            if t.len() == 0 {
                return Ok(None);
            }
            assert(t@.subrange(0, t@.len() as int) =~= t@);
            match parse_u64_chars(&t, 0, t.len()) {
                Ok(n) => Ok(Some(n)),
                Err(k) => Err(ConfigError::StoredSize(k)),
            }
        },
    }
}


/// The size cap that `wire` records is read back by `get_max_size_from`:
/// the sccache config text that wiring produces states exactly the byte
/// count of the size argument.
pub proof fn lemma_wired_size_reads_back(existing: Option<Seq<char>>, max_size: Seq<char>)
    requires
        wire_result(existing, max_size) is Ok,
    ensures
        stored_size(Some(wire_result(existing, max_size)->Ok_0.1)) == Ok::<
            Option<u64>,
            ConfigError,
        >(Some(size_bytes(max_size)->Ok_0)),
{
    let n = size_bytes(max_size)->Ok_0;
    let s = decimal(n as nat);
    crate::number::lemma_decimal(n as nat);
    crate::number::lemma_parse_decimal(n);
    assert(!crate::text::is_ws(s[0]));
    assert(crate::text::trim_start(s) == s);
    assert(!crate::text::is_ws(s.last())) by {
        assert(crate::number::is_digit(s[s.len() - 1]));
    }
    assert(trim(s) == s);
}

/// Wiring a cargo config that is already wired leaves its text as it was,
/// whenever `toml_edit` writes back the text it read.
pub proof fn lemma_wire_idempotent(text: Seq<char>, max_size: Seq<char>)
    requires
        size_bytes(max_size) is Ok,
        toml_parse(text) is Ok,
        document_is_wired(toml_parse(text)->Ok_0),
        toml_render(toml_parse(text)->Ok_0) == text,
    ensures
        wire_result(Some(text), max_size) is Ok,
        wire_result(Some(text), max_size)->Ok_0.0 == text,
{
    let d = toml_parse(text)->Ok_0;
    assert(with_build_table(d) == d);
    assert(wired_document(d) == d);
}

/// Unwiring a cargo config that has no `rustc-wrapper` entry in `[build]`
/// leaves its text as it was, whenever `toml_edit` writes back the text it
/// read; `unwire_from` leaves no such entry, so a second unwire changes
/// nothing.
pub proof fn lemma_unwire_idempotent(text: Seq<char>)
    requires
        toml_parse(text) is Ok,
        !has_wrapper_entry(toml_parse(text)->Ok_0),
        toml_render(toml_parse(text)->Ok_0) == text,
    ensures
        unwire_result(Some(text)) == Ok::<Option<Seq<char>>, ConfigError>(Some(text)),
{
    let d = toml_parse(text)->Ok_0;
    assert(unwired_document(d) == d);
}

/// Unwiring a cargo config's text writes back the text of its document
/// with the `rustc-wrapper` entry taken out of `[build]` (see
/// `unwire_document`: no such entry is left and every other entry is kept),
/// never the text as it was read; a text that is not TOML is refused, and
/// a missing file is left missing.
pub proof fn law_unwire_writes_edited_document(existing: Option<Seq<char>>)
    ensures
        existing is None ==> unwire_result(existing) == Ok::<Option<Seq<char>>, ConfigError>(
            None,
        ),
        existing is Some && toml_parse(existing.unwrap()) is Ok ==> unwire_result(existing) == Ok::<
            Option<Seq<char>>,
            ConfigError,
        >(Some(toml_render(unwired_document(toml_parse(existing.unwrap())->Ok_0)))),
        existing is Some && toml_parse(existing.unwrap()) is Err ==> unwire_result(existing)
            == Err::<Option<Seq<char>>, ConfigError>(
            ConfigError::Toml(toml_parse(existing.unwrap())->Err_0),
        ),
{
}

/// Wiring writes the text of the wired document (`[build]` added when
/// missing, `rustc-wrapper = "sccache"` set in it) and, as the sccache
/// config, the decimal byte count of the size argument, whenever the size
/// is valid, the text is TOML (or there is no file) and the document with
/// `[build]` added has a `[build]` table (`wire_to` shows that it always has
/// one when `build` was missing or a table). A refused size comes first,
/// then a text that is not TOML, then a `build` entry that is not a table.
pub proof fn law_wire_writes_wired_document(existing: Option<Seq<char>>, max_size: Seq<char>)
    ensures
        size_bytes(max_size) is Err ==> wire_result(existing, max_size) == Err::<
            (Seq<char>, Seq<char>),
            ConfigError,
        >(ConfigError::Size(size_bytes(max_size)->Err_0)),
        size_bytes(max_size) is Ok && loaded_document(existing) is Err ==> wire_result(
            existing,
            max_size,
        ) == Err::<(Seq<char>, Seq<char>), ConfigError>(
            ConfigError::Toml(loaded_document(existing)->Err_0),
        ),
        size_bytes(max_size) is Ok && loaded_document(existing) is Ok && build_table(
            with_build_table(loaded_document(existing)->Ok_0),
        ) is Some ==> wire_result(existing, max_size) == Ok::<
            (Seq<char>, Seq<char>),
            ConfigError,
        >(
            (
                toml_render(wired_document(loaded_document(existing)->Ok_0)),
                decimal(size_bytes(max_size)->Ok_0 as nat),
            ),
        ),
        size_bytes(max_size) is Ok && loaded_document(existing) is Ok && root_entry(
            loaded_document(existing)->Ok_0,
            "build"@,
        ) is Some && build_table(loaded_document(existing)->Ok_0) is None ==> wire_result(
            existing,
            max_size,
        ) == Err::<(Seq<char>, Seq<char>), ConfigError>(ConfigError::BuildNotTable),
{
}

} // verus!
