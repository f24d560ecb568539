//! The `wire` and `unwire` subcommands that keep an sccache config file in
//! TOML form: their arguments, default paths, the sccache config they lay
//! out, and the edit of the cargo config document.
use vstd::prelude::*;
use toml_edit::{DocumentMut, TomlError};
use crate::config::{cargo_config_under, opt_view, sccache_dir_under};
use crate::paths::{join_path, path_join};
use crate::size::{size_arg_ok, size_bytes};
use crate::status::{lemma_written_size_reads_back, max_size_in, max_size_readable};
use crate::toml_doc::{
    build_table, document_is_wired, has_wrapper_entry, load_document, loaded_document,
    render_document, root_entry, toml_get, toml_render, unwire_document,
    unwired_document, wire_document, wired_document,
};

verus! {

/// Arguments of `wire`.
pub struct WireArgs {
    /// Maximum sccache cache size (e.g. "20G", "10G").
    pub max_size: String,
    /// Path to the fleet cargo config.toml.
    pub config: Option<String>,
    /// Path to the sccache config directory.
    pub sccache_config_dir: Option<String>,
}

/// Arguments of `unwire`.
pub struct UnwireArgs {
    /// Path to the fleet cargo config.toml.
    pub config: Option<String>,
}

/// Why a `wire` or `unwire` step failed.
#[derive(Debug)]
pub enum WireError {
    /// No home directory, and a default path was needed.
    NoHomeDirectory,
    /// The cargo config is not valid TOML.
    Toml(TomlError),
}

/// Where `wire` writes.
pub struct WireTargets {
    /// The fleet cargo config file.
    pub config_path: String,
    /// The sccache config directory.
    pub sccache_config_dir: String,
}

/// An sccache config file to write.
pub struct SccacheConfigFile {
    /// The file: `config` inside the sccache config directory.
    pub path: String,
    /// Its text.
    pub content: String,
}

/// What `Path::parent` gives for a path.
pub uninterp spec fn path_parent(p: Seq<char>) -> Option<Seq<char>>;

/// `Path::parent`: the path without its final component, if it has one;
/// what is left is a prefix of the path's text (the components are cut at
/// `/`, so the text stays valid and `to_string_lossy` changes nothing).
#[verifier::external_body]
fn parent_of(p: &str) -> (r: Option<String>)
    ensures
        match r {
            Some(q) => path_parent(p@) == Some(q@),
            None => path_parent(p@) is None,
        },
        r matches Some(q) ==> q@.len() <= p@.len() && q@ == p@.take(q@.len() as int),
{
    std::path::Path::new(p).parent().map(|q| q.to_string_lossy().into_owned())
}

/// The cache directory an sccache config directory's file names: `sccache`
/// beside the config directory (inside it when it has no parent).
pub open spec fn cache_dir_text(config_dir: Seq<char>) -> Seq<char> {
    path_join(
        match path_parent(config_dir) {
            Some(p) => p,
            None => config_dir,
        },
        "sccache"@,
    )
}

/// Whether a text holds no line break.
pub open spec fn no_line_break(s: Seq<char>) -> bool {
    forall|i: int| 0 <= i < s.len() ==> s[i] != '\n'
}

/// The text of the sccache config file.
pub open spec fn sccache_config_text(config_dir: Seq<char>, max_size: Seq<char>) -> Seq<char> {
    "# sccache configuration \u{2014} managed by hold-sccache\n[cache.disk]\ndir = \""@
        + cache_dir_text(config_dir) + "\"\nsize = \""@ + max_size + "\"\n"@
}

/// The default fleet cargo config, `~/wintermute/.cargo/config.toml`.
pub fn default_fleet_config(home: Option<&str>) -> (r: Result<String, WireError>)
    ensures
        match home {
            Some(h) => r matches Ok(p) && p@ == cargo_config_under(h@),
            None => r is Err && r->Err_0 is NoHomeDirectory,
        },
{
    match crate::config::default_cargo_config_path(home) {
        Ok(p) => Ok(p),
        Err(_) => Err(WireError::NoHomeDirectory),
    }
}

/// The default sccache config directory, `~/.config/sccache`.
pub fn default_sccache_config_dir(home: Option<&str>) -> (r: Result<String, WireError>)
    ensures
        match home {
            Some(h) => r matches Ok(p) && p@ == sccache_dir_under(h@),
            None => r is Err && r->Err_0 is NoHomeDirectory,
        },
{
    match crate::config::default_sccache_config_dir(home) {
        Ok(p) => Ok(p),
        Err(_) => Err(WireError::NoHomeDirectory),
    }
}

/// The document in a file's text, or a new empty one when there is no file.
pub fn load_or_create_doc(content: Option<&str>) -> (r: Result<DocumentMut, WireError>)
    ensures
        match loaded_document(opt_view(content)) {
            Ok(d) => r matches Ok(e) && e == d,
            Err(t) => r matches Err(WireError::Toml(u)) && u == t,
        },
{
    match load_document(content) {
        Ok(d) => Ok(d),
        Err(t) => Err(WireError::Toml(t)),
    }
}

/// Lays out the sccache config file for a config directory and size: file
/// `config` in the directory, holding a `[cache.disk]` table whose `dir` is
/// `sccache` beside the config directory and whose `size` is the size
/// argument as given.
pub fn write_sccache_config(config_dir: &str, max_size: &str) -> (r: SccacheConfigFile)
    ensures
        r.path@ == path_join(config_dir@, "config"@),
        r.content@ == sccache_config_text(config_dir@, max_size@),
        no_line_break(config_dir@) ==> no_line_break(cache_dir_text(config_dir@)),
        no_line_break(config_dir@) && no_line_break(max_size@) && (max_size@.len() > 0
            ==> max_size@[0] != '"' && max_size@.last() != '"') ==> {
            &&& max_size_readable(Some(r.content@)) == size_arg_ok(max_size@)
            &&& max_size_in(Some(r.content@)) == match size_bytes(max_size@) {
                Ok(n) => Some(n),
                Err(_) => None::<u64>,
            }
        },
{
    let parent = parent_of(config_dir);
    proof {
        reveal_strlit("sccache");
        if no_line_break(config_dir@) {
            let base = match path_parent(config_dir@) {
                Some(q) => q,
                None => config_dir@,
            };
            assert forall|i: int| 0 <= i < base.len() implies base[i] != '\n' by {
                if path_parent(config_dir@) is Some {
                    assert(base[i] == config_dir@[i]);
                }
            }
            let c = cache_dir_text(config_dir@);
            assert forall|i: int| 0 <= i < c.len() implies c[i] != '\n' by {
                if base.len() > 0 && base.last() != '/' {
                    assert(c == base + seq!['/'] + "sccache"@);
                    if i < base.len() {
                        assert(c[i] == base[i]);
                    } else if i > base.len() {
                        assert(c[i] == "sccache"@[i - base.len() - 1]);
                    }
                } else {
                    assert(c == base + "sccache"@);
                    if i < base.len() {
                        assert(c[i] == base[i]);
                    } else {
                        assert(c[i] == "sccache"@[i - base.len()]);
                    }
                }
            }
            if no_line_break(max_size@) && (max_size@.len() > 0 ==> max_size@[0] != '"'
                && max_size@.last() != '"') {
                lemma_written_size_reads_back(config_dir@, max_size@);
            }
        }
    }
    let base = match parent {
        Some(p) => p,
        None => config_dir.to_owned(),
    };
    let dir = join_path(base.as_str(), "sccache");
    let mut content = "# sccache configuration \u{2014} managed by hold-sccache\n[cache.disk]\ndir = \"".to_owned();
    content.append(dir.as_str());
    content.append("\"\nsize = \"");
    content.append(max_size);
    content.append("\"\n");
    SccacheConfigFile { path: join_path(config_dir, "config"), content }
}

/// Merges `rustc-wrapper = "sccache"` into the `[build]` table (adding an
/// explicit `[build]` when the document has no `build` entry) without
/// touching other keys. Returns whether the document changed.
pub fn merge_rustc_wrapper(doc: &mut DocumentMut) -> (changed: bool)
    requires
        root_entry(*old(doc), "build"@) is None || build_table(*old(doc)) is Some,
    ensures
        *final(doc) == wired_document(*old(doc)),
        changed == !document_is_wired(*old(doc)),
        !changed ==> *final(doc) == *old(doc),
        document_is_wired(*final(doc)),
        forall|k: Seq<char>| k != "build"@ ==> root_entry(*final(doc), k) == root_entry(*old(doc), k),
        forall|k: Seq<char>|
            k != "rustc-wrapper"@ ==> toml_get(build_table(*final(doc))->Some_0, k)
                == match build_table(*old(doc)) {
                Some(b) => toml_get(b, k),
                None => None,
            },
{
    match wire_document(doc) {
        Some(changed) => changed,
        None => false,
    }
}

/// The edit `wire` makes to the fleet cargo config's document: merges
/// `rustc-wrapper = "sccache"` into `[build]` and returns the text to write,
/// or `None` when the document was already wired and the file is left as it
/// is. The edited document is wired, so a second edit of it writes nothing;
/// that a second run on the written file writes nothing rests on
/// `toml_edit` reading `build.rustc-wrapper = "sccache"` back from the text
/// it wrote.
pub fn wire_edit(doc: &mut DocumentMut) -> (r: Option<String>)
    requires
        root_entry(*old(doc), "build"@) is None || build_table(*old(doc)) is Some,
    ensures
        *final(doc) == wired_document(*old(doc)),
        r is None <==> document_is_wired(*old(doc)),
        r is None ==> *final(doc) == *old(doc),
        r matches Some(t) ==> t@ == toml_render(*final(doc)),
        document_is_wired(*final(doc)),
        forall|k: Seq<char>| k != "build"@ ==> root_entry(*final(doc), k) == root_entry(*old(doc), k),
        forall|k: Seq<char>|
            k != "rustc-wrapper"@ ==> toml_get(build_table(*final(doc))->Some_0, k)
                == match build_table(*old(doc)) {
                Some(b) => toml_get(b, k),
                None => None,
            },
{
    if merge_rustc_wrapper(doc) {
        Some(render_document(doc))
    } else {
        None
    }
}

/// The edit `unwire` makes to the fleet cargo config's document: takes the
/// `rustc-wrapper` entry out of `[build]` and returns the text to write, or
/// `None` when there was no such entry and the file is left as it is. The
/// edited document has no such entry, so a second edit of it writes
/// nothing; that a second run on the written file writes nothing rests on
/// `toml_edit` finding no `rustc-wrapper` entry in the text it wrote.
pub fn unwire_edit(doc: &mut DocumentMut) -> (r: Option<String>)
    ensures
        *final(doc) == unwired_document(*old(doc)),
        r is None <==> !has_wrapper_entry(*old(doc)),
        r is None ==> *final(doc) == *old(doc),
        !document_is_wired(*final(doc)),
        r matches Some(t) ==> t@ == toml_render(*final(doc)),
        !has_wrapper_entry(*final(doc)),
        build_table(*final(doc)) is Some <==> build_table(*old(doc)) is Some,
        build_table(*old(doc)) is Some ==> forall|k: Seq<char>|
            k != "rustc-wrapper"@ ==> toml_get(build_table(*final(doc))->Some_0, k) == toml_get(
                build_table(*old(doc))->Some_0,
                k,
            ),
        forall|k: Seq<char>| k != "build"@ ==> root_entry(*final(doc), k) == root_entry(*old(doc), k),
{
    if unwire_document(doc) {
        Some(render_document(doc))
    } else {
        None
    }
}

/// The first part of `wire`: the config path and the sccache config
/// directory, each given or the default under `home`.
pub fn run_wire(args: &WireArgs, home: Option<&str>) -> (r: Result<WireTargets, WireError>)
    ensures
        (args.config is None || args.sccache_config_dir is None) && home is None ==> r is Err
            && r->Err_0 is NoHomeDirectory,
        r matches Ok(t) ==> {
            &&& t.config_path@ == match args.config {
                Some(p) => p@,
                None => cargo_config_under(home.unwrap()@),
            }
            &&& t.sccache_config_dir@ == match args.sccache_config_dir {
                Some(p) => p@,
                None => sccache_dir_under(home.unwrap()@),
            }
        },
        (args.config is Some || home is Some) && (args.sccache_config_dir is Some || home is Some)
            ==> r is Ok,
{
    let config_path = match &args.config {
        Some(p) => p.clone(),
        None => default_fleet_config(home)?,
    };
    let sccache_config_dir = match &args.sccache_config_dir {
        Some(p) => p.clone(),
        None => default_sccache_config_dir(home)?,
    };
    Ok(WireTargets { config_path, sccache_config_dir })
}

/// The first part of `unwire`: the config path, given or the default under `home`.
pub fn run_unwire(args: &UnwireArgs, home: Option<&str>) -> (r: Result<String, WireError>)
    ensures
        match args.config {
            Some(p) => r matches Ok(s) && s@ == p@,
            None => match home {
                Some(h) => r matches Ok(s) && s@ == cargo_config_under(h@),
                None => r is Err && r->Err_0 is NoHomeDirectory,
            },
        },
{
    match &args.config {
        Some(p) => Ok(p.clone()),
        None => default_fleet_config(home),
    }
}

/// The cache directory named in the sccache config is `sccache` beside the
/// config directory: its text ends in `sccache`; when the config directory
/// has a parent `p` not ending in `/`, it is `p/sccache`; when the parent is
/// empty (a one-component relative path), it is `sccache`; and when there is
/// no parent, it is `sccache` inside the config directory.
pub proof fn law_cache_dir_beside_config(config_dir: Seq<char>)
    ensures
        cache_dir_text(config_dir).len() >= 7,
        cache_dir_text(config_dir).skip(cache_dir_text(config_dir).len() - 7) == "sccache"@,
        path_parent(config_dir) is Some && path_parent(config_dir)->Some_0.len() > 0
            && path_parent(config_dir)->Some_0.last() != '/' ==> cache_dir_text(config_dir)
            == path_parent(config_dir)->Some_0 + seq!['/'] + "sccache"@,
        path_parent(config_dir) is Some && path_parent(config_dir)->Some_0.len() == 0
            ==> cache_dir_text(config_dir) == "sccache"@,
        path_parent(config_dir) is None ==> cache_dir_text(config_dir) == path_join(
            config_dir,
            "sccache"@,
        ),
{
    reveal_strlit("sccache");
    let base = match path_parent(config_dir) {
        Some(p) => p,
        None => config_dir,
    };
    let c = cache_dir_text(config_dir);
    let sc = "sccache"@;
    assert(sc.len() == 7 && sc[0] == 's');
    if base.len() > 0 && base.last() != '/' {
        assert(c == base + seq!['/'] + sc);
        assert(c.skip(c.len() - 7) =~= sc);
    } else {
        assert(c == base + sc);
        assert(c.skip(c.len() - 7) =~= sc);
        if base.len() == 0 {
            assert(c =~= sc);
        }
    }
}

} // verus!
