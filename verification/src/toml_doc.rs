//! TOML documents edited in place with `toml_edit`, and the `[build]`
//! `rustc-wrapper` setting that wiring adds and removes.
//!
//! `toml_edit`'s types are opaque here. What its functions do is named by
//! the specification functions below; the wrappers state over those names
//! what `toml_edit`'s source does (which entries a lookup finds after an
//! edit), and the verified functions at the end build on them.
use vstd::prelude::*;
use toml_edit::{DocumentMut, Item, Table, TomlError};

verus! {

#[verifier::external_type_specification]
#[verifier::external_body]
pub struct ExDocumentMut(toml_edit::DocumentMut);

#[verifier::external_type_specification]
#[verifier::external_body]
pub struct ExTable(toml_edit::Table);

#[verifier::external_type_specification]
#[verifier::external_body]
pub struct ExItem(toml_edit::Item);

#[verifier::external_type_specification]
#[verifier::external_body]
pub struct ExTomlError(toml_edit::TomlError);

/// What `DocumentMut::from_str` gives for a text.
pub uninterp spec fn toml_parse(text: Seq<char>) -> Result<DocumentMut, TomlError>;

/// The text that `DocumentMut`'s `Display` writes.
pub uninterp spec fn toml_render(doc: DocumentMut) -> Seq<char>;

/// The root table of a document (`DocumentMut::as_table`).
pub uninterp spec fn toml_root(doc: DocumentMut) -> Table;

/// What `Table::get` finds under a key (entries holding `Item::None` are not found).
pub uninterp spec fn toml_get(table: Table, key: Seq<char>) -> Option<Item>;

/// Whether an item is `Item::None` (`Item::is_none`).
pub uninterp spec fn toml_is_none(item: Item) -> bool;

/// The table inside an item, if it is a table (`Item::as_table`).
pub uninterp spec fn toml_as_table(item: Item) -> Option<Table>;

/// The string inside an item, if it is a string value (`Item::as_str`).
pub uninterp spec fn toml_as_str(item: Item) -> Option<Seq<char>>;

/// Whether a document is the one `DocumentMut::new` creates.
pub uninterp spec fn toml_is_new_document(doc: DocumentMut) -> bool;

/// Whether a table is the one `Table::new` creates.
pub uninterp spec fn toml_is_new_table(table: Table) -> bool;

/// A table after `Table::set_implicit`.
pub uninterp spec fn toml_with_implicit(table: Table, implicit: bool) -> Table;

/// The item `Item::Table` makes of a table.
pub uninterp spec fn toml_table_item(table: Table) -> Item;

/// The item `toml_edit::value` makes of a string.
pub uninterp spec fn toml_string_item(s: Seq<char>) -> Item;

/// A document after `doc[key] = item` (`IndexMut<&str>` for `DocumentMut`).
pub uninterp spec fn toml_doc_set(doc: DocumentMut, key: Seq<char>, item: Item) -> DocumentMut;

/// A table after `Table::insert`.
pub uninterp spec fn toml_insert(table: Table, key: Seq<char>, item: Item) -> Table;

/// A table after `Table::remove`.
pub uninterp spec fn toml_remove(table: Table, key: Seq<char>) -> Table;

/// What `Table::remove` returns: the raw entry under the key, if there is one.
pub uninterp spec fn toml_removed(table: Table, key: Seq<char>) -> Option<Item>;

/// `DocumentMut::new`: an empty document.
#[verifier::external_body]
fn document_new() -> (d: DocumentMut)
    ensures
        toml_is_new_document(d),
        forall|e: DocumentMut| toml_is_new_document(e) ==> e == d,
        forall|k: Seq<char>| toml_get(toml_root(d), k) is None,
{
    DocumentMut::new()
}

/// `DocumentMut::from_str` (what `str::parse` calls): parses a TOML text.
#[verifier::external_body]
fn document_parse(text: &str) -> (r: Result<DocumentMut, TomlError>)
    ensures
        r == toml_parse(text@),
{
    text.parse::<DocumentMut>()
}

/// `DocumentMut`'s `Display`, through `ToString::to_string`.
#[verifier::external_body]
fn document_render(d: &DocumentMut) -> (s: String)
    ensures
        s@ == toml_render(*d),
{
    d.to_string()
}

/// `DocumentMut::as_table` (what `Deref` for `DocumentMut` calls).
#[verifier::external_body]
fn document_as_table(d: &DocumentMut) -> (t: &Table)
    ensures
        *t == toml_root(*d),
{
    d.as_table()
}

/// `IndexMut<&str>` for `DocumentMut`, assigned through: the entry under
/// `key` is created if missing (keeping its place if present) and set to
/// `item`; no other entry of the root table changes. Setting an existing
/// entry back to the item it held before gives the document back.
#[verifier::external_body]
fn document_set(d: &mut DocumentMut, key: &str, item: Item)
    ensures
        *final(d) == toml_doc_set(*old(d), key@, item),
        forall|i0: Item|
            toml_get(toml_root(*old(d)), key@) == Some(i0) ==> toml_doc_set(*final(d), key@, i0)
                == *old(d),
        toml_get(toml_root(*final(d)), key@) == (if toml_is_none(item) {
            None
        } else {
            Some(item)
        }),
        forall|k: Seq<char>|
            k != key@ ==> toml_get(toml_root(*final(d)), k) == toml_get(toml_root(*old(d)), k),
{
    d[key] = item;
}

/// `Table::new`: an empty table.
#[verifier::external_body]
fn table_new() -> (t: Table)
    ensures
        toml_is_new_table(t),
        forall|u: Table| toml_is_new_table(u) ==> u == t,
        forall|k: Seq<char>| toml_get(t, k) is None,
{
    Table::new()
}

/// `Table::set_implicit`: changes how an empty table is written, not its entries.
#[verifier::external_body]
fn table_set_implicit(t: &mut Table, implicit: bool)
    ensures
        *final(t) == toml_with_implicit(*old(t), implicit),
        forall|k: Seq<char>| toml_get(*final(t), k) == toml_get(*old(t), k),
{
    t.set_implicit(implicit);
}

/// `Table::contains_key`: whether `Table::get` finds the key.
#[verifier::external_body]
fn table_contains_key(t: &Table, key: &str) -> (b: bool)
    ensures
        b == toml_get(*t, key@) is Some,
{
    t.contains_key(key)
}

/// `Table::get`: the entry under `key`, unless it holds `Item::None`; an
/// entry that it finds is what `Table::remove` would take out.
#[verifier::external_body]
fn table_get<'a>(t: &'a Table, key: &str) -> (r: Option<&'a Item>)
    ensures
        r matches Some(i) ==> toml_get(*t, key@) == Some(*i),
        r matches Some(i) ==> toml_removed(*t, key@) == Some(*i),
        r is None ==> toml_get(*t, key@) is None,
{
    t.get(key)
}

/// `Table::insert`: sets the entry under `key` (appending it if missing);
/// no other entry changes. `Table::remove` then takes `item` out, and when
/// the key was missing before, removing it gives the old table back.
#[verifier::external_body]
fn table_insert(t: &mut Table, key: &str, item: Item)
    ensures
        *final(t) == toml_insert(*old(t), key@, item),
        toml_removed(*final(t), key@) == Some(item),
        toml_removed(*old(t), key@) is None ==> toml_remove(*final(t), key@) == *old(t),
        toml_get(*final(t), key@) == (if toml_is_none(item) {
            None
        } else {
            Some(item)
        }),
        forall|k: Seq<char>| k != key@ ==> toml_get(*final(t), k) == toml_get(*old(t), k),
{
    t.insert(key, item);
}

/// `Table::remove`: takes the entry under `key` out, if there is one; no
/// other entry changes, and a second removal finds nothing.
#[verifier::external_body]
fn table_remove(t: &mut Table, key: &str) -> (r: Option<Item>)
    ensures
        *final(t) == toml_remove(*old(t), key@),
        r == toml_removed(*old(t), key@),
        toml_get(*old(t), key@) is Some ==> r == toml_get(*old(t), key@),
        toml_get(*final(t), key@) is None,
        toml_removed(*final(t), key@) is None,
        forall|k: Seq<char>| k != key@ ==> toml_get(*final(t), k) == toml_get(*old(t), k),
{
    t.remove(key)
}

/// `Clone` for `Table`: an equal table.
#[verifier::external_body]
fn table_clone(t: &Table) -> (c: Table)
    ensures
        c == *t,
{
    t.clone()
}

/// `Item::as_table`: the table of an `Item::Table`.
#[verifier::external_body]
fn item_as_table(i: &Item) -> (r: Option<&Table>)
    ensures
        r matches Some(t) ==> toml_as_table(*i) == Some(*t),
        r matches Some(t) ==> toml_table_item(*t) == *i,
        r is None ==> toml_as_table(*i) is None,
{
    i.as_table()
}

/// `Item::as_str`.
#[verifier::external_body]
fn item_as_str(i: &Item) -> (r: Option<&str>)
    ensures
        r matches Some(s) ==> toml_as_str(*i) == Some(s@),
        r is None ==> toml_as_str(*i) is None,
{
    i.as_str()
}

/// `Item::Table`: the item holding a table.
#[verifier::external_body]
fn item_from_table(t: Table) -> (i: Item)
    ensures
        i == toml_table_item(t),
        toml_as_table(i) == Some(t),
        toml_as_str(i) is None,
        !toml_is_none(i),
{
    Item::Table(t)
}

/// `toml_edit::value` on a string: a string value item.
#[verifier::external_body]
fn string_item(s: &str) -> (i: Item)
    ensures
        i == toml_string_item(s@),
        toml_as_str(i) == Some(s@),
        toml_as_table(i) is None,
        !toml_is_none(i),
{
    toml_edit::value(s)
}

/// The document `DocumentMut::new` creates.
pub open spec fn new_document() -> DocumentMut {
    choose|d: DocumentMut| toml_is_new_document(d)
}

/// The table `Table::new` creates.
pub open spec fn new_table() -> Table {
    choose|t: Table| toml_is_new_table(t)
}

/// The entry of the root table under `key`.
pub open spec fn root_entry(d: DocumentMut, key: Seq<char>) -> Option<Item> {
    toml_get(toml_root(d), key)
}

/// The `[build]` table, if the root holds a table under `build`.
pub open spec fn build_table(d: DocumentMut) -> Option<Table> {
    match root_entry(d, "build"@) {
        Some(i) => toml_as_table(i),
        None => None,
    }
}

/// Whether a table sets `rustc-wrapper` to the string `sccache`.
pub open spec fn wraps_with_sccache(t: Table) -> bool {
    match toml_get(t, "rustc-wrapper"@) {
        Some(i) => toml_as_str(i) == Some("sccache"@),
        None => false,
    }
}

/// Whether `build.rustc-wrapper` is the string `sccache`.
pub open spec fn document_is_wired(d: DocumentMut) -> bool {
    match build_table(d) {
        Some(t) => wraps_with_sccache(t),
        None => false,
    }
}

/// The document with an explicit, empty `[build]` table added when the root
/// has no `build` entry.
pub open spec fn with_build_table(d: DocumentMut) -> DocumentMut {
    if root_entry(d, "build"@) is Some {
        d
    } else {
        toml_doc_set(d, "build"@, toml_table_item(toml_with_implicit(new_table(), false)))
    }
}

/// The document after wiring: `[build]` added if missing, and
/// `rustc-wrapper = "sccache"` set in it unless already so.
pub open spec fn wired_document(d: DocumentMut) -> DocumentMut {
    let d1 = with_build_table(d);
    match build_table(d1) {
        Some(b) => if wraps_with_sccache(b) {
            d1
        } else {
            toml_doc_set(
                d1,
                "build"@,
                toml_table_item(toml_insert(b, "rustc-wrapper"@, toml_string_item("sccache"@))),
            )
        },
        None => d1,
    }
}

/// Whether `Table::remove` would take a `rustc-wrapper` entry out of `[build]`.
pub open spec fn has_wrapper_entry(d: DocumentMut) -> bool {
    match build_table(d) {
        Some(b) => toml_removed(b, "rustc-wrapper"@) is Some,
        None => false,
    }
}

/// Whether the document has a `[build]` table with no `rustc-wrapper` entry at all.
pub open spec fn build_without_wrapper(d: DocumentMut) -> bool {
    match build_table(d) {
        Some(b) => toml_removed(b, "rustc-wrapper"@) is None,
        None => false,
    }
}

/// The document after unwiring: the `rustc-wrapper` entry taken out of
/// `[build]` when `[build]` is a table that has one.
pub open spec fn unwired_document(d: DocumentMut) -> DocumentMut {
    match build_table(d) {
        Some(b) => if toml_removed(b, "rustc-wrapper"@) is Some {
            toml_doc_set(d, "build"@, toml_table_item(toml_remove(b, "rustc-wrapper"@)))
        } else {
            d
        },
        None => d,
    }
}

/// The document read from a file's text, or a new one when there is no file.
pub open spec fn loaded_document(content: Option<Seq<char>>) -> Result<DocumentMut, TomlError> {
    match content {
        Some(t) => toml_parse(t),
        None => Ok(new_document()),
    }
}

/// Parses the text of a file, or creates an empty document when there is no file.
pub fn load_document(content: Option<&str>) -> (r: Result<DocumentMut, TomlError>)
    ensures
        r == loaded_document(match content {
            Some(t) => Some(t@),
            None => None,
        }),
        content is None ==> (r matches Ok(d) && forall|k: Seq<char>| root_entry(d, k) is None),
{
    match content {
        Some(t) => document_parse(t),
        None => Ok(document_new()),
    }
}

/// The text of a document.
pub fn render_document(d: &DocumentMut) -> (s: String)
    ensures
        s@ == toml_render(*d),
{
    document_render(d)
}

/// Looks up the `[build]` table of a document.
fn get_build_table(d: &DocumentMut) -> (r: Option<&Table>)
    ensures
        r matches Some(t) ==> build_table(*d) == Some(*t),
        r matches Some(t) ==> root_entry(*d, "build"@) == Some(toml_table_item(*t)),
        r is None ==> build_table(*d) is None,
{
    let root = document_as_table(d);
    match table_get(root, "build") {
        Some(item) => item_as_table(item),
        None => None,
    }
}

/// Whether a table sets `rustc-wrapper` to `sccache`.
fn table_wraps_with_sccache(t: &Table) -> (b: bool)
    ensures
        b == wraps_with_sccache(*t),
{
    match table_get(t, "rustc-wrapper") {
        Some(item) => match item_as_str(item) {
            Some(s) => {
                proof {
                    reveal_strlit("sccache");
                }
                let v = crate::text::chars_of(s);
                let w = crate::text::chars_of("sccache");
                crate::text::chars_eq(&v, &w)
            },
            None => false,
        },
        None => false,
    }
}

/// Whether `build.rustc-wrapper` is the string `sccache`.
pub fn is_wired_document(d: &DocumentMut) -> (b: bool)
    ensures
        b == document_is_wired(*d),
{
    match get_build_table(d) {
        Some(t) => table_wraps_with_sccache(t),
        None => false,
    }
}

/// Whether the root has no `build` entry or holds a table under it.
pub fn build_slot_usable(d: &DocumentMut) -> (b: bool)
    ensures
        b == (root_entry(*d, "build"@) is None || build_table(*d) is Some),
{
    let root = document_as_table(d);
    match table_get(root, "build") {
        Some(item) => item_as_table(item).is_some(),
        None => true,
    }
}

/// Wires a document: adds an explicit `[build]` table if the root has no
/// `build` entry, then sets `rustc-wrapper = "sccache"` in it unless it is
/// already so. Returns `None`, leaving the document as the first step left
/// it, when `build` holds something other than a table; otherwise whether
/// the setting was added. When `[build]` was a table with no
/// `rustc-wrapper` entry, unwiring the result gives the document back.
pub fn wire_document(d: &mut DocumentMut) -> (r: Option<bool>)
    ensures
        r is None <==> build_table(with_build_table(*old(d))) is None,
        root_entry(*old(d), "build"@) is None || build_table(*old(d)) is Some ==> r is Some,
        r is None ==> *final(d) == with_build_table(*old(d)),
        r matches Some(changed) ==> {
            &&& *final(d) == wired_document(*old(d))
            &&& changed == !document_is_wired(*old(d))
            &&& document_is_wired(*final(d))
            &&& !changed ==> *final(d) == *old(d)
            &&& (build_without_wrapper(*old(d)) ==> unwired_document(*final(d)) == *old(d))
            &&& forall|k: Seq<char>|
                k != "rustc-wrapper"@ ==> toml_get(build_table(*final(d))->Some_0, k)
                    == match build_table(*old(d)) {
                    Some(b) => toml_get(b, k),
                    None => None,
                }
        },
        forall|k: Seq<char>| k != "build"@ ==> root_entry(*final(d), k) == root_entry(*old(d), k),
{
    let ghost d0 = *d;
    let has_build = {
        let root = document_as_table(d);
        table_contains_key(root, "build")
    };
    if !has_build {
        let mut t = table_new();
        table_set_implicit(&mut t, false);
        let item = item_from_table(t);
        document_set(d, "build", item);
    }
    assert(*d == with_build_table(d0));
    let found = match get_build_table(d) {
        Some(b) => Some((table_wraps_with_sccache(b), table_clone(b))),
        None => None,
    };
    match found {
        None => None,
        Some((already, b)) => {
            if already {
                Some(false)
            } else {
                let mut nb = b;
                let value = string_item("sccache");
                table_insert(&mut nb, "rustc-wrapper", value);
                let item = item_from_table(nb);
                document_set(d, "build", item);
                Some(true)
            }
        },
    }
}

/// Unwires a document: takes the `rustc-wrapper` entry out of `[build]`
/// when `[build]` is a table that has one. Returns whether an entry was
/// taken out.
pub fn unwire_document(d: &mut DocumentMut) -> (removed: bool)
    ensures
        *final(d) == unwired_document(*old(d)),
        removed == has_wrapper_entry(*old(d)),
        !removed ==> *final(d) == *old(d),
        !has_wrapper_entry(*final(d)),
        !document_is_wired(*final(d)),
        build_table(*final(d)) is Some <==> build_table(*old(d)) is Some,
        build_table(*old(d)) is Some ==> forall|k: Seq<char>|
            k != "rustc-wrapper"@ ==> toml_get(build_table(*final(d))->Some_0, k) == toml_get(
                build_table(*old(d))->Some_0,
                k,
            ),
        forall|k: Seq<char>| k != "build"@ ==> root_entry(*final(d), k) == root_entry(*old(d), k),
{
    let copy = match get_build_table(d) {
        Some(b) => Some(table_clone(b)),
        None => None,
    };
    match copy {
        None => false,
        Some(b) => {
            let mut nb = b;
            let taken = table_remove(&mut nb, "rustc-wrapper");
            if taken.is_some() {
                let item = item_from_table(nb);
                document_set(d, "build", item);
                true
            } else {
                false
            }
        },
    }
}

} // verus!
