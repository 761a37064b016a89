//! Top-level sections that newer versions added to `config.toml`: a
//! user's file that lacks one gets a documented default block appended,
//! so that the option is discovered without touching anything the user
//! wrote.

use vstd::prelude::*;
use crate::text::str_chars;

verus! {

broadcast use vstd::string::group_string_axioms;

/// Block appended to `config.toml` when the `[workspaces]` section is
/// missing. It documents the new options so users notice them on the
/// first load after upgrading.
pub const WORKSPACES_SECTION_SNIPPET: &'static str = r##"
# Added automatically -- new defaults from this version of mosaico
[workspaces]
# How a workspace switch is applied across monitors.
# "per-monitor" (default): only the focused monitor switches.
# "global": all monitors switch in lockstep, like Windows virtual desktops.
mode = "per-monitor"

# Per-workspace layout overrides (workspace number 1-8).
# Available layouts: "bsp", "vertical-stack", "three-column".
# [workspaces.layouts]
# 1 = "vertical-stack"
# 3 = "three-column"
"##;

/// Whether the TOML document `content` has the top-level key `key`, as
/// `toml_edit` reads it; `None` when `content` is not a TOML document.
pub uninterp spec fn toml_top_level_key(content: Seq<char>, key: Seq<char>) -> Option<bool>;

/// Parses `content` as a `toml_edit::DocumentMut` (through `str::parse`)
/// and asks its root table whether it holds `key` (`Table::contains_key`).
///
/// Claimed: the parse fails exactly when `toml_top_level_key` is `None`,
/// and otherwise the answer is the one that name gives. The text of the
/// parse error is `toml_edit`'s own message; nothing is claimed of it.
#[verifier::external_body]
fn document_has_key(content: &str, key: &str) -> (r: Result<bool, String>)
    ensures
        match r {
            Ok(b) => toml_top_level_key(content@, key@) == Some(b),
            Err(_) => toml_top_level_key(content@, key@) is None,
        },
{
    match content.parse::<toml_edit::DocumentMut>() {
        Ok(doc) => Ok(doc.contains_key(key)),
        Err(e) => Err(e.to_string()),
    }
}

/// The text to append to a file holding `content` so that `block` starts
/// on a fresh line: a newline first unless `content` already ends with one.
pub open spec fn section_addition(content: Seq<char>, block: Seq<char>) -> Seq<char> {
    if content.len() > 0 && content.last() == '\n' {
        block
    } else {
        seq!['\n'] + block
    }
}

/// What to append to a `config.toml` holding `content` for the
/// `[workspaces]` section, given whether the file already has one
/// (`has_section`): nothing if it has, else the documented default block,
/// started on a fresh line.
pub fn workspaces_addition(content: &str, has_section: bool) -> (r: Option<String>)
    ensures
        has_section ==> r is None,
        !has_section ==> (r matches Some(t) && t@ == section_addition(content@, WORKSPACES_SECTION_SNIPPET@)),
{
    if has_section {
        return None;
    }
    let chars = str_chars(content);
    let mut t = String::new();
    if !(chars.len() > 0 && chars[chars.len() - 1] == '\n') {
        t.append("\n");
        proof {
            reveal_strlit("\n");
        }
    }
    t.append(WORKSPACES_SECTION_SNIPPET);
    assert(t@ =~= section_addition(content@, WORKSPACES_SECTION_SNIPPET@));
    Some(t)
}

/// Decides what to append to a `config.toml` holding `content` for the
/// `[workspaces]` section: `Ok(None)` when the file already has the
/// section, `Ok(Some(text))` with the text to append when it lacks it,
/// and `Err` with the parser's message when `content` is not TOML.
pub fn missing_workspaces_section(content: &str) -> (r: Result<Option<String>, String>)
    ensures
        toml_top_level_key(content@, "workspaces"@) is None <==> r is Err,
        toml_top_level_key(content@, "workspaces"@) == Some(true) ==> r matches Ok(None),
        toml_top_level_key(content@, "workspaces"@) == Some(false) ==> (r matches Ok(Some(t)) && t@
            == section_addition(content@, WORKSPACES_SECTION_SNIPPET@)),
{
    match document_has_key(content, "workspaces") {
        Ok(has) => Ok(workspaces_addition(content, has)),
        Err(e) => Err(e),
    }
}

/// Appending a section keeps the existing text verbatim in front, the
/// block comes last, and the character just before it is a newline
/// whenever the file was not empty.
pub proof fn lemma_addition_keeps_content(content: Seq<char>, block: Seq<char>)
    ensures
        ({
            let full = content + section_addition(content, block);
            &&& full.take(content.len() as int) == content
            &&& full.skip(full.len() - block.len()) == block
            &&& content.len() > 0 ==> full[full.len() - block.len() - 1] == '\n'
        }),
{
    let full = content + section_addition(content, block);
    assert(full.take(content.len() as int) =~= content);
    assert(full.skip(full.len() - block.len()) =~= block);
    if content.len() > 0 {
        if content.last() == '\n' {
            assert(full[full.len() - block.len() - 1] == content[content.len() - 1]);
        } else {
            assert(full[full.len() - block.len() - 1] == section_addition(content, block)[0]);
        }
    }
}

/// What a TOML document holds under a top-level key: nothing, an item
/// that is not a table, or a table, with whether that table holds a
/// given key.
#[derive(Debug, Clone, Copy, PartialEq, Eq, Structural)]
pub enum TableKeyState {
    /// The document has no such top-level item.
    Absent,
    /// The item is there but is not a table.
    NotTable,
    /// The item is a table; `true` when it holds the key asked about.
    Table(bool),
}

/// What the TOML document `content` holds under its top-level `table`,
/// and whether that table holds `key`, as `toml_edit` reads it; `None`
/// when `content` is not a TOML document.
pub uninterp spec fn toml_table_key(content: Seq<char>, table: Seq<char>, key: Seq<char>) -> Option<
    TableKeyState,
>;

/// The text of the TOML document `content` rewritten by `toml_edit` with
/// the item `from_key` removed from the top-level table `from_table` and
/// inserted under `to_key` in the top-level table `to_table`, which is
/// created when missing; `None` when `content` is not a TOML document or
/// the edit cannot be made.
pub uninterp spec fn toml_moved_item(
    content: Seq<char>,
    from_table: Seq<char>,
    from_key: Seq<char>,
    to_table: Seq<char>,
    to_key: Seq<char>,
) -> Option<Seq<char>>;

/// The text of the TOML document `content` rewritten by `toml_edit` with
/// the item `key` removed from the top-level table `table`; `None` when
/// `content` is not a TOML document or holds no such item.
pub uninterp spec fn toml_removed_item(content: Seq<char>, table: Seq<char>, key: Seq<char>) -> Option<
    Seq<char>,
>;

/// Parses `content` as a `toml_edit::DocumentMut`, looks up the top-level
/// item `table` (`Table::get`), and, when it is a table (`Item::as_table`),
/// asks whether it holds `key` (`Table::contains_key`).
///
/// Claimed: the result is what `toml_table_key` names, `Err` exactly when
/// that name is `None`. Nothing is claimed of the error text.
#[verifier::external_body]
fn table_key_state(content: &str, table: &str, key: &str) -> (r: Result<TableKeyState, String>)
    ensures
        match r {
            Ok(s) => toml_table_key(content@, table@, key@) == Some(s),
            Err(_) => toml_table_key(content@, table@, key@) is None,
        },
{
    let doc: toml_edit::DocumentMut = content.parse().map_err(|e: toml_edit::TomlError| e.to_string())?;
    match doc.get(table) {
        None => Ok(TableKeyState::Absent),
        Some(item) => match item.as_table() {
            None => Ok(TableKeyState::NotTable),
            Some(t) => Ok(TableKeyState::Table(t.contains_key(key))),
        },
    }
}

/// Parses `content` as a `toml_edit::DocumentMut`, removes `from_key` from
/// the table `from_table` (`Table::get_mut`, `Item::as_table_mut`,
/// `Table::remove`), inserts it under `to_key` in the table `to_table`
/// (`Table::entry(..).or_insert(table())`, `Table::insert`) and renders the
/// document (`Display`).
///
/// Claimed: an `Ok` text is what `toml_moved_item` names, and `Err` comes
/// exactly when that name is `None`. Nothing is claimed of the error text.
#[verifier::external_body]
fn moved_item(content: &str, from_table: &str, from_key: &str, to_table: &str, to_key: &str) -> (r: Result<
    String,
    String,
>)
    ensures
        match r {
            Ok(t) => toml_moved_item(content@, from_table@, from_key@, to_table@, to_key@) == Some(t@),
            Err(_) => toml_moved_item(content@, from_table@, from_key@, to_table@, to_key@) is None,
        },
{
    let mut doc: toml_edit::DocumentMut = content.parse().map_err(|e: toml_edit::TomlError| e.to_string())?;
    let from = doc.get_mut(from_table).and_then(toml_edit::Item::as_table_mut).ok_or_else(String::new)?;
    let item = from.remove(from_key).ok_or_else(String::new)?;
    let to = doc.entry(to_table).or_insert(toml_edit::table()).as_table_mut().ok_or_else(String::new)?;
    to.insert(to_key, item);
    Ok(doc.to_string())
}

/// Parses `content` as a `toml_edit::DocumentMut`, removes `key` from the
/// table `table` (`Table::get_mut`, `Item::as_table_mut`, `Table::remove`)
/// and renders the document (`Display`).
///
/// Claimed: an `Ok` text is what `toml_removed_item` names, and `Err`
/// comes exactly when that name is `None`. Nothing is claimed of the error
/// text.
#[verifier::external_body]
fn removed_item(content: &str, table: &str, key: &str) -> (r: Result<String, String>)
    ensures
        match r {
            Ok(t) => toml_removed_item(content@, table@, key@) == Some(t@),
            Err(_) => toml_removed_item(content@, table@, key@) is None,
        },
{
    let mut doc: toml_edit::DocumentMut = content.parse().map_err(|e: toml_edit::TomlError| e.to_string())?;
    let from = doc.get_mut(table).and_then(toml_edit::Item::as_table_mut).ok_or_else(String::new)?;
    from.remove(key).ok_or_else(String::new)?;
    Ok(doc.to_string())
}

/// The message of a migration that finds `workspaces` is not a table.
pub open spec fn not_a_table_message() -> Seq<char> {
    "[workspaces] is not a table -- cannot migrate"@
}

/// How `config.toml` holding `content` keeps the legacy
/// `[layout.workspaces]` section, as `toml_edit` reads it.
pub open spec fn legacy_state(content: Seq<char>) -> Option<TableKeyState> {
    toml_table_key(content, "layout"@, "workspaces"@)
}

/// How `config.toml` holding `content` keeps `[workspaces.layouts]`, as
/// `toml_edit` reads it.
pub open spec fn workspaces_state(content: Seq<char>) -> Option<TableKeyState> {
    toml_table_key(content, "workspaces"@, "layouts"@)
}

/// Whether `config.toml` holding `content` still has the legacy
/// `[layout.workspaces]` section: a `[layout]` table with a `workspaces`
/// key. A missing `[layout]`, or one that is not a table, has none. `Err`
/// with the parser's message when `content` is not TOML.
pub fn has_legacy_layouts(content: &str) -> (r: Result<bool, String>)
    ensures
        legacy_state(content@) is None <==> r is Err,
        r matches Ok(b) ==> b == (legacy_state(content@) == Some(TableKeyState::Table(true))),
{
    match table_key_state(content, "layout", "workspaces") {
        Ok(s) => Ok(s == TableKeyState::Table(true)),
        Err(e) => Err(e),
    }
}

/// The text of `config.toml` holding `content` after the legacy
/// `[layout.workspaces]` section is moved to `[workspaces.layouts]`:
/// `Ok(None)` when there is no legacy section; otherwise the rewritten
/// text, in which a `[workspaces.layouts]` the user already has wins and
/// the legacy section is dropped, and a missing `[workspaces]` table is
/// created. `Err` when `content` is not TOML, or when `workspaces` is not
/// a table.
pub fn migrated_config(content: &str) -> (r: Result<Option<String>, String>)
    ensures
        legacy_state(content@) is None ==> r is Err,
        legacy_state(content@) matches Some(s) && s != TableKeyState::Table(true) ==> r matches Ok(None),
        legacy_state(content@) == Some(TableKeyState::Table(true)) ==> match workspaces_state(content@) {
            None => r is Err,
            Some(TableKeyState::NotTable) => (r matches Err(e) && e@ == not_a_table_message()),
            Some(TableKeyState::Table(true)) => match toml_removed_item(content@, "layout"@, "workspaces"@) {
                Some(t) => (r matches Ok(Some(u)) && u@ == t),
                None => r is Err,
            },
            Some(_) => match toml_moved_item(content@, "layout"@, "workspaces"@, "workspaces"@, "layouts"@) {
                Some(t) => (r matches Ok(Some(u)) && u@ == t),
                None => r is Err,
            },
        },
{
    match table_key_state(content, "layout", "workspaces") {
        Err(e) => Err(e),
        Ok(TableKeyState::Table(true)) => match table_key_state(content, "workspaces", "layouts") {
            Err(e) => Err(e),
            Ok(TableKeyState::NotTable) => {
                proof {
                    reveal_strlit("[workspaces] is not a table -- cannot migrate");
                }
                Err("[workspaces] is not a table -- cannot migrate".to_string())
            },
            Ok(TableKeyState::Table(true)) => match removed_item(content, "layout", "workspaces") {
                Ok(t) => Ok(Some(t)),
                Err(e) => Err(e),
            },
            Ok(_) => match moved_item(content, "layout", "workspaces", "workspaces", "layouts") {
                Ok(t) => Ok(Some(t)),
                Err(e) => Err(e),
            },
        },
        Ok(_) => Ok(None),
    }
}

} // verus!
