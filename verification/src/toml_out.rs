//! Writing the generated repository configuration as a TOML document through
//! `toml_edit`.
//!
//! The `toml_edit` values are opaque to the verifier. Each collection is
//! described by names for what it holds, as the text that `toml_edit`
//! writes for it (`Display` of the document): a table by the lines of its
//! key/value pairs, an inline array by the text of its elements, an inline
//! table by its written keys and values, an array of tables by the lines of
//! each table, and a document by its arrays of tables. The trusted items
//! below say how each call changes these names. Keys are bare keys, written
//! as they are; how `toml_edit` quotes a string value is named, with the
//! plain case (a basic string between double quotes) stated.

use vstd::prelude::*;
use toml_edit::{Array, ArrayOfTables, DocumentMut, InlineTable, Item, Table, Value};
use crate::text::joined;
use crate::try_repo::opt_str;

verus! {

#[verifier::external_type_specification]
#[verifier::external_body]
pub struct ExDocumentMut(DocumentMut);

#[verifier::external_type_specification]
#[verifier::external_body]
pub struct ExTable(Table);

#[verifier::external_type_specification]
#[verifier::external_body]
pub struct ExArray(Array);

#[verifier::external_type_specification]
#[verifier::external_body]
pub struct ExInlineTable(InlineTable);

#[verifier::external_type_specification]
#[verifier::external_body]
pub struct ExArrayOfTables(ArrayOfTables);

/// How `toml_edit` writes a string value made from `s` (the default of
/// `toml_writer::TomlStringBuilder`).
pub uninterp spec fn toml_string_text(s: Seq<char>) -> Seq<char>;

/// Whether `key` is a bare TOML key: not empty, made of ASCII letters,
/// digits, `-` and `_`.
pub open spec fn bare_key(key: Seq<char>) -> bool {
    key.len() > 0 && forall|i: int| 0 <= i < key.len() ==> bare_char(#[trigger] key[i])
}

/// Whether `c` may stand in a bare key.
pub open spec fn bare_char(c: char) -> bool {
    ('a' <= c <= 'z') || ('A' <= c <= 'Z') || ('0' <= c <= '9') || c == '-' || c == '_'
}

/// Whether `s` can be written as a basic string with no escape: it holds no
/// `"`, no `\`, no control character and no DEL.
pub open spec fn plain_string(s: Seq<char>) -> bool {
    forall|i: int|
        0 <= i < s.len() ==> {
            let c = #[trigger] s[i];
            c != '"' && c != '\\' && (c as u32) >= 0x20 && (c as u32) != 0x7f
        }
}

/// How a string value is written: a plain string between double quotes,
/// any other as `toml_edit` quotes it.
pub open spec fn string_written(s: Seq<char>) -> Seq<char> {
    if plain_string(s) {
        seq!['"'] + s + seq!['"']
    } else {
        toml_string_text(s)
    }
}

/// The line of a key/value pair in a table: `key = value` and a line feed.
pub open spec fn pair_line(key: Seq<char>, value: Seq<char>) -> Seq<char> {
    key + seq![' ', '=', ' '] + value + seq!['\n']
}

/// The key/value lines of a table, in order.
pub uninterp spec fn table_lines(t: Table) -> Seq<Seq<char>>;

/// The keys of a table, in order.
pub uninterp spec fn table_keys(t: Table) -> Seq<Seq<char>>;

/// Whether the table's own formatting (its header's decor, position and
/// kind) is `toml_edit`'s default.
pub uninterp spec fn table_default_format(t: Table) -> bool;

/// The text of each element of an inline array, with the element's decor.
pub uninterp spec fn array_elements(a: Array) -> Seq<Seq<char>>;

/// Whether the inline array ends its elements with a comma.
pub uninterp spec fn array_trailing_comma(a: Array) -> bool;

/// The white space written before the inline array's closing bracket.
pub uninterp spec fn array_trailing(a: Array) -> Seq<char>;

/// Whether the inline array's own decor is `toml_edit`'s default.
pub uninterp spec fn array_default_decor(a: Array) -> bool;

/// The written key and written value of each pair of an inline table.
pub uninterp spec fn inline_pairs(t: InlineTable) -> Seq<(Seq<char>, Seq<char>)>;

/// The keys of an inline table, in order.
pub uninterp spec fn inline_keys(t: InlineTable) -> Seq<Seq<char>>;

/// The decor prefix of an inline table, where one was set.
pub uninterp spec fn inline_prefix(t: InlineTable) -> Option<Seq<char>>;

/// Whether the rest of the inline table's formatting (decor suffix,
/// trailing comma and trailing white space) is `toml_edit`'s default.
pub uninterp spec fn inline_default_format(t: InlineTable) -> bool;

/// The key/value lines of each table of an array of tables.
pub uninterp spec fn tables_lines(a: ArrayOfTables) -> Seq<Seq<Seq<char>>>;

/// The arrays of tables of a document's root, in order: each as its written
/// key and the lines of its tables.
pub uninterp spec fn document_arrays(d: DocumentMut) -> Seq<(Seq<char>, Seq<Seq<Seq<char>>>)>;

/// The keys of a document's root, in order.
pub uninterp spec fn document_keys(d: DocumentMut) -> Seq<Seq<char>>;

/// Whether the document holds nothing but arrays of tables at its root, with
/// the root's decor and trailing white space left at their defaults.
pub uninterp spec fn document_default_format(d: DocumentMut) -> bool;

/// The written pairs of an inline table, `, `-separated: ` k = v` for each.
pub open spec fn pairs_text(ps: Seq<(Seq<char>, Seq<char>)>) -> Seq<char>
    decreases ps.len(),
{
    if ps.len() == 0 {
        Seq::empty()
    } else {
        pairs_text(ps.drop_last()) + (if ps.len() > 1 {
            seq![',']
        } else {
            Seq::empty()
        }) + seq![' '] + ps.last().0 + seq![' ', '=', ' '] + ps.last().1
    }
}

/// An inline table written with the decor prefix `prefix`.
pub open spec fn inline_table_written(prefix: Seq<char>, ps: Seq<(Seq<char>, Seq<char>)>) -> Seq<
    char,
> {
    prefix + seq!['{'] + pairs_text(ps) + (if ps.len() > 0 {
        seq![' ']
    } else {
        Seq::empty()
    }) + seq!['}']
}

/// An inline array: its elements separated by commas, a trailing comma
/// where asked for and there is an element, and the trailing white space.
pub open spec fn array_written(elements: Seq<Seq<char>>, trailing_comma: bool, trailing: Seq<char>) -> Seq<
    char,
> {
    seq!['['] + joined(elements, seq![',']) + (if trailing_comma && elements.len() > 0 {
        seq![',']
    } else {
        Seq::empty()
    }) + trailing + seq![']']
}

/// The concatenation of lines.
pub open spec fn lines_text(lines: Seq<Seq<char>>) -> Seq<char>
    decreases lines.len(),
{
    if lines.len() == 0 {
        Seq::empty()
    } else {
        lines_text(lines.drop_last()) + lines.last()
    }
}

/// The tables of the arrays of tables, each with the key of its array.
pub open spec fn flat_tables(arrays: Seq<(Seq<char>, Seq<Seq<Seq<char>>>)>) -> Seq<(Seq<char>, Seq<Seq<char>>)>
    decreases arrays.len(),
{
    if arrays.len() == 0 {
        Seq::empty()
    } else {
        let (key, tables) = arrays.last();
        flat_tables(arrays.drop_last()) + tables.map_values(|lines: Seq<Seq<char>>| (key, lines))
    }
}

/// The text of tables of arrays of tables: for each a `[[key]]` header
/// line, preceded by an empty line but for the first, and then its lines.
pub open spec fn array_tables_text(tables: Seq<(Seq<char>, Seq<Seq<char>>)>) -> Seq<char>
    decreases tables.len(),
{
    if tables.len() == 0 {
        Seq::empty()
    } else {
        array_tables_text(tables.drop_last()) + (if tables.len() > 1 {
            seq!['\n']
        } else {
            Seq::empty()
        }) + seq!['[', '['] + tables.last().0 + seq![']', ']', '\n'] + lines_text(tables.last().1)
    }
}

/// Calls `DocumentMut::new`: an empty document.
#[verifier::external_body]
fn document_new() -> (d: DocumentMut)
    ensures
        document_arrays(d) == Seq::<(Seq<char>, Seq<Seq<Seq<char>>>)>::empty(),
        document_keys(d) == Seq::<Seq<char>>::empty(),
        document_default_format(d),
{
    DocumentMut::new()
}

/// Calls `Table::new`: an empty table with default formatting.
#[verifier::external_body]
fn table_new() -> (t: Table)
    ensures
        table_lines(t) == Seq::<Seq<char>>::empty(),
        table_keys(t) == Seq::<Seq<char>>::empty(),
        table_default_format(t),
{
    Table::new()
}

/// Sets the new key `key` of the table to a string value through
/// `IndexMut<&str>` (`t[key] = toml_edit::value(value)`): the key is
/// appended, with the line `key = "value"` written with default decor.
#[verifier::external_body]
fn table_set_string(t: &mut Table, key: &str, value: &str)
    requires
        bare_key(key@),
        !table_keys(*old(t)).contains(key@),
    ensures
        table_lines(*final(t)) == table_lines(*old(t)).push(
            pair_line(key@, if plain_string(value@) {
                seq!['"'] + value@ + seq!['"']
            } else {
                toml_string_text(value@)
            }),
        ),
        table_keys(*final(t)) == table_keys(*old(t)).push(key@),
        table_default_format(*final(t)) == table_default_format(*old(t)),
{
    t[key] = toml_edit::value(value);
}

/// Inserts the new key `key` into the table with an inline array value
/// (`Table::insert` with `Item::Value(Value::Array(..))`): the key is
/// appended, with the line `key = [..]` written with default decor.
#[verifier::external_body]
fn table_set_array(t: &mut Table, key: &str, a: Array)
    requires
        bare_key(key@),
        !table_keys(*old(t)).contains(key@),
        array_default_decor(a),
    ensures
        table_lines(*final(t)) == table_lines(*old(t)).push(
            pair_line(
                key@,
                array_written(array_elements(a), array_trailing_comma(a), array_trailing(a)),
            ),
        ),
        table_keys(*final(t)) == table_keys(*old(t)).push(key@),
        table_default_format(*final(t)) == table_default_format(*old(t)),
{
    t.insert(key, Item::Value(Value::Array(a)));
}

/// Calls `Array::new`: an empty inline array, no trailing comma, no
/// trailing white space, default decor.
#[verifier::external_body]
fn array_new() -> (a: Array)
    ensures
        array_elements(a) == Seq::<Seq<char>>::empty(),
        !array_trailing_comma(a),
        array_trailing(a) == Seq::<char>::empty(),
        array_default_decor(a),
{
    Array::new()
}

/// Calls `Array::set_trailing_comma`.
#[verifier::external_body]
fn array_set_trailing_comma(a: &mut Array, yes: bool)
    ensures
        array_trailing_comma(*final(a)) == yes,
        array_elements(*final(a)) == array_elements(*old(a)),
        array_trailing(*final(a)) == array_trailing(*old(a)),
        array_default_decor(*final(a)) == array_default_decor(*old(a)),
{
    a.set_trailing_comma(yes);
}

/// Calls `Array::set_trailing`: the white space before the closing bracket.
#[verifier::external_body]
fn array_set_trailing(a: &mut Array, trailing: &str)
    ensures
        array_trailing(*final(a)) == trailing@,
        array_elements(*final(a)) == array_elements(*old(a)),
        array_trailing_comma(*final(a)) == array_trailing_comma(*old(a)),
        array_default_decor(*final(a)) == array_default_decor(*old(a)),
{
    a.set_trailing(trailing);
}

/// Calls `Array::push` with an inline table whose decor prefix was set: the
/// new element is written as that prefix and the inline table; its decor
/// suffix is unset, which writes as nothing wherever the element stands.
#[verifier::external_body]
fn array_push_inline(a: &mut Array, t: InlineTable)
    requires
        inline_prefix(t) is Some,
        inline_default_format(t),
    ensures
        array_elements(*final(a)) == array_elements(*old(a)).push(
            inline_table_written(inline_prefix(t)->0, inline_pairs(t)),
        ),
        array_trailing_comma(*final(a)) == array_trailing_comma(*old(a)),
        array_trailing(*final(a)) == array_trailing(*old(a)),
        array_default_decor(*final(a)) == array_default_decor(*old(a)),
{
    a.push(t);
}

/// Sets the decor prefix of an inline table (`decor_mut().set_prefix`).
#[verifier::external_body]
fn inline_table_set_prefix(t: &mut InlineTable, prefix: &str)
    ensures
        inline_prefix(*final(t)) == Some(prefix@),
        inline_pairs(*final(t)) == inline_pairs(*old(t)),
        inline_keys(*final(t)) == inline_keys(*old(t)),
        inline_default_format(*final(t)) == inline_default_format(*old(t)),
{
    t.decor_mut().set_prefix(prefix);
}

/// Calls `InlineTable::new`: an empty inline table with default formatting.
#[verifier::external_body]
fn inline_table_new() -> (t: InlineTable)
    ensures
        inline_pairs(t) == Seq::<(Seq<char>, Seq<char>)>::empty(),
        inline_keys(t) == Seq::<Seq<char>>::empty(),
        inline_prefix(t) is None,
        inline_default_format(t),
{
    InlineTable::new()
}

/// Calls `InlineTable::insert` with a new key and a string value: the pair
/// is appended, written with default decor.
#[verifier::external_body]
fn inline_table_insert(t: &mut InlineTable, key: &str, value: String)
    requires
        bare_key(key@),
        !inline_keys(*old(t)).contains(key@),
    ensures
        inline_pairs(*final(t)) == inline_pairs(*old(t)).push(
            (key@, if plain_string(value@) {
                seq!['"'] + value@ + seq!['"']
            } else {
                toml_string_text(value@)
            }),
        ),
        inline_keys(*final(t)) == inline_keys(*old(t)).push(key@),
        inline_prefix(*final(t)) == inline_prefix(*old(t)),
        inline_default_format(*final(t)) == inline_default_format(*old(t)),
{
    t.insert(key, value.into());
}

/// Calls `ArrayOfTables::new`.
#[verifier::external_body]
fn array_of_tables_new() -> (a: ArrayOfTables)
    ensures
        tables_lines(a) == Seq::<Seq<Seq<char>>>::empty(),
{
    ArrayOfTables::new()
}

/// Calls `ArrayOfTables::push` with a table of default formatting that holds
/// only key/value pairs.
#[verifier::external_body]
fn array_of_tables_push(a: &mut ArrayOfTables, t: Table)
    requires
        table_default_format(t),
        table_keys(t).len() == table_lines(t).len(),
    ensures
        tables_lines(*final(a)) == tables_lines(*old(a)).push(table_lines(t)),
{
    a.push(t);
}

/// Sets the new root key `key` of the document to an array of tables through
/// `IndexMut<&str>` (`d[key] = Item::ArrayOfTables(a)`).
#[verifier::external_body]
fn document_set_tables(d: &mut DocumentMut, key: &str, a: ArrayOfTables)
    requires
        bare_key(key@),
        !document_keys(*old(d)).contains(key@),
    ensures
        document_arrays(*final(d)) == document_arrays(*old(d)).push((key@, tables_lines(a))),
        document_keys(*final(d)) == document_keys(*old(d)).push(key@),
        document_default_format(*final(d)) == document_default_format(*old(d)),
{
    d[key] = Item::ArrayOfTables(a);
}

/// Calls `ToString::to_string` on the document: for a document that holds
/// only arrays of tables, the `[[key]]` header of each table, with an empty
/// line before each header but the first, and the table's lines.
#[verifier::external_body]
fn document_text(d: &DocumentMut) -> (r: String)
    ensures
        document_default_format(*d) ==> r@ == array_tables_text(flat_tables(document_arrays(*d))),
{
    d.to_string()
}

/// How the element of one hook is written in the `hooks` array: on a line
/// of its own, indented, `{ id = "<id>" }`.
pub open spec fn hook_element(id: Seq<char>) -> Seq<char> {
    inline_table_written(seq!['\n', ' ', ' '], seq![("id"@, string_written(id))])
}

/// The TOML text of a configuration with one repository: the `[[repos]]`
/// header, the line `repo = ..`, the line `rev = ..` where a revision is
/// given, then `hooks = [`, one `{ id = .. },` line per hook in order, and
/// `]` on a line of its own.
pub open spec fn repo_config_toml(repo: Seq<char>, rev: Option<Seq<char>>, ids: Seq<Seq<char>>) -> Seq<
    char,
> {
    seq!['[', '['] + "repos"@ + seq![']', ']', '\n'] + pair_line(
        "repo"@,
        string_written(repo),
    ) + (match rev {
        Some(r) => pair_line("rev"@, string_written(r)),
        None => Seq::empty(),
    }) + pair_line(
        "hooks"@,
        array_written(ids.map_values(|id: Seq<char>| hook_element(id)), true, seq!['\n']),
    )
}

/// The TOML text of a configuration with one repository: a `[[repos]]`
/// table holding `repo`, then `rev` where it is given, then `hooks`, an
/// array with one inline table `{ id = .. }` per line, each line after a
/// trailing comma.
pub(crate) fn repo_config_text(repo: &str, rev: Option<&str>, hooks: &Vec<String>) -> (r: String)
    ensures
        r@ == repo_config_toml(repo@, opt_str(rev), crate::text::views(hooks@)),
{
    proof {
        reveal_strlit("repo");
        reveal_strlit("rev");
        reveal_strlit("hooks");
        reveal_strlit("repos");
        reveal_strlit("id");
        lemma_config_keys_bare();
    }
    let ghost rev_line = match rev {
        Some(r) => pair_line("rev"@, string_written(r@)),
        None => Seq::<char>::empty(),
    };
    let mut doc = document_new();
    let mut repo_table = table_new();
    table_set_string(&mut repo_table, "repo", repo);
    proof {
        lemma_lines_text_push(Seq::empty(), pair_line("repo"@, string_written(repo@)));
    }
    if let Some(rev_str) = rev {
        assert(!table_keys(repo_table).contains("rev"@)) by {
            assert(table_keys(repo_table) == seq!["repo"@]);
            assert("rev"@.len() != "repo"@.len());
        }
        let ghost before = table_lines(repo_table);
        table_set_string(&mut repo_table, "rev", rev_str);
        proof {
            lemma_lines_text_push(before, rev_line);
        }
    }
    assert(lines_text(table_lines(repo_table)) == pair_line("repo"@, string_written(repo@))
        + rev_line);
    let ghost ids = crate::text::views(hooks@);
    let mut hooks_array = array_new();
    array_set_trailing_comma(&mut hooks_array, true);
    array_set_trailing(&mut hooks_array, "\n");
    proof {
        reveal_strlit("\n");
    }
    let mut i: usize = 0;
    while i < hooks.len()
        invariant
            0 <= i <= hooks@.len(),
            ids == crate::text::views(hooks@),
            bare_key("id"@),
            array_elements(hooks_array) == ids.take(i as int).map_values(
                |id: Seq<char>| hook_element(id),
            ),
            array_trailing_comma(hooks_array),
            array_trailing(hooks_array) == seq!['\n'],
            array_default_decor(hooks_array),
        decreases hooks@.len() - i,
    {
        let mut hook_table = inline_table_new();
        inline_table_insert(&mut hook_table, "id", hooks[i].clone());
        proof {
            reveal_strlit("\n  ");
            assert("\n  "@ == seq!['\n', ' ', ' ']);
        }
        inline_table_set_prefix(&mut hook_table, "\n  ");
        array_push_inline(&mut hooks_array, hook_table);
        proof {
            assert(ids.take(i + 1) == ids.take(i as int).push(ids[i as int]));
            assert(ids[i as int] == hooks@[i as int]@);
            assert(ids.take(i + 1).map_values(|id: Seq<char>| hook_element(id)) == ids.take(
                i as int,
            ).map_values(|id: Seq<char>| hook_element(id)).push(hook_element(ids[i as int])));
        }
        i = i + 1;
    }
    proof {
        assert(ids.take(hooks@.len() as int) == ids);
    }
    assert(!table_keys(repo_table).contains("hooks"@)) by {
        if table_keys(repo_table).contains("hooks"@) {
            let k = choose|k: int|
                0 <= k < table_keys(repo_table).len() && table_keys(repo_table)[k] == "hooks"@;
            assert(table_keys(repo_table)[k].len() != "hooks"@.len());
        }
    }
    let ghost before_hooks = table_lines(repo_table);
    table_set_array(&mut repo_table, "hooks", hooks_array);
    let ghost lines = table_lines(repo_table);
    proof {
        lemma_lines_text_push(
            before_hooks,
            pair_line(
                "hooks"@,
                array_written(ids.map_values(|id: Seq<char>| hook_element(id)), true, seq!['\n']),
            ),
        );
    }
    let mut repos = array_of_tables_new();
    array_of_tables_push(&mut repos, repo_table);
    document_set_tables(&mut doc, "repos", repos);
    let text = document_text(&doc);
    proof {
        let arrays = document_arrays(doc);
        let flat = seq![("repos"@, lines)];
        assert(arrays == seq![("repos"@, seq![lines])]);
        assert(flat_tables(arrays) == flat) by {
            let empty = Seq::<(Seq<char>, Seq<Seq<Seq<char>>>)>::empty();
            assert(arrays.drop_last() == empty);
            assert(flat_tables(empty) == Seq::<(Seq<char>, Seq<Seq<char>>)>::empty());
            assert(seq![lines].map_values(|l: Seq<Seq<char>>| ("repos"@, l)) == flat);
            assert(Seq::<(Seq<char>, Seq<Seq<char>>)>::empty() + flat == flat);
        }
        assert(array_tables_text(flat) == seq!['[', '['] + "repos"@ + seq![']', ']', '\n']
            + lines_text(lines)) by {
            let empty = Seq::<(Seq<char>, Seq<Seq<char>>)>::empty();
            assert(flat.drop_last() == empty);
            assert(array_tables_text(empty) == Seq::<char>::empty());
        }
    }
    text
}

/// The keys that the configuration uses are bare keys.
proof fn lemma_config_keys_bare()
    ensures
        bare_key("repos"@),
        bare_key("repo"@),
        bare_key("rev"@),
        bare_key("hooks"@),
        bare_key("id"@),
{
    reveal_strlit("repos");
    reveal_strlit("repo");
    reveal_strlit("rev");
    reveal_strlit("hooks");
    reveal_strlit("id");
    assert forall|i: int| 0 <= i < "repos"@.len() implies bare_char(#[trigger] "repos"@[i]) by {
        assert(i == 0 || i == 1 || i == 2 || i == 3 || i == 4);
    }
    assert forall|i: int| 0 <= i < "repo"@.len() implies bare_char(#[trigger] "repo"@[i]) by {
        assert(i == 0 || i == 1 || i == 2 || i == 3);
    }
    assert forall|i: int| 0 <= i < "rev"@.len() implies bare_char(#[trigger] "rev"@[i]) by {
        assert(i == 0 || i == 1 || i == 2);
    }
    assert forall|i: int| 0 <= i < "hooks"@.len() implies bare_char(#[trigger] "hooks"@[i]) by {
        assert(i == 0 || i == 1 || i == 2 || i == 3 || i == 4);
    }
    assert forall|i: int| 0 <= i < "id"@.len() implies bare_char(#[trigger] "id"@[i]) by {
        assert(i == 0 || i == 1);
    }
}

/// Adding a line adds its text at the end.
proof fn lemma_lines_text_push(lines: Seq<Seq<char>>, line: Seq<char>)
    ensures
        lines_text(lines.push(line)) == lines_text(lines) + line,
        lines_text(Seq::<Seq<char>>::empty()) == Seq::<char>::empty(),
{
    assert(lines.push(line).drop_last() == lines);
}

} // verus!
