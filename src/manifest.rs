//! The manifest document, held in a format-preserving tree, and the edit that
//! turns one dependency into a path dependency.
use vstd::prelude::*;
use crate::entry::{entry_version, DepEntry, VersionError, VersionField};
use toml_edit::{DocumentMut, TomlError};

verus! {

#[verifier::external_type_specification]
#[verifier::external_body]
pub struct ExDocumentMut(toml_edit::DocumentMut);

#[verifier::external_type_specification]
#[verifier::external_body]
pub struct ExTomlError(toml_edit::TomlError);

/// The top-level table that lists the dependencies.
pub const DEPENDENCIES: &'static str = "dependencies";

/// The field of a detailed entry that holds its version.
pub const VERSION_FIELD: &'static str = "version";

/// The field of a path dependency that holds its path.
pub const PATH_KEY: &'static str = "path";

/// Whether `text` parses as a TOML document.
pub uninterp spec fn is_toml_document(text: Seq<char>) -> bool;

/// The entries of the top-level table `table`, by key, in the shape they
/// have, with `field` read as the field of a detailed entry (empty when there
/// is no such table).
pub uninterp spec fn table_entries(d: DocumentMut, table: Seq<char>, field: Seq<char>) -> Map<
    Seq<char>,
    DepEntry,
>;

/// The rendered text of each entry of the top-level table `table`, by key.
pub uninterp spec fn table_texts(d: DocumentMut, table: Seq<char>) -> Map<Seq<char>, Seq<char>>;

/// The text set before each key of the top-level table `table`, where it
/// can be read.
pub uninterp spec fn key_prefixes(d: DocumentMut, table: Seq<char>) -> Map<Seq<char>, Seq<char>>;

/// The keys of the top-level table `table`, in their order.
pub uninterp spec fn table_key_order(d: DocumentMut, table: Seq<char>) -> Seq<Seq<char>>;

/// The whole document, rendered as text.
pub uninterp spec fn document_text(d: DocumentMut) -> Seq<char>;

/// The rendered text of a new inline table `{ key = value }`.
pub uninterp spec fn inline_pair_text(key: Seq<char>, value: Seq<char>) -> Seq<char>;

/// Relies on `DocumentMut`'s `FromStr`: parsing succeeds or fails on the text alone.
#[verifier::external_body]
pub(crate) fn parse_document(text: &str) -> (r: Result<DocumentMut, TomlError>)
    ensures
        r is Ok <==> is_toml_document(text@),
{
    text.parse::<DocumentMut>()
}

/// Relies on `Table::get`, `Item::get`, `Item::as_str`, `Item::is_inline_table`
/// and `Item::is_table`: reads the entry `name` of the table `table`, and its
/// field `field`, if any.
#[verifier::external_body]
pub(crate) fn entry_of(doc: &DocumentMut, table: &str, name: &str, field: &str) -> (r: Option<
    DepEntry,
>)
    ensures
        r is Some <==> table_texts(*doc, table@).contains_key(name@),
        r is Some <==> table_entries(*doc, table@, field@).contains_key(name@),
        r matches Some(e) ==> table_entries(*doc, table@, field@)[name@] == e,
{
    let item = doc.get(table)?.get(name)?;
    let version = match item.get(field).map(|v| v.as_str()) {
        None => VersionField::Absent,
        Some(Some(s)) => VersionField::Text(s.to_string()),
        Some(None) => VersionField::NotText,
    };
    Some(match item.as_str() {
        Some(s) => DepEntry::Simple(s.to_string()),
        None if item.is_inline_table() => DepEntry::Inline(version),
        None if item.is_table() => DepEntry::Block(version),
        None => DepEntry::Other,
    })
}

/// Relies on `Item`'s `Display`: the rendered text of the entry `name` of the
/// table `table`.
#[verifier::external_body]
pub(crate) fn entry_text(doc: &DocumentMut, table: &str, name: &str) -> (r: Option<String>)
    ensures
        r is Some <==> table_texts(*doc, table@).contains_key(name@),
        r matches Some(t) ==> table_texts(*doc, table@)[name@] == t@,
{
    doc.get(table)?.get(name).map(|item| item.to_string())
}

/// Relies on `TableLike::key`, `Key::leaf_decor` and `RawString::as_str`: the
/// text set before the key `name` of the table `table`.
#[verifier::external_body]
pub(crate) fn key_prefix(doc: &DocumentMut, table: &str, name: &str) -> (r: Option<String>)
    ensures
        r is Some <==> key_prefixes(*doc, table@).contains_key(name@),
        r matches Some(p) ==> key_prefixes(*doc, table@)[name@] == p@,
{
    let key = doc.get(table)?.as_table_like()?.key(name)?;
    key.leaf_decor().prefix()?.as_str().map(|p| p.to_string())
}

/// Relies on `TableLike::get_key_value_mut`, `Decor::set_prefix` and
/// `InlineTable::insert`: sets the text before the key `name` of the table
/// `table` to `prefix` and replaces its value, in place, with the inline table
/// `{ key = value }`, touching no other entry and no other table.
#[verifier::external_body]
fn replace_entry(
    doc: &mut DocumentMut,
    table: &str,
    name: &str,
    prefix: &str,
    key: &str,
    value: &str,
)
    requires
        table_texts(*old(doc), table@).contains_key(name@),
    ensures
        table_texts(*final(doc), table@) == table_texts(*old(doc), table@).insert(
            name@,
            inline_pair_text(key@, value@),
        ),
        forall|f: Seq<char>|
            f != key@ ==> #[trigger] table_entries(*final(doc), table@, f) == table_entries(
                *old(doc),
                table@,
                f,
            ).insert(name@, DepEntry::Inline(VersionField::Absent)),
        key_prefixes(*final(doc), table@) == key_prefixes(*old(doc), table@).insert(name@, prefix@),
        table_key_order(*final(doc), table@) == table_key_order(*old(doc), table@),
        forall|t: Seq<char>|
            t != table@ ==> #[trigger] table_texts(*final(doc), t) == table_texts(*old(doc), t),
        forall|t: Seq<char>|
            t != table@ ==> #[trigger] key_prefixes(*final(doc), t) == key_prefixes(*old(doc), t),
{
    let entries = doc.get_mut(table).and_then(|d| d.as_table_like_mut());
    if let Some((mut k, item)) = entries.and_then(|t| t.get_key_value_mut(name)) {
        k.leaf_decor_mut().set_prefix(prefix);
        let mut inline = toml_edit::InlineTable::new();
        inline.insert(key, value.into());
        *item = toml_edit::Item::Value(toml_edit::Value::InlineTable(inline));
    }
}

/// Relies on `DocumentMut`'s `Display`: the document as text.
#[verifier::external_body]
pub(crate) fn render(doc: &DocumentMut) -> (r: String)
    ensures
        r@ == document_text(*doc),
{
    doc.to_string()
}

/// Why a manifest could not be rewritten.
#[derive(Debug, Clone, Copy, PartialEq, Eq)]
pub enum RewriteError {
    /// The `dependencies` table has no entry of that name.
    DependencyNotFound,
}

/// A space, a tab, or a line break.
pub open spec fn is_blank(c: char) -> bool {
    c == ' ' || c == '\t' || c == '\n' || c == '\r'
}

/// `s` without the blanks at its two ends.
pub open spec fn trimmed(s: Seq<char>) -> Seq<char>
    decreases s.len(),
{
    if s.len() == 0 {
        s
    } else if is_blank(s[0]) {
        trimmed(s.drop_first())
    } else if is_blank(s.last()) {
        trimmed(s.drop_last())
    } else {
        s
    }
}

fn blank(c: char) -> (r: bool)
    ensures
        r == is_blank(c),
{
    c == ' ' || c == '\t' || c == '\n' || c == '\r'
}

/// Drops the spaces, tabs and line breaks at the two ends of `s`.
pub fn trim_blanks(s: &str) -> (r: &str)
    ensures
        r@ == trimmed(s@),
    decreases s@.len(),
{
    let n = s.unicode_len();
    if n == 0 {
        s
    } else if blank(s.get_char(0)) {
        let rest = s.substring_char(1, n);
        assert(rest@ =~= s@.drop_first());
        trim_blanks(rest)
    } else if blank(s.get_char(n - 1)) {
        let rest = s.substring_char(0, n - 1);
        assert(rest@ =~= s@.drop_last());
        trim_blanks(rest)
    } else {
        s
    }
}

/// `text` with a `#` after each line break, so that every line it continues
/// on is commented too.
pub open spec fn hash_after_breaks(text: Seq<char>) -> Seq<char>
    decreases text.len(),
{
    if text.len() == 0 {
        text
    } else {
        hash_after_breaks(text.drop_last()) + if text.last() == '\n' {
            seq!['\n', '#']
        } else {
            seq![text.last()]
        }
    }
}

/// The comment that keeps an entry's old text: each of its lines begins with
/// `#`, and a line break ends it.
pub open spec fn comment_line(text: Seq<char>) -> Seq<char> {
    seq!['#'] + hash_after_breaks(text) + seq!['\n']
}

/// The comment that keeps the old text `text` of an entry.
pub fn comment_for(text: &str) -> (r: String)
    ensures
        r@ == comment_line(text@),
{
    let n = text.unicode_len();
    let mut r = String::from_str("#");
    proof {
        reveal_strlit("#");
        reveal_strlit("\n#");
        assert(text@.subrange(0, 0) =~= Seq::<char>::empty());
    }
    let mut i: usize = 0;
    while i < n
        invariant
            n == text@.len(),
            i <= n,
            r@ == seq!['#'] + hash_after_breaks(text@.subrange(0, i as int)),
        decreases n - i,
    {
        let c = text.get_char(i);
        let piece = text.substring_char(i, i + 1);
        let ghost upto = text@.subrange(0, i + 1);
        assert(upto.drop_last() =~= text@.subrange(0, i as int));
        assert(upto.last() == c);
        assert(hash_after_breaks(upto) == hash_after_breaks(text@.subrange(0, i as int)) + if c
            == '\n' {
            seq!['\n', '#']
        } else {
            seq![c]
        });
        if c == '\n' {
            r.append("\n#");
            assert("\n#"@ =~= seq!['\n', '#']) by {
                reveal_strlit("\n#");
            }
        } else {
            r.append(piece);
            assert(piece@ =~= seq![c]);
        }
        assert(r@ =~= seq!['#'] + hash_after_breaks(text@.subrange(0, i + 1)));
        i = i + 1;
    }
    assert(text@.subrange(0, n as int) =~= text@);
    r.append("\n");
    proof {
        reveal_strlit("\n");
    }
    assert(r@ =~= comment_line(text@));
    r
}

/// The text that stood before the key `name` of the dependencies table, or
/// nothing when it cannot be read.
pub open spec fn prefix_before(d: DocumentMut, name: Seq<char>) -> Seq<char> {
    if key_prefixes(d, DEPENDENCIES@).contains_key(name) {
        key_prefixes(d, DEPENDENCIES@)[name]
    } else {
        Seq::empty()
    }
}

/// `after` is `before` with the dependency `name` turned, in its place, into a
/// path dependency on `path`. The text that stood before its key stays, and
/// is followed by its old text, trimmed and commented line by line. No other
/// dependency, and no other table, changes.
pub open spec fn rewritten(before: DocumentMut, after: DocumentMut, name: Seq<char>, path: Seq<char>) -> bool {
    &&& table_texts(after, DEPENDENCIES@) == table_texts(before, DEPENDENCIES@).insert(
        name,
        inline_pair_text(PATH_KEY@, path),
    )
    &&& table_entries(after, DEPENDENCIES@, VERSION_FIELD@) == table_entries(
        before,
        DEPENDENCIES@,
        VERSION_FIELD@,
    ).insert(name, DepEntry::Inline(VersionField::Absent))
    &&& key_prefixes(after, DEPENDENCIES@) == key_prefixes(before, DEPENDENCIES@).insert(
        name,
        prefix_before(before, name) + comment_line(
            trimmed(table_texts(before, DEPENDENCIES@)[name]),
        ),
    )
    &&& table_key_order(after, DEPENDENCIES@) == table_key_order(before, DEPENDENCIES@)
    &&& forall|t: Seq<char>|
        t != DEPENDENCIES@ ==> #[trigger] table_texts(after, t) == table_texts(before, t)
    &&& forall|t: Seq<char>|
        t != DEPENDENCIES@ ==> #[trigger] key_prefixes(after, t) == key_prefixes(before, t)
}

/// Turns the dependency `name` into a path dependency on `new_path`, keeping
/// its old text as a comment before it. Fails, leaving the document as it
/// was, when there is no such dependency.
pub fn rewrite(doc: &mut DocumentMut, name: &str, new_path: &str) -> (r: Result<(), RewriteError>)
    ensures
        r is Err <==> !table_texts(*old(doc), DEPENDENCIES@).contains_key(name@),
        r is Err ==> *final(doc) == *old(doc),
        r is Ok ==> rewritten(*old(doc), *final(doc), name@, new_path@),
{
    match entry_text(doc, DEPENDENCIES, name) {
        None => Err(RewriteError::DependencyNotFound),
        Some(old_text) => {
            let mut prefix = match key_prefix(doc, DEPENDENCIES, name) {
                Some(p) => p,
                None => String::new(),
            };
            let comment = comment_for(trim_blanks(old_text.as_str()));
            prefix.append(comment.as_str());
            let ghost before = *doc;
            replace_entry(doc, DEPENDENCIES, name, prefix.as_str(), PATH_KEY, new_path);
            proof {
                reveal_strlit("version");
                reveal_strlit("path");
                assert(VERSION_FIELD@ != PATH_KEY@) by {
                    assert(VERSION_FIELD@.len() != PATH_KEY@.len());
                }
                assert(table_entries(*doc, DEPENDENCIES@, VERSION_FIELD@) == table_entries(
                    before,
                    DEPENDENCIES@,
                    VERSION_FIELD@,
                ).insert(name@, DepEntry::Inline(VersionField::Absent)));
            }
            Ok(())
        },
    }
}

/// Rewriting one dependency leaves the text, the shape and the key prefix of
/// every other dependency as they were, and removes or adds none.
pub proof fn lemma_rewrite_keeps_others(
    before: DocumentMut,
    after: DocumentMut,
    name: Seq<char>,
    path: Seq<char>,
    other: Seq<char>,
)
    requires
        rewritten(before, after, name, path),
        table_texts(before, DEPENDENCIES@).contains_key(name),
        other != name,
    ensures
        table_texts(after, DEPENDENCIES@).dom() == table_texts(before, DEPENDENCIES@).dom(),
        table_texts(before, DEPENDENCIES@).contains_key(other) ==> table_texts(
            after,
            DEPENDENCIES@,
        )[other] == table_texts(before, DEPENDENCIES@)[other],
        table_entries(before, DEPENDENCIES@, VERSION_FIELD@).contains_key(other) ==> table_entries(
            after,
            DEPENDENCIES@,
            VERSION_FIELD@,
        )[other] == table_entries(before, DEPENDENCIES@, VERSION_FIELD@)[other],
        key_prefixes(after, DEPENDENCIES@).contains_key(other) == key_prefixes(
            before,
            DEPENDENCIES@,
        ).contains_key(other),
        key_prefixes(before, DEPENDENCIES@).contains_key(other) ==> key_prefixes(
            after,
            DEPENDENCIES@,
        )[other] == key_prefixes(before, DEPENDENCIES@)[other],
        table_key_order(after, DEPENDENCIES@) == table_key_order(before, DEPENDENCIES@),
{
    assert(table_texts(after, DEPENDENCIES@).dom() =~= table_texts(before, DEPENDENCIES@).dom());
}

/// Once rewritten, an entry declares no version any more: rewriting it a
/// second time stops at the missing `version` field.
pub proof fn lemma_rewritten_has_no_version(
    before: DocumentMut,
    after: DocumentMut,
    name: Seq<char>,
    path: Seq<char>,
)
    requires
        rewritten(before, after, name, path),
    ensures
        table_entries(after, DEPENDENCIES@, VERSION_FIELD@).contains_key(name),
        entry_version(table_entries(after, DEPENDENCIES@, VERSION_FIELD@)[name]) == Err::<
            Seq<char>,
            VersionError,
        >(VersionError::MissingVersionField),
{
}

} // verus!
