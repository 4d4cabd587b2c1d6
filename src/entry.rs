//! Dependency entries and the version they declare.
use vstd::prelude::*;

verus! {

/// The `version` field of a detailed dependency entry.
#[derive(Debug, Clone, PartialEq, Eq)]
pub enum VersionField {
    /// The entry has no `version` field.
    Absent,
    /// The field holds a string.
    Text(String),
    /// The field holds something other than a string.
    NotText,
}

/// A dependency entry in one of the shapes a manifest allows.
#[derive(Debug, Clone, PartialEq, Eq)]
pub enum DepEntry {
    /// `name = "1.2.3"`
    Simple(String),
    /// `name = { version = "1.2.3", ... }`
    Inline(VersionField),
    /// `[dependencies.name]` followed by `version = "1.2.3"` and other fields.
    Block(VersionField),
    /// Any other value (a number, an array, ...).
    Other,
}

/// Why no version could be read from an entry.
#[derive(Debug, Clone, Copy, PartialEq, Eq)]
pub enum VersionError {
    /// A detailed entry without a `version` field.
    MissingVersionField,
    /// A `version` field that is not a string, or an entry of no known shape.
    MalformedVersionField,
}

/// The version declared by a `version` field.
pub open spec fn field_version(f: VersionField) -> Result<Seq<char>, VersionError> {
    match f {
        VersionField::Absent => Err(VersionError::MissingVersionField),
        VersionField::Text(s) => Ok(s@),
        VersionField::NotText => Err(VersionError::MalformedVersionField),
    }
}

/// The version that an entry declares.
pub open spec fn entry_version(e: DepEntry) -> Result<Seq<char>, VersionError> {
    match e {
        DepEntry::Simple(s) => Ok(s@),
        DepEntry::Inline(f) => field_version(f),
        DepEntry::Block(f) => field_version(f),
        DepEntry::Other => Err(VersionError::MalformedVersionField),
    }
}

/// Whether `r` is the executable counterpart of the spec result `s`.
pub open spec fn version_result_matches(
    r: Result<String, VersionError>,
    s: Result<Seq<char>, VersionError>,
) -> bool {
    match (r, s) {
        (Ok(a), Ok(b)) => a@ == b,
        (Err(a), Err(b)) => a == b,
        _ => false,
    }
}

fn version_of_field(f: &VersionField) -> (r: Result<String, VersionError>)
    ensures
        version_result_matches(r, field_version(*f)),
{
    match f {
        VersionField::Absent => Err(VersionError::MissingVersionField),
        VersionField::Text(s) => Ok(s.clone()),
        VersionField::NotText => Err(VersionError::MalformedVersionField),
    }
}

/// Reads the version string that a dependency entry declares.
pub fn extract_version(entry: &DepEntry) -> (r: Result<String, VersionError>)
    ensures
        version_result_matches(r, entry_version(*entry)),
{
    match entry {
        DepEntry::Simple(s) => Ok(s.clone()),
        DepEntry::Inline(f) => version_of_field(f),
        DepEntry::Block(f) => version_of_field(f),
        DepEntry::Other => Err(VersionError::MalformedVersionField),
    }
}

/// The three shapes of an entry that carry the same version string all
/// declare exactly that string.
pub proof fn lemma_shapes_agree(v: Seq<char>, s: String)
    requires
        s@ == v,
    ensures
        entry_version(DepEntry::Simple(s)) == Ok::<Seq<char>, VersionError>(v),
        entry_version(DepEntry::Inline(VersionField::Text(s))) == Ok::<Seq<char>, VersionError>(v),
        entry_version(DepEntry::Block(VersionField::Text(s))) == Ok::<Seq<char>, VersionError>(v),
{
}

/// A detailed entry without a `version` field, inline or in a block, has no
/// version to read.
pub proof fn lemma_missing_version_field()
    ensures
        entry_version(DepEntry::Inline(VersionField::Absent)) == Err::<Seq<char>, VersionError>(
            VersionError::MissingVersionField,
        ),
        entry_version(DepEntry::Block(VersionField::Absent)) == Err::<Seq<char>, VersionError>(
            VersionError::MissingVersionField,
        ),
{
}

} // verus!
