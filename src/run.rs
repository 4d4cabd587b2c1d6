//! The steps of one run, from the manifest's text to its rewritten text. The
//! caller performs the reads, the directory listing and the copy, and hands
//! their results to these functions.
use vstd::prelude::*;
use crate::cache::{candidate, candidate_path, joined, located, locate, join_path, names_of};
use crate::entry::{entry_version, extract_version, VersionError};
use crate::manifest::{
    document_text, entry_of, is_toml_document, parse_document, render, rewrite, rewritten,
    table_entries, table_texts, RewriteError, DEPENDENCIES, VERSION_FIELD,
};
use toml_edit::DocumentMut;

verus! {

/// The directory, under the working directory, that receives the copies.
pub const DEST_DIR: &'static str = "pathified";

/// Where the package cache keeps unpacked sources, under the cache home.
pub const REGISTRY_SRC: &'static str = "registry/src";

/// Why a run stopped.
#[derive(Debug, Clone, Copy, PartialEq, Eq)]
pub enum RunError {
    /// The cache home is not set, or the manifest could not be read.
    EnvironmentError,
    /// The manifest is not a TOML document.
    ManifestParseError,
    /// The `dependencies` table has no entry of that name.
    DependencyNotFound,
    /// The entry declares no usable version.
    VersionUnresolvable(VersionError),
    /// The cache holds no sources for that name and version.
    CacheDirNotFound,
    /// Copying the sources failed.
    CopyFailed,
    /// Writing the manifest back failed.
    WriteFailed,
}

/// The line that tells the user what went wrong, one for each error.
pub open spec fn message_text(e: RunError) -> Seq<char> {
    match e {
        RunError::EnvironmentError => "the environment lacks what the run needs"@,
        RunError::ManifestParseError => "the manifest is not a valid TOML document"@,
        RunError::DependencyNotFound => "no such dependency"@,
        RunError::VersionUnresolvable(VersionError::MissingVersionField) => "the entry has no version field"@,
        RunError::VersionUnresolvable(VersionError::MalformedVersionField) => "the version of the entry is not a string of text"@,
        RunError::CacheDirNotFound => "the package cache holds no sources for the dependency"@,
        RunError::CopyFailed => "copy failed"@,
        RunError::WriteFailed => "writing the manifest back failed"@,
    }
}

impl RunError {
    /// A line that tells the user what went wrong.
    pub fn message(&self) -> (r: String)
        ensures
            r@ == message_text(*self),
    {
        let s = match self {
            RunError::EnvironmentError => "the environment lacks what the run needs",
            RunError::ManifestParseError => "the manifest is not a valid TOML document",
            RunError::DependencyNotFound => "no such dependency",
            RunError::VersionUnresolvable(VersionError::MissingVersionField) => "the entry has no version field",
            RunError::VersionUnresolvable(VersionError::MalformedVersionField) => "the version of the entry is not a string of text",
            RunError::CacheDirNotFound => "the package cache holds no sources for the dependency",
            RunError::CopyFailed => "copy failed",
            RunError::WriteFailed => "writing the manifest back failed",
        };
        String::from_str(s)
    }
}

/// Two different errors are reported with different lines.
pub proof fn lemma_messages_differ(a: RunError, b: RunError)
    requires
        a != b,
    ensures
        message_text(a) != message_text(b),
{
    reveal_strlit("the environment lacks what the run needs");
    reveal_strlit("the manifest is not a valid TOML document");
    reveal_strlit("no such dependency");
    reveal_strlit("the entry has no version field");
    reveal_strlit("the version of the entry is not a string of text");
    reveal_strlit("the package cache holds no sources for the dependency");
    reveal_strlit("copy failed");
    reveal_strlit("writing the manifest back failed");
    assert(message_text(a).len() != message_text(b).len());
}

/// What a run has learned from the manifest: the document, the dependency to
/// turn into a path dependency, its version, and the path given in place of
/// a copy, if any.
pub struct Plan {
    pub doc: DocumentMut,
    pub name: String,
    pub version: String,
    pub given_path: Option<String>,
}

/// Parses the manifest's text.
pub fn parse_manifest(text: &str) -> (r: Result<DocumentMut, RunError>)
    ensures
        r is Ok <==> is_toml_document(text@),
        r is Err ==> r == Err::<DocumentMut, RunError>(RunError::ManifestParseError),
{
    match parse_document(text) {
        Ok(doc) => Ok(doc),
        Err(_) => Err(RunError::ManifestParseError),
    }
}

/// The version that the dependency `name` of `doc` declares, or why there is none.
pub open spec fn planned_version(doc: DocumentMut, name: Seq<char>) -> Result<Seq<char>, RunError> {
    if !table_entries(doc, DEPENDENCIES@, VERSION_FIELD@).contains_key(name) {
        Err(RunError::DependencyNotFound)
    } else {
        match entry_version(table_entries(doc, DEPENDENCIES@, VERSION_FIELD@)[name]) {
            Ok(v) => Ok(v),
            Err(e) => Err(RunError::VersionUnresolvable(e)),
        }
    }
}

/// Finds the dependency `name` in `doc` and reads its version.
pub fn plan(doc: DocumentMut, name: &str, given_path: Option<String>) -> (r: Result<Plan, RunError>)
    ensures
        match r {
            Ok(p) => planned_version(doc, name@) == Ok::<Seq<char>, RunError>(p.version@) && p.doc
                == doc && p.name@ == name@ && p.given_path == given_path && table_texts(
                doc,
                DEPENDENCIES@,
            ).contains_key(name@),
            Err(e) => planned_version(doc, name@) == Err::<Seq<char>, RunError>(e),
        },
{
    match entry_of(&doc, DEPENDENCIES, name, VERSION_FIELD) {
        None => Err(RunError::DependencyNotFound),
        Some(entry) => match extract_version(&entry) {
            Ok(version) => Ok(Plan { doc, name: String::from_str(name), version, given_path }),
            Err(e) => Err(RunError::VersionUnresolvable(e)),
        },
    }
}

/// Where the cache keeps unpacked sources, given the cache home, if it is set.
pub fn registry_root(cache_home: Option<String>) -> (r: Result<String, RunError>)
    ensures
        match cache_home {
            Some(h) => r matches Ok(p) && p@ == joined(h@, REGISTRY_SRC@),
            None => r == Err::<String, RunError>(RunError::EnvironmentError),
        },
{
    match cache_home {
        Some(h) => Ok(join_path(h.as_str(), REGISTRY_SRC)),
        None => Err(RunError::EnvironmentError),
    }
}

/// Where the copy of the dependency `name` goes, under the working directory `cwd`.
pub fn destination(cwd: &str, name: &str) -> (r: String)
    ensures
        r@ == joined(joined(cwd@, DEST_DIR@), name@),
{
    let dir = join_path(cwd, DEST_DIR);
    join_path(dir.as_str(), name)
}

impl Plan {
    /// Whether the sources must be copied from the cache: no path was given.
    pub fn needs_copy(&self) -> (r: bool)
        ensures
            r == (self.given_path is None),
    {
        self.given_path.is_none()
    }

    /// The cached sources of the planned dependency, given the registry root
    /// `root`, the names of its subdirectories, and whether the candidate path
    /// exists on disk.
    pub fn cached_source(&self, root: &str, dirs: &Vec<String>, present: bool) -> (r: Result<
        String,
        RunError,
    >)
        ensures
            match located(root@, names_of(dirs@), self.name@, self.version@, present) {
                Some(p) => r matches Ok(s) && s@ == p,
                None => r == Err::<String, RunError>(RunError::CacheDirNotFound),
            },
    {
        match locate(root, dirs, self.name.as_str(), self.version.as_str(), present) {
            Some(p) => Ok(p),
            None => Err(RunError::CacheDirNotFound),
        }
    }

    /// Rewrites the planned dependency into a path dependency on `local_path`
    /// and returns the manifest's new text.
    pub fn finish(self, local_path: &str) -> (r: Result<String, RunError>)
        ensures
            r is Err <==> !table_texts(self.doc, DEPENDENCIES@).contains_key(self.name@),
            r is Err ==> r == Err::<String, RunError>(RunError::DependencyNotFound),
            r matches Ok(t) ==> exists|d: DocumentMut|
                #[trigger] rewritten(self.doc, d, self.name@, local_path@) && t@ == document_text(d),
    {
        let mut doc = self.doc;
        match rewrite(&mut doc, self.name.as_str(), local_path) {
            Ok(()) => {
                let text = render(&doc);
                assert(rewritten(self.doc, doc, self.name@, local_path@));
                Ok(text)
            },
            Err(RewriteError::DependencyNotFound) => Err(RunError::DependencyNotFound),
        }
    }
}

/// Where a run stands between two actions.
#[derive(Debug, Clone, Copy, PartialEq, Eq)]
pub enum Stage {
    /// Waiting for the cache home.
    CacheHome,
    /// Waiting for the names of the registry root's subdirectories.
    Listing,
    /// Waiting to learn whether the candidate path exists.
    Check,
    /// Waiting for the copy of the sources.
    Copy,
    /// Waiting for the manifest to be written.
    Write,
    /// The run has ended.
    Over,
}

/// What the caller is to do next.
#[derive(Debug, Clone, PartialEq, Eq)]
pub enum Action {
    /// Read the cache home and answer with `Event::CacheHome`.
    ReadCacheHome,
    /// List the subdirectory names of this directory; answer with `Event::Listing`.
    ListRegistry(String),
    /// Tell whether this path exists; answer with `Event::CandidateExists`.
    CheckCandidate(String),
    /// Copy this directory to `destination` under the working directory;
    /// answer with `Event::Copied`.
    CopySources(String),
    /// Write this text to the manifest; answer with `Event::Written`.
    WriteManifest(String),
    /// The run succeeded.
    Done,
    /// The run failed.
    Fail(RunError),
}

/// What the caller found when it did what was asked.
#[derive(Debug, Clone, PartialEq, Eq)]
pub enum Event {
    /// The cache home, if it is set.
    CacheHome(Option<String>),
    /// The subdirectory names, or `None` when the directory could not be listed.
    Listing(Option<Vec<String>>),
    /// Whether the candidate path exists.
    CandidateExists(bool),
    /// The path of the copy, or `None` when copying failed.
    Copied(Option<String>),
    /// Whether the manifest was written.
    Written(bool),
}

/// One run: the plan, and what has been learned of the cache so far.
pub struct Session {
    pub stage: Stage,
    pub plan: Option<Plan>,
    pub root: String,
    pub candidate: String,
}

/// The manifest text that rewriting the planned dependency of `p` into a
/// path dependency on `path` yields.
pub open spec fn rewritten_text(p: Plan, path: Seq<char>, t: Seq<char>) -> bool {
    exists|d: DocumentMut| #[trigger] rewritten(p.doc, d, p.name@, path) && t == document_text(d)
}

impl Session {
    /// The stages that still need the plan hold one that needs a copy and
    /// whose dependency is in the document.
    pub open spec fn wf(&self) -> bool {
        match self.stage {
            Stage::CacheHome | Stage::Listing | Stage::Check | Stage::Copy => self.plan matches Some(
                p,
            ) && p.given_path is None && table_texts(p.doc, DEPENDENCIES@).contains_key(p.name@),
            _ => true,
        }
    }

    fn over() -> (r: Session)
        ensures
            r.stage == Stage::Over,
    {
        Session { stage: Stage::Over, plan: None, root: String::new(), candidate: String::new() }
    }

    /// Starts a run on the parsed manifest `doc` for the dependency `name`.
    /// With a given path nothing is looked up or copied: the rewritten
    /// manifest is to be written at once.
    pub fn start(doc: DocumentMut, name: &str, given_path: Option<String>) -> (r: (Session, Action))
        ensures
            r.0.wf(),
            match planned_version(doc, name@) {
                Err(e) => r.1 == Action::Fail(e) && r.0.stage == Stage::Over,
                Ok(_) => match given_path {
                    Some(g) => {
                        &&& r.0.stage == Stage::Write
                        &&& r.1 matches Action::WriteManifest(t) && exists|d: DocumentMut|
                            #[trigger] rewritten(doc, d, name@, g@) && t@ == document_text(d)
                    },
                    None => {
                        &&& r.1 == Action::ReadCacheHome
                        &&& r.0.stage == Stage::CacheHome
                        &&& r.0.plan matches Some(p) && p.doc == doc && p.name@ == name@
                            && planned_version(doc, name@) == Ok::<Seq<char>, RunError>(p.version@)
                    },
                },
            },
    {
        match plan(doc, name, given_path) {
            Err(e) => (Session::over(), Action::Fail(e)),
            Ok(p) => match p.given_path {
                None => (
                    Session {
                        stage: Stage::CacheHome,
                        plan: Some(p),
                        root: String::new(),
                        candidate: String::new(),
                    },
                    Action::ReadCacheHome,
                ),
                Some(ref g) => {
                    let path = g.clone();
                    match p.finish(path.as_str()) {
                        Ok(t) => (
                            Session {
                                stage: Stage::Write,
                                plan: None,
                                root: String::new(),
                                candidate: String::new(),
                            },
                            Action::WriteManifest(t),
                        ),
                        Err(e) => (Session::over(), Action::Fail(e)),
                    }
                },
            },
        }
    }

    /// Takes what the caller found and says what to do next. An event that
    /// does not answer the last action ends the run with `EnvironmentError`.
    pub fn step(&mut self, ev: Event) -> (r: Action)
        requires
            old(self).wf(),
        ensures
            final(self).wf(),
            r is Fail ==> final(self).stage == Stage::Over,
            r is Done ==> final(self).stage == Stage::Over,
            r is WriteManifest ==> final(self).stage == Stage::Write,
            match (old(self).stage, ev) {
                (Stage::CacheHome, Event::CacheHome(None)) => r == Action::Fail(
                    RunError::EnvironmentError,
                ),
                (Stage::CacheHome, Event::CacheHome(Some(h))) => r matches Action::ListRegistry(d)
                    && d@ == joined(h@, REGISTRY_SRC@),
                (Stage::Listing, Event::Listing(None)) => r == Action::Fail(
                    RunError::EnvironmentError,
                ),
                (Stage::Listing, Event::Listing(Some(dirs))) => {
                    let p = old(self).plan.unwrap();
                    match candidate(old(self).root@, names_of(dirs@), p.name@, p.version@) {
                        None => r == Action::Fail(RunError::CacheDirNotFound),
                        Some(c) => r matches Action::CheckCandidate(q) && q@ == c,
                    }
                },
                (Stage::Check, Event::CandidateExists(false)) => r == Action::Fail(
                    RunError::CacheDirNotFound,
                ),
                (Stage::Check, Event::CandidateExists(true)) => r == Action::CopySources(
                    old(self).candidate,
                ),
                (Stage::Copy, Event::Copied(None)) => r == Action::Fail(RunError::CopyFailed),
                (Stage::Copy, Event::Copied(Some(dest))) => r matches Action::WriteManifest(t)
                    && rewritten_text(old(self).plan.unwrap(), dest@, t@),
                (Stage::Write, Event::Written(true)) => r == Action::Done,
                (Stage::Write, Event::Written(false)) => r == Action::Fail(RunError::WriteFailed),
                _ => r == Action::Fail(RunError::EnvironmentError),
            },
    {
        let stage = self.stage;
        match (stage, ev) {
            (Stage::CacheHome, Event::CacheHome(home)) => match registry_root(home) {
                Ok(root) => {
                    self.root = root.clone();
                    self.stage = Stage::Listing;
                    Action::ListRegistry(root)
                },
                Err(e) => {
                    self.stage = Stage::Over;
                    Action::Fail(e)
                },
            },
            (Stage::Listing, Event::Listing(Some(dirs))) => {
                let found = match &self.plan {
                    Some(p) => candidate_path(
                        self.root.as_str(),
                        &dirs,
                        p.name.as_str(),
                        p.version.as_str(),
                    ),
                    None => None,
                };
                match found {
                    Some(c) => {
                        self.candidate = c.clone();
                        self.stage = Stage::Check;
                        Action::CheckCandidate(c)
                    },
                    None => {
                        self.stage = Stage::Over;
                        Action::Fail(RunError::CacheDirNotFound)
                    },
                }
            },
            (Stage::Check, Event::CandidateExists(true)) => {
                self.stage = Stage::Copy;
                Action::CopySources(self.candidate.clone())
            },
            (Stage::Check, Event::CandidateExists(false)) => {
                self.stage = Stage::Over;
                Action::Fail(RunError::CacheDirNotFound)
            },
            (Stage::Copy, Event::Copied(Some(dest))) => {
                let p = self.plan.take();
                match p {
                    Some(p) => match p.finish(dest.as_str()) {
                        Ok(t) => {
                            self.stage = Stage::Write;
                            Action::WriteManifest(t)
                        },
                        Err(e) => {
                            self.stage = Stage::Over;
                            Action::Fail(e)
                        },
                    },
                    None => {
                        self.stage = Stage::Over;
                        Action::Fail(RunError::EnvironmentError)
                    },
                }
            },
            (Stage::Copy, Event::Copied(None)) => {
                self.stage = Stage::Over;
                Action::Fail(RunError::CopyFailed)
            },
            (Stage::Write, Event::Written(ok)) => {
                self.stage = Stage::Over;
                if ok {
                    Action::Done
                } else {
                    Action::Fail(RunError::WriteFailed)
                }
            },
            _ => {
                self.stage = Stage::Over;
                Action::Fail(RunError::EnvironmentError)
            },
        }
    }
}

} // verus!
