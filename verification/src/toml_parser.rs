//! The manifest of a project: its schema, the value that the commands work
//! on, and the step from what was read to that value.
//!
//! Encoding and decoding of the manifest's text is not done here. The
//! caller decodes the file into a `RawManifest`, in which every field may
//! be absent, and encodes the `RawManifest` it gets back.

use crate::dependencies::{distinct_names, plain, Dependency, DependencyMap, Entries};
use crate::error::{ErrorKind, SopError};
use crate::text::{clone_texts, owned, texts};
use vstd::prelude::*;
use vstd::string::*;

verus! {

/// The `[project]` table of a manifest.
#[derive(Clone, Debug, PartialEq, Eq)]
pub struct ProjectConfig {
    pub name: String,
    pub version: String,
    pub status: String,
    pub description: String,
    pub license: String,
    pub author: String,
    pub repository: String,
    pub homepage: String,
    pub entry: String,
    pub keywords: Vec<String>,
    pub categories: Vec<String>,
}

/// A manifest: the project, and the packages it depends on.
#[derive(Clone, Debug, PartialEq, Eq)]
pub struct SopToml {
    pub project: ProjectConfig,
    pub dependencies: Option<DependencyMap>,
}

/// A `[project]` table as plain values.
#[verifier::ext_equal]
pub struct Project {
    pub name: Seq<char>,
    pub version: Seq<char>,
    pub status: Seq<char>,
    pub description: Seq<char>,
    pub license: Seq<char>,
    pub author: Seq<char>,
    pub repository: Seq<char>,
    pub homepage: Seq<char>,
    pub entry: Seq<char>,
    pub keywords: Seq<Seq<char>>,
    pub categories: Seq<Seq<char>>,
}

/// A manifest as plain values.
#[verifier::ext_equal]
pub struct Manifest {
    pub project: Project,
    pub dependencies: Option<Entries>,
}

impl View for ProjectConfig {
    type V = Project;

    open spec fn view(&self) -> Project {
        Project {
            name: self.name@,
            version: self.version@,
            status: self.status@,
            description: self.description@,
            license: self.license@,
            author: self.author@,
            repository: self.repository@,
            homepage: self.homepage@,
            entry: self.entry@,
            keywords: texts(self.keywords@),
            categories: texts(self.categories@),
        }
    }
}

impl View for SopToml {
    type V = Manifest;

    open spec fn view(&self) -> Manifest {
        Manifest {
            project: self.project@,
            dependencies: match self.dependencies {
                Some(map) => Some(map.entries()),
                None => None,
            },
        }
    }
}

impl SopToml {
    /// The dependencies in order; none where the manifest has no
    /// `[dependencies]` table.
    pub open spec fn entries(&self) -> Entries {
        match self.dependencies {
            Some(map) => map.entries(),
            None => Seq::empty(),
        }
    }
}

/// The manifest of a new project: version `1.0.0`, entry `src/main.so`,
/// no dependencies, everything else empty.
pub open spec fn new_manifest(name: Seq<char>, status: Seq<char>) -> Manifest {
    Manifest {
        project: Project {
            name,
            version: "1.0.0"@,
            status,
            description: Seq::empty(),
            license: Seq::empty(),
            author: Seq::empty(),
            repository: Seq::empty(),
            homepage: Seq::empty(),
            entry: "src/main.so"@,
            keywords: Seq::empty(),
            categories: Seq::empty(),
        },
        dependencies: Some(Seq::empty()),
    }
}

/// The manifest of a new, stable project of the given name.
pub fn create_default_config(name: &str) -> (config: SopToml)
    ensures
        config@ == new_manifest(name@, "stable"@),
{
    let config = SopToml {
        project: ProjectConfig {
            name: owned(name),
            version: owned("1.0.0"),
            status: owned("stable"),
            description: String::new(),
            license: String::new(),
            author: String::new(),
            repository: String::new(),
            homepage: String::new(),
            entry: owned("src/main.so"),
            keywords: Vec::new(),
            categories: Vec::new(),
        },
        dependencies: Some(DependencyMap::new()),
    };
    assert(config@.project.keywords =~= Seq::empty());
    assert(config@.project.categories =~= Seq::empty());
    config
}

/// A `[project]` table as it was read: any field may be absent.
#[derive(Clone, Debug, PartialEq, Eq)]
pub struct RawProject {
    pub name: Option<String>,
    pub version: Option<String>,
    pub status: Option<String>,
    pub description: Option<String>,
    pub license: Option<String>,
    pub author: Option<String>,
    pub repository: Option<String>,
    pub homepage: Option<String>,
    pub entry: Option<String>,
    pub keywords: Option<Vec<String>>,
    pub categories: Option<Vec<String>>,
}

/// A manifest as it was read: any table may be absent, and the
/// dependencies are listed as they stand in the file.
#[derive(Clone, Debug, PartialEq, Eq)]
pub struct RawManifest {
    pub project: Option<RawProject>,
    pub dependencies: Option<Vec<Dependency>>,
}

/// The text of an optional field; empty where the field is absent.
pub open spec fn text_or_empty(field: Option<String>) -> Seq<char> {
    match field {
        Some(text) => text@,
        None => Seq::empty(),
    }
}

/// The items of an optional list; none where the list is absent.
pub open spec fn list_or_empty(field: Option<Vec<String>>) -> Seq<Seq<char>> {
    match field {
        Some(list) => texts(list@),
        None => Seq::empty(),
    }
}

/// What keeps a manifest that was read from being used.
pub enum Flaw {
    /// There is no `[project]` table.
    NoProject,
    /// The project has no name.
    NoName,
    /// The project has no version.
    NoVersion,
    /// The project has no entry script.
    NoEntry,
    /// A package is listed twice under `[dependencies]`.
    RepeatedDependency,
}

impl RawManifest {
    /// The first thing that is wrong with the manifest, if anything is.
    /// Name, version and entry of the project are required; every other
    /// field may be left out.
    pub open spec fn flaw(&self) -> Option<Flaw> {
        match self.project {
            None => Some(Flaw::NoProject),
            Some(project) => if project.name is None {
                Some(Flaw::NoName)
            } else if project.version is None {
                Some(Flaw::NoVersion)
            } else if project.entry is None {
                Some(Flaw::NoEntry)
            } else if self.dependencies is Some && !distinct_names(
                plain(self.dependencies->0@),
            ) {
                Some(Flaw::RepeatedDependency)
            } else {
                None
            },
        }
    }

    /// The manifest that was read, absent fields filled with their
    /// defaults. Meant for a manifest without a flaw.
    pub open spec fn manifest(&self) -> Manifest {
        let project = self.project->0;
        Manifest {
            project: Project {
                name: text_or_empty(project.name),
                version: text_or_empty(project.version),
                status: text_or_empty(project.status),
                description: text_or_empty(project.description),
                license: text_or_empty(project.license),
                author: text_or_empty(project.author),
                repository: text_or_empty(project.repository),
                homepage: text_or_empty(project.homepage),
                entry: text_or_empty(project.entry),
                keywords: list_or_empty(project.keywords),
                categories: list_or_empty(project.categories),
            },
            dependencies: match self.dependencies {
                Some(list) => Some(plain(list@)),
                None => None,
            },
        }
    }
}

/// The message that tells of a flaw.
pub open spec fn flaw_message(flaw: Flaw) -> Seq<char> {
    match flaw {
        Flaw::NoProject => "missing field `project`"@,
        Flaw::NoName => "missing field `name`"@,
        Flaw::NoVersion => "missing field `version`"@,
        Flaw::NoEntry => "missing field `entry`"@,
        Flaw::RepeatedDependency => "a package is listed twice under `dependencies`"@,
    }
}

/// The message that tells of a manifest that is not where it should be.
pub open spec fn manifest_not_found_message(path: Seq<char>) -> Seq<char> {
    "sop.toml file not found at \""@ + path + "\""@
}

/// What a look for the manifest's file brought.
#[derive(Clone, Debug, PartialEq, Eq)]
pub enum ManifestSource {
    /// No file is at the path.
    Missing,
    /// The file is there but its text is no manifest; the decoder's words.
    Malformed(String),
    /// The file was decoded.
    Parsed(RawManifest),
}

fn parse_error(message: &str) -> (err: SopError)
    ensures
        err.kind == ErrorKind::ParseError,
        err.message@ == message@,
{
    SopError::new(ErrorKind::ParseError, owned(message))
}

fn unwrap_text(field: Option<String>) -> (text: String)
    ensures
        text@ == text_or_empty(field),
{
    match field {
        Some(text) => text,
        None => String::new(),
    }
}

fn unwrap_list(field: Option<Vec<String>>) -> (list: Vec<String>)
    ensures
        texts(list@) == list_or_empty(field),
{
    match field {
        Some(list) => list,
        None => {
            let list: Vec<String> = Vec::new();
            assert(texts(list@) =~= Seq::<Seq<char>>::empty());
            list
        },
    }
}

/// The manifest that a look for its file at `path` brought: `NotFound`
/// where no file is there, `ParseError` where its text is no manifest or
/// the manifest has a flaw, else the manifest with absent fields filled
/// in.
pub fn read_sop_toml(path: &str, source: ManifestSource) -> (loaded: Result<SopToml, SopError>)
    ensures
        match source {
            ManifestSource::Missing => loaded matches Err(e) && e.kind == ErrorKind::NotFound
                && e.message@ == manifest_not_found_message(path@),
            ManifestSource::Malformed(detail) => loaded matches Err(e) && e.kind
                == ErrorKind::ParseError && e.message@ == detail@,
            ManifestSource::Parsed(raw) => match raw.flaw() {
                Some(flaw) => loaded matches Err(e) && e.kind == ErrorKind::ParseError
                    && e.message@ == flaw_message(flaw),
                None => loaded matches Ok(config) && config@ == raw.manifest(),
            },
        },
{
    let raw = match source {
        ManifestSource::Missing => {
            let mut message = owned("sop.toml file not found at \"");
            message.append(path);
            message.append("\"");
            assert(message@ =~= manifest_not_found_message(path@));
            return Err(SopError::new(ErrorKind::NotFound, message));
        },
        ManifestSource::Malformed(detail) => {
            return Err(SopError::new(ErrorKind::ParseError, detail));
        },
        ManifestSource::Parsed(raw) => raw,
    };
    let ghost flaw = raw.flaw();
    let ghost expected = raw.manifest();
    let RawManifest { project, dependencies } = raw;
    let project = match project {
        Some(project) => project,
        None => {
            return Err(parse_error("missing field `project`"));
        },
    };
    let RawProject {
        name,
        version,
        status,
        description,
        license,
        author,
        repository,
        homepage,
        entry,
        keywords,
        categories,
    } = project;
    let name = match name {
        Some(name) => name,
        None => {
            return Err(parse_error("missing field `name`"));
        },
    };
    let version = match version {
        Some(version) => version,
        None => {
            return Err(parse_error("missing field `version`"));
        },
    };
    let entry = match entry {
        Some(entry) => entry,
        None => {
            return Err(parse_error("missing field `entry`"));
        },
    };
    let dependencies = match dependencies {
        Some(list) => match DependencyMap::from_entries(&list) {
            Some(map) => Some(map),
            None => {
                return Err(parse_error("a package is listed twice under `dependencies`"));
            },
        },
        None => None,
    };
    let config = SopToml {
        project: ProjectConfig {
            name,
            version,
            status: unwrap_text(status),
            description: unwrap_text(description),
            license: unwrap_text(license),
            author: unwrap_text(author),
            repository: unwrap_text(repository),
            homepage: unwrap_text(homepage),
            entry,
            keywords: unwrap_list(keywords),
            categories: unwrap_list(categories),
        },
        dependencies,
    };
    assert(config@ =~= expected);
    Ok(config)
}

/// A manifest as it is written: both tables present.
pub open spec fn written(manifest: Manifest) -> Manifest {
    Manifest {
        project: manifest.project,
        dependencies: match manifest.dependencies {
            Some(entries) => Some(entries),
            None => Some(Seq::empty()),
        },
    }
}

/// Writing changes nothing in a manifest that has its dependencies
/// table, and writing what was written changes nothing at all.
pub proof fn lemma_written_is_stable(manifest: Manifest)
    ensures
        manifest.dependencies is Some ==> written(manifest) == manifest,
        written(written(manifest)) == written(manifest),
        written(manifest).project == manifest.project,
{
}

impl RawManifest {
    /// Whether no table and no field is absent.
    pub open spec fn is_complete(&self) -> bool {
        &&& self.dependencies is Some
        &&& self.project matches Some(project)
        &&& project.name is Some
        &&& project.version is Some
        &&& project.status is Some
        &&& project.description is Some
        &&& project.license is Some
        &&& project.author is Some
        &&& project.repository is Some
        &&& project.homepage is Some
        &&& project.entry is Some
        &&& project.keywords is Some
        &&& project.categories is Some
    }
}

/// The manifest as it is handed to the encoder: every field and both
/// tables present, the dependencies in the order they were added. Read
/// again, it has no flaw and is the manifest that was written.
pub fn write_sop_toml(config: &SopToml) -> (raw: RawManifest)
    ensures
        raw.is_complete(),
        raw.flaw() is None,
        raw.manifest() == written(config@),
{
    let dependencies = match &config.dependencies {
        Some(map) => map.to_vec(),
        None => {
            let list: Vec<Dependency> = Vec::new();
            assert(plain(list@) =~= Seq::<(Seq<char>, Seq<char>)>::empty());
            list
        },
    };
    let raw = RawManifest {
        project: Some(
            RawProject {
                name: Some(config.project.name.clone()),
                version: Some(config.project.version.clone()),
                status: Some(config.project.status.clone()),
                description: Some(config.project.description.clone()),
                license: Some(config.project.license.clone()),
                author: Some(config.project.author.clone()),
                repository: Some(config.project.repository.clone()),
                homepage: Some(config.project.homepage.clone()),
                entry: Some(config.project.entry.clone()),
                keywords: Some(clone_texts(&config.project.keywords)),
                categories: Some(clone_texts(&config.project.categories)),
            },
        ),
        dependencies: Some(dependencies),
    };
    assert(raw.manifest().project =~= config@.project);
    assert(raw.manifest() =~= written(config@));
    raw
}

} // verus!
