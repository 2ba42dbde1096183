//! The dependency scanner: finds the manifests of the Rust, Node.js, Python
//! and Go ecosystems below a directory, reads the dependencies that they
//! declare, and renders the summary.
//!
//! The scanner reads no file. The caller walks the tree, reads each file
//! that [`detect_dependency_file`] takes for a manifest, and hands over the
//! paths with what was read.

pub mod document;
pub mod go;
pub mod node;
pub mod python;
pub mod rust;
pub mod summary;

pub use crate::scanner::deps::summary::display_results;

use crate::scanner::deps::go::{go_mod, parse_go_mod};
use crate::scanner::deps::node::{package_json, parse_package_json};
use crate::scanner::deps::python::{
    parse_pipfile, parse_pyproject_toml, parse_requirements_txt, pipfile, pyproject_toml,
    requirements,
};
use crate::scanner::deps::rust::{cargo_toml, join_readings, join_results, parse_cargo_toml, reads_as};
use crate::text::same_text;
use crate::utils::fs::{
    file_name, is_among, join, joined, name_of, parent, parent_of, texts,
};
use vstd::prelude::*;

verus! {

/// Why the dependencies of a project could not be read.
#[derive(Debug)]
pub enum DependencyError {
    /// A manifest could not be read; the message is the system's.
    FileRead(String),
    /// A manifest is not TOML, or not of the expected shape.
    TomlParse(String),
    /// A manifest is not JSON, or not of the expected shape.
    JsonParse(String),
    /// A version is no semantic version.
    SemverParse(String),
    /// A manifest is of a format that is not read.
    UnsupportedFormat(String),
}

/// What a [`DependencyError`] stands for.
pub enum ErrorView {
    FileRead(Seq<char>),
    TomlParse(Seq<char>),
    JsonParse(Seq<char>),
    SemverParse(Seq<char>),
    UnsupportedFormat(Seq<char>),
}

impl View for DependencyError {
    type V = ErrorView;

    open spec fn view(&self) -> ErrorView {
        match self {
            DependencyError::FileRead(m) => ErrorView::FileRead(m@),
            DependencyError::TomlParse(m) => ErrorView::TomlParse(m@),
            DependencyError::JsonParse(m) => ErrorView::JsonParse(m@),
            DependencyError::SemverParse(m) => ErrorView::SemverParse(m@),
            DependencyError::UnsupportedFormat(m) => ErrorView::UnsupportedFormat(m@),
        }
    }
}

impl ErrorView {
    /// The error in words.
    pub open spec fn text(self) -> Seq<char> {
        match self {
            ErrorView::FileRead(m) => "Failed to read file: "@ + m,
            ErrorView::TomlParse(m) => "Failed to parse TOML: "@ + m,
            ErrorView::JsonParse(m) => "Failed to parse JSON: "@ + m,
            ErrorView::SemverParse(m) => "Invalid semver version: "@ + m,
            ErrorView::UnsupportedFormat(m) => "Unsupported file format: "@ + m,
        }
    }
}

impl DependencyError {
    /// The error in words.
    pub fn to_string(&self) -> (s: String)
        ensures
            s@ == self@.text(),
    {
        let (mut s, m) = match self {
            DependencyError::FileRead(m) => ("Failed to read file: ".to_owned(), m),
            DependencyError::TomlParse(m) => ("Failed to parse TOML: ".to_owned(), m),
            DependencyError::JsonParse(m) => ("Failed to parse JSON: ".to_owned(), m),
            DependencyError::SemverParse(m) => ("Invalid semver version: ".to_owned(), m),
            DependencyError::UnsupportedFormat(m) => ("Unsupported file format: ".to_owned(), m),
        };
        s.append(m.as_str());
        s
    }
}

/// What a dependency is needed for.
#[derive(Debug, Clone, Copy, PartialEq, Eq, Structural)]
pub enum DependencyType {
    /// Needed when the program runs.
    Runtime,
    /// Needed while the program is developed.
    Development,
    /// Needed while the program is built.
    Build,
    /// Needed only where a feature asks for it.
    Optional,
}

/// The ecosystems whose manifests are read.
#[derive(Debug, Clone, Copy, PartialEq, Eq, Hash, Structural)]
pub enum Ecosystem {
    /// Rust, with `Cargo.toml`.
    Rust,
    /// Node.js, with `package.json`.
    NodeJs,
    /// Python, with `requirements.txt`, `Pipfile` and `pyproject.toml`.
    Python,
    /// Go, with `go.mod`.
    Go,
}

impl Ecosystem {
    /// The ecosystem's name.
    pub open spec fn name(self) -> Seq<char> {
        match self {
            Ecosystem::Rust => "Rust"@,
            Ecosystem::NodeJs => "Node.js"@,
            Ecosystem::Python => "Python"@,
            Ecosystem::Go => "Go"@,
        }
    }

    /// The ecosystem's name.
    pub fn to_string(&self) -> (s: String)
        ensures
            s@ == self.name(),
    {
        match self {
            Ecosystem::Rust => "Rust".to_owned(),
            Ecosystem::NodeJs => "Node.js".to_owned(),
            Ecosystem::Python => "Python".to_owned(),
            Ecosystem::Go => "Go".to_owned(),
        }
    }
}

/// A dependency that a manifest declares.
#[derive(Debug, Clone)]
pub struct Dependency {
    /// The package's name.
    pub name: String,
    /// The version that the manifest asks for, `*` where it names none.
    pub version: String,
    /// What the dependency is needed for.
    pub dependency_type: DependencyType,
    /// The ecosystem of the manifest.
    pub ecosystem: Ecosystem,
    /// The manifest's path.
    pub source_file: String,
}

/// What a [`Dependency`] stands for.
pub struct DepView {
    pub name: Seq<char>,
    pub version: Seq<char>,
    pub dependency_type: DependencyType,
    pub ecosystem: Ecosystem,
    pub source_file: Seq<char>,
}

impl View for Dependency {
    type V = DepView;

    open spec fn view(&self) -> DepView {
        DepView {
            name: self.name@,
            version: self.version@,
            dependency_type: self.dependency_type,
            ecosystem: self.ecosystem,
            source_file: self.source_file@,
        }
    }
}

/// The views of a sequence of dependencies.
pub open spec fn dep_views(deps: Seq<Dependency>) -> Seq<DepView> {
    deps.map_values(|d: Dependency| d@)
}

/// What the scan found in one project.
#[derive(Debug, Clone)]
pub struct DependencyReport {
    /// The project's directory.
    pub project_path: String,
    /// The dependencies that its manifests declare.
    pub dependencies: Vec<Dependency>,
    /// The ecosystems whose manifests it holds.
    pub ecosystems: Vec<Ecosystem>,
    /// What went wrong while its manifests were read.
    pub errors: Vec<String>,
}

/// What a [`DependencyReport`] stands for.
pub struct ReportView {
    pub project_path: Seq<char>,
    pub dependencies: Seq<DepView>,
    pub ecosystems: Seq<Ecosystem>,
    pub errors: Seq<Seq<char>>,
}

impl View for DependencyReport {
    type V = ReportView;

    open spec fn view(&self) -> ReportView {
        ReportView {
            project_path: self.project_path@,
            dependencies: dep_views(self.dependencies@),
            ecosystems: self.ecosystems@,
            errors: texts(self.errors@),
        }
    }
}

/// The views of a sequence of reports.
pub open spec fn report_views(reports: Seq<DependencyReport>) -> Seq<ReportView> {
    reports.map_values(|r: DependencyReport| r@)
}

/// The ecosystem whose manifests bear the file name `name`.
pub open spec fn manifest_ecosystem(name: Seq<char>) -> Option<Ecosystem> {
    if name == "Cargo.toml"@ {
        Some(Ecosystem::Rust)
    } else if name == "package.json"@ {
        Some(Ecosystem::NodeJs)
    } else if name == "requirements.txt"@ || name == "Pipfile"@ || name == "pyproject.toml"@ {
        Some(Ecosystem::Python)
    } else if name == "go.mod"@ {
        Some(Ecosystem::Go)
    } else {
        None
    }
}

/// The ecosystem of the manifest that `path` leads to, if it leads to one.
pub open spec fn detected(path: Seq<char>) -> Option<Ecosystem> {
    match name_of(path) {
        Some(name) => manifest_ecosystem(name),
        None => None,
    }
}

/// Tells whether `path` leads to a manifest, and of which ecosystem.
pub fn detect_dependency_file(path: &str) -> (r: Option<Ecosystem>)
    ensures
        r == detected(path@),
{
    match file_name(path) {
        Some(name) => {
            let name = name.as_str();
            if same_text(name, "Cargo.toml") {
                Some(Ecosystem::Rust)
            } else if same_text(name, "package.json") {
                Some(Ecosystem::NodeJs)
            } else if same_text(name, "requirements.txt") || same_text(name, "Pipfile")
                || same_text(name, "pyproject.toml") {
                Some(Ecosystem::Python)
            } else if same_text(name, "go.mod") {
                Some(Ecosystem::Go)
            } else {
                None
            }
        },
        None => None,
    }
}

/// A manifest that the walk met: its path, and its text or the reason why
/// it could not be read.
#[derive(Debug)]
pub struct ManifestFile {
    /// The file's path.
    pub path: String,
    /// What the file holds, or the system's message where reading failed.
    pub content: Result<String, String>,
}

/// What a [`ManifestFile`] stands for.
pub struct ManifestView {
    pub path: Seq<char>,
    pub content: Result<Seq<char>, Seq<char>>,
}

impl View for ManifestFile {
    type V = ManifestView;

    open spec fn view(&self) -> ManifestView {
        ManifestView {
            path: self.path@,
            content: match self.content {
                Ok(text) => Ok(text@),
                Err(message) => Err(message@),
            },
        }
    }
}

/// The views of a sequence of manifests.
pub open spec fn manifest_views(files: Seq<ManifestFile>) -> Seq<ManifestView> {
    files.map_values(|f: ManifestFile| f@)
}

/// The first of `files` with the path `path`.
pub open spec fn file_at(files: Seq<ManifestView>, path: Seq<char>) -> Option<ManifestView>
    decreases files.len(),
{
    if files.len() == 0 {
        None
    } else if files[0].path == path {
        Some(files[0])
    } else {
        file_at(files.drop_first(), path)
    }
}

fn find_file<'a>(files: &'a Vec<ManifestFile>, path: &str) -> (r: Option<&'a ManifestFile>)
    ensures
        match r {
            Some(f) => file_at(manifest_views(files@), path@) == Some(f@),
            None => file_at(manifest_views(files@), path@) is None,
        },
{
    let ghost views = manifest_views(files@);
    let mut i: usize = 0;
    assert(views.skip(0) =~= views);
    while i < files.len()
        invariant
            i <= files.len(),
            views == manifest_views(files@),
            file_at(views, path@) == file_at(views.skip(i as int), path@),
        decreases files.len() - i,
    {
        if same_text(files[i].path.as_str(), path) {
            return Some(&files[i]);
        }
        assert(views.skip(i as int).drop_first() =~= views.skip(i + 1));
        i += 1;
    }
    None
}

/// Whether the directory `root` holds a manifest named `name`.
pub open spec fn holds(files: Seq<ManifestView>, root: Seq<char>, name: Seq<char>) -> bool {
    file_at(files, joined(root, name)) is Some
}

/// One ecosystem, if the condition holds.
pub open spec fn given(condition: bool, ecosystem: Ecosystem) -> Seq<Ecosystem> {
    if condition {
        seq![ecosystem]
    } else {
        seq![]
    }
}

/// The ecosystems whose manifests the directory `root` holds, in the order
/// Rust, Node.js, Python, Go.
pub open spec fn ecosystems_in(files: Seq<ManifestView>, root: Seq<char>) -> Seq<Ecosystem> {
    given(holds(files, root, "Cargo.toml"@), Ecosystem::Rust) + given(
        holds(files, root, "package.json"@),
        Ecosystem::NodeJs,
    ) + given(
        holds(files, root, "requirements.txt"@) || holds(files, root, "Pipfile"@) || holds(
            files,
            root,
            "pyproject.toml"@,
        ),
        Ecosystem::Python,
    ) + given(holds(files, root, "go.mod"@), Ecosystem::Go)
}

fn holds_file(files: &Vec<ManifestFile>, root: &str, name: &str) -> (r: bool)
    ensures
        r == holds(manifest_views(files@), root@, name@),
{
    let path = join(root, name);
    find_file(files, path.as_str()).is_some()
}

/// Tells which ecosystems have a manifest in the directory `project_path`.
pub fn detect_all_ecosystems(files: &Vec<ManifestFile>, project_path: &str) -> (r: Vec<Ecosystem>)
    ensures
        r@ == ecosystems_in(manifest_views(files@), project_path@),
{
    let mut r: Vec<Ecosystem> = Vec::new();
    if holds_file(files, project_path, "Cargo.toml") {
        r.push(Ecosystem::Rust);
    }
    if holds_file(files, project_path, "package.json") {
        r.push(Ecosystem::NodeJs);
    }
    if holds_file(files, project_path, "requirements.txt") || holds_file(
        files,
        project_path,
        "Pipfile",
    ) || holds_file(files, project_path, "pyproject.toml") {
        r.push(Ecosystem::Python);
    }
    if holds_file(files, project_path, "go.mod") {
        r.push(Ecosystem::Go);
    }
    assert(r@ =~= ecosystems_in(manifest_views(files@), project_path@));
    r
}

/// The formats of the manifests.
#[derive(Debug, Clone, Copy, PartialEq, Eq, Structural)]
pub enum Format {
    CargoToml,
    PackageJson,
    RequirementsTxt,
    PyprojectToml,
    Pipfile,
    GoMod,
}

impl Format {
    /// The file name that manifests of this format bear.
    pub open spec fn file(self) -> Seq<char> {
        match self {
            Format::CargoToml => "Cargo.toml"@,
            Format::PackageJson => "package.json"@,
            Format::RequirementsTxt => "requirements.txt"@,
            Format::PyprojectToml => "pyproject.toml"@,
            Format::Pipfile => "Pipfile"@,
            Format::GoMod => "go.mod"@,
        }
    }

    /// The file name that manifests of this format bear.
    pub fn file_name(&self) -> (name: &'static str)
        ensures
            name@ == self.file(),
    {
        match self {
            Format::CargoToml => "Cargo.toml",
            Format::PackageJson => "package.json",
            Format::RequirementsTxt => "requirements.txt",
            Format::PyprojectToml => "pyproject.toml",
            Format::Pipfile => "Pipfile",
            Format::GoMod => "go.mod",
        }
    }
}

/// The dependencies that a manifest of the format `format` with the text
/// `text` declares.
pub open spec fn declared(format: Format, text: Seq<char>, source: Seq<char>) -> Result<
    Seq<DepView>,
    ErrorView,
> {
    match format {
        Format::CargoToml => cargo_toml(text, source),
        Format::PackageJson => package_json(text, source),
        Format::RequirementsTxt => Ok(requirements(text, source)),
        Format::PyprojectToml => pyproject_toml(text, source),
        Format::Pipfile => pipfile(text, source),
        Format::GoMod => Ok(go_mod(text, source)),
    }
}

/// Reads the text of a manifest of the format `format`.
pub fn parse_manifest(format: Format, content: &str, source_file: &str) -> (r: Result<
    Vec<Dependency>,
    DependencyError,
>)
    ensures
        reads_as(r, declared(format, content@, source_file@)),
{
    match format {
        Format::CargoToml => parse_cargo_toml(content, source_file),
        Format::PackageJson => parse_package_json(content, source_file),
        Format::RequirementsTxt => parse_requirements_txt(content, source_file),
        Format::PyprojectToml => parse_pyproject_toml(content, source_file),
        Format::Pipfile => parse_pipfile(content, source_file),
        Format::GoMod => parse_go_mod(content, source_file),
    }
}

/// What is said of a manifest that is to be read and was not met.
pub open spec fn missing_message(path: Seq<char>) -> Seq<char> {
    "no such file: "@ + path
}

/// The dependencies that the manifest of the format `format` in the
/// directory `root` declares. A manifest that could not be read gives the
/// system's message. Where `needed` is not set, a directory without the
/// manifest declares nothing.
pub open spec fn manifest_dependencies(
    files: Seq<ManifestView>,
    root: Seq<char>,
    format: Format,
    needed: bool,
) -> Result<Seq<DepView>, ErrorView> {
    let path = joined(root, format.file());
    match file_at(files, path) {
        None => if needed {
            Err(ErrorView::FileRead(missing_message(path)))
        } else {
            Ok(seq![])
        },
        Some(file) => match file.content {
            Err(message) => Err(ErrorView::FileRead(message)),
            Ok(text) => declared(format, text, path),
        },
    }
}

fn read_manifest(files: &Vec<ManifestFile>, root: &str, format: Format, needed: bool) -> (r:
    Result<Vec<Dependency>, DependencyError>)
    ensures
        reads_as(r, manifest_dependencies(manifest_views(files@), root@, format, needed)),
{
    let path = join(root, format.file_name());
    match find_file(files, path.as_str()) {
        None => {
            if needed {
                let mut message = "no such file: ".to_owned();
                message.append(path.as_str());
                Err(DependencyError::FileRead(message))
            } else {
                let deps: Vec<Dependency> = Vec::new();
                assert(dep_views(deps@) =~= Seq::<DepView>::empty());
                Ok(deps)
            }
        },
        Some(file) => match &file.content {
            Err(message) => Err(DependencyError::FileRead(message.clone())),
            Ok(text) => parse_manifest(format, text.as_str(), path.as_str()),
        },
    }
}

/// The dependencies that the Python manifests in the directory `root`
/// declare: those of `requirements.txt`, then of `pyproject.toml`, then of
/// `Pipfile`, as far as the directory holds them.
pub open spec fn python_dependencies(files: Seq<ManifestView>, root: Seq<char>) -> Result<
    Seq<DepView>,
    ErrorView,
> {
    join_results(
        join_results(
            manifest_dependencies(files, root, Format::RequirementsTxt, false),
            manifest_dependencies(files, root, Format::PyprojectToml, false),
        ),
        manifest_dependencies(files, root, Format::Pipfile, false),
    )
}

/// Reads the Python manifests in the directory `project_path`.
pub fn parse_python_dependencies(files: &Vec<ManifestFile>, project_path: &str) -> (r: Result<
    Vec<Dependency>,
    DependencyError,
>)
    ensures
        reads_as(r, python_dependencies(manifest_views(files@), project_path@)),
{
    let a = read_manifest(files, project_path, Format::RequirementsTxt, false);
    let b = read_manifest(files, project_path, Format::PyprojectToml, false);
    let c = read_manifest(files, project_path, Format::Pipfile, false);
    join_readings(join_readings(a, b), c)
}

/// The dependencies that the manifests of `ecosystem` in the directory
/// `root` declare.
pub open spec fn project_dependencies(
    files: Seq<ManifestView>,
    root: Seq<char>,
    ecosystem: Ecosystem,
) -> Result<Seq<DepView>, ErrorView> {
    match ecosystem {
        Ecosystem::Rust => manifest_dependencies(files, root, Format::CargoToml, true),
        Ecosystem::NodeJs => manifest_dependencies(files, root, Format::PackageJson, true),
        Ecosystem::Python => python_dependencies(files, root),
        Ecosystem::Go => manifest_dependencies(files, root, Format::GoMod, true),
    }
}

/// Reads the manifests of `ecosystem` in the directory `project_path`.
pub fn parse_dependencies(files: &Vec<ManifestFile>, project_path: &str, ecosystem: Ecosystem)
    -> (r: Result<Vec<Dependency>, DependencyError>)
    ensures
        reads_as(r, project_dependencies(manifest_views(files@), project_path@, ecosystem)),
{
    match ecosystem {
        Ecosystem::Rust => read_manifest(files, project_path, Format::CargoToml, true),
        Ecosystem::NodeJs => read_manifest(files, project_path, Format::PackageJson, true),
        Ecosystem::Python => parse_python_dependencies(files, project_path),
        Ecosystem::Go => read_manifest(files, project_path, Format::GoMod, true),
    }
}

/// What a project gives at first: the dependencies of its primary
/// ecosystem and the ecosystems that it holds, or the error of its primary
/// ecosystem.
pub open spec fn first_reading(files: Seq<ManifestView>, root: Seq<char>, primary: Ecosystem)
    -> Result<ReportView, ErrorView> {
    match project_dependencies(files, root, primary) {
        Err(e) => Err(e),
        Ok(deps) => Ok(
            ReportView {
                project_path: root,
                dependencies: deps,
                ecosystems: ecosystems_in(files, root),
                errors: seq![],
            },
        ),
    }
}

/// Reads the manifests of the primary ecosystem of a project and tells
/// which ecosystems the project holds.
pub fn scan_project(files: &Vec<ManifestFile>, project_path: &str, primary_ecosystem: Ecosystem)
    -> (r: Result<DependencyReport, DependencyError>)
    ensures
        match r {
            Ok(report) => first_reading(
                manifest_views(files@),
                project_path@,
                primary_ecosystem,
            ) == Ok::<ReportView, ErrorView>(report@),
            Err(e) => first_reading(manifest_views(files@), project_path@, primary_ecosystem)
                == Err::<ReportView, ErrorView>(e@),
        },
{
    match parse_dependencies(files, project_path, primary_ecosystem) {
        Err(e) => Err(e),
        Ok(dependencies) => {
            let ecosystems = detect_all_ecosystems(files, project_path);
            let errors: Vec<String> = Vec::new();
            assert(texts(errors@) =~= Seq::<Seq<char>>::empty());
            Ok(
                DependencyReport {
                    project_path: project_path.to_owned(),
                    dependencies,
                    ecosystems,
                    errors,
                },
            )
        },
    }
}

/// What the manifests of further ecosystems add to a report.
pub struct Addition {
    pub dependencies: Seq<DepView>,
    pub errors: Seq<Seq<char>>,
}

/// What the ecosystems `others`, the primary one left out, add to the
/// report on the project in `root`: the dependencies of each ecosystem
/// whose manifests can be read, and the error, in words, of each whose
/// manifests cannot.
pub open spec fn additional(
    files: Seq<ManifestView>,
    root: Seq<char>,
    primary: Ecosystem,
    others: Seq<Ecosystem>,
) -> Addition
    decreases others.len(),
{
    if others.len() == 0 {
        Addition { dependencies: seq![], errors: seq![] }
    } else {
        let before = additional(files, root, primary, others.drop_last());
        if others.last() == primary {
            before
        } else {
            match project_dependencies(files, root, others.last()) {
                Ok(deps) => Addition { dependencies: before.dependencies + deps, ..before },
                Err(e) => Addition { errors: before.errors.push(e.text()), ..before },
            }
        }
    }
}

/// The report on the project in the directory `root` whose first manifest
/// is of the ecosystem `primary`.
///
/// Where the manifests of the primary ecosystem cannot be read, the report
/// holds the error and names that ecosystem alone. Else it holds the
/// dependencies of the primary ecosystem, then those of the other
/// ecosystems that the directory holds, and an error for each of these
/// whose manifests cannot be read, in the order of the ecosystems.
pub open spec fn project_report(files: Seq<ManifestView>, root: Seq<char>, primary: Ecosystem)
    -> ReportView {
    match first_reading(files, root, primary) {
        Err(e) => ReportView {
            project_path: root,
            dependencies: seq![],
            ecosystems: seq![primary],
            errors: seq![e.text()],
        },
        Ok(report) => {
            let more = additional(files, root, primary, report.ecosystems);
            ReportView {
                dependencies: report.dependencies + more.dependencies,
                errors: more.errors,
                ..report
            }
        },
    }
}

fn report_project(files: &Vec<ManifestFile>, root: &str, primary: Ecosystem) -> (r:
    DependencyReport)
    ensures
        r@ == project_report(manifest_views(files@), root@, primary),
{
    let ghost views = manifest_views(files@);
    match scan_project(files, root, primary) {
        Err(e) => {
            let dependencies: Vec<Dependency> = Vec::new();
            let mut ecosystems: Vec<Ecosystem> = Vec::new();
            ecosystems.push(primary);
            let mut errors: Vec<String> = Vec::new();
            errors.push(e.to_string());
            assert(dep_views(dependencies@) =~= Seq::<DepView>::empty());
            assert(texts(errors@) =~= seq![e@.text()]);
            assert(ecosystems@ =~= seq![primary]);
            DependencyReport { project_path: root.to_owned(), dependencies, ecosystems, errors }
        },
        Ok(mut report) => {
            let ghost first = report@;
            let mut i: usize = 0;
            assert(report.ecosystems@.take(0) =~= Seq::<Ecosystem>::empty());
            assert(first.dependencies + Seq::<DepView>::empty() =~= first.dependencies);
            assert(first.errors =~= Seq::<Seq<char>>::empty());
            while i < report.ecosystems.len()
                invariant
                    i <= report.ecosystems.len(),
                    views == manifest_views(files@),
                    report.project_path@ == first.project_path,
                    first.project_path == root@,
                    report.ecosystems@ == first.ecosystems,
                    texts(report.errors@) == additional(
                        views,
                        root@,
                        primary,
                        first.ecosystems.take(i as int),
                    ).errors,
                    dep_views(report.dependencies@) == first.dependencies + additional(
                        views,
                        root@,
                        primary,
                        first.ecosystems.take(i as int),
                    ).dependencies,
                decreases report.ecosystems.len() - i,
            {
                let ecosystem = report.ecosystems[i];
                proof {
                    assert(first.ecosystems.take(i + 1).drop_last() =~= first.ecosystems.take(
                        i as int,
                    ));
                    assert(first.ecosystems.take(i + 1).last() == ecosystem);
                }
                let ghost before = report.dependencies@;
                let ghost errors_before = report.errors@;
                let ghost so_far = additional(
                    views,
                    root@,
                    primary,
                    first.ecosystems.take(i as int),
                );
                if ecosystem != primary {
                    match parse_dependencies(files, root, ecosystem) {
                        Ok(mut more) => {
                            let ghost added = more@;
                            report.dependencies.append(&mut more);
                            assert(dep_views(report.dependencies@) =~= dep_views(before)
                                + dep_views(added));
                            assert(first.dependencies + so_far.dependencies + dep_views(added)
                                =~= first.dependencies + (so_far.dependencies + dep_views(
                                added,
                            )));
                        },
                        Err(e) => {
                            let message = e.to_string();
                            report.errors.push(message);
                            assert(texts(report.errors@) =~= texts(errors_before).push(
                                e@.text(),
                            ));
                        },
                    }
                }
                i += 1;
            }
            assert(first.ecosystems.take(report.ecosystems.len() as int) =~= first.ecosystems);
            report
        },
    }
}

/// The project that a manifest belongs to: its directory, with the
/// manifest's ecosystem.
pub open spec fn project_of(file: ManifestView) -> Option<(Seq<char>, Ecosystem)> {
    match detected(file.path) {
        Some(ecosystem) => match parent_of(file.path) {
            Some(root) => Some((root, ecosystem)),
            None => None,
        },
        None => None,
    }
}

/// The directories of the projects that the first `n` of `files` belong
/// to, each once, in the order in which they were met.
pub open spec fn projects_among(files: Seq<ManifestView>, n: nat) -> Seq<Seq<char>>
    decreases n,
{
    if n == 0 {
        seq![]
    } else {
        let before = projects_among(files, (n - 1) as nat);
        match project_of(files[n - 1]) {
            Some((root, _)) => if before.contains(root) {
                before
            } else {
                before.push(root)
            },
            None => before,
        }
    }
}

/// The reports on the projects that the first `n` of `files` belong to. A
/// project is reported where the first of its manifests stands, and that
/// manifest's ecosystem is its primary one.
pub open spec fn reports_among(files: Seq<ManifestView>, n: nat) -> Seq<ReportView>
    decreases n,
{
    if n == 0 {
        seq![]
    } else {
        let before = reports_among(files, (n - 1) as nat);
        match project_of(files[n - 1]) {
            Some((root, ecosystem)) => if projects_among(files, (n - 1) as nat).contains(root) {
                before
            } else {
                before.push(project_report(files, root, ecosystem))
            },
            None => before,
        }
    }
}

/// The reports on the projects that `files` belong to.
pub open spec fn scan(files: Seq<ManifestView>) -> Seq<ReportView> {
    reports_among(files, files.len())
}

/// Reads the dependencies of the projects to which the manifests `files`
/// belong, the manifests given in the order in which the walk met them.
pub fn scan_dependencies(files: &Vec<ManifestFile>) -> (r: Result<
    Vec<DependencyReport>,
    DependencyError,
>)
    ensures
        r matches Ok(reports) && report_views(reports@) == scan(manifest_views(files@)),
{
    let ghost views = manifest_views(files@);
    let mut reports: Vec<DependencyReport> = Vec::new();
    let mut visited: Vec<String> = Vec::new();
    let mut i: usize = 0;
    assert(report_views(reports@) =~= Seq::<ReportView>::empty());
    assert(texts(visited@) =~= Seq::<Seq<char>>::empty());
    while i < files.len()
        invariant
            i <= files.len(),
            views == manifest_views(files@),
            texts(visited@) == projects_among(views, i as nat),
            report_views(reports@) == reports_among(views, i as nat),
        decreases files.len() - i,
    {
        let path = files[i].path.as_str();
        assert(views[i as int] == files@[i as int]@);
        match detect_dependency_file(path) {
            Some(ecosystem) => match parent(path) {
                Some(root) => {
                    if !is_among(&visited, root.as_str()) {
                        let ghost roots_before = visited@;
                        let ghost reports_before = reports@;
                        let report = report_project(files, root.as_str(), ecosystem);
                        reports.push(report);
                        visited.push(root);
                        assert(texts(visited@) =~= texts(roots_before).push(root@));
                        assert(report_views(reports@) =~= report_views(reports_before).push(
                            report@,
                        ));
                    }
                },
                None => {},
            },
            None => {},
        }
        i += 1;
    }
    Ok(reports)
}

} // verus!
