//! Rust manifests: `Cargo.toml`.
//!
//! The readers of the other TOML and JSON manifests share the reading of a
//! table of dependencies with this one.

use crate::scanner::deps::document::{find, lookup, parse_toml, toml_document, DocValue};
use crate::scanner::deps::{
    dep_views, DepView, Dependency, DependencyError, DependencyType, Ecosystem, ErrorView,
};
use vstd::prelude::*;

verus! {

/// What a document holds under a key that should lead to a table.
pub enum Section {
    /// Nothing, or JSON's `null`.
    Absent,
    /// A table, with its entries.
    Entries(Seq<(String, DocValue)>),
    /// Something that is no table; or the document itself is none.
    Malformed,
}

/// What `doc` holds under `key`.
pub open spec fn section(doc: DocValue, key: Seq<char>) -> Section {
    match doc {
        DocValue::Table(top) => match lookup(top@, key) {
            None => Section::Absent,
            Some(DocValue::Null) => Section::Absent,
            Some(DocValue::Table(entries)) => Section::Entries(entries@),
            Some(_) => Section::Malformed,
        },
        _ => Section::Malformed,
    }
}

/// What is said of a manifest that holds something else under `key` than
/// it should.
pub open spec fn shape_message(key: Seq<char>) -> Seq<char> {
    "invalid type for `"@ + key + "`"@
}

/// The error for a manifest that holds something else under `key` than it
/// should: one of TOML for a TOML manifest, one of JSON for a JSON manifest.
pub open spec fn shape_error(toml: bool, key: Seq<char>) -> ErrorView {
    if toml {
        ErrorView::TomlParse(shape_message(key))
    } else {
        ErrorView::JsonParse(shape_message(key))
    }
}

/// The version that a dependency's value asks for: the value itself where
/// it is a string, what stands under `version` where it is a table that
/// holds a string there, and `*` otherwise.
pub open spec fn version_of(value: DocValue) -> Seq<char> {
    match value {
        DocValue::Text(v) => v@,
        DocValue::Table(entries) => match lookup(entries@, "version"@) {
            Some(DocValue::Text(v)) => v@,
            _ => "*"@,
        },
        _ => "*"@,
    }
}

/// The dependencies that the entries of a table declare, each with the
/// version that its value asks for.
pub open spec fn versioned(
    entries: Seq<(String, DocValue)>,
    kind: DependencyType,
    ecosystem: Ecosystem,
    source: Seq<char>,
) -> Seq<DepView> {
    entries.map_values(
        |e: (String, DocValue)|
            DepView {
                name: e.0@,
                version: version_of(e.1),
                dependency_type: kind,
                ecosystem,
                source_file: source,
            },
    )
}

/// The dependencies that the table under `key` declares; none where the
/// document has no such key.
pub open spec fn versioned_section(
    doc: DocValue,
    key: Seq<char>,
    kind: DependencyType,
    ecosystem: Ecosystem,
    source: Seq<char>,
) -> Result<Seq<DepView>, ErrorView> {
    match section(doc, key) {
        Section::Absent => Ok(seq![]),
        Section::Entries(entries) => Ok(versioned(entries, kind, ecosystem, source)),
        Section::Malformed => Err(shape_error(true, key)),
    }
}

/// Two readings after one another: the first error, or all dependencies.
pub open spec fn join_results(
    a: Result<Seq<DepView>, ErrorView>,
    b: Result<Seq<DepView>, ErrorView>,
) -> Result<Seq<DepView>, ErrorView> {
    match a {
        Err(e) => Err(e),
        Ok(x) => match b {
            Err(e) => Err(e),
            Ok(y) => Ok(x + y),
        },
    }
}

/// Whether the reading `r` gave the dependencies, or the error, that
/// `expected` names.
pub open spec fn reads_as(
    r: Result<Vec<Dependency>, DependencyError>,
    expected: Result<Seq<DepView>, ErrorView>,
) -> bool {
    match r {
        Ok(deps) => expected == Ok::<Seq<DepView>, ErrorView>(dep_views(deps@)),
        Err(e) => expected == Err::<Seq<DepView>, ErrorView>(e@),
    }
}

/// The error for a manifest that holds something else under `key` than it
/// should.
pub(crate) fn shape_fault(toml: bool, key: &str) -> (e: DependencyError)
    ensures
        e@ == shape_error(toml, key@),
{
    let mut m = "invalid type for `".to_owned();
    m.append(key);
    m.append("`");
    if toml {
        DependencyError::TomlParse(m)
    } else {
        DependencyError::JsonParse(m)
    }
}

/// The entries of the table under `key`, if `doc` holds one there.
pub(crate) fn table_section<'a>(doc: &'a DocValue, key: &str) -> (r: Result<
    Option<&'a Vec<(String, DocValue)>>,
    (),
>)
    ensures
        match r {
            Ok(None) => section(*doc, key@) is Absent,
            Ok(Some(entries)) => section(*doc, key@) == Section::Entries(entries@),
            Err(_) => section(*doc, key@) is Malformed,
        },
{
    match doc {
        DocValue::Table(top) => match find(top, key) {
            None => Ok(None),
            Some(DocValue::Null) => Ok(None),
            Some(DocValue::Table(entries)) => Ok(Some(entries)),
            Some(_) => Err(()),
        },
        _ => Err(()),
    }
}

/// The version that a dependency's value asks for.
pub fn extract_version_from_toml_value(value: &DocValue) -> (v: String)
    ensures
        v@ == version_of(*value),
{
    match value {
        DocValue::Text(v) => v.clone(),
        DocValue::Table(entries) => match find(entries, "version") {
            Some(DocValue::Text(v)) => v.clone(),
            _ => "*".to_owned(),
        },
        _ => "*".to_owned(),
    }
}

/// The dependency that one entry of a Cargo table declares.
pub fn parse_cargo_dependency(
    name: &str,
    value: &DocValue,
    dep_type: DependencyType,
    source_file: &str,
) -> (r: Result<Dependency, DependencyError>)
    ensures
        r matches Ok(d) && d@ == (DepView {
            name: name@,
            version: version_of(*value),
            dependency_type: dep_type,
            ecosystem: Ecosystem::Rust,
            source_file: source_file@,
        }),
{
    Ok(
        Dependency {
            name: name.to_owned(),
            version: extract_version_from_toml_value(value),
            dependency_type: dep_type,
            ecosystem: Ecosystem::Rust,
            source_file: source_file.to_owned(),
        },
    )
}

/// Reads the dependencies that the table under `key` of a `Cargo.toml`
/// declares.
fn read_cargo_section(doc: &DocValue, key: &str, kind: DependencyType, source_file: &str) -> (r:
    Result<Vec<Dependency>, DependencyError>)
    ensures
        reads_as(r, versioned_section(*doc, key@, kind, Ecosystem::Rust, source_file@)),
{
    let mut deps: Vec<Dependency> = Vec::new();
    match table_section(doc, key) {
        Err(_) => Err(shape_fault(true, key)),
        Ok(None) => {
            assert(dep_views(deps@) =~= Seq::<DepView>::empty());
            Ok(deps)
        },
        Ok(Some(entries)) => {
            let ghost expected = versioned(entries@, kind, Ecosystem::Rust, source_file@);
            let mut i: usize = 0;
            while i < entries.len()
                invariant
                    i <= entries.len(),
                    expected == versioned(entries@, kind, Ecosystem::Rust, source_file@),
                    dep_views(deps@) =~= expected.take(i as int),
                decreases entries.len() - i,
            {
                let ghost before = deps@;
                match parse_cargo_dependency(
                    entries[i].0.as_str(),
                    &entries[i].1,
                    kind,
                    source_file,
                ) {
                    Ok(d) => {
                        deps.push(d);
                        assert(dep_views(deps@) =~= dep_views(before).push(d@));
                    },
                    Err(e) => {
                        return Err(e);
                    },
                }
                i += 1;
            }
            assert(expected.take(entries.len() as int) =~= expected);
            Ok(deps)
        },
    }
}

/// Puts two readings after one another.
pub(crate) fn join_readings(
    a: Result<Vec<Dependency>, DependencyError>,
    b: Result<Vec<Dependency>, DependencyError>,
) -> (r: Result<Vec<Dependency>, DependencyError>)
    ensures
        forall|x: Result<Seq<DepView>, ErrorView>, y: Result<Seq<DepView>, ErrorView>|
            reads_as(a, x) && reads_as(b, y) ==> reads_as(r, #[trigger] join_results(x, y)),
{
    match a {
        Err(e) => Err(e),
        Ok(mut first) => match b {
            Err(e) => Err(e),
            Ok(mut second) => {
                let ghost x = first@;
                let ghost y = second@;
                first.append(&mut second);
                assert(dep_views(first@) =~= dep_views(x) + dep_views(y));
                Ok(first)
            },
        },
    }
}

/// The dependencies that a `Cargo.toml` with the document `doc` declares:
/// those of `dependencies` for the run, those of `dev-dependencies` for
/// development, those of `build-dependencies` for the build.
pub open spec fn cargo_dependencies(doc: DocValue, source: Seq<char>) -> Result<
    Seq<DepView>,
    ErrorView,
> {
    join_results(
        join_results(
            versioned_section(
                doc,
                "dependencies"@,
                DependencyType::Runtime,
                Ecosystem::Rust,
                source,
            ),
            versioned_section(
                doc,
                "dev-dependencies"@,
                DependencyType::Development,
                Ecosystem::Rust,
                source,
            ),
        ),
        versioned_section(
            doc,
            "build-dependencies"@,
            DependencyType::Build,
            Ecosystem::Rust,
            source,
        ),
    )
}

/// Reads the dependencies out of the document of a `Cargo.toml`.
pub fn read_cargo_document(doc: &DocValue, source_file: &str) -> (r: Result<
    Vec<Dependency>,
    DependencyError,
>)
    ensures
        reads_as(r, cargo_dependencies(*doc, source_file@)),
{
    let run = read_cargo_section(doc, "dependencies", DependencyType::Runtime, source_file);
    let dev = read_cargo_section(doc, "dev-dependencies", DependencyType::Development, source_file);
    let build = read_cargo_section(doc, "build-dependencies", DependencyType::Build, source_file);
    join_readings(join_readings(run, dev), build)
}

/// The dependencies that the text of a `Cargo.toml` declares.
pub open spec fn cargo_toml(text: Seq<char>, source: Seq<char>) -> Result<Seq<DepView>, ErrorView> {
    match toml_document(text) {
        Err(message) => Err(ErrorView::TomlParse(message)),
        Ok(doc) => cargo_dependencies(doc, source),
    }
}

/// Reads the text of a `Cargo.toml`.
pub fn parse_cargo_toml(content: &str, source_file: &str) -> (r: Result<
    Vec<Dependency>,
    DependencyError,
>)
    ensures
        reads_as(r, cargo_toml(content@, source_file@)),
{
    match parse_toml(content) {
        Err(message) => Err(DependencyError::TomlParse(message)),
        Ok(doc) => read_cargo_document(&doc, source_file),
    }
}

} // verus!
