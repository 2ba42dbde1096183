//! Node.js manifests: `package.json`.

use crate::scanner::deps::document::{json_document, parse_json, DocValue};
use crate::scanner::deps::rust::{
    join_readings, join_results, reads_as, section, shape_error, shape_fault, table_section,
    Section,
};
use crate::scanner::deps::{
    dep_views, DepView, Dependency, DependencyError, DependencyType, Ecosystem, ErrorView,
};
use vstd::prelude::*;

verus! {

/// Whether the value of each entry is a string.
pub open spec fn all_text(entries: Seq<(String, DocValue)>) -> bool {
    forall|i: int| 0 <= i < entries.len() ==> (#[trigger] entries[i]).1 is Text
}

/// The dependencies that the entries of an object declare, each with the
/// version that its value names.
pub open spec fn pinned(entries: Seq<(String, DocValue)>, kind: DependencyType, source: Seq<char>)
    -> Seq<DepView> {
    entries.map_values(
        |e: (String, DocValue)|
            DepView {
                name: e.0@,
                version: e.1->Text_0@,
                dependency_type: kind,
                ecosystem: Ecosystem::NodeJs,
                source_file: source,
            },
    )
}

/// The dependencies that the object under `key` declares; none where the
/// document has no such key or holds `null` there. Each version is to be a
/// string.
pub open spec fn pinned_section(
    doc: DocValue,
    key: Seq<char>,
    kind: DependencyType,
    source: Seq<char>,
) -> Result<Seq<DepView>, ErrorView> {
    match section(doc, key) {
        Section::Absent => Ok(seq![]),
        Section::Entries(entries) => if all_text(entries) {
            Ok(pinned(entries, kind, source))
        } else {
            Err(shape_error(false, key))
        },
        Section::Malformed => Err(shape_error(false, key)),
    }
}

/// Reads the dependencies that the object under `key` declares.
#[verifier::loop_isolation(false)]
fn read_pinned_section(doc: &DocValue, key: &str, kind: DependencyType, source_file: &str) -> (r:
    Result<Vec<Dependency>, DependencyError>)
    ensures
        reads_as(r, pinned_section(*doc, key@, kind, source_file@)),
{
    let mut deps: Vec<Dependency> = Vec::new();
    match table_section(doc, key) {
        Err(_) => Err(shape_fault(false, key)),
        Ok(None) => {
            assert(dep_views(deps@) =~= Seq::<DepView>::empty());
            Ok(deps)
        },
        Ok(Some(entries)) => {
            let ghost expected = pinned(entries@, kind, source_file@);
            let mut i: usize = 0;
            while i < entries.len()
                invariant
                    i <= entries.len(),
                    expected == pinned(entries@, kind, source_file@),
                    forall|j: int| 0 <= j < i ==> (#[trigger] entries@[j]).1 is Text,
                    dep_views(deps@) =~= expected.take(i as int),
                decreases entries.len() - i,
            {
                match &entries[i].1 {
                    DocValue::Text(version) => {
                        let ghost before = deps@;
                        let d = Dependency {
                            name: entries[i].0.clone(),
                            version: version.clone(),
                            dependency_type: kind,
                            ecosystem: Ecosystem::NodeJs,
                            source_file: source_file.to_owned(),
                        };
                        deps.push(d);
                        assert(dep_views(deps@) =~= dep_views(before).push(d@));
                    },
                    _ => {
                        assert(!((entries@[i as int]).1 is Text));
                        return Err(shape_fault(false, key));
                    },
                }
                i += 1;
            }
            assert(expected.take(entries.len() as int) =~= expected);
            Ok(deps)
        },
    }
}

/// The dependencies that a `package.json` with the document `doc`
/// declares: those of `dependencies` for the run, those of
/// `devDependencies` for development, those of `peerDependencies` as
/// optional.
pub open spec fn package_dependencies(doc: DocValue, source: Seq<char>) -> Result<
    Seq<DepView>,
    ErrorView,
> {
    join_results(
        join_results(
            pinned_section(doc, "dependencies"@, DependencyType::Runtime, source),
            pinned_section(doc, "devDependencies"@, DependencyType::Development, source),
        ),
        pinned_section(doc, "peerDependencies"@, DependencyType::Optional, source),
    )
}

/// Reads the dependencies out of the document of a `package.json`.
pub fn read_package_document(doc: &DocValue, source_file: &str) -> (r: Result<
    Vec<Dependency>,
    DependencyError,
>)
    ensures
        reads_as(r, package_dependencies(*doc, source_file@)),
{
    let run = read_pinned_section(doc, "dependencies", DependencyType::Runtime, source_file);
    let dev = read_pinned_section(doc, "devDependencies", DependencyType::Development, source_file);
    let peer = read_pinned_section(doc, "peerDependencies", DependencyType::Optional, source_file);
    join_readings(join_readings(run, dev), peer)
}

/// The dependencies that the text of a `package.json` declares.
pub open spec fn package_json(text: Seq<char>, source: Seq<char>) -> Result<
    Seq<DepView>,
    ErrorView,
> {
    match json_document(text) {
        Err(message) => Err(ErrorView::JsonParse(message)),
        Ok(doc) => package_dependencies(doc, source),
    }
}

/// Reads the text of a `package.json`.
pub fn parse_package_json(content: &str, source_file: &str) -> (r: Result<
    Vec<Dependency>,
    DependencyError,
>)
    ensures
        reads_as(r, package_json(content@, source_file@)),
{
    match parse_json(content) {
        Err(message) => Err(DependencyError::JsonParse(message)),
        Ok(doc) => read_package_document(&doc, source_file),
    }
}

} // verus!
