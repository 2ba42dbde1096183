//! Python manifests: `requirements.txt`, `pyproject.toml` and `Pipfile`.

use crate::scanner::deps::document::{find, lookup, parse_toml, toml_document, DocValue};
use crate::scanner::deps::rust::{
    extract_version_from_toml_value, join_readings, join_results, reads_as, section,
    shape_error, shape_fault, table_section, versioned, versioned_section, Section,
};
use crate::scanner::deps::{
    dep_views, DepView, Dependency, DependencyError, DependencyType, Ecosystem, ErrorView,
};
use crate::text::{chars_of, lines, slice_of, split_lines, text_of, trim, trimmed};
use vstd::prelude::*;

verus! {

/// The characters that separate a package's name from its version.
pub open spec fn is_operator(c: char) -> bool {
    c == '=' || c == '>' || c == '<' || c == '!' || c == '~'
}

/// The index of the first operator character in `s`; the length of `s`
/// where it holds none.
pub open spec fn first_operator(s: Seq<char>) -> nat
    decreases s.len(),
{
    if s.len() == 0 || is_operator(s[0]) {
        0
    } else {
        1 + first_operator(s.drop_first())
    }
}

/// The name in a requirement: what stands before the first operator
/// character, trimmed.
pub open spec fn requirement_name(s: Seq<char>) -> Seq<char> {
    trimmed(s.take(first_operator(s) as int))
}

/// The version in a requirement: what follows the first operator
/// character, the other operator characters left out; `*` where there is
/// no operator character.
pub open spec fn requirement_version(s: Seq<char>) -> Seq<char> {
    if first_operator(s) >= s.len() {
        "*"@
    } else {
        s.skip(first_operator(s) as int + 1).filter(|c: char| !is_operator(c))
    }
}

/// The dependency that the requirement `s` declares.
pub open spec fn requirement(s: Seq<char>, kind: DependencyType, source: Seq<char>) -> DepView {
    DepView {
        name: requirement_name(s),
        version: requirement_version(s),
        dependency_type: kind,
        ecosystem: Ecosystem::Python,
        source_file: source,
    }
}

fn operator(c: char) -> (r: bool)
    ensures
        r == is_operator(c),
{
    c == '=' || c == '>' || c == '<' || c == '!' || c == '~'
}

fn requirement_of(v: &Vec<char>, kind: DependencyType, source_file: &str) -> (d: Dependency)
    ensures
        d@ == requirement(v@, kind, source_file@),
{
    let mut i: usize = 0;
    assert(v@.skip(0) =~= v@);
    while i < v.len() && !operator(v[i])
        invariant
            i <= v.len(),
            first_operator(v@) == i + first_operator(v@.skip(i as int)),
        decreases v.len() - i,
    {
        assert(v@.skip(i as int).drop_first() =~= v@.skip(i + 1));
        i += 1;
    }
    let head = slice_of(v, 0, i);
    assert(head@ =~= v@.take(i as int));
    let name = text_of(&trim(&head));
    let version = if i >= v.len() {
        "*".to_owned()
    } else {
        let ghost keep = |c: char| !is_operator(c);
        let ghost rest = v@.skip(i + 1);
        let mut s = String::new();
        let mut j: usize = i + 1;
        assert(rest.take(0).filter(keep) =~= Seq::<char>::empty());
        while j < v.len()
            invariant
                i + 1 <= j <= v.len(),
                rest == v@.skip(i + 1),
                keep == (|c: char| !is_operator(c)),
                s@ == rest.take(j - (i + 1)).filter(keep),
            decreases v.len() - j,
        {
            proof {
                let k = j - (i + 1);
                assert(rest.take(k + 1) =~= rest.take(k).push(v@[j as int]));
                rest.take(k).lemma_filter_push(v@[j as int], keep);
            }
            if !operator(v[j]) {
                s.push(v[j]);
            }
            j += 1;
        }
        assert(rest.take(v.len() - (i + 1)) =~= rest);
        s
    };
    Dependency {
        name,
        version,
        dependency_type: kind,
        ecosystem: Ecosystem::Python,
        source_file: source_file.to_owned(),
    }
}

/// Reads a requirement such as `requests>=2.25.0` or `django==3.2`.
pub fn parse_python_dependency_string(
    dep_str: &str,
    dep_type: DependencyType,
    source_file: &str,
) -> (r: Option<Dependency>)
    ensures
        r matches Some(d) && d@ == requirement(dep_str@, dep_type, source_file@),
{
    let v = chars_of(dep_str);
    Some(requirement_of(&v, dep_type, source_file))
}

/// What a line of `requirements.txt` declares: nothing where the line is
/// blank or a comment, else the requirement that the trimmed line holds.
pub open spec fn requirement_line(line: Seq<char>, source: Seq<char>) -> Option<DepView> {
    let t = trimmed(line);
    if t.len() == 0 || t[0] == '#' {
        None
    } else {
        Some(requirement(t, DependencyType::Runtime, source))
    }
}

/// The dependencies that the text of a `requirements.txt` declares, line by
/// line.
pub open spec fn requirements(text: Seq<char>, source: Seq<char>) -> Seq<DepView> {
    lines(text).filter_map(|line: Seq<char>| requirement_line(line, source))
}

/// Reads the text of a `requirements.txt`.
pub fn parse_requirements_txt(content: &str, source_file: &str) -> (r: Result<
    Vec<Dependency>,
    DependencyError,
>)
    ensures
        r matches Ok(deps) && dep_views(deps@) == requirements(content@, source_file@),
{
    let all = split_lines(&chars_of(content));
    let ghost ls = crate::text::char_views(all@);
    let ghost f = |line: Seq<char>| requirement_line(line, source_file@);
    let mut deps: Vec<Dependency> = Vec::new();
    let mut i: usize = 0;
    assert(ls.take(0).filter_map(f) =~= Seq::<DepView>::empty());
    assert(dep_views(deps@) =~= Seq::<DepView>::empty());
    while i < all.len()
        invariant
            i <= all.len(),
            ls == crate::text::char_views(all@),
            f == (|line: Seq<char>| requirement_line(line, source_file@)),
            dep_views(deps@) == ls.take(i as int).filter_map(f),
        decreases all.len() - i,
    {
        proof {
            ls.lemma_filter_map_take_succ(f, i as int);
        }
        let t = trim(&all[i]);
        if t.len() > 0 && t[0] != '#' {
            let ghost before = deps@;
            let d = requirement_of(&t, DependencyType::Runtime, source_file);
            deps.push(d);
            assert(dep_views(deps@) =~= dep_views(before).push(d@));
        }
        i += 1;
    }
    assert(ls.take(all.len() as int) =~= ls);
    Ok(deps)
}

/// Whether each of `items` is a string.
pub open spec fn all_strings(items: Seq<DocValue>) -> bool {
    forall|i: int| 0 <= i < items.len() ==> #[trigger] items[i] is Text
}

/// The dependencies that a list of requirements declares.
pub open spec fn requirement_list(items: Seq<DocValue>, kind: DependencyType, source: Seq<char>)
    -> Seq<DepView> {
    items.map_values(|v: DocValue| requirement(v->Text_0@, kind, source))
}

/// The dependencies that `value` declares where it is to be a list of
/// requirements found under `key`; none where there is no value.
pub open spec fn listed(
    value: Option<DocValue>,
    key: Seq<char>,
    kind: DependencyType,
    source: Seq<char>,
) -> Result<Seq<DepView>, ErrorView> {
    match value {
        None => Ok(seq![]),
        Some(DocValue::List(items)) => if all_strings(items@) {
            Ok(requirement_list(items@, kind, source))
        } else {
            Err(shape_error(true, key))
        },
        Some(_) => Err(shape_error(true, key)),
    }
}

/// Reads a list of requirements found under `key`.
#[verifier::loop_isolation(false)]
fn read_listed(value: Option<&DocValue>, key: &str, kind: DependencyType, source_file: &str)
    -> (r: Result<Vec<Dependency>, DependencyError>)
    ensures
        reads_as(
            r,
            listed(
                match value {
                    Some(v) => Some(*v),
                    None => None,
                },
                key@,
                kind,
                source_file@,
            ),
        ),
{
    let mut deps: Vec<Dependency> = Vec::new();
    match value {
        None => {
            assert(dep_views(deps@) =~= Seq::<DepView>::empty());
            Ok(deps)
        },
        Some(DocValue::List(items)) => {
            let ghost expected = requirement_list(items@, kind, source_file@);
            let mut i: usize = 0;
            while i < items.len()
                invariant
                    i <= items.len(),
                    expected == requirement_list(items@, kind, source_file@),
                    forall|j: int| 0 <= j < i ==> #[trigger] items@[j] is Text,
                    dep_views(deps@) =~= expected.take(i as int),
                decreases items.len() - i,
            {
                match &items[i] {
                    DocValue::Text(s) => {
                        let ghost before = deps@;
                        let d = requirement_of(&chars_of(s.as_str()), kind, source_file);
                        deps.push(d);
                        assert(dep_views(deps@) =~= dep_views(before).push(d@));
                    },
                    _ => {
                        assert(!(items@[i as int] is Text));
                        return Err(shape_fault(true, key));
                    },
                }
                i += 1;
            }
            assert(expected.take(items.len() as int) =~= expected);
            Ok(deps)
        },
        Some(_) => Err(shape_fault(true, key)),
    }
}

/// The optional dependencies that the groups of `optional-dependencies`
/// declare, group after group.
pub open spec fn optional_groups(groups: Seq<(String, DocValue)>, source: Seq<char>) -> Result<
    Seq<DepView>,
    ErrorView,
>
    decreases groups.len(),
{
    if groups.len() == 0 {
        Ok(seq![])
    } else {
        join_results(
            optional_groups(groups.drop_last(), source),
            listed(
                Some(groups.last().1),
                "optional-dependencies"@,
                DependencyType::Optional,
                source,
            ),
        )
    }
}

/// What `project` holds under `optional-dependencies`.
pub open spec fn optional_section(project: Seq<(String, DocValue)>, source: Seq<char>) -> Result<
    Seq<DepView>,
    ErrorView,
> {
    match lookup(project, "optional-dependencies"@) {
        None => Ok(seq![]),
        Some(DocValue::Table(groups)) => optional_groups(groups@, source),
        Some(_) => Err(shape_error(true, "optional-dependencies"@)),
    }
}

/// The dependencies that a `pyproject.toml` with the document `doc`
/// declares: the requirements under `project.dependencies` for the run,
/// then those of each group under `project.optional-dependencies` as
/// optional.
pub open spec fn pyproject_dependencies(doc: DocValue, source: Seq<char>) -> Result<
    Seq<DepView>,
    ErrorView,
> {
    match section(doc, "project"@) {
        Section::Absent => Ok(seq![]),
        Section::Malformed => Err(shape_error(true, "project"@)),
        Section::Entries(project) => join_results(
            listed(
                lookup(project, "dependencies"@),
                "dependencies"@,
                DependencyType::Runtime,
                source,
            ),
            optional_section(project, source),
        ),
    }
}

fn read_optional_section(project: &Vec<(String, DocValue)>, source_file: &str) -> (r: Result<
    Vec<Dependency>,
    DependencyError,
>)
    ensures
        reads_as(r, optional_section(project@, source_file@)),
{
    match find(project, "optional-dependencies") {
        None => {
            let deps: Vec<Dependency> = Vec::new();
            assert(dep_views(deps@) =~= Seq::<DepView>::empty());
            Ok(deps)
        },
        Some(DocValue::Table(groups)) => {
            let first: Vec<Dependency> = Vec::new();
            assert(dep_views(first@) =~= Seq::<DepView>::empty());
            let mut all: Result<Vec<Dependency>, DependencyError> = Ok(first);
            let mut i: usize = 0;
            while i < groups.len()
                invariant
                    i <= groups.len(),
                    reads_as(all, optional_groups(groups@.take(i as int), source_file@)),
                decreases groups.len() - i,
            {
                let group = read_listed(
                    Some(&groups[i].1),
                    "optional-dependencies",
                    DependencyType::Optional,
                    source_file,
                );
                proof {
                    assert(groups@.take(i + 1).drop_last() =~= groups@.take(i as int));
                    assert(groups@.take(i + 1).last() == groups@[i as int]);
                }
                all = join_readings(all, group);
                i += 1;
            }
            assert(groups@.take(groups.len() as int) =~= groups@);
            all
        },
        Some(_) => Err(shape_fault(true, "optional-dependencies")),
    }
}

/// Reads the dependencies out of the document of a `pyproject.toml`.
pub fn read_pyproject_document(doc: &DocValue, source_file: &str) -> (r: Result<
    Vec<Dependency>,
    DependencyError,
>)
    ensures
        reads_as(r, pyproject_dependencies(*doc, source_file@)),
{
    match table_section(doc, "project") {
        Err(_) => Err(shape_fault(true, "project")),
        Ok(None) => {
            let deps: Vec<Dependency> = Vec::new();
            assert(dep_views(deps@) =~= Seq::<DepView>::empty());
            Ok(deps)
        },
        Ok(Some(project)) => {
            let run = read_listed(
                find(project, "dependencies"),
                "dependencies",
                DependencyType::Runtime,
                source_file,
            );
            let optional = read_optional_section(project, source_file);
            join_readings(run, optional)
        },
    }
}

/// The dependencies that the text of a `pyproject.toml` declares.
pub open spec fn pyproject_toml(text: Seq<char>, source: Seq<char>) -> Result<
    Seq<DepView>,
    ErrorView,
> {
    match toml_document(text) {
        Err(message) => Err(ErrorView::TomlParse(message)),
        Ok(doc) => pyproject_dependencies(doc, source),
    }
}

/// Reads the text of a `pyproject.toml`.
pub fn parse_pyproject_toml(content: &str, source_file: &str) -> (r: Result<
    Vec<Dependency>,
    DependencyError,
>)
    ensures
        reads_as(r, pyproject_toml(content@, source_file@)),
{
    match parse_toml(content) {
        Err(message) => Err(DependencyError::TomlParse(message)),
        Ok(doc) => read_pyproject_document(&doc, source_file),
    }
}

/// The dependencies that a `Pipfile` with the document `doc` declares:
/// those of `packages` for the run, those of `dev-packages` for
/// development.
pub open spec fn pipfile_dependencies(doc: DocValue, source: Seq<char>) -> Result<
    Seq<DepView>,
    ErrorView,
> {
    join_results(
        versioned_section(doc, "packages"@, DependencyType::Runtime, Ecosystem::Python, source),
        versioned_section(
            doc,
            "dev-packages"@,
            DependencyType::Development,
            Ecosystem::Python,
            source,
        ),
    )
}

/// Reads the packages that the table under `key` of a `Pipfile` declares.
fn read_pipfile_section(doc: &DocValue, key: &str, kind: DependencyType, source_file: &str) -> (r:
    Result<Vec<Dependency>, DependencyError>)
    ensures
        reads_as(r, versioned_section(*doc, key@, kind, Ecosystem::Python, source_file@)),
{
    let mut deps: Vec<Dependency> = Vec::new();
    match table_section(doc, key) {
        Err(_) => Err(shape_fault(true, key)),
        Ok(None) => {
            assert(dep_views(deps@) =~= Seq::<DepView>::empty());
            Ok(deps)
        },
        Ok(Some(entries)) => {
            let ghost expected = versioned(entries@, kind, Ecosystem::Python, source_file@);
            let mut i: usize = 0;
            while i < entries.len()
                invariant
                    i <= entries.len(),
                    expected == versioned(entries@, kind, Ecosystem::Python, source_file@),
                    dep_views(deps@) =~= expected.take(i as int),
                decreases entries.len() - i,
            {
                let ghost before = deps@;
                let d = Dependency {
                    name: entries[i].0.clone(),
                    version: extract_version_from_toml_value(&entries[i].1),
                    dependency_type: kind,
                    ecosystem: Ecosystem::Python,
                    source_file: source_file.to_owned(),
                };
                deps.push(d);
                assert(dep_views(deps@) =~= dep_views(before).push(d@));
                i += 1;
            }
            assert(expected.take(entries.len() as int) =~= expected);
            Ok(deps)
        },
    }
}

/// Reads the dependencies out of the document of a `Pipfile`.
pub fn read_pipfile_document(doc: &DocValue, source_file: &str) -> (r: Result<
    Vec<Dependency>,
    DependencyError,
>)
    ensures
        reads_as(r, pipfile_dependencies(*doc, source_file@)),
{
    let run = read_pipfile_section(doc, "packages", DependencyType::Runtime, source_file);
    let dev = read_pipfile_section(doc, "dev-packages", DependencyType::Development, source_file);
    join_readings(run, dev)
}

/// The dependencies that the text of a `Pipfile` declares.
pub open spec fn pipfile(text: Seq<char>, source: Seq<char>) -> Result<Seq<DepView>, ErrorView> {
    match toml_document(text) {
        Err(message) => Err(ErrorView::TomlParse(message)),
        Ok(doc) => pipfile_dependencies(doc, source),
    }
}

/// Reads the text of a `Pipfile`.
pub fn parse_pipfile(content: &str, source_file: &str) -> (r: Result<
    Vec<Dependency>,
    DependencyError,
>)
    ensures
        reads_as(r, pipfile(content@, source_file@)),
{
    match parse_toml(content) {
        Err(message) => Err(DependencyError::TomlParse(message)),
        Ok(doc) => read_pipfile_document(&doc, source_file),
    }
}

} // verus!
