use devhealth::scanner::deps::document::{find, parse_json, parse_toml, DocValue};
use devhealth::scanner::deps::node::read_package_document;
use devhealth::scanner::deps::python::{read_pipfile_document, read_pyproject_document};
use devhealth::scanner::deps::rust::{
    extract_version_from_toml_value, parse_cargo_dependency, read_cargo_document,
};
use devhealth::scanner::deps::{DependencyError, DependencyType, Ecosystem};

fn text(s: &str) -> DocValue {
    DocValue::Text(s.to_string())
}

fn table(entries: Vec<(&str, DocValue)>) -> DocValue {
    DocValue::Table(entries.into_iter().map(|(k, v)| (k.to_string(), v)).collect())
}

fn list(items: Vec<DocValue>) -> DocValue {
    DocValue::List(items)
}

/// A document as a text that is easy to compare.
fn shown(value: &DocValue) -> String {
    match value {
        DocValue::Text(s) => format!("{:?}", s),
        DocValue::Table(entries) => format!(
            "{{{}}}",
            entries.iter().map(|(k, v)| format!("{}: {}", k, shown(v))).collect::<Vec<_>>().join(", ")
        ),
        DocValue::List(items) => {
            format!("[{}]", items.iter().map(shown).collect::<Vec<_>>().join(", "))
        }
        DocValue::Null => "null".to_string(),
        DocValue::Other => "other".to_string(),
    }
}

#[test]
fn a_toml_text_is_read_into_a_document() {
    let doc = parse_toml(
        "title = \"x\"\nn = 3\nf = 1.5\nb = true\nd = 1979-05-27\nlist = [\"a\", 2]\n[z]\nk = \"v\"\n[a.b]\nc = \"d\"\n",
    )
    .unwrap();
    assert_eq!(
        shown(&doc),
        "{a: {b: {c: \"d\"}}, b: other, d: other, f: other, list: [\"a\", other], n: other, title: \"x\", z: {k: \"v\"}}"
    );
    assert_eq!(shown(&parse_toml("").unwrap()), "{}");
    let message = parse_toml("a = ").unwrap_err();
    assert!(message.contains("TOML parse error"));
}

#[test]
fn a_json_text_is_read_into_a_document() {
    let doc = parse_json("{\"b\": [1, \"x\", null, true, {\"k\": \"v\"}], \"a\": \"s\", \"n\": null}")
        .unwrap();
    assert_eq!(
        shown(&doc),
        "{a: \"s\", b: [other, \"x\", null, other, {k: \"v\"}], n: null}"
    );
    assert_eq!(shown(&parse_json("\"just a string\"").unwrap()), "\"just a string\"");
    assert_eq!(shown(&parse_json("null").unwrap()), "null");
    assert_eq!(parse_json("{").unwrap_err(), "EOF while parsing an object at line 1 column 1");
    assert_eq!(shown(&parse_json("{\"a\": 1, \"a\": \"again\"}").unwrap()), "{a: \"again\"}");
}

#[test]
fn a_key_is_found_where_it_stands_first() {
    let entries = vec![
        ("a".to_string(), text("1")),
        ("b".to_string(), text("2")),
        ("a".to_string(), text("3")),
    ];
    assert_eq!(find(&entries, "a").map(shown), Some("\"1\"".to_string()));
    assert_eq!(find(&entries, "b").map(shown), Some("\"2\"".to_string()));
    assert_eq!(find(&entries, "c").map(shown), None);
    assert_eq!(find(&Vec::new(), "a").map(shown), None);
}

#[test]
fn a_version_is_a_string_or_stands_in_a_table() {
    assert_eq!(extract_version_from_toml_value(&text("1.0")), "1.0");
    assert_eq!(extract_version_from_toml_value(&text("")), "");
    assert_eq!(
        extract_version_from_toml_value(&table(vec![("features", list(vec![])), ("version", text("4.0"))])),
        "4.0"
    );
    assert_eq!(extract_version_from_toml_value(&table(vec![("path", text("../x"))])), "*");
    assert_eq!(extract_version_from_toml_value(&table(vec![("version", DocValue::Other)])), "*");
    assert_eq!(extract_version_from_toml_value(&DocValue::Other), "*");
    assert_eq!(extract_version_from_toml_value(&list(vec![text("1")])), "*");
    assert_eq!(extract_version_from_toml_value(&DocValue::Null), "*");
}

#[test]
fn a_cargo_entry_declares_a_rust_dependency() {
    let d = parse_cargo_dependency(
        "clap",
        &table(vec![("version", text("4.0"))]),
        DependencyType::Build,
        "/p/Cargo.toml",
    )
    .unwrap();
    assert_eq!(d.name, "clap");
    assert_eq!(d.version, "4.0");
    assert_eq!(d.dependency_type, DependencyType::Build);
    assert_eq!(d.ecosystem, Ecosystem::Rust);
    assert_eq!(d.source_file, "/p/Cargo.toml");
}

#[test]
fn a_cargo_document_is_read_section_by_section() {
    let doc = table(vec![
        ("build-dependencies", table(vec![("cc", text("1"))])),
        ("dependencies", table(vec![("b", text("2")), ("a", DocValue::Other)])),
        ("package", table(vec![("name", text("x"))])),
        ("dev-dependencies", table(vec![])),
    ]);
    let deps = read_cargo_document(&doc, "Cargo.toml").unwrap();
    assert_eq!(
        deps.iter().map(|d| (d.name.as_str(), d.version.as_str(), d.dependency_type)).collect::<Vec<_>>(),
        vec![
            ("b", "2", DependencyType::Runtime),
            ("a", "*", DependencyType::Runtime),
            ("cc", "1", DependencyType::Build),
        ]
    );
    assert!(read_cargo_document(&table(vec![]), "Cargo.toml").unwrap().is_empty());
    assert!(matches!(
        read_cargo_document(&text("not a table"), "Cargo.toml"),
        Err(DependencyError::TomlParse(_))
    ));
    assert!(matches!(
        read_cargo_document(
            &table(vec![("dependencies", table(vec![])), ("dev-dependencies", list(vec![]))]),
            "Cargo.toml"
        ),
        Err(DependencyError::TomlParse(m)) if m == "invalid type for `dev-dependencies`"
    ));
}

#[test]
fn the_first_section_at_fault_decides_the_error() {
    let doc = table(vec![
        ("peerDependencies", text("x")),
        ("devDependencies", table(vec![("a", DocValue::Null)])),
        ("dependencies", table(vec![("ok", text("1"))])),
    ]);
    match read_package_document(&doc, "package.json") {
        Err(DependencyError::JsonParse(m)) => assert_eq!(m, "invalid type for `devDependencies`"),
        other => panic!("expected a JSON error, got {:?}", other),
    }
}

#[test]
fn a_package_document_is_read_section_by_section() {
    let doc = table(vec![
        ("peerDependencies", table(vec![("react", text(">=17"))])),
        ("dependencies", table(vec![("express", text("^4"))])),
        ("devDependencies", DocValue::Null),
    ]);
    let deps = read_package_document(&doc, "package.json").unwrap();
    assert_eq!(
        deps.iter().map(|d| (d.name.as_str(), d.version.as_str(), d.dependency_type)).collect::<Vec<_>>(),
        vec![("express", "^4", DependencyType::Runtime), ("react", ">=17", DependencyType::Optional)]
    );
    assert!(deps.iter().all(|d| d.ecosystem == Ecosystem::NodeJs));
}

#[test]
fn a_pyproject_document_is_read_list_by_list() {
    let doc = table(vec![(
        "project",
        table(vec![
            (
                "optional-dependencies",
                table(vec![
                    ("z", list(vec![text("last")])),
                    ("a", list(vec![text("first==1"), text("second")])),
                ]),
            ),
            ("dependencies", list(vec![text("main>=2")])),
        ]),
    )]);
    let deps = read_pyproject_document(&doc, "pyproject.toml").unwrap();
    assert_eq!(
        deps.iter().map(|d| (d.name.as_str(), d.version.as_str(), d.dependency_type)).collect::<Vec<_>>(),
        vec![
            ("main", "2", DependencyType::Runtime),
            ("last", "*", DependencyType::Optional),
            ("first", "1", DependencyType::Optional),
            ("second", "*", DependencyType::Optional),
        ]
    );
}

#[test]
fn a_pipfile_document_is_read_section_by_section() {
    let doc = table(vec![
        ("dev-packages", table(vec![("pytest", text("*"))])),
        ("packages", table(vec![("flask", table(vec![("version", text(">=2"))]))])),
    ]);
    let deps = read_pipfile_document(&doc, "Pipfile").unwrap();
    assert_eq!(
        deps.iter().map(|d| (d.name.as_str(), d.version.as_str(), d.dependency_type)).collect::<Vec<_>>(),
        vec![("flask", ">=2", DependencyType::Runtime), ("pytest", "*", DependencyType::Development)]
    );
    assert!(deps.iter().all(|d| d.ecosystem == Ecosystem::Python));
}
