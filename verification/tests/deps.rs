use devhealth::scanner::deps::go::parse_go_mod;
use devhealth::scanner::deps::node::parse_package_json;
use devhealth::scanner::deps::python::{
    parse_pipfile, parse_pyproject_toml, parse_python_dependency_string, parse_requirements_txt,
};
use devhealth::scanner::deps::rust::parse_cargo_toml;
use devhealth::scanner::deps::{
    detect_all_ecosystems, detect_dependency_file, parse_dependencies, scan_dependencies,
    scan_project, Dependency, DependencyError, DependencyType, Ecosystem, ManifestFile,
};

const CARGO_TOML: &str = r#"
[package]
name = "test-project"
version = "0.1.0"

[dependencies]
serde = "1.0"
clap = { version = "4.0", features = ["derive"] }

[dev-dependencies]
tempfile = "3.0"

[build-dependencies]
cc = "1.0"
"#;

const PACKAGE_JSON: &str = r#"
{
  "name": "test-project",
  "version": "1.0.0",
  "dependencies": {
    "express": "^4.18.0",
    "lodash": "4.17.21"
  },
  "devDependencies": {
    "jest": "^29.0.0",
    "typescript": "~4.9.0"
  }
}
"#;

const REQUIREMENTS_TXT: &str = r#"
# Production dependencies
requests>=2.28.0
django==4.1.0
numpy~=1.24.0

# Comments should be ignored
flask>=2.0.0
"#;

fn file(path: &str, content: &str) -> ManifestFile {
    ManifestFile { path: path.to_string(), content: Ok(content.to_string()) }
}

fn unreadable(path: &str, message: &str) -> ManifestFile {
    ManifestFile { path: path.to_string(), content: Err(message.to_string()) }
}

fn shown(d: &Dependency) -> (String, String, DependencyType, Ecosystem, String) {
    (d.name.clone(), d.version.clone(), d.dependency_type, d.ecosystem, d.source_file.clone())
}

fn names(deps: &[Dependency]) -> Vec<&str> {
    deps.iter().map(|d| d.name.as_str()).collect()
}

#[test]
fn detects_rust_ecosystem() {
    let files = vec![file("/p/Cargo.toml", CARGO_TOML)];
    let ecosystems = detect_all_ecosystems(&files, "/p");
    assert!(ecosystems.contains(&Ecosystem::Rust));
}

#[test]
fn detects_nodejs_ecosystem() {
    let files = vec![file("/p/package.json", PACKAGE_JSON)];
    let ecosystems = detect_all_ecosystems(&files, "/p");
    assert!(ecosystems.contains(&Ecosystem::NodeJs));
}

#[test]
fn detects_python_ecosystem() {
    let files = vec![file("/p/requirements.txt", REQUIREMENTS_TXT)];
    let ecosystems = detect_all_ecosystems(&files, "/p");
    assert!(ecosystems.contains(&Ecosystem::Python));
}

#[test]
fn detects_multiple_ecosystems() {
    let files = vec![file("/p/package.json", PACKAGE_JSON), file("/p/Cargo.toml", CARGO_TOML)];
    let ecosystems = detect_all_ecosystems(&files, "/p");
    assert!(ecosystems.contains(&Ecosystem::Rust));
    assert!(ecosystems.contains(&Ecosystem::NodeJs));
    assert_eq!(ecosystems.len(), 2);
}

#[test]
fn ecosystems_are_listed_once_and_in_a_fixed_order() {
    let files = vec![
        file("/p/go.mod", ""),
        file("/p/Pipfile", ""),
        file("/p/pyproject.toml", ""),
        file("/p/requirements.txt", ""),
        file("/p/package.json", "{}"),
        file("/p/Cargo.toml", ""),
        file("/q/Cargo.toml", ""),
    ];
    assert_eq!(
        detect_all_ecosystems(&files, "/p"),
        vec![Ecosystem::Rust, Ecosystem::NodeJs, Ecosystem::Python, Ecosystem::Go]
    );
    assert_eq!(detect_all_ecosystems(&files, "/q"), vec![Ecosystem::Rust]);
    assert_eq!(detect_all_ecosystems(&files, "/r"), vec![]);
}

#[test]
fn manifests_are_told_by_their_file_name() {
    assert_eq!(detect_dependency_file("/a/Cargo.toml"), Some(Ecosystem::Rust));
    assert_eq!(detect_dependency_file("package.json"), Some(Ecosystem::NodeJs));
    assert_eq!(detect_dependency_file("x/requirements.txt"), Some(Ecosystem::Python));
    assert_eq!(detect_dependency_file("x/Pipfile"), Some(Ecosystem::Python));
    assert_eq!(detect_dependency_file("x/pyproject.toml"), Some(Ecosystem::Python));
    assert_eq!(detect_dependency_file("./go.mod"), Some(Ecosystem::Go));
    assert_eq!(detect_dependency_file("/a/cargo.toml"), None);
    assert_eq!(detect_dependency_file("/a/Cargo.toml.bak"), None);
    assert_eq!(detect_dependency_file("/"), None);
    assert_eq!(detect_dependency_file(""), None);
}

#[test]
fn parses_cargo_toml_dependencies() {
    let dependencies = parse_cargo_toml(CARGO_TOML, "/p/Cargo.toml").unwrap();

    assert_eq!(dependencies.len(), 4); // 2 deps + 1 dev + 1 build

    // Check runtime dependencies
    let serde_dep = dependencies.iter().find(|d| d.name == "serde").unwrap();
    assert_eq!(serde_dep.version, "1.0");
    assert_eq!(serde_dep.dependency_type, DependencyType::Runtime);
    assert_eq!(serde_dep.ecosystem, Ecosystem::Rust);

    // Check complex dependency with features
    let clap_dep = dependencies.iter().find(|d| d.name == "clap").unwrap();
    assert_eq!(clap_dep.version, "4.0");
    assert_eq!(clap_dep.dependency_type, DependencyType::Runtime);

    // Check dev dependency
    let tempfile_dep = dependencies.iter().find(|d| d.name == "tempfile").unwrap();
    assert_eq!(tempfile_dep.dependency_type, DependencyType::Development);

    // Check build dependency
    let cc_dep = dependencies.iter().find(|d| d.name == "cc").unwrap();
    assert_eq!(cc_dep.dependency_type, DependencyType::Build);
}

#[test]
fn cargo_dependencies_come_section_by_section() {
    let deps = parse_cargo_toml(CARGO_TOML, "/p/Cargo.toml").unwrap();
    assert_eq!(names(&deps), vec!["clap", "serde", "tempfile", "cc"]);
    assert!(deps.iter().all(|d| d.source_file == "/p/Cargo.toml"));
}

#[test]
fn cargo_dependency_without_a_version_asks_for_any() {
    let text = "[dependencies]\nlocal = { path = \"../local\" }\nodd = 3\nnum = { version = 1 }\n";
    let deps = parse_cargo_toml(text, "Cargo.toml").unwrap();
    assert_eq!(
        deps.iter().map(|d| (d.name.as_str(), d.version.as_str())).collect::<Vec<_>>(),
        vec![("local", "*"), ("num", "*"), ("odd", "*")]
    );
}

#[test]
fn cargo_manifest_without_dependencies_declares_none() {
    assert!(parse_cargo_toml("[package]\nname = \"x\"\n", "Cargo.toml").unwrap().is_empty());
    assert!(parse_cargo_toml("", "Cargo.toml").unwrap().is_empty());
}

#[test]
fn text_that_is_not_toml_is_an_error() {
    match parse_cargo_toml("[dependencies\nserde = ", "Cargo.toml") {
        Err(DependencyError::TomlParse(message)) => assert!(!message.is_empty()),
        other => panic!("expected a TOML error, got {:?}", other),
    }
}

#[test]
fn cargo_section_that_is_no_table_is_an_error() {
    match parse_cargo_toml("dependencies = \"serde\"\n", "Cargo.toml") {
        Err(DependencyError::TomlParse(message)) => {
            assert_eq!(message, "invalid type for `dependencies`")
        }
        other => panic!("expected a TOML error, got {:?}", other),
    }
    match parse_cargo_toml("[dependencies]\na = \"1\"\n[dev-dependencies.x]\n", "Cargo.toml") {
        Ok(deps) => assert_eq!(names(&deps), vec!["a", "x"]),
        other => panic!("expected dependencies, got {:?}", other),
    }
    match parse_cargo_toml("build-dependencies = [1]\n", "Cargo.toml") {
        Err(DependencyError::TomlParse(message)) => {
            assert_eq!(message, "invalid type for `build-dependencies`")
        }
        other => panic!("expected a TOML error, got {:?}", other),
    }
}

#[test]
fn parses_package_json_dependencies() {
    let dependencies = parse_package_json(PACKAGE_JSON, "/p/package.json").unwrap();

    assert_eq!(dependencies.len(), 4); // 2 deps + 2 devDeps

    // Check runtime dependency
    let express_dep = dependencies.iter().find(|d| d.name == "express").unwrap();
    assert_eq!(express_dep.version, "^4.18.0");
    assert_eq!(express_dep.dependency_type, DependencyType::Runtime);
    assert_eq!(express_dep.ecosystem, Ecosystem::NodeJs);

    // Check dev dependency
    let jest_dep = dependencies.iter().find(|d| d.name == "jest").unwrap();
    assert_eq!(jest_dep.dependency_type, DependencyType::Development);
}

#[test]
fn peer_dependencies_are_optional() {
    let text = r#"{"peerDependencies": {"react": ">=17"}, "dependencies": null}"#;
    let deps = parse_package_json(text, "package.json").unwrap();
    assert_eq!(
        deps.iter().map(shown).collect::<Vec<_>>(),
        vec![(
            "react".to_string(),
            ">=17".to_string(),
            DependencyType::Optional,
            Ecosystem::NodeJs,
            "package.json".to_string()
        )]
    );
}

#[test]
fn package_json_of_another_shape_is_an_error() {
    match parse_package_json("{\"dependencies\": {\"a\": 1}}", "package.json") {
        Err(DependencyError::JsonParse(message)) => {
            assert_eq!(message, "invalid type for `dependencies`")
        }
        other => panic!("expected a JSON error, got {:?}", other),
    }
    match parse_package_json("{\"devDependencies\": []}", "package.json") {
        Err(DependencyError::JsonParse(message)) => {
            assert_eq!(message, "invalid type for `devDependencies`")
        }
        other => panic!("expected a JSON error, got {:?}", other),
    }
    assert!(matches!(
        parse_package_json("[1, 2]", "package.json"),
        Err(DependencyError::JsonParse(_))
    ));
    match parse_package_json("{\"dependencies\": ", "package.json") {
        Err(DependencyError::JsonParse(message)) => assert!(message.contains("EOF")),
        other => panic!("expected a JSON error, got {:?}", other),
    }
}

#[test]
fn parses_requirements_txt() {
    let dependencies = parse_requirements_txt(REQUIREMENTS_TXT, "/p/requirements.txt").unwrap();

    assert_eq!(dependencies.len(), 4); // requests, django, numpy, flask

    let requests_dep = dependencies.iter().find(|d| d.name == "requests").unwrap();
    assert_eq!(requests_dep.version, "2.28.0");
    assert_eq!(requests_dep.ecosystem, Ecosystem::Python);

    let django_dep = dependencies.iter().find(|d| d.name == "django").unwrap();
    assert_eq!(django_dep.version, "4.1.0");
}

#[test]
fn ignores_comments_and_empty_lines() {
    let content = r#"
# This is a comment
   
requests>=2.28.0
# Another comment

flask>=2.0.0
"#;
    let dependencies = parse_requirements_txt(content, "requirements.txt").unwrap();
    assert_eq!(dependencies.len(), 2); // Only requests and flask
}

#[test]
fn requirement_lines_are_read_by_their_operators() {
    let content = "plain\r\n  spaced  >= 1.0 \nodd!=1,<2\ntrailing==\n   # indented comment\n";
    let deps = parse_requirements_txt(content, "r.txt").unwrap();
    assert_eq!(
        deps.iter().map(|d| (d.name.as_str(), d.version.as_str())).collect::<Vec<_>>(),
        vec![("plain", "*"), ("spaced", " 1.0"), ("odd", "1,2"), ("trailing", "")]
    );
    assert!(deps.iter().all(|d| d.dependency_type == DependencyType::Runtime));
    assert!(deps.iter().all(|d| d.source_file == "r.txt"));
}

#[test]
fn a_requirement_string_is_read_as_it_stands() {
    let d = parse_python_dependency_string(" requests >=2.25.0", DependencyType::Optional, "p")
        .unwrap();
    assert_eq!(
        shown(&d),
        (
            "requests".to_string(),
            "2.25.0".to_string(),
            DependencyType::Optional,
            Ecosystem::Python,
            "p".to_string()
        )
    );
    let d = parse_python_dependency_string("#x", DependencyType::Runtime, "p").unwrap();
    assert_eq!((d.name.as_str(), d.version.as_str()), ("#x", "*"));
    let d = parse_python_dependency_string("", DependencyType::Runtime, "p").unwrap();
    assert_eq!((d.name.as_str(), d.version.as_str()), ("", "*"));
    let d = parse_python_dependency_string("a~=1.0 ", DependencyType::Runtime, "p").unwrap();
    assert_eq!((d.name.as_str(), d.version.as_str()), ("a", "1.0 "));
}

#[test]
fn pyproject_declares_main_and_optional_dependencies() {
    let text = r#"
[project]
name = "demo"
dependencies = ["requests>=2.0", "click"]

[project.optional-dependencies]
test = ["pytest>=7"]
docs = ["sphinx==5.0", "furo"]
"#;
    let deps = parse_pyproject_toml(text, "/p/pyproject.toml").unwrap();
    assert_eq!(
        deps.iter()
            .map(|d| (d.name.as_str(), d.version.as_str(), d.dependency_type))
            .collect::<Vec<_>>(),
        vec![
            ("requests", "2.0", DependencyType::Runtime),
            ("click", "*", DependencyType::Runtime),
            ("sphinx", "5.0", DependencyType::Optional),
            ("furo", "*", DependencyType::Optional),
            ("pytest", "7", DependencyType::Optional),
        ]
    );
    assert!(deps.iter().all(|d| d.ecosystem == Ecosystem::Python));
    assert!(deps.iter().all(|d| d.source_file == "/p/pyproject.toml"));
}

#[test]
fn pyproject_without_a_project_table_declares_nothing() {
    assert!(parse_pyproject_toml("[tool.black]\nline-length = 88\n", "p").unwrap().is_empty());
    assert!(parse_pyproject_toml("[project]\nname = \"x\"\n", "p").unwrap().is_empty());
}

#[test]
fn pyproject_of_another_shape_is_an_error() {
    for (text, key) in [
        ("project = 1\n", "project"),
        ("[project]\ndependencies = \"requests\"\n", "dependencies"),
        ("[project]\ndependencies = [1]\n", "dependencies"),
        ("[project]\noptional-dependencies = []\n", "optional-dependencies"),
        ("[project.optional-dependencies]\ntest = \"pytest\"\n", "optional-dependencies"),
        ("[project.optional-dependencies]\na = [\"x\"]\nb = [2]\n", "optional-dependencies"),
    ] {
        match parse_pyproject_toml(text, "p") {
            Err(DependencyError::TomlParse(message)) => {
                assert_eq!(message, format!("invalid type for `{}`", key))
            }
            other => panic!("expected a TOML error for {:?}, got {:?}", text, other),
        }
    }
}

#[test]
fn pipfile_declares_packages_and_dev_packages() {
    let text = r#"
[packages]
requests = "*"
django = { version = ">=3.2", extras = ["argon2"] }
local = { path = "." }

[dev-packages]
pytest = ">=7.0"
"#;
    let deps = parse_pipfile(text, "/p/Pipfile").unwrap();
    assert_eq!(
        deps.iter()
            .map(|d| (d.name.as_str(), d.version.as_str(), d.dependency_type))
            .collect::<Vec<_>>(),
        vec![
            ("django", ">=3.2", DependencyType::Runtime),
            ("local", "*", DependencyType::Runtime),
            ("requests", "*", DependencyType::Runtime),
            ("pytest", ">=7.0", DependencyType::Development),
        ]
    );
    assert!(deps.iter().all(|d| d.ecosystem == Ecosystem::Python));
    assert!(matches!(
        parse_pipfile("packages = 1\n", "Pipfile"),
        Err(DependencyError::TomlParse(_))
    ));
}

#[test]
fn go_mod_declares_single_and_blocked_requirements() {
    let text = "module example.com/demo\n\ngo 1.21\n\nrequire github.com/pkg/errors v0.9.1\n\nrequire (\n\tgithub.com/stretchr/testify v1.8.0\n\tgolang.org/x/sys v0.1.0 // indirect\n\n\tlonely\n)\n\nrequire (\n)\nreplace a => b\n";
    let deps = parse_go_mod(text, "/p/go.mod").unwrap();
    assert_eq!(
        deps.iter()
            .map(|d| (d.name.as_str(), d.version.as_str(), d.dependency_type))
            .collect::<Vec<_>>(),
        vec![
            ("github.com/pkg/errors", "v0.9.1", DependencyType::Runtime),
            ("github.com/stretchr/testify", "v1.8.0", DependencyType::Runtime),
            ("golang.org/x/sys", "v0.1.0", DependencyType::Development),
        ]
    );
    assert!(deps.iter().all(|d| d.ecosystem == Ecosystem::Go));
    assert!(deps.iter().all(|d| d.source_file == "/p/go.mod"));
}

#[test]
fn a_require_statement_inside_a_block_is_read_twice() {
    let text = "require (\nrequire a v1\n)\nrequire b\nrequire c v2 (\n";
    let deps = parse_go_mod(text, "go.mod").unwrap();
    assert_eq!(
        deps.iter().map(|d| (d.name.as_str(), d.version.as_str())).collect::<Vec<_>>(),
        vec![("a", "v1"), ("require", "a")]
    );
}

#[test]
fn scans_directory_with_multiple_projects() {
    let files = vec![
        file("/t/rust-project/Cargo.toml", CARGO_TOML),
        file("/t/node-project/package.json", PACKAGE_JSON),
    ];

    let reports = scan_dependencies(&files).unwrap();

    assert_eq!(reports.len(), 2);

    // Verify we found both projects
    let ecosystems: Vec<_> = reports.iter().flat_map(|r| &r.ecosystems).collect();
    assert!(ecosystems.contains(&&Ecosystem::Rust));
    assert!(ecosystems.contains(&&Ecosystem::NodeJs));
    assert_eq!(reports[0].project_path, "/t/rust-project");
    assert_eq!(reports[1].project_path, "/t/node-project");
}

#[test]
fn handles_empty_directory() {
    let reports = scan_dependencies(&vec![]).unwrap();
    assert!(reports.is_empty());
}

#[test]
fn handles_mixed_ecosystem_project() {
    // A project with both Rust and Node.js dependencies
    let files = vec![file("/t/Cargo.toml", CARGO_TOML), file("/t/package.json", PACKAGE_JSON)];

    let reports = scan_dependencies(&files).unwrap();

    assert_eq!(reports.len(), 1); // One project with multiple ecosystems
    let report = &reports[0];
    assert_eq!(report.ecosystems.len(), 2);
    assert!(report.ecosystems.contains(&Ecosystem::Rust));
    assert!(report.ecosystems.contains(&Ecosystem::NodeJs));

    // Should have dependencies from both ecosystems
    let rust_deps = report.dependencies.iter().filter(|d| d.ecosystem == Ecosystem::Rust).count();
    let node_deps =
        report.dependencies.iter().filter(|d| d.ecosystem == Ecosystem::NodeJs).count();
    assert!(rust_deps > 0);
    assert!(node_deps > 0);
    assert_eq!(rust_deps, 4);
    assert_eq!(node_deps, 4);
    assert!(report.errors.is_empty());
}

#[test]
fn the_first_manifest_met_decides_the_primary_ecosystem() {
    let files = vec![
        file("/t/package.json", PACKAGE_JSON),
        file("/t/sub/go.mod", "require a v1\n"),
        file("/t/Cargo.toml", CARGO_TOML),
    ];
    let reports = scan_dependencies(&files).unwrap();
    assert_eq!(reports.len(), 2);
    assert_eq!(reports[0].project_path, "/t");
    assert_eq!(
        names(&reports[0].dependencies),
        vec!["express", "lodash", "jest", "typescript", "clap", "serde", "tempfile", "cc"]
    );
    assert_eq!(reports[0].ecosystems, vec![Ecosystem::Rust, Ecosystem::NodeJs]);
    assert_eq!(reports[1].project_path, "/t/sub");
    assert_eq!(names(&reports[1].dependencies), vec!["a"]);
}

#[test]
fn a_failing_primary_manifest_leaves_an_error_report() {
    let files = vec![
        file("/t/Cargo.toml", "not [ toml"),
        file("/t/package.json", PACKAGE_JSON),
        unreadable("/u/go.mod", "Permission denied (os error 13)"),
    ];
    let reports = scan_dependencies(&files).unwrap();
    assert_eq!(reports.len(), 2);
    assert_eq!(reports[0].project_path, "/t");
    assert!(reports[0].dependencies.is_empty());
    assert_eq!(reports[0].ecosystems, vec![Ecosystem::Rust]);
    assert_eq!(reports[0].errors.len(), 1);
    assert!(reports[0].errors[0].starts_with("Failed to parse TOML: "));
    assert_eq!(reports[1].project_path, "/u");
    assert_eq!(
        reports[1].errors,
        vec!["Failed to read file: Permission denied (os error 13)".to_string()]
    );
    assert_eq!(reports[1].ecosystems, vec![Ecosystem::Go]);
}

#[test]
fn a_failing_additional_manifest_is_recorded_in_the_report() {
    let files = vec![file("/t/Cargo.toml", CARGO_TOML), file("/t/package.json", "{ not json")];
    let reports = scan_dependencies(&files).unwrap();
    assert_eq!(reports.len(), 1);
    assert_eq!(names(&reports[0].dependencies), vec!["clap", "serde", "tempfile", "cc"]);
    assert_eq!(reports[0].ecosystems, vec![Ecosystem::Rust, Ecosystem::NodeJs]);
    assert_eq!(
        reports[0].errors,
        vec!["Failed to parse JSON: key must be a string at line 1 column 3".to_string()]
    );
}

#[test]
fn failures_of_further_manifests_come_in_the_order_of_the_ecosystems() {
    let files = vec![
        file("/t/requirements.txt", "requests>=2\n"),
        unreadable("/t/go.mod", "Permission denied (os error 13)"),
        file("/t/package.json", "{\"dependencies\": 3}"),
        file("/t/Cargo.toml", "[dependencies]\nserde = \"1\"\n"),
        file("/t/pyproject.toml", "project = 1\n"),
    ];
    let reports = scan_dependencies(&files).unwrap();
    assert_eq!(reports.len(), 1);
    assert_eq!(
        reports[0].errors,
        vec![
            "Failed to parse TOML: invalid type for `project`".to_string(),
        ]
    );
    assert!(reports[0].dependencies.is_empty());
    assert_eq!(reports[0].ecosystems, vec![Ecosystem::Python]);

    let files = vec![
        file("/t/Cargo.toml", "[dependencies]\nserde = \"1\"\n"),
        unreadable("/t/go.mod", "Permission denied (os error 13)"),
        file("/t/package.json", "{\"dependencies\": 3}"),
        file("/t/requirements.txt", "requests>=2\n"),
    ];
    let reports = scan_dependencies(&files).unwrap();
    assert_eq!(reports.len(), 1);
    assert_eq!(names(&reports[0].dependencies), vec!["serde", "requests"]);
    assert_eq!(
        reports[0].errors,
        vec![
            "Failed to parse JSON: invalid type for `dependencies`".to_string(),
            "Failed to read file: Permission denied (os error 13)".to_string(),
        ]
    );
    assert_eq!(
        reports[0].ecosystems,
        vec![Ecosystem::Rust, Ecosystem::NodeJs, Ecosystem::Python, Ecosystem::Go]
    );
}

#[test]
fn python_manifests_of_a_project_are_read_together() {
    let files = vec![
        file("./Pipfile", "[packages]\nflask = \"*\"\n"),
        file("./requirements.txt", "requests>=2\n"),
        file("./pyproject.toml", "[project]\ndependencies = [\"click\"]\n"),
    ];
    let reports = scan_dependencies(&files).unwrap();
    assert_eq!(reports.len(), 1);
    assert_eq!(reports[0].project_path, ".");
    assert_eq!(names(&reports[0].dependencies), vec!["requests", "click", "flask"]);
    assert_eq!(
        reports[0].dependencies.iter().map(|d| d.source_file.as_str()).collect::<Vec<_>>(),
        vec!["./requirements.txt", "./pyproject.toml", "./Pipfile"]
    );
    assert_eq!(reports[0].ecosystems, vec![Ecosystem::Python]);
}

#[test]
fn a_manifest_that_was_not_met_cannot_be_read() {
    let files = vec![file("/t/package.json", PACKAGE_JSON)];
    match parse_dependencies(&files, "/t", Ecosystem::Rust) {
        Err(DependencyError::FileRead(message)) => {
            assert_eq!(message, "no such file: /t/Cargo.toml")
        }
        other => panic!("expected a read error, got {:?}", other),
    }
    assert!(parse_dependencies(&files, "/t", Ecosystem::Python).unwrap().is_empty());
    let report = scan_project(&files, "/t", Ecosystem::NodeJs).unwrap();
    assert_eq!(report.project_path, "/t");
    assert_eq!(report.dependencies.len(), 4);
    assert_eq!(report.ecosystems, vec![Ecosystem::NodeJs]);
    assert!(scan_project(&files, "/t", Ecosystem::Go).is_err());
}

#[test]
fn dependency_errors_are_put_in_words() {
    assert_eq!(DependencyError::FileRead("x".into()).to_string(), "Failed to read file: x");
    assert_eq!(DependencyError::TomlParse("x".into()).to_string(), "Failed to parse TOML: x");
    assert_eq!(DependencyError::JsonParse("x".into()).to_string(), "Failed to parse JSON: x");
    assert_eq!(
        DependencyError::SemverParse("x".into()).to_string(),
        "Invalid semver version: x"
    );
    assert_eq!(
        DependencyError::UnsupportedFormat("x".into()).to_string(),
        "Unsupported file format: x"
    );
}

#[test]
fn ecosystems_have_names() {
    assert_eq!(Ecosystem::Rust.to_string(), "Rust");
    assert_eq!(Ecosystem::NodeJs.to_string(), "Node.js");
    assert_eq!(Ecosystem::Python.to_string(), "Python");
    assert_eq!(Ecosystem::Go.to_string(), "Go");
}
