use cx_proxy::config::{
    detect_project, merge, project_markers, Config, PartialConfig, ProjectType,
};

#[test]
fn test_default_config() {
    let config = Config::default();
    assert_eq!(config.max_lines, 150);
    assert_eq!(config.max_line_len, 300);
    assert!(config.show_footer);
    assert!(config.ls_skip.contains(&"target".to_string()));
}

#[test]
fn test_merge_partial() {
    let base = Config::default();
    let partial = PartialConfig {
        max_lines: Some(50),
        max_line_len: None,
        show_footer: Some(false),
        ls_skip: None,
        ls_max_depth: None,
        ls_max_entries: None,
    };
    let merged = merge(base, partial);
    assert_eq!(merged.max_lines, 50);
    assert_eq!(merged.max_line_len, 300); // kept default
    assert!(!merged.show_footer);
}

fn partial_from(table: &toml::Table) -> PartialConfig {
    let number = |key: &str| {
        table
            .get(key)
            .and_then(|v| v.as_integer())
            .map(|n| n as usize)
    };
    PartialConfig {
        max_lines: number("max_lines"),
        max_line_len: number("max_line_len"),
        show_footer: table.get("show_footer").and_then(|v| v.as_bool()),
        ls_skip: table.get("ls_skip").and_then(|v| v.as_array()).map(|a| {
            a.iter()
                .filter_map(|v| v.as_str().map(|s| s.to_string()))
                .collect()
        }),
        ls_max_depth: number("ls_max_depth"),
        ls_max_entries: number("ls_max_entries"),
    }
}

#[test]
fn test_parse_toml() {
    let toml_str = r#"
max_lines = 100
show_footer = false
"#;
    let table: toml::Table = toml_str.parse().unwrap();
    let partial = partial_from(&table);
    assert_eq!(partial.max_lines, Some(100));
    assert_eq!(partial.show_footer, Some(false));
    assert!(partial.max_line_len.is_none());
}

#[test]
fn test_default_toml_is_valid() {
    let toml_str = Config::default_toml();
    let result: Result<toml::Table, _> = toml_str.parse();
    assert!(result.is_ok());
}

#[test]
fn default_toml_holds_the_defaults() {
    let table: toml::Table = Config::default_toml().parse().unwrap();
    let merged = merge(
        Config {
            max_lines: 0,
            max_line_len: 0,
            show_footer: false,
            ls_skip: Vec::new(),
            ls_max_depth: 0,
            ls_max_entries: 0,
        },
        partial_from(&table),
    );
    let default = Config::default();
    assert_eq!(merged.max_lines, default.max_lines);
    assert_eq!(merged.max_line_len, default.max_line_len);
    assert_eq!(merged.show_footer, default.show_footer);
    assert_eq!(merged.ls_skip, default.ls_skip);
    assert_eq!(merged.ls_max_depth, default.ls_max_depth);
    assert_eq!(merged.ls_max_entries, default.ls_max_entries);
}

#[test]
fn default_toml_text() {
    let text = Config::default_toml();
    assert!(text.starts_with("# cx-proxy configuration\n# Place in"));
    assert!(text.contains("\n    \"target\", \"node_modules\", \".git\", \"__pycache__\",\n"));
    assert!(text.ends_with("ls_max_depth = 4\nls_max_entries = 200\n"));
}

#[test]
fn default_skip_list() {
    let config = Config::default();
    let expected = [
        "target",
        "node_modules",
        ".git",
        "__pycache__",
        ".DS_Store",
        "dist",
        "build",
        ".next",
        ".cache",
        "coverage",
        ".venv",
        "venv",
    ];
    assert_eq!(config.ls_skip, expected);
    assert_eq!(config.ls_max_depth, 4);
    assert_eq!(config.ls_max_entries, 200);
}

#[test]
fn load_prefers_project_over_global_over_default() {
    let empty = || PartialConfig {
        max_lines: None,
        max_line_len: None,
        show_footer: None,
        ls_skip: None,
        ls_max_depth: None,
        ls_max_entries: None,
    };
    let mut global = empty();
    global.max_lines = Some(10);
    global.max_line_len = Some(20);
    let mut project = empty();
    project.max_lines = Some(99);
    project.ls_skip = Some(vec!["x".to_string()]);
    let config = Config::load(Some(global), Some(project));
    assert_eq!(config.max_lines, 99);
    assert_eq!(config.max_line_len, 20);
    assert!(config.show_footer);
    assert_eq!(config.ls_skip, ["x"]);
    assert_eq!(config.ls_max_depth, 4);

    let plain = Config::load(None, None);
    assert_eq!(plain.max_lines, 150);
    assert_eq!(plain.ls_skip.len(), 12);
}

#[test]
fn detect_project_in_fixed_order() {
    let present: Vec<String> = ["Makefile", "setup.py", "Cargo.toml", "compose.yml", "README.md"]
        .iter()
        .map(|s| s.to_string())
        .collect();
    assert_eq!(
        detect_project(&present),
        vec![
            ProjectType::Rust,
            ProjectType::Python,
            ProjectType::Docker,
            ProjectType::Make
        ]
    );
    assert_eq!(detect_project(&Vec::new()), Vec::new());
    let all = project_markers();
    assert_eq!(all.len(), 10);
    assert_eq!(
        detect_project(&all),
        vec![
            ProjectType::Rust,
            ProjectType::Node,
            ProjectType::Python,
            ProjectType::Go,
            ProjectType::Docker,
            ProjectType::Make
        ]
    );
}

#[test]
fn project_type_names() {
    assert_eq!(ProjectType::Rust.to_string(), "rust");
    assert_eq!(ProjectType::Node.to_string(), "node");
    assert_eq!(ProjectType::Python.to_string(), "python");
    assert_eq!(ProjectType::Go.to_string(), "go");
    assert_eq!(ProjectType::Docker.to_string(), "docker");
    assert_eq!(ProjectType::Make.to_string(), "make");
}
