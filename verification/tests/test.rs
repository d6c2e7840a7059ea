use swc_plugin_component_annotate::config::PluginConfig;
use swc_plugin_component_annotate::path_utils::{
    extract_absolute_path, extract_filename, parse_path_with_detection, parse_unix_path,
    parse_windows_path, FileName, RealPath,
};
use swc_plugin_component_annotate::ReactComponentAnnotateVisitor;

fn optional_string(value: &serde_json::Value, key: &str) -> Option<String> {
    value.get(key).and_then(|v| v.as_str()).map(|s| s.to_string())
}

fn flag(value: &serde_json::Value, key: &str) -> bool {
    value.get(key).and_then(|v| v.as_bool()).unwrap_or(false)
}

/// Reads the options from their JSON form, key by key.
fn config_from_json(json: &str) -> Result<PluginConfig, serde_json::Error> {
    let value: serde_json::Value = serde_json::from_str(json)?;
    let ignored_components = match value.get("ignored-components").and_then(|v| v.as_array()) {
        Some(items) => items
            .iter()
            .filter_map(|item| item.as_str())
            .map(|s| s.to_string())
            .collect(),
        None => Vec::new(),
    };
    Ok(PluginConfig {
        native: flag(&value, "native"),
        ignored_components,
        component_attr: optional_string(&value, "component-attr"),
        element_attr: optional_string(&value, "element-attr"),
        source_file_attr: optional_string(&value, "source-file-attr"),
        source_path_attr: optional_string(&value, "source-path-attr"),
        experimental_rewrite_emotion_styled: flag(&value, "rewrite-emotion-styled"),
    })
}

#[test]
fn test_extract_absolute_path() {
    // Test custom filename (absolute path)
    assert_eq!(
        extract_absolute_path(&FileName::Custom(
            "/Users/jonasbadalic/code/swc-plugin-component-annotate/src/Component.jsx".to_string()
        )),
        Some(
            "/Users/jonasbadalic/code/swc-plugin-component-annotate/src/Component.jsx".to_string()
        )
    );

    // Test relative path
    assert_eq!(
        extract_absolute_path(&FileName::Custom("src/components/Button.tsx".to_string())),
        Some("src/components/Button.tsx".to_string())
    );

    // Test Windows path
    assert_eq!(
        extract_absolute_path(&FileName::Custom(
            "C:\\Users\\Name\\project\\src\\Component.jsx".to_string()
        )),
        Some("C:\\Users\\Name\\project\\src\\Component.jsx".to_string())
    );
}

#[test]
fn test_extract_filename() {
    // Test regular files
    assert_eq!(
        extract_filename(&FileName::Custom("components/Button.tsx".to_string())),
        Some("Button.tsx".to_string())
    );

    // Test index files - should include parent directory
    assert_eq!(
        extract_filename(&FileName::Custom("components/Button/index.tsx".to_string())),
        Some("Button/index.tsx".to_string())
    );

    assert_eq!(
        extract_filename(&FileName::Custom("src/pages/Home/index.jsx".to_string())),
        Some("Home/index.jsx".to_string())
    );

    // Test index files without parent directory
    assert_eq!(
        extract_filename(&FileName::Custom("index.tsx".to_string())),
        Some("index.tsx".to_string())
    );

    // Test Windows paths
    assert_eq!(
        extract_filename(&FileName::Custom(
            "components\\Button\\index.tsx".to_string()
        )),
        Some("Button/index.tsx".to_string())
    );

    // Test other index file extensions
    assert_eq!(
        extract_filename(&FileName::Custom("components/utils/index.ts".to_string())),
        Some("utils/index.ts".to_string())
    );

    assert_eq!(
        extract_filename(&FileName::Custom("components/helpers/index.js".to_string())),
        Some("helpers/index.js".to_string())
    );
}

#[test]
fn test_ignored_components_config() {
    // Test default config has no ignored components
    let default_config = PluginConfig::default();
    assert!(default_config.ignored_components.is_empty());

    // Test JSON parsing with ignored components
    let json_config = r#"{
        "ignored-components": ["TestComponent", "AnotherComponent"],
        "native": false
    }"#;

    let parsed_config: PluginConfig = config_from_json(json_config).unwrap();
    assert_eq!(parsed_config.ignored_components.len(), 2);
    assert!(parsed_config
        .ignored_components
        .contains(&"TestComponent".to_string()));
    assert!(parsed_config
        .ignored_components
        .contains(&"AnotherComponent".to_string()));
    assert!(!parsed_config.native);
}

#[test]
fn test_ignored_components_functionality() {
    let config = PluginConfig {
        ignored_components: vec!["IgnoredComponent".to_string()],
        ..Default::default()
    };

    let filename = FileName::Custom("test.jsx".to_string());
    let visitor = ReactComponentAnnotateVisitor::new(config, &filename);

    // Test that the visitor correctly identifies ignored components
    assert!(visitor.should_ignore_component("IgnoredComponent"));
    assert!(!visitor.should_ignore_component("RegularComponent"));
}

#[test]
fn test_plugin_config_parsing() {
    // Test that the plugin correctly parses JSON configuration with all options
    let config_json = r#"{
        "ignored-components": ["TestIgnored", "AnotherIgnored"],
        "native": true,
        "component-attr": "customComponent",
        "element-attr": "customElement",
        "source-file-attr": "customSourceFile",
        "source-path-attr": "customSourcePath"
    }"#;

    let parsed_config: PluginConfig = config_from_json(config_json).unwrap();

    // Verify all configuration options are parsed correctly
    assert_eq!(parsed_config.ignored_components.len(), 2);
    assert!(parsed_config
        .ignored_components
        .contains(&"TestIgnored".to_string()));
    assert!(parsed_config
        .ignored_components
        .contains(&"AnotherIgnored".to_string()));
    assert!(parsed_config.native);
    assert_eq!(
        parsed_config.component_attr,
        Some("customComponent".to_string())
    );
    assert_eq!(
        parsed_config.element_attr,
        Some("customElement".to_string())
    );
    assert_eq!(
        parsed_config.source_file_attr,
        Some("customSourceFile".to_string())
    );
    assert_eq!(
        parsed_config.source_path_attr,
        Some("customSourcePath".to_string())
    );

    // Test attribute name methods
    assert_eq!(parsed_config.component_attr_name(), "customComponent");
    assert_eq!(parsed_config.element_attr_name(), "customElement");
    assert_eq!(parsed_config.source_file_attr_name(), "customSourceFile");
    assert_eq!(parsed_config.source_path_attr_name(), "customSourcePath");

    // Test native mode with default attributes
    let native_config_json = r#"{
        "native": true
    }"#;

    let native_config: PluginConfig = config_from_json(native_config_json).unwrap();
    assert_eq!(native_config.component_attr_name(), "dataComponent");
    assert_eq!(native_config.element_attr_name(), "dataElement");
    assert_eq!(native_config.source_file_attr_name(), "dataSourceFile");
    assert_eq!(native_config.source_path_attr_name(), "dataSourcePath");
}

#[test]
fn default_attribute_names_are_kebab_case() {
    let config = PluginConfig::default();
    assert!(!config.native);
    assert!(!config.experimental_rewrite_emotion_styled);
    assert_eq!(config.component_attr_name(), "data-component");
    assert_eq!(config.element_attr_name(), "data-element");
    assert_eq!(config.source_file_attr_name(), "data-source-file");
    assert_eq!(config.source_path_attr_name(), "data-source-path");
}

#[test]
fn an_override_wins_over_native_naming() {
    let config = PluginConfig {
        native: true,
        element_attr: Some("data-sentry-element".to_string()),
        ..Default::default()
    };
    assert_eq!(config.element_attr_name(), "data-sentry-element");
    assert_eq!(config.component_attr_name(), "dataComponent");
}

#[test]
fn paths_split_at_every_separator() {
    assert_eq!(parse_unix_path("a/b/c"), vec!["a", "b", "c"]);
    assert_eq!(parse_unix_path("/a//b/"), vec!["", "a", "", "b", ""]);
    assert_eq!(parse_unix_path(""), vec![""]);
    assert_eq!(parse_unix_path("a\\b"), vec!["a\\b"]);
    assert_eq!(parse_windows_path("C:\\x\\y.js"), vec!["C:", "x", "y.js"]);
    assert_eq!(parse_windows_path("a/b"), vec!["a/b"]);
}

#[test]
fn a_backslash_anywhere_makes_a_windows_path() {
    assert_eq!(parse_path_with_detection("a/b\\c/d"), vec!["a/b", "c/d"]);
    assert_eq!(parse_path_with_detection("a/b/c"), vec!["a", "b", "c"]);
    assert_eq!(parse_path_with_detection("plain"), vec!["plain"]);
}

#[test]
fn index_file_naming_on_both_separators() {
    assert_eq!(
        extract_filename(&FileName::Custom("components/Button/index.tsx".to_string())),
        Some("Button/index.tsx".to_string())
    );
    assert_eq!(
        extract_filename(&FileName::Custom("components\\Button\\index.tsx".to_string())),
        Some("Button/index.tsx".to_string())
    );
    assert_eq!(
        extract_filename(&FileName::Custom("index.tsx".to_string())),
        Some("index.tsx".to_string())
    );
    // Only a name that begins with "index." counts
    assert_eq!(
        extract_filename(&FileName::Custom("pages/indexes.tsx".to_string())),
        Some("indexes.tsx".to_string())
    );
    assert_eq!(
        extract_filename(&FileName::Custom("pages/index".to_string())),
        Some("index".to_string())
    );
    // An empty parent segment is still a parent
    assert_eq!(
        extract_filename(&FileName::Custom("/index.js".to_string())),
        Some("/index.js".to_string())
    );
}

#[test]
fn files_on_disk_are_named_by_their_components() {
    let plain = FileName::Real(RealPath {
        path: "/src/app/Button.tsx".to_string(),
        file_name: Some("Button.tsx".to_string()),
        parent_name: Some("app".to_string()),
    });
    assert_eq!(extract_filename(&plain), Some("Button.tsx".to_string()));
    assert_eq!(
        extract_absolute_path(&plain),
        Some("/src/app/Button.tsx".to_string())
    );

    let index = FileName::Real(RealPath {
        path: "/src/app/index.tsx".to_string(),
        file_name: Some("index.tsx".to_string()),
        parent_name: Some("app".to_string()),
    });
    assert_eq!(extract_filename(&index), Some("app/index.tsx".to_string()));

    let orphan = FileName::Real(RealPath {
        path: "index.tsx".to_string(),
        file_name: Some("index.tsx".to_string()),
        parent_name: None,
    });
    assert_eq!(extract_filename(&orphan), Some("index.tsx".to_string()));

    let nameless = FileName::Real(RealPath {
        path: "/".to_string(),
        file_name: None,
        parent_name: None,
    });
    assert_eq!(extract_filename(&nameless), None);
}

#[test]
fn a_source_without_a_path_has_no_names() {
    assert_eq!(extract_filename(&FileName::Other), None);
    assert_eq!(extract_absolute_path(&FileName::Other), None);
}

#[test]
fn known_tags_are_told_from_components() {
    let visitor = ReactComponentAnnotateVisitor::new(
        PluginConfig::default(),
        &FileName::Custom("test.jsx".to_string()),
    );
    assert!(visitor.should_ignore_element("div"));
    assert!(visitor.should_ignore_element("a"));
    assert!(visitor.should_ignore_element("wbr"));
    assert!(!visitor.should_ignore_element("Div"));
    assert!(!visitor.should_ignore_element("Button"));
    assert!(!visitor.should_ignore_element(""));
    assert!(!visitor.should_ignore_component("div"));
}
