use layered_config::config::{Config, NullableConfig};

#[test]
fn every_config_field_has_documentation() {
    assert!(!Config::docs().is_empty(), "Config missing documentation");

    for field in Config::field_names() {
        let docstring = Config::get_field_comment(field);
        assert!(docstring.is_some(), "Config::{field} missing documentation");
        assert!(
            !docstring.unwrap().is_empty(),
            "Config::{field} has empty docstring"
        );
    }
}

#[test]
fn nullable_config_matches_config() {
    assert_eq!(
        Config::field_names(),
        NullableConfig::field_names(),
        "Config and NullableConfig must have the same fields, in the same order"
    );
    assert_eq!(
        Config::docs(),
        NullableConfig::docs(),
        "Config and NullableConfig's documentation must be identical"
    );
    assert_eq!(
        Config::field_docs(),
        NullableConfig::field_docs(),
        "Config and NullableConfig field's must have the same documentation"
    );
}

#[test]
fn field_names_in_schema_order() {
    assert_eq!(
        Config::field_names(),
        vec!["placeholder1", "placeholder2", "required1"]
    );
}

#[test]
fn unknown_field_has_no_comment() {
    assert_eq!(Config::get_field_comment("placeholder3"), None);
    assert_eq!(
        Config::get_field_comment("placeholder2"),
        Some("Another placeholder config option")
    );
}

#[test]
fn default_record_values() {
    let c = Config::default();
    assert_eq!(c.placeholder1, 42);
    assert_eq!(c.placeholder2, "example");
    assert_eq!(c.required1, "");
}

#[test]
fn docstring_comment_single_line() {
    assert_eq!(
        Config::docstring_to_toml_comment("Application configuration"),
        "# Application configuration\n"
    );
}

#[test]
fn docstring_comment_empty_lines_and_crlf() {
    assert_eq!(Config::docstring_to_toml_comment("a\n\nb"), "# a\n#\n# b\n");
    assert_eq!(Config::docstring_to_toml_comment("x\r\ny\n"), "# x\n# y\n");
    assert_eq!(Config::docstring_to_toml_comment(""), "");
}

#[test]
fn docstring_comment_keeps_trailing_carriage_return() {
    assert_eq!(Config::docstring_to_toml_comment("a\r"), "# a\r\n");
    assert_eq!(Config::docstring_to_toml_comment("a\r\nb\r"), "# a\n# b\r\n");
}

#[test]
fn documented_toml_of_defaults() {
    let text = Config::default().to_documented_toml();
    assert_eq!(
        text,
        "# Application configuration\n\
         \n\
         # A placeholder config option\n\
         placeholder1 = 42\n\
         \n\
         # Another placeholder config option\n\
         placeholder2 = \"example\"\n\
         \n\
         # A required config option\n\
         required1 = \"\"\n"
    );
}

#[test]
fn documented_toml_renders_values() {
    let c = Config {
        placeholder1: 4294967295,
        placeholder2: String::from("a\"b"),
        required1: String::from("x"),
    };
    let text = c.to_documented_toml();
    assert!(text.contains("placeholder1 = 4294967295\n"));
    assert!(text.contains("required1 = \"x\"\n"));
    assert!(!text.contains("placeholder2 = a\"b\n"));
}
