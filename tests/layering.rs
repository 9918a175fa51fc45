use layered_config::audit::{log_overrides, OverrideEvent};
use layered_config::config::{CliConfig, Config, NullableConfig};
use layered_config::layering::{
    get_layered_configs, get_layered_configs_from_cli, resolve_loaded, ConfigError, ConfigFiles, FileSource,
};
use layered_config::toml_source::parse_layer;
use layered_config::value::{Value, ValueKind};

struct ConfigFixture {
    files: ConfigFiles,
    cli: CliConfig,
}

impl ConfigFixture {
    fn new() -> ConfigFixture {
        let dir = String::from("/tmp/configs");
        ConfigFixture {
            files: ConfigFiles {
                dir_exists: true,
                layer1: FileSource {
                    path: format!("{dir}/layer1.toml"),
                    contents: Some(String::new()),
                },
                layer2: FileSource {
                    path: format!("{dir}/layer2.toml"),
                    contents: Some(String::new()),
                },
            },
            cli: CliConfig {
                config_dir: dir,
                no_config: false,
                nullable_config: NullableConfig::default(),
            },
        }
    }

    fn write_layer1(&mut self, line: &str) {
        let text = self.files.layer1.contents.get_or_insert_with(String::new);
        text.push_str(line);
        text.push('\n');
    }

    fn write_layer2(&mut self, line: &str) {
        let text = self.files.layer2.contents.get_or_insert_with(String::new);
        text.push_str(line);
        text.push('\n');
    }

    fn resolve(&self) -> Result<Config, ConfigError> {
        get_layered_configs_from_cli(&self.cli, &self.files)
    }
}

#[test]
fn config_dir_doesnt_exist() {
    let mut fixture = ConfigFixture::new();
    fixture.files.dir_exists = false;
    fixture.files.layer1.contents = None;
    fixture.files.layer2.contents = None;
    let result = fixture.resolve();
    assert!(result.is_err());
    assert_eq!(
        result,
        Err(ConfigError::ConfigDirMissing(String::from("/tmp/configs")))
    );
}

#[test]
fn disable_config_files() {
    let mut fixture = ConfigFixture::new();
    let mut expected = Config::default();

    fixture.cli.nullable_config.required1 = Some(String::from(""));
    let actual = fixture.resolve().unwrap();
    assert_eq!(actual, expected);

    fixture.write_layer1("placeholder1 = 50");
    expected.placeholder1 = 50;
    let actual = fixture.resolve().unwrap();
    assert_eq!(actual, expected);

    fixture.cli.no_config = true;
    expected = Config::default();
    let actual = fixture.resolve().unwrap();
    assert_eq!(actual, expected);
}

#[test]
fn required_fields_must_be_set() {
    let mut fixture = ConfigFixture::new();

    // required1 not set, should return an Err
    let result = fixture.resolve();
    assert!(result.is_err());

    // Set from a config file, even if to an empty string
    fixture.write_layer1("required1 = \"\"");
    let result = fixture.resolve();
    assert!(result.is_ok());
    let actual = result.unwrap();
    let expected = Config::default();
    assert_eq!(actual, expected);

    // Set from the CLI
    let mut fixture = ConfigFixture::new();
    fixture.cli.nullable_config.required1 = Some(String::from("foo"));
    let result = fixture.resolve();
    assert!(result.is_ok());
    let actual = result.unwrap();
    let expected = Config {
        required1: String::from("foo"),
        ..Default::default()
    };
    assert_eq!(actual, expected);
}

#[test]
fn each_layer_overrides_the_previous() {
    let mut fixture = ConfigFixture::new();
    let mut expected = Config::default();

    fixture.write_layer1("required1 = \"\"");
    let actual = fixture.resolve().unwrap();
    assert_eq!(actual, expected);

    fixture.write_layer1("placeholder1 = 50");
    expected.placeholder1 = 50;
    let actual = fixture.resolve().unwrap();
    assert_eq!(actual, expected);

    fixture.write_layer2("placeholder1 = 100");
    expected.placeholder1 = 100;
    let actual = fixture.resolve().unwrap();
    assert_eq!(actual, expected);

    fixture.cli.nullable_config.placeholder1 = Some(1000);
    expected.placeholder1 = 1000;
    let actual = fixture.resolve().unwrap();
    assert_eq!(actual, expected);

    // 42 is the default value. Even then, it must overwrite whatever is in the config files.
    fixture.cli.nullable_config.placeholder1 = Some(42);
    expected.placeholder1 = 42;
    let actual = fixture.resolve().unwrap();
    assert_eq!(actual, expected);

    fixture.cli.nullable_config.required1 = Some("bar".into());
    expected.required1 = String::from("bar");
    let actual = fixture.resolve().unwrap();
    assert_eq!(actual, expected);
}

#[test]
fn missing_required_field_is_named() {
    let fixture = ConfigFixture::new();
    assert_eq!(
        fixture.resolve(),
        Err(ConfigError::MissingRequiredField(String::from("required1")))
    );
}

#[test]
fn no_input_at_all_fails_on_required() {
    let mut fixture = ConfigFixture::new();
    fixture.cli.no_config = true;
    fixture.files.dir_exists = false;
    assert_eq!(
        fixture.resolve(),
        Err(ConfigError::MissingRequiredField(String::from("required1")))
    );
}

#[test]
fn missing_dir_with_files_disabled_uses_cli_and_defaults() {
    let mut fixture = ConfigFixture::new();
    fixture.files.dir_exists = false;
    fixture.cli.no_config = true;
    fixture.cli.nullable_config.required1 = Some(String::from("x"));
    fixture.cli.nullable_config.placeholder2 = Some(String::from("cli"));
    let expected = Config {
        placeholder1: 42,
        placeholder2: String::from("cli"),
        required1: String::from("x"),
    };
    assert_eq!(fixture.resolve(), Ok(expected));
}

#[test]
fn cli_default_value_beats_file_value() {
    let mut fixture = ConfigFixture::new();
    fixture.write_layer1("required1 = \"\"");
    fixture.write_layer1("placeholder1 = 100");
    fixture.cli.nullable_config.placeholder1 = Some(42);
    assert_eq!(fixture.resolve().unwrap().placeholder1, 42);
}

#[test]
fn later_file_wins_over_earlier() {
    let mut fixture = ConfigFixture::new();
    fixture.write_layer1("required1 = \"a\"");
    fixture.write_layer1("placeholder2 = \"one\"");
    fixture.write_layer2("placeholder2 = \"two\"");
    let c = fixture.resolve().unwrap();
    assert_eq!(c.placeholder2, "two");
    assert_eq!(c.required1, "a");
}

#[test]
fn resolving_twice_gives_same_record() {
    let mut fixture = ConfigFixture::new();
    fixture.write_layer1("required1 = \"r\"");
    fixture.write_layer2("placeholder1 = 7");
    let first = fixture.resolve();
    let second = fixture.resolve();
    assert_eq!(first, second);
    assert_eq!(first.unwrap().placeholder1, 7);
}

#[test]
fn empty_or_absent_file_changes_nothing() {
    let mut fixture = ConfigFixture::new();
    fixture.write_layer2("required1 = \"r\"");
    let with_empty = fixture.resolve();
    fixture.files.layer1.contents = None;
    let with_absent = fixture.resolve();
    assert!(with_empty.is_ok());
    assert_eq!(with_empty, with_absent);
}

#[test]
fn malformed_file_is_a_parse_error() {
    let mut fixture = ConfigFixture::new();
    fixture.write_layer2("required1 = ");
    match fixture.resolve() {
        Err(ConfigError::FileParse { path, .. }) => assert_eq!(path, "/tmp/configs/layer2.toml"),
        other => panic!("unexpected {other:?}"),
    }
}

#[test]
fn wrong_type_is_a_decode_error() {
    let mut fixture = ConfigFixture::new();
    fixture.write_layer1("required1 = \"\"");
    fixture.write_layer1("placeholder1 = \"ten\"");
    assert_eq!(
        fixture.resolve(),
        Err(ConfigError::TypeDecode {
            field: String::from("placeholder1"),
            expected: String::from("u32"),
            actual: String::from("string"),
        })
    );
}

#[test]
fn out_of_range_integer_is_a_decode_error() {
    let mut fixture = ConfigFixture::new();
    fixture.write_layer1("required1 = \"\"");
    fixture.write_layer1("placeholder1 = -1");
    assert_eq!(
        fixture.resolve(),
        Err(ConfigError::TypeDecode {
            field: String::from("placeholder1"),
            expected: String::from("u32"),
            actual: String::from("integer"),
        })
    );
}

#[test]
fn integer_for_string_field_is_a_decode_error() {
    let mut fixture = ConfigFixture::new();
    fixture.write_layer1("required1 = 5");
    assert_eq!(
        fixture.resolve(),
        Err(ConfigError::TypeDecode {
            field: String::from("required1"),
            expected: String::from("a string"),
            actual: String::from("integer"),
        })
    );
}

#[test]
fn parse_layer_reads_schema_fields() {
    let layer = parse_layer("placeholder2 = 'abc'\nother = 1\nplaceholder1 = 3\n").unwrap();
    assert_eq!(
        layer.values,
        vec![
            Some(Value::Integer(3)),
            Some(Value::Text(String::from("abc"))),
            None
        ]
    );
    assert!(parse_layer("= broken").is_err());
    assert_eq!(parse_layer("").unwrap().values, vec![None, None, None]);
}

#[test]
fn parse_layer_keeps_other_kinds() {
    let layer = parse_layer("placeholder1 = 1.5\nplaceholder2 = true\n[required1]\nx = 1\n").unwrap();
    assert_eq!(
        layer.values,
        vec![
            Some(Value::Other(ValueKind::Float)),
            Some(Value::Other(ValueKind::Boolean)),
            Some(Value::Other(ValueKind::Table))
        ]
    );
    let layer = parse_layer("placeholder1 = [1]\nplaceholder2 = { a = 1 }\n").unwrap();
    assert_eq!(layer.values[0], Some(Value::Other(ValueKind::Array)));
    assert_eq!(layer.values[1], Some(Value::Other(ValueKind::InlineTable)));
}

#[test]
fn float_for_integer_field_names_its_type() {
    let mut fixture = ConfigFixture::new();
    fixture.write_layer1("required1 = \"\"");
    fixture.write_layer1("placeholder1 = 1.5");
    assert_eq!(
        fixture.resolve(),
        Err(ConfigError::TypeDecode {
            field: String::from("placeholder1"),
            expected: String::from("u32"),
            actual: String::from("float"),
        })
    );
}

#[test]
fn resolve_loaded_from_decoded_layers() {
    let lower = parse_layer("required1 = \"r\"\nplaceholder1 = 100\n").unwrap();
    let upper = parse_layer("placeholder2 = \"up\"\n").unwrap();
    let mut cli = ConfigFixture::new().cli;
    cli.nullable_config.placeholder1 = Some(42);
    let res = resolve_loaded(&cli, &lower, &upper);
    assert_eq!(
        res.outcome,
        Ok(Config {
            placeholder1: 42,
            placeholder2: String::from("up"),
            required1: String::from("r"),
        })
    );
    let layers: Vec<&str> = res.events.iter().map(|e| e.layer.as_str()).collect();
    assert_eq!(
        layers,
        vec!["layer1.toml", "layer1.toml", "layer2.toml", "CLI"]
    );

    cli.no_config = true;
    let res = resolve_loaded(&cli, &lower, &upper);
    assert_eq!(
        res.outcome,
        Err(ConfigError::MissingRequiredField(String::from("required1")))
    );
}

#[test]
fn audit_reports_set_and_changed_fields() {
    let bottom = Config::default().to_layer();
    let mut top = Config::default().to_layer();
    top.values[0] = Some(Value::Integer(50));
    let events = log_overrides(&bottom, &top, "layer1.toml");
    assert_eq!(
        events,
        vec![OverrideEvent {
            field: String::from("placeholder1"),
            previous: Some(Value::Integer(42)),
            new_value: Value::Integer(50),
            layer: String::from("layer1.toml"),
        }]
    );
    assert!(events[0].is_override());

    let empty = NullableConfig::default().to_layer();
    let events = log_overrides(&empty, &top, "CLI");
    assert_eq!(events.len(), 3);
    assert!(!events[0].is_override());
}

#[test]
fn resolution_reports_each_layer() {
    let mut fixture = ConfigFixture::new();
    fixture.write_layer1("placeholder1 = 50");
    fixture.write_layer2("placeholder1 = 100");
    fixture.cli.nullable_config.required1 = Some(String::from("r"));
    let res = get_layered_configs(&fixture.cli, &fixture.files);
    assert_eq!(res.outcome.unwrap().placeholder1, 100);
    let layers: Vec<&str> = res.events.iter().map(|e| e.layer.as_str()).collect();
    assert_eq!(layers, vec!["layer1.toml", "layer2.toml", "CLI"]);
    assert_eq!(res.events[1].previous, Some(Value::Integer(50)));
    assert_eq!(res.events[1].new_value, Value::Integer(100));
    assert_eq!(res.events[2].field, "required1");
}
