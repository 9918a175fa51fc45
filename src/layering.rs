use vstd::prelude::*;
use vstd::string::*;
use crate::config::{
    CliConfig, Config, ConfigModel, default_model, field_name, field_name_at, overrides_layer,
    record_layer, required_field_indices, required_fields,
};
use crate::layer::{Layer, LayerModel, NUM_FIELDS, empty_layer, is_complete, merge, merge_spec};
use crate::toml_source::{parse_layer, toml_decodes, toml_layer};
use crate::value::{Value, ValueModel, kind_name};
use crate::audit::{EventModel, OverrideEvent, audit, events_view, log_overrides};

verus! {

/// Why a configuration could not be resolved.
#[derive(Debug, Clone, PartialEq, Eq)]
pub enum ConfigError {
    /// The configuration directory does not exist and files were not disabled.
    ConfigDirMissing(String),
    /// A configuration file exists but is not a TOML document.
    FileParse { path: String, message: String },
    /// No layer above the defaults sets this required field.
    MissingRequiredField(String),
    /// The effective value of a field does not have the field's type.
    TypeDecode { field: String, expected: String, actual: String },
}

/// The model of a `ConfigError`; the decoder's message is left out.
pub enum ErrorModel {
    ConfigDirMissing(Seq<char>),
    FileParse(Seq<char>),
    MissingRequiredField(Seq<char>),
    TypeDecode(Seq<char>, Seq<char>, Seq<char>),
}

impl View for ConfigError {
    type V = ErrorModel;

    open spec fn view(&self) -> ErrorModel {
        match self {
            ConfigError::ConfigDirMissing(d) => ErrorModel::ConfigDirMissing(d@),
            ConfigError::FileParse { path, message } => ErrorModel::FileParse(path@),
            ConfigError::MissingRequiredField(f) => ErrorModel::MissingRequiredField(f@),
            ConfigError::TypeDecode { field, expected, actual } => ErrorModel::TypeDecode(
                field@,
                expected@,
                actual@,
            ),
        }
    }
}

/// The model of a resolution's outcome.
pub open spec fn result_view(r: Result<Config, ConfigError>) -> Result<ConfigModel, ErrorModel> {
    match r {
        Ok(c) => Ok(c@),
        Err(e) => Err(e@),
    }
}

/// One configuration file: its path, and its text, or `None` when there is no
/// such file.
#[derive(Debug, Clone)]
pub struct FileSource {
    pub path: String,
    pub contents: Option<String>,
}

/// What the configuration directory holds: whether it exists, and its two
/// files, lower precedence first.
#[derive(Debug, Clone)]
pub struct ConfigFiles {
    pub dir_exists: bool,
    pub layer1: FileSource,
    pub layer2: FileSource,
}

/// The layer a file defines: empty when the file is absent, `None` when its
/// text is not a TOML document.
pub open spec fn file_layer(f: FileSource) -> Option<LayerModel> {
    match f.contents {
        None => Some(empty_layer()),
        Some(t) => if toml_decodes(t@) {
            Some(toml_layer(t@))
        } else {
            None
        },
    }
}

/// The effective mapping of the configuration files alone.
pub open spec fn load_files(cli: CliConfig, files: ConfigFiles) -> Result<LayerModel, ErrorModel> {
    if cli.no_config {
        Ok(empty_layer())
    } else if !files.dir_exists {
        Err(ErrorModel::ConfigDirMissing(cli.config_dir@))
    } else {
        match file_layer(files.layer1) {
            None => Err(ErrorModel::FileParse(files.layer1.path@)),
            Some(a) => match file_layer(files.layer2) {
                None => Err(ErrorModel::FileParse(files.layer2.path@)),
                Some(b) => Ok(merge_spec(a, b)),
            },
        }
    }
}

/// The first field of `req` that `m` leaves unset.
pub open spec fn first_missing(m: LayerModel, req: Seq<int>) -> Option<int>
    decreases req.len(),
{
    if req.len() == 0 {
        None
    } else if m[req[0]] is None {
        Some(req[0])
    } else {
        first_missing(m, req.drop_first())
    }
}

/// How a value is described when it has the wrong type.
pub open spec fn kind_of(v: ValueModel) -> Seq<char> {
    match v {
        ValueModel::Integer(_) => "integer"@,
        ValueModel::Text(_) => "string"@,
        ValueModel::Other(k) => kind_name(k),
    }
}

/// The typed record that a complete mapping stands for, or the first field,
/// in schema order, whose value does not fit its type.
pub open spec fn decode(m: LayerModel) -> Result<ConfigModel, ErrorModel> {
    let a = m[0]->0;
    let b = m[1]->0;
    let c = m[2]->0;
    if !(a matches ValueModel::Integer(n) && 0 <= n <= u32::MAX) {
        Err(ErrorModel::TypeDecode(field_name(0), "u32"@, kind_of(a)))
    } else if !(b is Text) {
        Err(ErrorModel::TypeDecode(field_name(1), "a string"@, kind_of(b)))
    } else if !(c is Text) {
        Err(ErrorModel::TypeDecode(field_name(2), "a string"@, kind_of(c)))
    } else {
        Ok(ConfigModel { placeholder1: a->Integer_0 as u32, placeholder2: b->Text_0, required1: c->Text_0 })
    }
}

/// The mapping of every layer but the defaults: files, then command-line
/// overrides.
pub open spec fn non_default_mapping(cli: CliConfig, f: LayerModel) -> LayerModel {
    merge_spec(f, overrides_layer(cli.nullable_config))
}

/// The outcome of resolving a configuration: load the files, fold the
/// overrides over them, check the required fields, fold the result over the
/// defaults, and build the typed record.
pub open spec fn resolve(cli: CliConfig, files: ConfigFiles) -> Result<ConfigModel, ErrorModel> {
    match load_files(cli, files) {
        Err(e) => Err(e),
        Ok(f) => resolve_mapping(cli, f),
    }
}

/// The outcome of resolving once the files' effective mapping `f` is known.
pub open spec fn resolve_mapping(cli: CliConfig, f: LayerModel) -> Result<ConfigModel, ErrorModel> {
    let m = non_default_mapping(cli, f);
    match first_missing(m, required_fields()) {
        Some(i) => Err(ErrorModel::MissingRequiredField(field_name(i))),
        None => decode(merge_spec(record_layer(default_model()), m)),
    }
}

/// The files' effective mapping made of the decoded layers `a` (lower) and `b`
/// (upper); empty when the command line disables the files.
pub open spec fn loaded_mapping(cli: CliConfig, a: LayerModel, b: LayerModel) -> LayerModel {
    if cli.no_config {
        empty_layer()
    } else {
        merge_spec(a, b)
    }
}

/// The outcome of resolving from the decoded file layers `a` and `b`.
pub open spec fn resolve_layers(cli: CliConfig, a: LayerModel, b: LayerModel) -> Result<
    ConfigModel,
    ErrorModel,
> {
    resolve_mapping(cli, loaded_mapping(cli, a, b))
}

/// How a value is described in a type error.
fn kind_text(v: &Value) -> (r: String)
    ensures
        r@ == kind_of(v@),
{
    match v {
        Value::Integer(_) => String::from_str("integer"),
        Value::Text(_) => String::from_str("string"),
        Value::Other(k) => String::from_str(k.name()),
    }
}

/// The error for field `i` holding `v` where a value of type `expected` is needed.
fn type_error(i: usize, expected: &str, v: &Value) -> (r: ConfigError)
    requires
        i < NUM_FIELDS,
    ensures
        r@ == ErrorModel::TypeDecode(field_name(i as int), expected@, kind_of(v@)),
{
    ConfigError::TypeDecode {
        field: String::from_str(field_name_at(i)),
        expected: String::from_str(expected),
        actual: kind_text(v),
    }
}

/// Builds the typed record from a mapping in which every field is set.
pub fn materialize(m: &Layer) -> (r: Result<Config, ConfigError>)
    requires
        m.wf(),
        is_complete(m@),
    ensures
        result_view(r) == decode(m@),
{
    assert(m@[0] is Some && m@[1] is Some && m@[2] is Some);
    let a = m.values[0].as_ref().unwrap();
    let b = m.values[1].as_ref().unwrap();
    let c = m.values[2].as_ref().unwrap();
    let placeholder1: u32 = match a {
        Value::Integer(n) => {
            if 0 <= *n && *n <= u32::MAX as i64 {
                *n as u32
            } else {
                return Err(type_error(0, "u32", a));
            }
        },
        _ => {
            return Err(type_error(0, "u32", a));
        },
    };
    let placeholder2 = match b {
        Value::Text(s) => s.clone(),
        _ => {
            return Err(type_error(1, "a string", b));
        },
    };
    let required1 = match c {
        Value::Text(s) => s.clone(),
        _ => {
            return Err(type_error(2, "a string", c));
        },
    };
    Ok(Config { placeholder1, placeholder2, required1 })
}

/// Checks that every required field is set in `m`, the mapping of the layers
/// above the defaults; fails naming the first one that is not.
pub fn validate_required(m: &Layer) -> (r: Result<(), ConfigError>)
    requires
        m.wf(),
    ensures
        r is Ok <==> first_missing(m@, required_fields()) is None,
        r matches Err(e) ==> e@ == ErrorModel::MissingRequiredField(
            field_name(first_missing(m@, required_fields())->0),
        ),
{
    let req = required_field_indices();
    let ghost rs = required_fields();
    let mut k: usize = 0;
    assert(rs.subrange(0, rs.len() as int) =~= rs);
    while k < req.len()
        invariant
            m.wf(),
            req@.len() == rs.len(),
            forall|j: int| 0 <= j < req@.len() ==> req@[j] as int == #[trigger] rs[j],
            rs == required_fields(),
            k <= req@.len(),
            first_missing(m@, rs) == first_missing(m@, rs.subrange(k as int, rs.len() as int)),
        decreases req.len() - k,
    {
        let ghost tail = rs.subrange(k as int, rs.len() as int);
        assert(tail[0] == rs[k as int]);
        assert(tail.drop_first() =~= rs.subrange(k + 1, rs.len() as int));
        let i = req[k];
        assert(i as int == rs[k as int]);
        assert(0 <= i < NUM_FIELDS) by {
            assert(rs =~= seq![2int]);
        }
        if !m.is_set(i) {
            return Err(ConfigError::MissingRequiredField(String::from_str(field_name_at(i))));
        }
        k = k + 1;
    }
    assert(rs.subrange(k as int, rs.len() as int).len() == 0);
    Ok(())
}

/// Loads the configuration files into their effective mapping.
fn load_file_layers(cli: &CliConfig, files: &ConfigFiles) -> (r: Result<
    (Layer, Layer),
    ConfigError,
>)
    ensures
        match r {
            Ok((a, b)) => a.wf() && b.wf() && load_files(*cli, *files) == Ok::<
                LayerModel,
                ErrorModel,
            >(merge_spec(a@, b@)) && (cli.no_config ==> a@ == empty_layer() && b@
                == empty_layer()) && (!cli.no_config ==> file_layer(files.layer1) == Some(a@)
                && file_layer(files.layer2) == Some(b@)),
            Err(e) => load_files(*cli, *files) == Err::<LayerModel, ErrorModel>(e@),
        },
{
    if cli.no_config {
        let a = Layer::empty();
        let b = Layer::empty();
        assert(merge_spec(a@, b@) =~= empty_layer());
        return Ok((a, b));
    }
    if !files.dir_exists {
        return Err(ConfigError::ConfigDirMissing(cli.config_dir.clone()));
    }
    let a = match load_file(&files.layer1) {
        Ok(l) => l,
        Err(e) => {
            return Err(e);
        },
    };
    let b = match load_file(&files.layer2) {
        Ok(l) => l,
        Err(e) => {
            return Err(e);
        },
    };
    Ok((a, b))
}

/// The layer one configuration file defines.
fn load_file(f: &FileSource) -> (r: Result<Layer, ConfigError>)
    ensures
        match r {
            Ok(l) => l.wf() && file_layer(*f) == Some(l@),
            Err(e) => file_layer(*f) is None && e@ == ErrorModel::FileParse(f.path@),
        },
{
    match &f.contents {
        None => Ok(Layer::empty()),
        Some(text) => match parse_layer(text.as_str()) {
            Ok(l) => Ok(l),
            Err(message) => Err(ConfigError::FileParse { path: f.path.clone(), message }),
        },
    }
}

/// The layer names that the audit events carry.
pub const LOWER_FILE: &'static str = "layer1.toml";
pub const UPPER_FILE: &'static str = "layer2.toml";
pub const CLI_LAYER: &'static str = "CLI";

/// The audit trail of resolving from the decoded file layers `a` and `b`: for
/// each layer applied, in order, what it set or changed.
pub open spec fn layers_trail(cli: CliConfig, a: LayerModel, b: LayerModel) -> Seq<EventModel> {
    let f = loaded_mapping(cli, a, b);
    let cli_events = audit(f, non_default_mapping(cli, f), CLI_LAYER@);
    if cli.no_config {
        cli_events
    } else {
        audit(record_layer(default_model()), a, LOWER_FILE@) + audit(a, f, UPPER_FILE@)
            + cli_events
    }
}

/// The audit trail of a resolution. Nothing is reported when the files cannot
/// be loaded.
pub open spec fn audit_trail(cli: CliConfig, files: ConfigFiles) -> Seq<EventModel> {
    match load_files(cli, files) {
        Err(_) => Seq::empty(),
        Ok(_) => layers_trail(cli, file_layer(files.layer1)->0, file_layer(files.layer2)->0),
    }
}

/// The outcome of a resolution together with its audit trail.
#[derive(Debug)]
pub struct Resolution {
    pub outcome: Result<Config, ConfigError>,
    pub events: Vec<OverrideEvent>,
}

/// Resolves the configuration from the command line and the decoded layers of
/// the two configuration files, lower precedence first, and reports what each
/// layer set or changed. When the command line disables the files, `a` and `b`
/// are not used. The files come in order, then the command-line overrides, each
/// layer setting only the fields it names; the required fields are checked
/// before the compiled-in defaults are folded in beneath all of them.
pub fn resolve_loaded(cli: &CliConfig, a: &Layer, b: &Layer) -> (r: Resolution)
    requires
        a.wf(),
        b.wf(),
    ensures
        result_view(r.outcome) == resolve_layers(*cli, a@, b@),
        events_view(r.events@) == layers_trail(*cli, a@, b@),
{
    let defaults = Config::default().to_layer();
    let mut events: Vec<OverrideEvent> = Vec::new();
    let file_layers = if cli.no_config {
        Layer::empty()
    } else {
        let f = merge(a, b);
        let mut lower = log_overrides(&defaults, a, LOWER_FILE);
        let mut upper = log_overrides(a, &f, UPPER_FILE);
        events.append(&mut lower);
        events.append(&mut upper);
        f
    };
    assert(file_layers@ == loaded_mapping(*cli, a@, b@));
    let overrides = cli.nullable_config.to_layer();
    let m = merge(&file_layers, &overrides);
    let mut cli_events = log_overrides(&file_layers, &m, CLI_LAYER);
    events.append(&mut cli_events);
    proof {
        let f = file_layers@;
        if cli.no_config {
            assert(events_view(events@) =~= audit(f, m@, CLI_LAYER@));
        } else {
            assert(events_view(events@) =~= audit(record_layer(default_model()), a@, LOWER_FILE@)
                + audit(a@, f, UPPER_FILE@) + audit(f, m@, CLI_LAYER@));
        }
    }
    let outcome = match validate_required(&m) {
        Ok(()) => {
            let full = merge(&defaults, &m);
            assert(is_complete(full@));
            materialize(&full)
        },
        Err(e) => Err(e),
    };
    Resolution { outcome, events }
}

/// Resolves the configuration from the command line and what the configuration
/// directory holds, and reports what each layer set or changed.
pub fn get_layered_configs(cli: &CliConfig, files: &ConfigFiles) -> (r: Resolution)
    ensures
        result_view(r.outcome) == resolve(*cli, *files),
        events_view(r.events@) == audit_trail(*cli, *files),
{
    let (a, b) = match load_file_layers(cli, files) {
        Ok(p) => p,
        Err(e) => {
            return Resolution { outcome: Err(e), events: Vec::new() };
        },
    };
    proof {
        if cli.no_config {
            assert(merge_spec(a@, b@) =~= empty_layer());
        }
    }
    resolve_loaded(cli, &a, &b)
}

/// Resolves the configuration as `get_layered_configs` does, without the audit
/// trail.
pub fn get_layered_configs_from_cli(cli: &CliConfig, files: &ConfigFiles) -> (r: Result<
    Config,
    ConfigError,
>)
    ensures
        result_view(r) == resolve(*cli, *files),
{
    get_layered_configs(cli, files).outcome
}

} // verus!
