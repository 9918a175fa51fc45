use vstd::prelude::*;
use vstd::string::*;
use crate::layer::{Layer, LayerModel, NUM_FIELDS};
use crate::value::{Value, ValueModel, str_equal};

verus! {

/// Name of the field at schema position `i`.
pub open spec fn field_name(i: int) -> Seq<char> {
    if i == 0 {
        "placeholder1"@
    } else if i == 1 {
        "placeholder2"@
    } else {
        "required1"@
    }
}

/// Documentation of the field at schema position `i`.
pub open spec fn field_doc(i: int) -> Seq<char> {
    if i == 0 {
        "A placeholder config option"@
    } else if i == 1 {
        "Another placeholder config option"@
    } else {
        "A required config option"@
    }
}

/// Documentation of the configuration record itself.
pub open spec fn record_doc() -> Seq<char> {
    "Application configuration"@
}

/// The schema positions of the fields that some layer other than the defaults
/// must set, in the order they are checked.
pub open spec fn required_fields() -> Seq<int> {
    seq![2]
}

/// No two fields share a name.
pub proof fn lemma_field_names_distinct()
    ensures
        forall|i: int, j: int|
            0 <= i < NUM_FIELDS && 0 <= j < NUM_FIELDS && i != j ==> field_name(i) != field_name(j),
{
    reveal_strlit("placeholder1");
    reveal_strlit("placeholder2");
    reveal_strlit("required1");
    assert(field_name(0)[11] != field_name(1)[11]);
    assert(field_name(0).len() != field_name(2).len());
    assert(field_name(1).len() != field_name(2).len());
}

/// Name of the field at schema position `i`.
pub fn field_name_at(i: usize) -> (r: &'static str)
    requires
        i < NUM_FIELDS,
    ensures
        r@ == field_name(i as int),
{
    if i == 0 {
        "placeholder1"
    } else if i == 1 {
        "placeholder2"
    } else {
        "required1"
    }
}

/// Documentation of the field at schema position `i`.
pub fn field_doc_at(i: usize) -> (r: &'static str)
    requires
        i < NUM_FIELDS,
    ensures
        r@ == field_doc(i as int),
{
    if i == 0 {
        "A placeholder config option"
    } else if i == 1 {
        "Another placeholder config option"
    } else {
        "A required config option"
    }
}

/// The schema positions of the required fields, in checking order.
pub fn required_field_indices() -> (r: Vec<usize>)
    ensures
        r@.len() == required_fields().len(),
        forall|k: int| 0 <= k < r@.len() ==> r@[k] as int == #[trigger] required_fields()[k],
{
    let r: Vec<usize> = vec![2];
    r
}

/// All field names, in schema order.
fn schema_field_names() -> (r: Vec<&'static str>)
    ensures
        r@.len() == NUM_FIELDS,
        forall|i: int| 0 <= i < NUM_FIELDS ==> (#[trigger] r@[i])@ == field_name(i),
{
    let mut r: Vec<&'static str> = Vec::new();
    let mut i: usize = 0;
    while i < NUM_FIELDS
        invariant
            i <= NUM_FIELDS,
            r@.len() == i,
            forall|j: int| 0 <= j < i ==> (#[trigger] r@[j])@ == field_name(j),
        decreases NUM_FIELDS - i,
    {
        r.push(field_name_at(i));
        i = i + 1;
    }
    r
}

/// All field documentation strings, in schema order.
fn schema_field_docs() -> (r: Vec<&'static str>)
    ensures
        r@.len() == NUM_FIELDS,
        forall|i: int| 0 <= i < NUM_FIELDS ==> (#[trigger] r@[i])@ == field_doc(i),
{
    let mut r: Vec<&'static str> = Vec::new();
    let mut i: usize = 0;
    while i < NUM_FIELDS
        invariant
            i <= NUM_FIELDS,
            r@.len() == i,
            forall|j: int| 0 <= j < i ==> (#[trigger] r@[j])@ == field_doc(j),
        decreases NUM_FIELDS - i,
    {
        r.push(field_doc_at(i));
        i = i + 1;
    }
    r
}

/// The documentation of the field named `field`, if the schema has one.
fn schema_field_comment(field: &str) -> (r: Option<&'static str>)
    ensures
        r is Some <==> exists|i: int| 0 <= i < NUM_FIELDS && field@ == field_name(i),
        forall|i: int|
            0 <= i < NUM_FIELDS && field@ == field_name(i) ==> r is Some && (r->0)@ == field_doc(i),
{
    let mut i: usize = 0;
    while i < NUM_FIELDS
        invariant
            i <= NUM_FIELDS,
            forall|j: int| 0 <= j < i ==> field@ != #[trigger] field_name(j),
        decreases NUM_FIELDS - i,
    {
        if str_equal(field, field_name_at(i)) {
            proof {
                lemma_field_names_distinct();
            }
            return Some(field_doc_at(i));
        }
        i = i + 1;
    }
    None
}

/// The model of a resolved configuration record.
pub struct ConfigModel {
    pub placeholder1: u32,
    pub placeholder2: Seq<char>,
    pub required1: Seq<char>,
}

/// Application configuration
#[derive(Debug, Clone, PartialEq, Eq)]
pub struct Config {
    /// A placeholder config option
    pub placeholder1: u32,
    /// Another placeholder config option
    pub placeholder2: String,
    /// A required config option
    pub required1: String,
}

impl View for Config {
    type V = ConfigModel;

    open spec fn view(&self) -> ConfigModel {
        ConfigModel {
            placeholder1: self.placeholder1,
            placeholder2: self.placeholder2@,
            required1: self.required1@,
        }
    }
}

/// The compiled-in default record.
pub open spec fn default_model() -> ConfigModel {
    ConfigModel { placeholder1: 42, placeholder2: "example"@, required1: Seq::empty() }
}

/// The layer that sets every field of `c` to its value there.
pub open spec fn record_layer(c: ConfigModel) -> LayerModel {
    seq![
        Some(ValueModel::Integer(c.placeholder1 as int)),
        Some(ValueModel::Text(c.placeholder2)),
        Some(ValueModel::Text(c.required1)),
    ]
}

// This is the only place where default values for the configuration fields live.
impl Default for Config {
    fn default() -> (r: Config)
        ensures
            r@ == default_model(),
    {
        Config {
            placeholder1: 42,
            placeholder2: String::from_str("example"),
            required1: String::new(),
        }
    }
}

impl Config {
    /// Documentation of the record.
    pub fn docs() -> (r: &'static str)
        ensures
            r@ == record_doc(),
    {
        "Application configuration"
    }

    /// The field names, in declaration order.
    pub fn field_names() -> (r: Vec<&'static str>)
        ensures
            r@.len() == NUM_FIELDS,
            forall|i: int| 0 <= i < NUM_FIELDS ==> (#[trigger] r@[i])@ == field_name(i),
    {
        schema_field_names()
    }

    /// The field documentation strings, in declaration order.
    pub fn field_docs() -> (r: Vec<&'static str>)
        ensures
            r@.len() == NUM_FIELDS,
            forall|i: int| 0 <= i < NUM_FIELDS ==> (#[trigger] r@[i])@ == field_doc(i),
    {
        schema_field_docs()
    }

    /// The documentation of field `field`, or `None` when there is no such field.
    pub fn get_field_comment(field: &str) -> (r: Option<&'static str>)
        ensures
            r is Some <==> exists|i: int| 0 <= i < NUM_FIELDS && field@ == field_name(i),
            forall|i: int|
                0 <= i < NUM_FIELDS && field@ == field_name(i) ==> r is Some && (r->0)@
                    == field_doc(i),
    {
        schema_field_comment(field)
    }

    /// The total layer of this record: every field set to its value here.
    pub fn to_layer(&self) -> (r: Layer)
        ensures
            r.wf(),
            r@ == record_layer(self@),
    {
        let mut values: Vec<Option<Value>> = Vec::new();
        values.push(Some(Value::Integer(self.placeholder1 as i64)));
        values.push(Some(Value::Text(self.placeholder2.clone())));
        values.push(Some(Value::Text(self.required1.clone())));
        let r = Layer { values };
        assert(r@ =~= record_layer(self@));
        r
    }
}

/// The model of a set of command-line overrides: for each field, in schema
/// order, the value given, or `None`.
pub open spec fn overrides_layer(n: NullableConfig) -> LayerModel {
    seq![
        match n.placeholder1 {
            Some(v) => Some(ValueModel::Integer(v as int)),
            None => None,
        },
        match n.placeholder2 {
            Some(s) => Some(ValueModel::Text(s@)),
            None => None,
        },
        match n.required1 {
            Some(s) => Some(ValueModel::Text(s@)),
            None => None,
        },
    ]
}

/// Application configuration
#[derive(Debug, Clone, PartialEq, Eq)]
pub struct NullableConfig {
    /// A placeholder config option
    pub placeholder1: Option<u32>,
    /// Another placeholder config option
    pub placeholder2: Option<String>,
    /// A required config option
    pub required1: Option<String>,
}

impl Default for NullableConfig {
    fn default() -> (r: NullableConfig)
        ensures
            r.placeholder1 is None,
            r.placeholder2 is None,
            r.required1 is None,
    {
        NullableConfig { placeholder1: None, placeholder2: None, required1: None }
    }
}

impl NullableConfig {
    /// Documentation of the record.
    pub fn docs() -> (r: &'static str)
        ensures
            r@ == record_doc(),
    {
        "Application configuration"
    }

    /// The field names, in declaration order.
    pub fn field_names() -> (r: Vec<&'static str>)
        ensures
            r@.len() == NUM_FIELDS,
            forall|i: int| 0 <= i < NUM_FIELDS ==> (#[trigger] r@[i])@ == field_name(i),
    {
        schema_field_names()
    }

    /// The field documentation strings, in declaration order.
    pub fn field_docs() -> (r: Vec<&'static str>)
        ensures
            r@.len() == NUM_FIELDS,
            forall|i: int| 0 <= i < NUM_FIELDS ==> (#[trigger] r@[i])@ == field_doc(i),
    {
        schema_field_docs()
    }

    /// The documentation of field `field`, or `None` when there is no such field.
    pub fn get_field_comment(field: &str) -> (r: Option<&'static str>)
        ensures
            r is Some <==> exists|i: int| 0 <= i < NUM_FIELDS && field@ == field_name(i),
            forall|i: int|
                0 <= i < NUM_FIELDS && field@ == field_name(i) ==> r is Some && (r->0)@
                    == field_doc(i),
    {
        schema_field_comment(field)
    }

    /// The sparse layer of these overrides: only the fields given are set.
    pub fn to_layer(&self) -> (r: Layer)
        ensures
            r.wf(),
            r@ == overrides_layer(*self),
    {
        let mut values: Vec<Option<Value>> = Vec::new();
        values.push(
            match self.placeholder1 {
                Some(v) => Some(Value::Integer(v as i64)),
                None => None,
            },
        );
        values.push(
            match &self.placeholder2 {
                Some(s) => Some(Value::Text(s.clone())),
                None => None,
            },
        );
        values.push(
            match &self.required1 {
                Some(s) => Some(Value::Text(s.clone())),
                None => None,
            },
        );
        let r = Layer { values };
        assert(r@ =~= overrides_layer(*self));
        r
    }
}

/// The command line: where the configuration files are, whether to read them,
/// and the overrides given.
#[derive(Debug, Clone)]
pub struct CliConfig {
    /// Path to config directory
    pub config_dir: String,
    /// Disable reading config files from the config directory
    pub no_config: bool,
    /// The remaining arguments: one optional override per field
    pub nullable_config: NullableConfig,
}

} // verus!
