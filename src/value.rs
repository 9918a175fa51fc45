use vstd::prelude::*;
use vstd::string::*;

verus! {

/// A dynamically typed configuration value, as a layer holds it before the
/// typed record is built.
#[derive(Debug, Clone, PartialEq, Eq)]
pub enum Value {
    Integer(i64),
    Text(String),
    /// A value of any other kind, of which only the kind is kept.
    Other(ValueKind),
}

/// The kinds of TOML value that no configuration field takes.
#[derive(Debug, Clone, Copy, PartialEq, Eq, Structural)]
pub enum ValueKind {
    Float,
    Boolean,
    Datetime,
    Array,
    InlineTable,
    Table,
    ArrayOfTables,
}

/// The name of a kind of value, as the TOML decoder names it.
pub open spec fn kind_name(k: ValueKind) -> Seq<char> {
    match k {
        ValueKind::Float => "float"@,
        ValueKind::Boolean => "boolean"@,
        ValueKind::Datetime => "datetime"@,
        ValueKind::Array => "array"@,
        ValueKind::InlineTable => "inline table"@,
        ValueKind::Table => "table"@,
        ValueKind::ArrayOfTables => "array of tables"@,
    }
}

impl ValueKind {
    /// The name of this kind of value.
    pub fn name(&self) -> (r: &'static str)
        ensures
            r@ == kind_name(*self),
    {
        match self {
            ValueKind::Float => "float",
            ValueKind::Boolean => "boolean",
            ValueKind::Datetime => "datetime",
            ValueKind::Array => "array",
            ValueKind::InlineTable => "inline table",
            ValueKind::Table => "table",
            ValueKind::ArrayOfTables => "array of tables",
        }
    }
}

/// The mathematical model of a `Value`.
pub enum ValueModel {
    Integer(int),
    Text(Seq<char>),
    Other(ValueKind),
}

impl View for Value {
    type V = ValueModel;

    open spec fn view(&self) -> ValueModel {
        match self {
            Value::Integer(n) => ValueModel::Integer(*n as int),
            Value::Text(s) => ValueModel::Text(s@),
            Value::Other(k) => ValueModel::Other(*k),
        }
    }
}

pub open spec fn opt_view(o: Option<Value>) -> Option<ValueModel> {
    match o {
        Some(v) => Some(v@),
        None => None,
    }
}

/// Equality of two strings, character by character.
pub fn str_equal(a: &str, b: &str) -> (r: bool)
    ensures
        r == (a@ == b@),
{
    let n = a.unicode_len();
    let m = b.unicode_len();
    if n != m {
        return false;
    }
    let mut i: usize = 0;
    while i < n
        invariant
            n == a@.len(),
            m == b@.len(),
            n == m,
            i <= n,
            a@.subrange(0, i as int) == b@.subrange(0, i as int),
        decreases n - i,
    {
        if a.get_char(i) != b.get_char(i) {
            assert(a@[i as int] != b@[i as int]);
            return false;
        }
        assert(a@.subrange(0, i + 1) == a@.subrange(0, i as int).push(a@[i as int]));
        assert(b@.subrange(0, i + 1) == b@.subrange(0, i as int).push(b@[i as int]));
        i = i + 1;
    }
    assert(a@ == a@.subrange(0, n as int));
    assert(b@ == b@.subrange(0, n as int));
    true
}

/// Equality of two values by their models.
pub fn value_equal(a: &Value, b: &Value) -> (r: bool)
    ensures
        r == (a@ == b@),
{
    match (a, b) {
        (Value::Integer(x), Value::Integer(y)) => *x == *y,
        (Value::Text(x), Value::Text(y)) => str_equal(x.as_str(), y.as_str()),
        (Value::Other(x), Value::Other(y)) => *x == *y,
        _ => false,
    }
}

/// Copies a value, keeping its model.
pub fn copy_value(v: &Value) -> (r: Value)
    ensures
        r@ == v@,
{
    match v {
        Value::Integer(n) => Value::Integer(*n),
        Value::Text(s) => Value::Text(s.clone()),
        Value::Other(k) => Value::Other(*k),
    }
}

/// Copies an optional value, keeping its model.
pub fn copy_opt(o: &Option<Value>) -> (r: Option<Value>)
    ensures
        opt_view(r) == opt_view(*o),
{
    match o {
        Some(v) => Some(copy_value(v)),
        None => None,
    }
}

} // verus!
