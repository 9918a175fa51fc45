use vstd::prelude::*;
use vstd::string::*;
use crate::config::{Config, ConfigModel, field_doc, field_doc_at, field_name, field_name_at, record_doc};
use crate::layer::NUM_FIELDS;

verus! {

/// Index of the end of the line that starts at `i`: the first line feed at or
/// after `i`, or the end of the text.
pub open spec fn line_end(s: Seq<char>, i: int) -> int
    decreases s.len() - i,
{
    if i < 0 || i >= s.len() || s[i] == '\n' {
        i
    } else {
        line_end(s, i + 1)
    }
}

/// A line without the carriage return that ends it, if any.
pub open spec fn strip_cr(l: Seq<char>) -> Seq<char> {
    if l.len() > 0 && l.last() == '\r' {
        l.drop_last()
    } else {
        l
    }
}

/// One line as a TOML comment: `#` alone for an empty line, else `# ` and the
/// line, each ended by a line feed.
pub open spec fn comment_line(l: Seq<char>) -> Seq<char> {
    if l.len() == 0 {
        "#\n"@
    } else {
        "# "@ + l + "\n"@
    }
}

/// The comment lines of the text from index `i` on. Lines end at a line feed
/// (a carriage return just before that line feed is dropped; one at the very
/// end of the text is kept); a line feed that ends the text starts no further
/// line.
pub open spec fn comment_from(s: Seq<char>, i: int) -> Seq<char>
    decreases s.len() - i,
{
    if i < 0 || i >= s.len() {
        Seq::empty()
    } else {
        let e = line_end(s, i);
        if e < i {
            Seq::empty()
        } else if e >= s.len() {
            comment_line(s.subrange(i, e))
        } else {
            comment_line(strip_cr(s.subrange(i, e))) + comment_from(s, e + 1)
        }
    }
}

/// The decimal digit `d`.
pub open spec fn digit(d: int) -> char {
    seq!['0', '1', '2', '3', '4', '5', '6', '7', '8', '9'][d]
}

/// The decimal text of `n`, without sign or leading zeros.
pub open spec fn decimal(n: nat) -> Seq<char>
    decreases n,
{
    if n < 10 {
        seq![digit(n as int)]
    } else {
        decimal(n / 10).push(digit((n % 10) as int))
    }
}

/// The TOML text of the string `s` as the encoder writes it (quoted, with the
/// escapes it picks).
pub uninterp spec fn toml_string_text(s: Seq<char>) -> Seq<char>;

/// Relies on toml_edit: `Value::from(i64)` displayed alone is the integer in
/// decimal, written by `i64`'s own `Display`.
#[verifier::external_body]
fn toml_integer(n: u32) -> (r: String)
    ensures
        r@ == decimal(n as nat),
{
    toml_edit::Value::from(n as i64).to_string()
}

/// Relies on toml_edit: `Value::from(&str)` displayed alone is the string as a
/// TOML string literal.
#[verifier::external_body]
fn toml_string(s: &str) -> (r: String)
    ensures
        r@ == toml_string_text(s@),
{
    toml_edit::Value::from(s).to_string()
}

/// The entry of field `i` in the documented file: the record's documentation
/// and a blank line before the first entry, a blank line before any other, then
/// the field's documentation as comments and the `key = value` line.
pub open spec fn documented_entry(i: int, value_text: Seq<char>) -> Seq<char> {
    let lead = if i == 0 {
        comment_from(record_doc(), 0) + "\n"@
    } else {
        "\n"@
    };
    lead + comment_from(field_doc(i), 0) + field_name(i) + " = "@ + value_text + "\n"@
}

/// The documented TOML file of a record: one entry per field, in schema order.
pub open spec fn documented_toml(c: ConfigModel) -> Seq<char> {
    documented_entry(0, decimal(c.placeholder1 as nat)) + documented_entry(
        1,
        toml_string_text(c.placeholder2),
    ) + documented_entry(2, toml_string_text(c.required1))
}

fn entry_text(i: usize, value_text: &str) -> (r: String)
    requires
        i < NUM_FIELDS,
    ensures
        r@ == documented_entry(i as int, value_text@),
{
    let mut out = String::new();
    if i == 0 {
        let overview = Config::docstring_to_toml_comment(Config::docs());
        out.append(overview.as_str());
    }
    out.append("\n");
    let comment = Config::docstring_to_toml_comment(field_doc_at(i));
    out.append(comment.as_str());
    out.append(field_name_at(i));
    out.append(" = ");
    out.append(value_text);
    out.append("\n");
    assert(out@ =~= documented_entry(i as int, value_text@));
    out
}

impl Config {
    /// Turns a documentation string into TOML comment lines, one for each of
    /// its lines.
    pub fn docstring_to_toml_comment(docstring: &str) -> (r: String)
        ensures
            r@ == comment_from(docstring@, 0),
    {
        let n = docstring.unicode_len();
        let mut toml_comment = String::new();
        let mut i: usize = 0;
        while i < n
            invariant
                n == docstring@.len(),
                i <= n,
                toml_comment@ + comment_from(docstring@, i as int) == comment_from(docstring@, 0),
            decreases n - i,
        {
            let mut e: usize = i;
            while e < n && docstring.get_char(e) != '\n'
                invariant
                    n == docstring@.len(),
                    i <= e <= n,
                    line_end(docstring@, i as int) == line_end(docstring@, e as int),
                decreases n - e,
            {
                e = e + 1;
            }
            assert(line_end(docstring@, e as int) == e);
            let mut stop: usize = e;
            if e < n && e > i && docstring.get_char(e - 1) == '\r' {
                stop = e - 1;
            }
            let line = docstring.substring_char(i, stop);
            if e < n {
                assert(line@ == strip_cr(docstring@.subrange(i as int, e as int)));
            } else {
                assert(line@ == docstring@.subrange(i as int, e as int));
            }
            let ghost before = toml_comment@;
            if stop == i {
                toml_comment.append("#\n");
            } else {
                toml_comment.append("# ");
                toml_comment.append(line);
                toml_comment.append("\n");
            }
            assert(toml_comment@ == before + comment_line(line@));
            let next: usize = if e < n {
                e + 1
            } else {
                n
            };
            assert(comment_from(docstring@, i as int) == comment_line(line@) + comment_from(
                docstring@,
                next as int,
            ));
            assert(before + comment_from(docstring@, i as int) == toml_comment@ + comment_from(
                docstring@,
                next as int,
            ));
            i = next;
        }
        toml_comment
    }

    /// The record as a TOML document in which each field is preceded by its
    /// documentation, and the first by the record's own.
    pub fn to_documented_toml(&self) -> (r: String)
        ensures
            r@ == documented_toml(self@),
    {
        let p1 = toml_integer(self.placeholder1);
        let p2 = toml_string(self.placeholder2.as_str());
        let r1 = toml_string(self.required1.as_str());
        let mut out = entry_text(0, p1.as_str());
        let e1 = entry_text(1, p2.as_str());
        let e2 = entry_text(2, r1.as_str());
        out.append(e1.as_str());
        out.append(e2.as_str());
        assert(out@ =~= documented_toml(self@));
        out
    }
}

} // verus!
