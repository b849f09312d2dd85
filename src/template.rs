//! Rendering of link templates and dates.

use vstd::prelude::*;
use std::fmt::Write;

verus! {

#[verifier::external_type_specification]
#[verifier::external_body]
pub struct ExRenderError(handlebars::RenderError);

/// What handlebars renders, in strict mode, for `template` with each of `names` bound to the
/// string of the same position in `values`; `None` where rendering fails, a placeholder
/// that names no bound value included.
pub uninterp spec fn handlebars_rendering(
    template: Seq<char>,
    names: Seq<Seq<char>>,
    values: Seq<Seq<char>>,
) -> Option<Seq<char>>;

/// What chrono prints for the UTC instant `secs` seconds and `nanos` nanoseconds after the
/// epoch in the strftime-like `format`; `None` where the instant is out of range or the
/// format is invalid.
pub uninterp spec fn chrono_utc_format(secs: int, nanos: int, format: Seq<char>) -> Option<
    Seq<char>,
>;

/// A character that a placeholder's name may hold: an ASCII letter, digit or underscore.
pub open spec fn is_name_char_spec(c: char) -> bool {
    ('a' <= c && c <= 'z') || ('A' <= c && c <= 'Z') || ('0' <= c && c <= '9') || c == '_'
}

/// The number of name characters in `t` from position `i` on.
pub open spec fn name_run(t: Seq<char>, i: int) -> nat
    decreases t.len() - i,
{
    if 0 <= i < t.len() && is_name_char_spec(t[i]) {
        1 + name_run(t, i + 1)
    } else {
        0
    }
}

/// From position `i` on, `t` is plain text (no `{`, `}` or `\\`) and placeholders `{{name}}`.
pub open spec fn simple_from(t: Seq<char>, i: int) -> bool
    decreases t.len() - i,
{
    if i < 0 || i >= t.len() {
        true
    } else if t[i] == '{' {
        let n = name_run(t, i + 2);
        &&& i + 1 < t.len()
        &&& t[i + 1] == '{'
        &&& n >= 1
        &&& i + n + 4 <= t.len()
        &&& t[i + n + 2] == '}'
        &&& t[i + n + 3] == '}'
        &&& simple_from(t, i + n + 4)
    } else if t[i] == '}' || t[i] == '\\' {
        false
    } else {
        simple_from(t, i + 1)
    }
}

/// A link template: plain text and `{{name}}` placeholders, nothing else.
pub open spec fn is_simple_template(t: Seq<char>) -> bool {
    simple_from(t, 0)
}

pub fn is_name_char(c: char) -> (r: bool)
    ensures
        r == is_name_char_spec(c),
{
    ('a' <= c && c <= 'z') || ('A' <= c && c <= 'Z') || ('0' <= c && c <= '9') || c == '_'
}

/// Whether `t` holds only plain text and `{{name}}` placeholders.
pub fn is_plain_template(t: &str) -> (r: bool)
    ensures
        r == is_simple_template(t@),
{
    let len = t.unicode_len();
    let mut i: usize = 0;
    while i < len
        invariant
            len == t@.len(),
            i <= len,
            simple_from(t@, 0) == simple_from(t@, i as int),
        decreases len - i,
    {
        let c = t.get_char(i);
        if c == '{' {
            if i >= len - 1 || t.get_char(i + 1) != '{' {
                return false;
            }
            let mut j: usize = i + 2;
            while j < len && is_name_char(t.get_char(j))
                invariant
                    len == t@.len(),
                    i + 2 <= j <= len,
                    name_run(t@, i + 2) == (j - (i + 2)) + name_run(t@, j as int),
                decreases len - j,
            {
                j = j + 1;
            }
            assert(name_run(t@, j as int) == 0);
            if j == i + 2 || len - j < 2 || t.get_char(j) != '}' || t.get_char(j + 1) != '}' {
                return false;
            }
            i = j + 2;
        } else if c == '}' || c == '\\' {
            return false;
        } else {
            i = i + 1;
        }
    }
    true
}

pub open spec fn string_views(v: Seq<String>) -> Seq<Seq<char>> {
    v.map_values(|s: String| s@)
}

/// Relies on handlebars::Handlebars::render_template with a fresh registry in strict mode
/// (handlebars::Handlebars::set_strict_mode): the result depends on the template and the
/// data alone, and an undefined placeholder is an error. Only templates without blocks,
/// partials or subexpressions are handed over, so rendering does not recurse.
#[verifier::external_body]
pub(crate) fn render_template(template: &str, names: &Vec<String>, values: &Vec<String>) -> (r:
    Result<String, handlebars::RenderError>)
    requires
        is_simple_template(template@),
    ensures
        match handlebars_rendering(template@, string_views(names@), string_views(values@)) {
            Some(text) => r is Ok && r->Ok_0@ == text,
            None => r is Err,
        },
{
    let mut data = serde_json::Map::new();
    for (name, value) in names.iter().zip(values.iter()) {
        data.insert(name.clone(), serde_json::Value::String(value.clone()));
    }
    let mut registry = handlebars::Handlebars::new();
    registry.set_strict_mode(true);
    registry.render_template(template, &data)
}

/// Relies on chrono::DateTime::<Utc>::from_timestamp and chrono::DateTime::format: the text
/// depends on the instant and the format alone, and an invalid format is reported, not
/// printed.
#[verifier::external_body]
pub(crate) fn format_utc(secs: i64, nanos: u32, format: &str) -> (r: Option<String>)
    ensures
        match chrono_utc_format(secs as int, nanos as int, format@) {
            Some(text) => r is Some && r->Some_0@ == text,
            None => r is None,
        },
{
    let when = chrono::DateTime::<chrono::Utc>::from_timestamp(secs, nanos)?;
    let mut out = String::new();
    write!(out, "{}", when.format(format)).ok()?;
    Some(out)
}

} // verus!
