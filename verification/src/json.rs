//! Reading JSON documents held as text. The parsing itself is serde_json's; each reading below
//! is one question asked of the parsed document, and its answer is a function of the text (and
//! the JSON pointer) alone.
use vstd::prelude::*;

use crate::text::opt_view;

verus! {

/// The message serde_json reports for a text that is not a JSON document, `None` for one that is.
pub uninterp spec fn json_syntax_error(text: Seq<char>) -> Option<Seq<char>>;

/// Whether the document `text` has a value at the JSON pointer `pointer` (false for a text that
/// is not a document).
pub uninterp spec fn json_has(text: Seq<char>, pointer: Seq<char>) -> bool;

/// The boolean at `pointer`, when the value there is a boolean.
pub uninterp spec fn json_bool(text: Seq<char>, pointer: Seq<char>) -> Option<bool>;

/// The string at `pointer`, when the value there is a string.
pub uninterp spec fn json_str(text: Seq<char>, pointer: Seq<char>) -> Option<Seq<char>>;

/// Whether the value at `pointer` is a JSON object.
pub uninterp spec fn json_object(text: Seq<char>, pointer: Seq<char>) -> bool;

/// Whether the value at `pointer` is a JSON array.
pub uninterp spec fn json_array(text: Seq<char>, pointer: Seq<char>) -> bool;

/// The document `text` pretty-printed by serde_json.
pub uninterp spec fn json_pretty_text(text: Seq<char>) -> Option<Seq<char>>;

/// The compact JSON text of the value at `pointer`.
pub uninterp spec fn json_compact_at(text: Seq<char>, pointer: Seq<char>) -> Option<Seq<char>>;

/// Parses `text` with `serde_json::from_str` into a `serde_json::Value` and returns the
/// `Display` text of the error when that fails. The message is named, not described.
#[verifier::external_body]
pub(crate) fn json_parse_error(text: &str) -> (r: Option<String>)
    ensures
        opt_view(r) == json_syntax_error(text@),
{
    match serde_json::from_str::<serde_json::Value>(text) {
        Ok(_) => None,
        Err(err) => Some(err.to_string()),
    }
}

/// Parses `text` with `serde_json::from_str` and asks `serde_json::Value::pointer` whether a
/// value sits at `pointer`.
#[verifier::external_body]
pub(crate) fn json_has_at(text: &str, pointer: &str) -> (r: bool)
    ensures
        r == json_has(text@, pointer@),
{
    serde_json::from_str::<serde_json::Value>(text).ok().is_some_and(|v| v.pointer(pointer).is_some())
}

/// Parses `text` with `serde_json::from_str`, looks up `pointer` with
/// `serde_json::Value::pointer`, and reads the value with `serde_json::Value::as_bool`.
#[verifier::external_body]
pub(crate) fn json_bool_at(text: &str, pointer: &str) -> (r: Option<bool>)
    ensures
        r == json_bool(text@, pointer@),
{
    serde_json::from_str::<serde_json::Value>(text).ok().and_then(|v| v.pointer(pointer).and_then(|n| n.as_bool()))
}

/// Parses `text` with `serde_json::from_str`, looks up `pointer` with
/// `serde_json::Value::pointer`, and reads the value with `serde_json::Value::as_str`.
#[verifier::external_body]
pub(crate) fn json_str_at(text: &str, pointer: &str) -> (r: Option<String>)
    ensures
        opt_view(r) == json_str(text@, pointer@),
{
    serde_json::from_str::<serde_json::Value>(text).ok().and_then(
        |v| v.pointer(pointer).and_then(|n| n.as_str().map(|s| s.to_string())),
    )
}

/// Parses `text` with `serde_json::from_str`, looks up `pointer` with
/// `serde_json::Value::pointer`, and asks `serde_json::Value::is_object`.
#[verifier::external_body]
pub(crate) fn json_object_at(text: &str, pointer: &str) -> (r: bool)
    ensures
        r == json_object(text@, pointer@),
{
    serde_json::from_str::<serde_json::Value>(text).ok().is_some_and(|v| v.pointer(pointer).is_some_and(|n| n.is_object()))
}

/// Parses `text` with `serde_json::from_str`, looks up `pointer` with
/// `serde_json::Value::pointer`, and asks `serde_json::Value::is_array`.
#[verifier::external_body]
pub(crate) fn json_array_at(text: &str, pointer: &str) -> (r: bool)
    ensures
        r == json_array(text@, pointer@),
{
    serde_json::from_str::<serde_json::Value>(text).ok().is_some_and(|v| v.pointer(pointer).is_some_and(|n| n.is_array()))
}

/// Parses `text` with `serde_json::from_str`, looks up `pointer` with
/// `serde_json::Value::pointer`, and prints the value found with its compact `Display`.
#[verifier::external_body]
pub(crate) fn json_compact(text: &str, pointer: &str) -> (r: Option<String>)
    ensures
        opt_view(r) == json_compact_at(text@, pointer@),
        json_syntax_error(text@) is None && pointer@.len() == 0 ==> r is Some,
{
    serde_json::from_str::<serde_json::Value>(text).ok().and_then(|v| v.pointer(pointer).map(|n| n.to_string()))
}

/// Parses `text` with `serde_json::from_str` and prints the value with
/// `serde_json::to_string_pretty`.
#[verifier::external_body]
pub(crate) fn json_pretty(text: &str) -> (r: Option<String>)
    ensures
        opt_view(r) == json_pretty_text(text@),
{
    serde_json::from_str::<serde_json::Value>(text).ok().and_then(|v| serde_json::to_string_pretty(&v).ok())
}

// ---------------------------------------------------------------------------------------------
// Writing JSON text
// ---------------------------------------------------------------------------------------------

/// A lower-case hexadecimal digit.
pub open spec fn hex_char(d: nat) -> char {
    if d < 10 {
        ((48 + d) as u32) as char
    } else {
        ((87 + d) as u32) as char
    }
}

/// How one character is written inside a JSON string: quotes, backslashes and control
/// characters are escaped (with the short forms where JSON has them), everything else is kept.
pub open spec fn escape_char(c: char) -> Seq<char> {
    if c == '"' {
        seq!['\\', '"']
    } else if c == '\\' {
        seq!['\\', '\\']
    } else if c == '\n' {
        seq!['\\', 'n']
    } else if c == '\r' {
        seq!['\\', 'r']
    } else if c == '\t' {
        seq!['\\', 't']
    } else if (c as u32) == 8 {
        seq!['\\', 'b']
    } else if (c as u32) == 12 {
        seq!['\\', 'f']
    } else if (c as u32) < 32 {
        seq!['\\', 'u', '0', '0', hex_char((c as u32 / 16) as nat), hex_char((c as u32 % 16) as nat)]
    } else {
        seq![c]
    }
}

/// The characters of `s` escaped for a JSON string.
pub open spec fn escaped(s: Seq<char>) -> Seq<char>
    decreases s.len(),
{
    if s.len() == 0 {
        Seq::empty()
    } else {
        escaped(s.drop_last()) + escape_char(s.last())
    }
}

/// `s` as a JSON string literal, as serde_json writes it.
pub open spec fn json_quoted(s: Seq<char>) -> Seq<char> {
    seq!['"'] + escaped(s) + seq!['"']
}

fn hex_digit(d: u32) -> (c: char)
    requires
        d < 16,
    ensures
        c == hex_char(d as nat),
{
    if d < 10 {
        let b: u8 = 48 + (d as u8);
        b as char
    } else {
        let b: u8 = 87 + (d as u8);
        b as char
    }
}

/// Appends `s` to `out` as a JSON string literal.
pub fn push_json_string(out: &mut String, s: &str)
    ensures
        final(out)@ == old(out)@ + json_quoted(s@),
{
    let v = crate::text::char_vec(s);
    let ghost start = out@;
    crate::text::push_char(out, '"');
    let mut i: usize = 0;
    while i < v.len()
        invariant
            i <= v.len(),
            v@ == s@,
            out@ == start + seq!['"'] + escaped(v@.take(i as int)),
        decreases v.len() - i,
    {
        let c = v[i];
        let code = c as u32;
        if c == '"' {
            crate::text::push_char(out, '\\');
            crate::text::push_char(out, '"');
        } else if c == '\\' {
            crate::text::push_char(out, '\\');
            crate::text::push_char(out, '\\');
        } else if c == '\n' {
            crate::text::push_char(out, '\\');
            crate::text::push_char(out, 'n');
        } else if c == '\r' {
            crate::text::push_char(out, '\\');
            crate::text::push_char(out, 'r');
        } else if c == '\t' {
            crate::text::push_char(out, '\\');
            crate::text::push_char(out, 't');
        } else if code == 8 {
            crate::text::push_char(out, '\\');
            crate::text::push_char(out, 'b');
        } else if code == 12 {
            crate::text::push_char(out, '\\');
            crate::text::push_char(out, 'f');
        } else if code < 32 {
            crate::text::push_char(out, '\\');
            crate::text::push_char(out, 'u');
            crate::text::push_char(out, '0');
            crate::text::push_char(out, '0');
            crate::text::push_char(out, hex_digit(code / 16));
            crate::text::push_char(out, hex_digit(code % 16));
        } else {
            crate::text::push_char(out, c);
        }
        proof {
            assert(v@.take(i + 1).drop_last() =~= v@.take(i as int));
            assert(v@.take(i + 1).last() == c);
        }
        assert(out@ =~= start + seq!['"'] + escaped(v@.take(i + 1)));
        i = i + 1;
    }
    assert(v@.take(v.len() as int) =~= v@);
    crate::text::push_char(out, '"');
    assert(out@ =~= start + json_quoted(s@));
}

/// `s` as a JSON string literal.
pub fn quote_json(s: &str) -> (r: String)
    ensures
        r@ == json_quoted(s@),
{
    let mut out = String::new();
    push_json_string(&mut out, s);
    out
}

} // verus!
