//! JSON values as the response logic sees them: compact JSON text, with
//! serde_json doing the parsing and printing.

use vstd::prelude::*;
use vstd::string::*;
use crate::text::{hex_digit, push_digit, strings_view};
use crate::trace::pairs_view;
use crate::timing::opt_view;

verus! {

/// serde_json's value, held opaque and read only through the functions below.
#[verifier::external_type_specification]
#[verifier::external_body]
pub struct ExJsonValue(serde_json::Value);

/// The JSON escape of one character, as serde_json writes it: a quote and a
/// backslash escaped, the short escapes for backspace, form feed, line feed,
/// carriage return and tab, `\u00XX` for the other control characters, and
/// every other character as itself.
pub open spec fn escaped_char(c: char) -> Seq<char> {
    if c == '"' {
        seq!['\\', '"']
    } else if c == '\\' {
        seq!['\\', '\\']
    } else if c == '\x08' {
        seq!['\\', 'b']
    } else if c == '\x0c' {
        seq!['\\', 'f']
    } else if c == '\n' {
        seq!['\\', 'n']
    } else if c == '\r' {
        seq!['\\', 'r']
    } else if c == '\t' {
        seq!['\\', 't']
    } else if (c as u32) < 0x20 {
        seq!['\\', 'u', '0', '0', hex_digit((c as u32 / 16) as nat), hex_digit((c as u32 % 16) as nat)]
    } else {
        seq![c]
    }
}

/// Every character of `s` escaped.
pub open spec fn escaped(s: Seq<char>) -> Seq<char>
    decreases s.len(),
{
    if s.len() == 0 {
        seq![]
    } else {
        escaped(s.drop_last()) + escaped_char(s.last())
    }
}

/// The JSON string literal for `s`: quoted, with the characters JSON requires escaped.
pub open spec fn json_quoted(s: Seq<char>) -> Seq<char> {
    seq!['"'] + escaped(s) + seq!['"']
}

fn append_escaped(out: &mut String, s: &str, i: usize)
    requires
        i < s@.len(),
    ensures
        final(out)@ == old(out)@ + escaped_char(s@[i as int]),
{
    proof {
        reveal_strlit("\\\"");
        reveal_strlit("\\\\");
        reveal_strlit("\\b");
        reveal_strlit("\\f");
        reveal_strlit("\\n");
        reveal_strlit("\\r");
        reveal_strlit("\\t");
        reveal_strlit("\\u00");
    }
    let n = s.unicode_len();
    let c = s.get_char(i);
    let code = c as u32;
    if c == '"' {
        out.append("\\\"");
    } else if c == '\\' {
        out.append("\\\\");
    } else if c == '\x08' {
        out.append("\\b");
    } else if c == '\x0c' {
        out.append("\\f");
    } else if c == '\n' {
        out.append("\\n");
    } else if c == '\r' {
        out.append("\\r");
    } else if c == '\t' {
        out.append("\\t");
    } else if code < 0x20 {
        out.append("\\u00");
        push_digit(out, (code / 16) as u128);
        push_digit(out, (code % 16) as u128);
    } else if i < n {
        out.append(s.substring_char(i, i + 1));
    }
    assert(final(out)@ =~= old(out)@ + escaped_char(s@[i as int]));
}

/// Writes `s` as a JSON string literal.
pub fn quote(s: &str) -> (r: String)
    ensures
        r@ == json_quoted(s@),
{
    proof {
        reveal_strlit("\"");
    }
    let n = s.unicode_len();
    let mut out = String::from_str("\"");
    let mut i: usize = 0;
    while i < n
        invariant
            n == s@.len(),
            i <= n,
            out@ == seq!['"'] + escaped(s@.take(i as int)),
        decreases n - i,
    {
        append_escaped(&mut out, s, i);
        assert(s@.take(i + 1).drop_last() =~= s@.take(i as int));
        assert(s@.take(i + 1).last() == s@[i as int]);
        i += 1;
    }
    assert(s@.take(n as int) =~= s@);
    out.append("\"");
    proof {
        reveal_strlit("\"");
    }
    assert(out@ =~= json_quoted(s@));
    out
}

/// The string that the JSON text `t` denotes, if `t` is a JSON string literal.
pub uninterp spec fn json_string_of(t: Seq<char>) -> Option<Seq<char>>;

/// Relies on serde_json::from_str into a `String`: succeeds exactly on a JSON
/// string literal, and gives the string it denotes.
#[verifier::external_body]
pub(crate) fn decode_string(t: &str) -> (r: Option<String>)
    ensures
        opt_view(r) == json_string_of(t@),
{
    serde_json::from_str::<String>(t).ok()
}

/// The elements of the JSON array that `t` denotes, each as compact JSON text,
/// if `t` is an array.
pub uninterp spec fn json_items_of(t: Seq<char>) -> Option<Seq<Seq<char>>>;

/// Relies on serde_json::from_str into a `Vec<Value>`, and on the `Display` of
/// `Value` for the compact text of each element.
#[verifier::external_body]
pub(crate) fn array_item_texts(t: &str) -> (r: Option<Vec<String>>)
    ensures
        match r {
            Some(v) => json_items_of(t@) == Some(strings_view(v@)),
            None => json_items_of(t@) is None,
        },
{
    let items: Vec<serde_json::Value> = serde_json::from_str(t).ok()?;
    Some(items.iter().map(|v| v.to_string()).collect())
}

/// The entries of the JSON object that `t` denotes, in the map's order, each
/// value as compact JSON text, if `t` is an object.
pub uninterp spec fn json_entries_of(t: Seq<char>) -> Option<Seq<(Seq<char>, Seq<char>)>>;

/// Relies on serde_json::from_str into a `Map<String, Value>`, and on the
/// `Display` of `Value` for the compact text of each value.
#[verifier::external_body]
pub(crate) fn object_entry_texts(t: &str) -> (r: Option<Vec<(String, String)>>)
    ensures
        match r {
            Some(v) => json_entries_of(t@) == Some(pairs_view(v@)),
            None => json_entries_of(t@) is None,
        },
{
    let map: serde_json::Map<String, serde_json::Value> = serde_json::from_str(t).ok()?;
    Some(map.iter().map(|(k, v)| (k.clone(), v.to_string())).collect())
}

/// The MessagePack encoding of the value that a JSON text denotes, if the
/// text parses and the value encodes.
pub uninterp spec fn msgpack_of_json(t: Seq<char>) -> Option<Seq<u8>>;

/// Relies on serde_json::from_str (the text as a `Value`) and rmp_serde::to_vec
/// (its MessagePack encoding); either one's message on failure.
#[verifier::external_body]
pub(crate) fn msgpack_bytes(t: &str) -> (r: Result<Vec<u8>, String>)
    ensures
        match r {
            Ok(b) => msgpack_of_json(t@) == Some(b@),
            Err(_) => msgpack_of_json(t@) is None,
        },
{
    let value: serde_json::Value = serde_json::from_str(t).map_err(|e| e.to_string())?;
    rmp_serde::to_vec(&value).map_err(|e| e.to_string())
}

/// The form-urlencoded text of the value that a JSON text denotes, if the
/// text parses and the value encodes.
pub uninterp spec fn form_of_json(t: Seq<char>) -> Option<Seq<char>>;

/// Relies on serde_json::from_str (the text as a `Value`) and serde_qs::to_string
/// (its form-urlencoded text); either one's message on failure.
#[verifier::external_body]
pub(crate) fn form_text(t: &str) -> (r: Result<String, String>)
    ensures
        match r {
            Ok(s) => form_of_json(t@) == Some(s@),
            Err(_) => form_of_json(t@) is None,
        },
{
    let value: serde_json::Value = serde_json::from_str(t).map_err(|e| e.to_string())?;
    serde_qs::to_string(&value).map_err(|e| e.to_string())
}

} // verus!
