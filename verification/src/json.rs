//! Exact JSON text for the wire payload.
//!
//! The specification level describes a serialized object character by
//! character: escaped string literals, boolean literals, quoted members
//! joined with commas between braces. The executable level builds that text
//! and is proved to match it exactly. String escaping follows the common
//! JSON emitters: the two-character short escapes for quote, backslash and
//! the named control characters, and `\u00XX` with lowercase hexadecimal
//! digits for the remaining control characters.

use vstd::prelude::*;
use vstd::string::StrSliceExecFns;
use vstd::string::StringExecFns;

verus! {

/// The lowercase hexadecimal digit for a value below sixteen.
pub open spec fn hex_char(n: u32) -> char {
    if n == 0 {
        '0'
    } else if n == 1 {
        '1'
    } else if n == 2 {
        '2'
    } else if n == 3 {
        '3'
    } else if n == 4 {
        '4'
    } else if n == 5 {
        '5'
    } else if n == 6 {
        '6'
    } else if n == 7 {
        '7'
    } else if n == 8 {
        '8'
    } else if n == 9 {
        '9'
    } else if n == 10 {
        'a'
    } else if n == 11 {
        'b'
    } else if n == 12 {
        'c'
    } else if n == 13 {
        'd'
    } else if n == 14 {
        'e'
    } else {
        'f'
    }
}

/// How one character appears inside a JSON string literal.
pub open spec fn escape_char(c: char) -> Seq<char> {
    if c == '"' {
        "\\\""@
    } else if c == '\\' {
        "\\\\"@
    } else if c == '\u{8}' {
        "\\b"@
    } else if c == '\t' {
        "\\t"@
    } else if c == '\n' {
        "\\n"@
    } else if c == '\u{c}' {
        "\\f"@
    } else if c == '\r' {
        "\\r"@
    } else if (c as u32) < 0x20 {
        "\\u00"@ + seq![hex_char((c as u32) / 16), hex_char((c as u32) % 16)]
    } else {
        seq![c]
    }
}

/// How a whole text appears inside a JSON string literal, without the
/// surrounding quotes: each character escaped, in order.
pub open spec fn escaped(s: Seq<char>) -> Seq<char>
    decreases s.len(),
{
    if s.len() == 0 {
        Seq::empty()
    } else {
        escaped(s.drop_last()) + escape_char(s.last())
    }
}

/// A JSON string literal: the escaped text between double quotes.
pub open spec fn json_string(s: Seq<char>) -> Seq<char> {
    "\""@ + escaped(s) + "\""@
}

/// A JSON boolean literal.
pub open spec fn json_bool(b: bool) -> Seq<char> {
    if b {
        "true"@
    } else {
        "false"@
    }
}

/// One object member: the quoted key, a colon, and the already serialized
/// value. Keys are plain identifiers here and are not escaped.
pub open spec fn member_text(key: Seq<char>, value: Seq<char>) -> Seq<char> {
    "\""@ + key + "\":"@ + value
}

/// The members of an object, joined with commas.
pub open spec fn join_members(ms: Seq<(Seq<char>, Seq<char>)>) -> Seq<char>
    decreases ms.len(),
{
    if ms.len() == 0 {
        Seq::empty()
    } else if ms.len() == 1 {
        member_text(ms[0].0, ms[0].1)
    } else {
        join_members(ms.drop_last()) + ","@ + member_text(ms.last().0, ms.last().1)
    }
}

/// A whole JSON object over its member list.
pub open spec fn object_text(ms: Seq<(Seq<char>, Seq<char>)>) -> Seq<char> {
    "{"@ + join_members(ms) + "}"@
}

/// Appending one more member to a non-empty member list appends a comma and
/// that member's text.
pub proof fn lemma_join_push(ms: Seq<(Seq<char>, Seq<char>)>, key: Seq<char>, value: Seq<char>)
    requires
        ms.len() >= 1,
    ensures
        join_members(ms.push((key, value))) == join_members(ms) + ","@ + member_text(key, value),
{
    let t = ms.push((key, value));
    assert(t.drop_last() =~= ms);
    assert(t.last() == (key, value));
}

/// Extending the escaped text by one character appends that character's
/// escape.
proof fn lemma_escaped_step(s: Seq<char>, i: int)
    requires
        0 <= i < s.len(),
    ensures
        escaped(s.subrange(0, i + 1)) == escaped(s.subrange(0, i)) + escape_char(s[i]),
{
    let t = s.subrange(0, i + 1);
    assert(t.drop_last() =~= s.subrange(0, i));
    assert(t.last() == s[i]);
}

/// Relies on `String::push`: appends exactly the given character.
#[verifier::external_body]
fn push_char(out: &mut String, c: char)
    ensures
        final(out)@ == old(out)@ + seq![c],
{
    out.push(c);
}

/// The lowercase hexadecimal digit for a value below sixteen.
fn hex_char_of(n: u32) -> (c: char)
    requires
        n < 16,
    ensures
        c == hex_char(n),
{
    if n == 0 {
        '0'
    } else if n == 1 {
        '1'
    } else if n == 2 {
        '2'
    } else if n == 3 {
        '3'
    } else if n == 4 {
        '4'
    } else if n == 5 {
        '5'
    } else if n == 6 {
        '6'
    } else if n == 7 {
        '7'
    } else if n == 8 {
        '8'
    } else if n == 9 {
        '9'
    } else if n == 10 {
        'a'
    } else if n == 11 {
        'b'
    } else if n == 12 {
        'c'
    } else if n == 13 {
        'd'
    } else if n == 14 {
        'e'
    } else {
        'f'
    }
}

/// Appends the escape of one character.
fn append_escaped_char(out: &mut String, c: char)
    ensures
        final(out)@ == old(out)@ + escape_char(c),
{
    if c == '"' {
        out.append("\\\"");
    } else if c == '\\' {
        out.append("\\\\");
    } else if c == '\u{8}' {
        out.append("\\b");
    } else if c == '\t' {
        out.append("\\t");
    } else if c == '\n' {
        out.append("\\n");
    } else if c == '\u{c}' {
        out.append("\\f");
    } else if c == '\r' {
        out.append("\\r");
    } else {
        let u = c as u32;
        if u < 0x20 {
            out.append("\\u00");
            let hi = hex_char_of(u / 16);
            push_char(out, hi);
            let lo = hex_char_of(u % 16);
            push_char(out, lo);
            proof {
                assert(out@ =~= old(out)@ + escape_char(c));
            }
        } else {
            push_char(out, c);
            proof {
                assert(out@ =~= old(out)@ + escape_char(c));
            }
        }
    }
}

/// Appends the escaped form of a whole text.
fn append_escaped(out: &mut String, s: &str)
    ensures
        final(out)@ == old(out)@ + escaped(s@),
{
    let ghost base = out@;
    let len = s.unicode_len();
    let mut i: usize = 0;
    proof {
        assert(s@.subrange(0, 0) =~= Seq::<char>::empty());
        assert(base + escaped(s@.subrange(0, 0)) =~= base);
    }
    while i < len
        invariant
            i <= len,
            len == s@.len(),
            out@ == base + escaped(s@.subrange(0, i as int)),
        decreases len - i,
    {
        let c = s.get_char(i);
        append_escaped_char(out, c);
        proof {
            lemma_escaped_step(s@, i as int);
            assert(out@ =~= base + escaped(s@.subrange(0, i + 1)));
        }
        i = i + 1;
    }
    proof {
        assert(s@.subrange(0, len as int) =~= s@);
    }
}

/// Appends a JSON string literal holding the given text.
pub fn append_json_string(out: &mut String, s: &str)
    ensures
        final(out)@ == old(out)@ + json_string(s@),
{
    out.append("\"");
    append_escaped(out, s);
    out.append("\"");
    proof {
        assert(out@ =~= old(out)@ + json_string(s@));
    }
}

/// Appends one object member whose value is a JSON string.
pub fn append_member_str(out: &mut String, key: &str, value: &str)
    ensures
        final(out)@ == old(out)@ + member_text(key@, json_string(value@)),
{
    out.append("\"");
    out.append(key);
    out.append("\":");
    append_json_string(out, value);
    proof {
        assert(out@ =~= old(out)@ + member_text(key@, json_string(value@)));
    }
}

/// Appends one object member whose value is a JSON boolean.
pub fn append_member_bool(out: &mut String, key: &str, value: bool)
    ensures
        final(out)@ == old(out)@ + member_text(key@, json_bool(value)),
{
    out.append("\"");
    out.append(key);
    out.append("\":");
    if value {
        out.append("true");
    } else {
        out.append("false");
    }
    proof {
        assert(out@ =~= old(out)@ + member_text(key@, json_bool(value)));
    }
}

} // verus!
