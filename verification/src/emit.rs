//! Rendering of the generated implementation: the source text that reads
//! every field of the record from the container by its resolved key and
//! constructs the record in one operation.

use vstd::prelude::*;
use vstd::string::StrSliceExecFns;
use vstd::string::StringExecFns;

use crate::model::{DeriveError, FieldBinding, FieldBindingView, ResolvedKey, ResolvedKeyView};

verus! {

/// Relies on std's String::push: it appends exactly the given character.
pub assume_specification[ String::push ](s: &mut String, c: char)
    ensures
        final(s)@ == old(s)@.push(c),
;

/// The decimal digit for one value below ten.
pub open spec fn digit_char(d: nat) -> char {
    if d == 0 {
        '0'
    } else if d == 1 {
        '1'
    } else if d == 2 {
        '2'
    } else if d == 3 {
        '3'
    } else if d == 4 {
        '4'
    } else if d == 5 {
        '5'
    } else if d == 6 {
        '6'
    } else if d == 7 {
        '7'
    } else if d == 8 {
        '8'
    } else {
        '9'
    }
}

/// The decimal representation of a number, most significant digit first.
pub open spec fn dec_rep(n: nat) -> Seq<char>
    decreases n,
{
    if n < 10 {
        seq![digit_char(n)]
    } else {
        dec_rep(n / 10) + seq![digit_char(n % 10)]
    }
}

/// How one character appears inside an emitted string literal: quotes and
/// backslashes are escaped, everything else is kept as it is.
pub open spec fn escape_char(c: char) -> Seq<char> {
    if c == '"' {
        seq!['\\', '"']
    } else if c == '\\' {
        seq!['\\', '\\']
    } else {
        seq![c]
    }
}

/// The contents of an emitted string literal for the given string.
pub open spec fn escape_seq(s: Seq<char>) -> Seq<char>
    decreases s.len(),
{
    if s.len() == 0 {
        Seq::empty()
    } else {
        escape_char(s.first()) + escape_seq(s.drop_first())
    }
}

/// The expression the generated implementation uses for one field's key: a
/// literal key wrapped in the runtime's key type, or a call of the runtime's
/// hash function on a string literal.
pub open spec fn render_key_spec(path: Seq<char>, key: ResolvedKeyView) -> Seq<char> {
    match key {
        ResolvedKeyView::Literal(n) => path + "::hash40::Hash40("@ + dec_rep(n as nat) + ")"@,
        ResolvedKeyView::HashOf(s) => path + "::hash40::hash40(\""@ + escape_seq(s) + "\")"@,
    }
}

/// The line of the generated implementation that reads one field.
pub open spec fn render_binding_spec(path: Seq<char>, b: FieldBindingView) -> Seq<char> {
    "            "@ + b.name + ": data.read_child(reader, "@ + render_key_spec(path, b.key)
        + ", offsets)?,\n"@
}

/// The lines for all fields, in declaration order.
pub open spec fn render_bindings_spec(path: Seq<char>, bs: Seq<FieldBindingView>) -> Seq<char>
    decreases bs.len(),
{
    if bs.len() == 0 {
        Seq::empty()
    } else {
        render_binding_spec(path, bs.first()) + render_bindings_spec(path, bs.drop_first())
    }
}

/// The whole generated implementation for one record.
pub open spec fn render_impl_spec(
    name: Seq<char>,
    path: Seq<char>,
    bs: Seq<FieldBindingView>,
) -> Seq<char> {
    "impl Prc for "@ + name + " {\n    fn read_param<R: ::std::io::Read + ::std::io::Seek>(reader: &mut R, offsets: "@
        + path + "::FileOffsets) -> "@ + path + "::Result<Self> {\n        let data = "@ + path
        + "::StructData::from_stream(reader)?;\n        Ok(Self {\n"@ + render_bindings_spec(
        path,
        bs,
    ) + "        })\n    }\n}\n"@
}

/// The diagnostic text for each error.
pub open spec fn message_spec(e: DeriveError) -> Seq<char> {
    match e {
        DeriveError::UnsupportedShape => "Derive macro only implemented for named structs"@,
        DeriveError::InvalidStructAttributeName => "Invalid struct attribute. Accepted name is only 'path'"@,
        DeriveError::DuplicateStructAttribute => "Invalid struct attributes. Only use 'path' attribute in struct once"@,
        DeriveError::InvalidFieldAttributeName => "Invalid field attribute. Accepted attribute names are 'name', and 'hash'"@,
        DeriveError::DuplicateFieldAttribute => "Invalid field attributes. Only use 'name' or 'hash' attribute in field once"@,
        DeriveError::SyntaxError => "Invalid annotation syntax"@,
    }
}

/// The source emitted in place of an implementation when derivation fails: a
/// compile-time diagnostic carrying the error's text.
pub open spec fn render_error_spec(e: DeriveError) -> Seq<char> {
    "compile_error!(\""@ + message_spec(e) + "\");\n"@
}

/// The decimal digit character for one value below ten.
fn digit(d: u64) -> (c: char)
    requires
        d < 10,
    ensures
        c == digit_char(d as nat),
{
    if d == 0 {
        '0'
    } else if d == 1 {
        '1'
    } else if d == 2 {
        '2'
    } else if d == 3 {
        '3'
    } else if d == 4 {
        '4'
    } else if d == 5 {
        '5'
    } else if d == 6 {
        '6'
    } else if d == 7 {
        '7'
    } else if d == 8 {
        '8'
    } else {
        '9'
    }
}

/// Append the decimal representation of a number.
fn push_decimal(out: &mut String, n: u64)
    ensures
        final(out)@ == old(out)@ + dec_rep(n as nat),
    decreases n,
{
    if n >= 10 {
        push_decimal(out, n / 10);
        let c = digit(n % 10);
        out.push(c);
        assert(final(out)@ =~= old(out)@ + dec_rep(n as nat));
    } else {
        let c = digit(n);
        out.push(c);
        assert(final(out)@ =~= old(out)@ + dec_rep(n as nat));
    }
}

/// Append the escaped form of a string, from the given character onward.
fn push_escaped_from(out: &mut String, s: &str, i: usize)
    requires
        i <= s@.len(),
    ensures
        final(out)@ == old(out)@ + escape_seq(s@.skip(i as int)),
    decreases s@.len() - i,
{
    if i == s.unicode_len() {
        assert(s@.skip(i as int) =~= Seq::empty());
        assert(final(out)@ =~= old(out)@ + escape_seq(s@.skip(i as int)));
    } else {
        let ghost rest = s@.skip(i as int);
        assert(rest.first() == s@[i as int]);
        assert(rest.drop_first() =~= s@.skip(i as int + 1));
        let c = s.get_char(i);
        if c == '"' {
            out.push('\\');
            out.push('"');
        } else if c == '\\' {
            out.push('\\');
            out.push('\\');
        } else {
            out.push(c);
        }
        assert(out@ =~= old(out)@ + escape_char(c));
        push_escaped_from(out, s, i + 1);
        assert(final(out)@ =~= old(out)@ + escape_seq(s@.skip(i as int)));
    }
}

/// Append the key expression for one field.
fn push_key(out: &mut String, path: &String, key: &ResolvedKey)
    ensures
        final(out)@ == old(out)@ + render_key_spec(path@, key@),
{
    match key {
        ResolvedKey::Literal(n) => {
            out.append(path.as_str());
            out.append("::hash40::Hash40(");
            push_decimal(out, *n);
            out.append(")");
            assert(final(out)@ =~= old(out)@ + render_key_spec(path@, key@));
        },
        ResolvedKey::HashOf(s) => {
            out.append(path.as_str());
            out.append("::hash40::hash40(\"");
            assert(s@.skip(0) =~= s@);
            push_escaped_from(out, s.as_str(), 0);
            out.append("\")");
            assert(final(out)@ =~= old(out)@ + render_key_spec(path@, key@));
        },
    }
}

/// Append the line that reads one field.
fn push_binding(out: &mut String, path: &String, b: &FieldBinding)
    ensures
        final(out)@ == old(out)@ + render_binding_spec(path@, b@),
{
    out.append("            ");
    out.append(b.name.as_str());
    out.append(": data.read_child(reader, ");
    push_key(out, path, &b.key);
    out.append(", offsets)?,\n");
    assert(final(out)@ =~= old(out)@ + render_binding_spec(path@, b@));
}

/// Append the lines for all fields, from the given field onward.
fn push_bindings_from(out: &mut String, path: &String, bs: &Vec<FieldBinding>, i: usize)
    requires
        i <= bs@.len(),
    ensures
        final(out)@ == old(out)@ + render_bindings_spec(
            path@,
            bs@.map_values(|b: FieldBinding| b@).skip(i as int),
        ),
    decreases bs@.len() - i,
{
    let ghost rest = bs@.map_values(|b: FieldBinding| b@).skip(i as int);
    if i == bs.len() {
        assert(rest =~= Seq::empty());
        assert(final(out)@ =~= old(out)@ + render_bindings_spec(path@, rest));
    } else {
        assert(rest.first() == bs@[i as int]@);
        assert(rest.drop_first() =~= bs@.map_values(|b: FieldBinding| b@).skip(i as int + 1));
        push_binding(out, path, &bs[i]);
        push_bindings_from(out, path, bs, i + 1);
        assert(final(out)@ =~= old(out)@ + render_bindings_spec(path@, rest));
    }
}

/// Emit the implementation for one record: its name, the runtime namespace to
/// reference, and the binding of every field in declaration order.
pub fn emit_impl(name: &String, path: &String, bindings: &Vec<FieldBinding>) -> (r: String)
    ensures
        r@ == render_impl_spec(name@, path@, bindings@.map_values(|b: FieldBinding| b@)),
{
    let mut out = String::new();
    out.append("impl Prc for ");
    out.append(name.as_str());
    out.append(" {\n    fn read_param<R: ::std::io::Read + ::std::io::Seek>(reader: &mut R, offsets: ");
    out.append(path.as_str());
    out.append("::FileOffsets) -> ");
    out.append(path.as_str());
    out.append("::Result<Self> {\n        let data = ");
    out.append(path.as_str());
    out.append("::StructData::from_stream(reader)?;\n        Ok(Self {\n");
    assert(bindings@.map_values(|b: FieldBinding| b@).skip(0) =~= bindings@.map_values(
        |b: FieldBinding| b@,
    ));
    push_bindings_from(&mut out, path, bindings, 0);
    out.append("        })\n    }\n}\n");
    assert(out@ =~= render_impl_spec(name@, path@, bindings@.map_values(|b: FieldBinding| b@)));
    out
}

/// The diagnostic text for each error.
pub fn message(e: DeriveError) -> (r: String)
    ensures
        r@ == message_spec(e),
{
    match e {
        DeriveError::UnsupportedShape => String::from_str(
            "Derive macro only implemented for named structs",
        ),
        DeriveError::InvalidStructAttributeName => String::from_str(
            "Invalid struct attribute. Accepted name is only 'path'",
        ),
        DeriveError::DuplicateStructAttribute => String::from_str(
            "Invalid struct attributes. Only use 'path' attribute in struct once",
        ),
        DeriveError::InvalidFieldAttributeName => String::from_str(
            "Invalid field attribute. Accepted attribute names are 'name', and 'hash'",
        ),
        DeriveError::DuplicateFieldAttribute => String::from_str(
            "Invalid field attributes. Only use 'name' or 'hash' attribute in field once",
        ),
        DeriveError::SyntaxError => String::from_str("Invalid annotation syntax"),
    }
}

/// Emit the compile-time diagnostic for a failed derivation.
pub fn emit_error(e: DeriveError) -> (r: String)
    ensures
        r@ == render_error_spec(e),
{
    let mut out = String::new();
    out.append("compile_error!(\"");
    let m = message(e);
    out.append(m.as_str());
    out.append("\");\n");
    assert(out@ =~= render_error_spec(e));
    out
}

} // verus!
