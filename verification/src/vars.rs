//! The extra-variables value: a JSON-like tagged type with a deterministic,
//! compact serializer.
//!
//! The inline extra variables of a playbook become one argv token, so the
//! textual form must be stable: no whitespace, mapping entries in their
//! given order, and the string escapes of compact JSON (quote, backslash,
//! and control characters; the latter as `\u00XX` with lowercase hex).

use vstd::prelude::*;

use crate::text::digit_char;
use crate::text::i64_to_decimal;
use crate::text::int_rep;
use crate::text::push_char;

verus! {

/// A JSON-like value for extra variables: null, booleans, integers,
/// strings, sequences, and ordered mappings. `Null` doubles as the "unset"
/// sentinel: an unset value emits no flag at all.
#[derive(Debug)]
pub enum VarsValue {
    Null,
    Bool(bool),
    Num(i64),
    Str(String),
    Arr(Vec<VarsValue>),
    Obj(Vec<(String, VarsValue)>),
}

/// The character for one hexadecimal digit, lowercase.
pub open spec fn hex_digit(d: nat) -> char
    recommends
        d < 16,
{
    if d < 10 {
        digit_char(d)
    } else {
        ((d + 87) as u8) as char
    }
}

/// How one character is written inside a JSON string: quote and backslash
/// get a backslash escape, the named control characters their short form,
/// any other control character the `\u00XX` form, and everything else
/// stands as itself.
pub open spec fn esc_char(c: char) -> Seq<char> {
    if c == '"' {
        seq!['\\', '"']
    } else if c == '\\' {
        seq!['\\', '\\']
    } else if c == '\u{08}' {
        seq!['\\', 'b']
    } else if c == '\u{09}' {
        seq!['\\', 't']
    } else if c == '\u{0A}' {
        seq!['\\', 'n']
    } else if c == '\u{0C}' {
        seq!['\\', 'f']
    } else if c == '\u{0D}' {
        seq!['\\', 'r']
    } else if (c as u32) < 32 {
        seq!['\\', 'u', '0', '0', hex_digit((c as u32) as nat / 16), hex_digit(
            (c as u32) as nat % 16,
        )]
    } else {
        seq![c]
    }
}

/// The characters of `s` with every character escaped as JSON asks.
pub open spec fn escaped(s: Seq<char>) -> Seq<char>
    decreases s.len(),
{
    if s.len() == 0 {
        Seq::empty()
    } else {
        escaped(s.drop_last()) + esc_char(s.last())
    }
}

/// `s` escaped and wrapped in double quotes: a JSON string literal.
pub open spec fn quoted(s: Seq<char>) -> Seq<char> {
    seq!['"'] + escaped(s) + seq!['"']
}

/// The compact JSON text of a value.
pub open spec fn json_chars(v: VarsValue) -> Seq<char>
    decreases v,
{
    match v {
        VarsValue::Null => "null"@,
        VarsValue::Bool(b) => if b {
            "true"@
        } else {
            "false"@
        },
        VarsValue::Num(n) => int_rep(n as int),
        VarsValue::Str(s) => quoted(s@),
        VarsValue::Arr(items) => seq!['['] + json_list(items@) + seq![']'],
        VarsValue::Obj(fields) => seq!['{'] + json_members(fields@) + seq!['}'],
    }
}

/// The comma-separated JSON texts of a sequence's elements.
pub open spec fn json_list(items: Seq<VarsValue>) -> Seq<char>
    decreases items,
{
    if items.len() == 0 {
        Seq::empty()
    } else if items.len() == 1 {
        json_chars(items[0])
    } else {
        json_list(items.drop_last()) + seq![','] + json_chars(items.last())
    }
}

/// One mapping entry: the quoted key, a colon, and the value's JSON text.
pub open spec fn member_chars(f: (String, VarsValue)) -> Seq<char>
    decreases f,
{
    quoted(f.0@) + seq![':'] + json_chars(f.1)
}

/// The comma-separated entries of a mapping.
pub open spec fn json_members(fields: Seq<(String, VarsValue)>) -> Seq<char>
    decreases fields,
{
    if fields.len() == 0 {
        Seq::empty()
    } else if fields.len() == 1 {
        member_chars(fields[0])
    } else {
        json_members(fields.drop_last()) + seq![','] + member_chars(fields.last())
    }
}

/// The character for one hexadecimal digit, lowercase.
fn hex_digit_char(d: u8) -> (c: char)
    requires
        d < 16,
    ensures
        c == hex_digit(d as nat),
{
    if d < 10 {
        (48 + d) as char
    } else {
        (87 + d) as char
    }
}

/// Appends the JSON escape of the one character `c`.
fn append_escaped_char(r: &mut String, c: char)
    ensures
        final(r)@ == old(r)@ + esc_char(c),
{
    if c == '"' {
        push_char(r, '\\');
        push_char(r, '"');
    } else if c == '\\' {
        push_char(r, '\\');
        push_char(r, '\\');
    } else if c == '\u{08}' {
        push_char(r, '\\');
        push_char(r, 'b');
    } else if c == '\u{09}' {
        push_char(r, '\\');
        push_char(r, 't');
    } else if c == '\u{0A}' {
        push_char(r, '\\');
        push_char(r, 'n');
    } else if c == '\u{0C}' {
        push_char(r, '\\');
        push_char(r, 'f');
    } else if c == '\u{0D}' {
        push_char(r, '\\');
        push_char(r, 'r');
    } else if (c as u32) < 32 {
        let code = c as u32;
        push_char(r, '\\');
        push_char(r, 'u');
        push_char(r, '0');
        push_char(r, '0');
        push_char(r, hex_digit_char((code / 16) as u8));
        push_char(r, hex_digit_char((code % 16) as u8));
    } else {
        push_char(r, c);
    }
    proof {
        assert(r@ =~= old(r)@ + esc_char(c));
    }
}

/// Appends the escaped characters of `s`.
fn append_escaped(r: &mut String, s: &str)
    ensures
        final(r)@ == old(r)@ + escaped(s@),
{
    let n = s.unicode_len();
    let mut i: usize = 0;
    while i < n
        invariant
            n == s@.len(),
            0 <= i <= n,
            r@ == old(r)@ + escaped(s@.take(i as int)),
        decreases n - i,
    {
        let c = s.get_char(i);
        append_escaped_char(r, c);
        proof {
            let prefix = s@.take(i + 1 as int);
            assert(prefix.drop_last() =~= s@.take(i as int));
            assert(prefix.last() == s@[i as int]);
            assert(r@ =~= old(r)@ + escaped(prefix));
        }
        i = i + 1;
    }
    proof {
        assert(s@.take(n as int) =~= s@);
    }
}

/// Appends `s` as a JSON string literal: quoted and escaped.
fn append_quoted(r: &mut String, s: &str)
    ensures
        final(r)@ == old(r)@ + quoted(s@),
{
    push_char(r, '"');
    append_escaped(r, s);
    push_char(r, '"');
    proof {
        assert(r@ =~= old(r)@ + quoted(s@));
    }
}

impl VarsValue {
    /// Whether this value is the unset sentinel.
    pub fn is_null(&self) -> (r: bool)
        ensures
            r == (*self is Null),
    {
        match self {
            VarsValue::Null => true,
            _ => false,
        }
    }

    /// Serializes the value to its compact JSON text.
    pub fn to_json(&self) -> (r: String)
        ensures
            r@ == json_chars(*self),
        decreases *self,
    {
        match self {
            VarsValue::Null => "null".to_owned(),
            VarsValue::Bool(b) => if *b {
                "true".to_owned()
            } else {
                "false".to_owned()
            },
            VarsValue::Num(n) => i64_to_decimal(*n),
            VarsValue::Str(s) => {
                let mut r = String::new();
                append_quoted(&mut r, s.as_str());
                proof {
                    assert(r@ =~= json_chars(*self));
                }
                r
            },
            VarsValue::Arr(items) => {
                let ghost elems = items@;
                let mut r = String::new();
                push_char(&mut r, '[');
                let mut i: usize = 0;
                while i < items.len()
                    invariant
                        0 <= i <= items.len(),
                        items@ == elems,
                        *self == VarsValue::Arr(*items),
                        r@ == seq!['['] + json_list(elems.take(i as int)),
                    decreases items.len() - i,
                {
                    if i > 0 {
                        push_char(&mut r, ',');
                    }
                    let item = &items[i];
                    proof {
                        assert(decreases_to!(*self => self->Arr_0));
                        assert(self->Arr_0 == *items);
                        assert(decreases_to!(*items => items@[i as int]));
                    }
                    let piece = item.to_json();
                    r.append(piece.as_str());
                    proof {
                        let prefix = elems.take(i + 1 as int);
                        assert(prefix.drop_last() =~= elems.take(i as int));
                        assert(prefix.last() == elems[i as int]);
                        assert(r@ =~= seq!['['] + json_list(prefix));
                    }
                    i = i + 1;
                }
                push_char(&mut r, ']');
                proof {
                    assert(elems.take(items@.len() as int) =~= elems);
                    assert(r@ =~= json_chars(*self));
                }
                r
            },
            VarsValue::Obj(fields) => {
                let ghost entries = fields@;
                let mut r = String::new();
                push_char(&mut r, '{');
                let mut i: usize = 0;
                while i < fields.len()
                    invariant
                        0 <= i <= fields.len(),
                        fields@ == entries,
                        *self == VarsValue::Obj(*fields),
                        r@ == seq!['{'] + json_members(entries.take(i as int)),
                    decreases fields.len() - i,
                {
                    if i > 0 {
                        push_char(&mut r, ',');
                    }
                    let entry = &fields[i];
                    append_quoted(&mut r, entry.0.as_str());
                    push_char(&mut r, ':');
                    proof {
                        assert(decreases_to!(*self => self->Obj_0));
                        assert(self->Obj_0 == *fields);
                        assert(decreases_to!(*fields => fields@[i as int]));
                        assert(decreases_to!(fields@[i as int] => fields@[i as int].1));
                    }
                    let piece = entry.1.to_json();
                    r.append(piece.as_str());
                    proof {
                        let prefix = entries.take(i + 1 as int);
                        assert(prefix.drop_last() =~= entries.take(i as int));
                        assert(prefix.last() == entries[i as int]);
                        assert(member_chars(entries[i as int]) == quoted(entries[i as int].0@)
                            + seq![':'] + json_chars(entries[i as int].1));
                        assert(r@ =~= seq!['{'] + json_members(prefix));
                    }
                    i = i + 1;
                }
                push_char(&mut r, '}');
                proof {
                    assert(entries.take(fields@.len() as int) =~= entries);
                    assert(r@ =~= json_chars(*self));
                }
                r
            },
        }
    }
}

} // verus!
