//! The executable encoder for reply documents.
//!
//! Every function here mirrors one rendering-model function of `json` and
//! appends exactly the characters the model assigns, so `render_document`
//! returns precisely `document_chars` of its argument.

use vstd::prelude::*;
use vstd::string::StringExecFns;

use crate::json::{
    digit_char, document_chars, esc_chars, field_chars, field_list_chars, field_value_chars,
    int_chars, member_chars, member_list_chars, nat_chars, object_chars, obj_list_chars,
    quoted_chars, scalar_chars, string_chars, view_fields, view_members, view_objs, JsonDocument,
    JsonField, JsonFieldValue, JsonMember, JsonScalar,
};
use crate::parse::{chars_of, push_char};

verus! {

fn digit_char_x(d: u64) -> (r: char)
    requires
        d < 10,
    ensures
        r == digit_char(d as int),
{
    if d == 0 { '0' } else if d == 1 { '1' } else if d == 2 { '2' }
    else if d == 3 { '3' } else if d == 4 { '4' } else if d == 5 { '5' }
    else if d == 6 { '6' } else if d == 7 { '7' } else if d == 8 { '8' }
    else { '9' }
}

/// Append the decimal digits of a non-negative number.
fn write_nat(out: &mut String, m: u64)
    ensures
        final(out)@ == old(out)@ + nat_chars(m as int),
    decreases m,
{
    if m < 10 {
        push_char(out, digit_char_x(m));
        proof {
            assert(final(out)@ =~= old(out)@ + nat_chars(m as int));
        }
    } else {
        write_nat(out, m / 10);
        push_char(out, digit_char_x(m % 10));
        proof {
            assert(final(out)@ =~= old(out)@ + nat_chars(m as int));
        }
    }
}

/// Append the decimal rendering of an integer.
fn write_int(out: &mut String, n: i64)
    ensures
        final(out)@ == old(out)@ + int_chars(n as int),
{
    if n < 0 {
        push_char(out, '-');
        let m: u64 = if n == i64::MIN { 9223372036854775808u64 } else { (-n) as u64 };
        write_nat(out, m);
        proof {
            assert(final(out)@ =~= old(out)@ + int_chars(n as int));
        }
    } else {
        write_nat(out, n as u64);
    }
}

/// Append the body of a string value, escaping as the model does.
fn write_str_body(out: &mut String, s: &[char])
    ensures
        final(out)@ == old(out)@ + string_chars(s@),
    decreases s@.len(),
{
    if s.len() > 0 {
        let c = s[0];
        if c == '"' || c == '\\' {
            push_char(out, '\\');
            push_char(out, c);
        } else {
            push_char(out, c);
        }
        proof {
            assert(s@.subrange(1, s@.len() as int) =~= s@.drop_first());
        }
        write_str_body(out, vstd::slice::slice_subrange(s, 1, s.len()));
        proof {
            assert(final(out)@ =~= old(out)@ + string_chars(s@));
        }
    } else {
        proof {
            assert(final(out)@ =~= old(out)@ + string_chars(s@));
        }
    }
}

/// Append a quoted string value.
fn write_quoted(out: &mut String, v: &String)
    ensures
        final(out)@ == old(out)@ + quoted_chars(v@),
{
    let cs = chars_of(v.as_str());
    push_char(out, '"');
    write_str_body(out, cs.as_slice());
    push_char(out, '"');
    proof {
        assert(final(out)@ =~= old(out)@ + quoted_chars(v@));
    }
}

/// Append a rendered scalar.
fn write_scalar(out: &mut String, v: &JsonScalar)
    ensures
        final(out)@ == old(out)@ + scalar_chars(v@),
{
    match v {
        JsonScalar::Null => {
            out.append("null");
            proof {
                reveal_strlit("null");
                assert(final(out)@ =~= old(out)@ + scalar_chars(v@));
            }
        },
        JsonScalar::Bool(b) => {
            if *b {
                out.append("true");
                proof {
                    reveal_strlit("true");
                    assert(final(out)@ =~= old(out)@ + scalar_chars(v@));
                }
            } else {
                out.append("false");
                proof {
                    reveal_strlit("false");
                    assert(final(out)@ =~= old(out)@ + scalar_chars(v@));
                }
            }
        },
        JsonScalar::Int(n) => {
            write_int(out, *n);
        },
        JsonScalar::Str(t) => {
            write_quoted(out, t);
        },
    }
}

/// Append one rendered object member.
fn write_member(out: &mut String, m: &JsonMember)
    ensures
        final(out)@ == old(out)@ + member_chars(m@),
{
    write_quoted(out, &m.name);
    push_char(out, ':');
    write_scalar(out, &m.value);
    proof {
        assert(final(out)@ =~= old(out)@ + member_chars(m@));
    }
}

/// Append a rendered non-empty member list, comma separated.
fn write_member_list(out: &mut String, ms: &[JsonMember])
    requires
        ms@.len() > 0,
    ensures
        final(out)@ == old(out)@ + member_list_chars(view_members(ms@)),
    decreases ms@.len(),
{
    write_member(out, &ms[0]);
    if ms.len() > 1 {
        push_char(out, ',');
        proof {
            assert(ms@.subrange(1, ms@.len() as int) =~= ms@.drop_first());
            assert(view_members(ms@.drop_first()) =~= view_members(ms@).drop_first());
        }
        write_member_list(out, vstd::slice::slice_subrange(ms, 1, ms.len()));
        proof {
            assert(final(out)@ =~= old(out)@ + member_list_chars(view_members(ms@)));
        }
    } else {
        proof {
            assert(final(out)@ =~= old(out)@ + member_list_chars(view_members(ms@)));
        }
    }
}

/// Append one rendered flat object, braces included.
fn write_object(out: &mut String, ms: &Vec<JsonMember>)
    ensures
        final(out)@ == old(out)@ + object_chars(view_members(ms@)),
{
    push_char(out, '{');
    if ms.len() > 0 {
        write_member_list(out, ms.as_slice());
    }
    push_char(out, '}');
    proof {
        assert(final(out)@ =~= old(out)@ + object_chars(view_members(ms@)));
    }
}

/// Append a rendered non-empty list of flat objects, comma separated.
fn write_obj_list(out: &mut String, os: &[Vec<JsonMember>])
    requires
        os@.len() > 0,
    ensures
        final(out)@ == old(out)@ + obj_list_chars(view_objs(os@)),
    decreases os@.len(),
{
    write_object(out, &os[0]);
    if os.len() > 1 {
        push_char(out, ',');
        proof {
            assert(os@.subrange(1, os@.len() as int) =~= os@.drop_first());
            assert(view_objs(os@.drop_first()) =~= view_objs(os@).drop_first());
        }
        write_obj_list(out, vstd::slice::slice_subrange(os, 1, os.len()));
        proof {
            assert(final(out)@ =~= old(out)@ + obj_list_chars(view_objs(os@)));
        }
    } else {
        proof {
            assert(final(out)@ =~= old(out)@ + obj_list_chars(view_objs(os@)));
        }
    }
}

/// Append a rendered array of flat objects, brackets included.
fn write_array(out: &mut String, os: &Vec<Vec<JsonMember>>)
    ensures
        final(out)@ == old(out)@ + crate::json::array_chars(view_objs(os@)),
{
    push_char(out, '[');
    if os.len() > 0 {
        write_obj_list(out, os.as_slice());
    }
    push_char(out, ']');
    proof {
        assert(final(out)@ =~= old(out)@ + crate::json::array_chars(view_objs(os@)));
    }
}

/// Append a rendered top-level field value.
fn write_field_value(out: &mut String, v: &JsonFieldValue)
    ensures
        final(out)@ == old(out)@ + field_value_chars(v@),
{
    match v {
        JsonFieldValue::Scalar(s) => write_scalar(out, s),
        JsonFieldValue::ObjArray(os) => write_array(out, os),
    }
}

/// Append one rendered top-level field.
fn write_field(out: &mut String, f: &JsonField)
    ensures
        final(out)@ == old(out)@ + field_chars(f@),
{
    write_quoted(out, &f.name);
    push_char(out, ':');
    write_field_value(out, &f.value);
    proof {
        assert(final(out)@ =~= old(out)@ + field_chars(f@));
    }
}

/// Append a rendered non-empty field list, comma separated.
fn write_field_list(out: &mut String, fs: &[JsonField])
    requires
        fs@.len() > 0,
    ensures
        final(out)@ == old(out)@ + field_list_chars(view_fields(fs@)),
    decreases fs@.len(),
{
    write_field(out, &fs[0]);
    if fs.len() > 1 {
        push_char(out, ',');
        proof {
            assert(fs@.subrange(1, fs@.len() as int) =~= fs@.drop_first());
            assert(view_fields(fs@.drop_first()) =~= view_fields(fs@).drop_first());
        }
        write_field_list(out, vstd::slice::slice_subrange(fs, 1, fs.len()));
        proof {
            assert(final(out)@ =~= old(out)@ + field_list_chars(view_fields(fs@)));
        }
    } else {
        proof {
            assert(final(out)@ =~= old(out)@ + field_list_chars(view_fields(fs@)));
        }
    }
}

/// Render one whole reply document as text.
pub fn render_document(d: &JsonDocument) -> (r: String)
    ensures
        r@ == document_chars(d@),
{
    let mut out = String::new();
    push_char(&mut out, '{');
    if d.fields.len() > 0 {
        write_field_list(&mut out, d.fields.as_slice());
    }
    push_char(&mut out, '}');
    proof {
        assert(out@ =~= document_chars(d@));
    }
    out
}

} // verus!
