//! The executable decoder for reply text.
//!
//! Every function here mirrors one parsing-model function of `json` and is
//! proved to return exactly what the model says, so `parse_document` is
//! correct by construction: it accepts precisely the texts the grammar
//! accepts, and returns the document the grammar assigns to them.

use vstd::prelude::*;
use vstd::slice::slice_subrange;
use vstd::string::StrSliceExecFns;

use crate::json::{
    digit_run, digit_val, esc_code, is_digit_char, is_ws_char, lemma_digit_run_len,
    lemma_sp_flat_obj_len, lemma_sp_scalar_len, lemma_sp_string_len, lemma_sp_field_value_len,
    lemma_sp_ws_len, sp_array, sp_document, sp_field_list, sp_field_value, sp_flat_obj, sp_int,
    sp_member_list, sp_obj_list, sp_scalar, sp_str_body, sp_string, sp_ws, digits_val,
    view_fields, view_members, view_objs, FieldV, FieldValueV, JsonDocument, JsonField,
    JsonFieldValue, JsonMember, JsonScalar, MemberV, ScalarV,
};

verus! {

/// Relies on String::push: appends the given character to the end of
/// the string.
#[verifier::external_body]
pub(crate) fn push_char(s: &mut String, c: char)
    ensures
        final(s)@ == old(s)@.push(c),
{
    s.push(c);
}

/// The characters of a text, in order.
pub fn chars_of(s: &str) -> (v: Vec<char>)
    ensures
        v@ == s@,
{
    let n = s.unicode_len();
    let mut v: Vec<char> = Vec::new();
    let mut i: usize = 0;
    while i < n
        invariant
            i <= n,
            n == s@.len(),
            v@ == s@.subrange(0, i as int),
        decreases n - i,
    {
        let c = s.get_char(i);
        v.push(c);
        i = i + 1;
        proof {
            assert(v@ =~= s@.subrange(0, i as int));
        }
    }
    proof {
        assert(v@ =~= s@);
    }
    v
}

fn is_ws(c: char) -> (r: bool)
    ensures
        r == is_ws_char(c),
{
    c == ' ' || c == '\t' || c == '\n' || c == '\r'
}

fn is_digit(c: char) -> (r: bool)
    ensures
        r == is_digit_char(c),
{
    let u = c as u32;
    48 <= u && u <= 57
}

fn unescape(c: char) -> (r: Option<char>)
    ensures
        r == esc_code(c),
{
    if c == '"' { Some('"') }
    else if c == '\\' { Some('\\') }
    else if c == '/' { Some('/') }
    else if c == 'n' { Some('\n') }
    else if c == 't' { Some('\t') }
    else if c == 'r' { Some('\r') }
    else if c == 'b' { Some('\u{0008}') }
    else if c == 'f' { Some('\u{000C}') }
    else { None }
}

/// Drop leading whitespace.
fn take_ws<'a>(s: &'a [char]) -> (r: &'a [char])
    ensures
        r@ == sp_ws(s@),
    decreases s@.len(),
{
    if s.len() > 0 && is_ws(s[0]) {
        proof {
            assert(s@.subrange(1, s@.len() as int) =~= s@.drop_first());
        }
        take_ws(slice_subrange(s, 1, s.len()))
    } else {
        s
    }
}

/// Parse the body of a string value after the opening quote, the
/// characters read so far held in `acc`.
fn parse_str_body<'a>(s: &'a [char], acc: String) -> (r: Option<(String, &'a [char])>)
    ensures
        match r {
            Some((t, rem)) => sp_str_body(s@, acc@) == Some((t@, rem@)),
            None => sp_str_body(s@, acc@) is None,
        },
    decreases s@.len(),
{
    if s.len() == 0 {
        None
    } else if s[0] == '"' {
        proof {
            assert(s@.subrange(1, s@.len() as int) =~= s@.drop_first());
        }
        Some((acc, slice_subrange(s, 1, s.len())))
    } else if s[0] == '\\' {
        if s.len() >= 2 {
            match unescape(s[1]) {
                Some(c) => {
                    let mut acc2 = acc;
                    push_char(&mut acc2, c);
                    proof {
                        assert(s@.subrange(2, s@.len() as int) =~= s@.skip(2));
                    }
                    parse_str_body(slice_subrange(s, 2, s.len()), acc2)
                },
                None => None,
            }
        } else {
            None
        }
    } else {
        let mut acc2 = acc;
        push_char(&mut acc2, s[0]);
        proof {
            assert(s@.subrange(1, s@.len() as int) =~= s@.drop_first());
        }
        parse_str_body(slice_subrange(s, 1, s.len()), acc2)
    }
}

/// Parse a quoted string value.
fn parse_string<'a>(s: &'a [char]) -> (r: Option<(String, &'a [char])>)
    ensures
        match r {
            Some((t, rem)) => sp_string(s@) == Some((t@, rem@)),
            None => sp_string(s@) is None,
        },
{
    if s.len() > 0 && s[0] == '"' {
        proof {
            assert(s@.subrange(1, s@.len() as int) =~= s@.drop_first());
        }
        parse_str_body(slice_subrange(s, 1, s.len()), String::new())
    } else {
        None
    }
}

/// Length of the leading digit run.
fn digit_run_x(s: &[char]) -> (n: usize)
    ensures
        n as int == digit_run(s@),
        n <= s@.len(),
    decreases s@.len(),
{
    if s.len() > 0 && is_digit(s[0]) {
        proof {
            assert(s@.subrange(1, s@.len() as int) =~= s@.drop_first());
        }
        1 + digit_run_x(slice_subrange(s, 1, s.len()))
    } else {
        0
    }
}

/// Powers of ten, for bounding the value of a digit run.
pub open spec fn pow10(k: int) -> int
    decreases k,
{
    if k <= 0 { 1 } else { 10 * pow10(k - 1) }
}

proof fn lemma_pow10_pos(k: int)
    ensures
        pow10(k) >= 1,
    decreases k,
{
    if k > 0 {
        lemma_pow10_pos(k - 1);
    }
}

proof fn lemma_pow10_mono(a: int, b: int)
    requires
        a <= b,
    ensures
        pow10(a) <= pow10(b),
        pow10(a) >= 1,
    decreases b - a,
{
    lemma_pow10_pos(a);
    if a < b {
        lemma_pow10_mono(a, b - 1);
        lemma_pow10_pos(b - 1);
    }
}

/// Accumulate the value of the first `n` digits onto `acc`.
fn digits_value(s: &[char], n: usize, acc: u64) -> (r: u64)
    requires
        n as int <= digit_run(s@),
        n <= 19,
        (acc as int) < pow10(19 - n as int),
    ensures
        r as int == digits_val(s@, n as int, acc as int),
        (r as int) < pow10(19),
    decreases n,
{
    proof {
        lemma_digit_run_len(s@);
        lemma_pow10_mono(19 - n as int, 19);
    }
    if n == 0 {
        acc
    } else {
        proof {
            assert(digit_run(s@) >= 1);
            assert(is_digit_char(s@[0]));
        }
        let d = (s[0] as u32 - 48) as u64;
        proof {
            assert(pow10(20 - n as int) == 10 * pow10(19 - n as int));
            lemma_pow10_mono(20 - n as int, 19);
            assert(pow10(19) == 10000000000000000000) by {
                reveal_with_fuel(pow10, 20);
            }
            assert(s@.subrange(1, s@.len() as int) =~= s@.drop_first());
        }
        digits_value(slice_subrange(s, 1, s.len()), n - 1, acc * 10 + d)
    }
}

/// Parse an integer within the signed 64-bit range.
fn parse_int<'a>(s: &'a [char]) -> (r: Option<(i64, &'a [char])>)
    ensures
        match r {
            Some((v, rem)) => sp_int(s@) == Some((v as int, rem@)),
            None => sp_int(s@) is None,
        },
{
    let neg = s.len() > 0 && s[0] == '-';
    let t = if neg {
        proof {
            assert(s@.subrange(1, s@.len() as int) =~= s@.drop_first());
        }
        slice_subrange(s, 1, s.len())
    } else {
        s
    };
    let n = digit_run_x(t);
    if n < 1 || n > 19 {
        return None;
    }
    proof {
        lemma_pow10_mono(0, 19 - n as int);
        assert(pow10(19) == 10000000000000000000) by {
            reveal_with_fuel(pow10, 20);
        }
    }
    let v = digits_value(t, n, 0);
    proof {
        assert(t@.subrange(n as int, t@.len() as int) =~= t@.skip(n as int));
    }
    if neg {
        if v > 9223372036854775808u64 {
            None
        } else {
            let sv: i64 = if v == 9223372036854775808u64 {
                i64::MIN
            } else {
                -(v as i64)
            };
            Some((sv, slice_subrange(t, n, t.len())))
        }
    } else {
        if v > 9223372036854775807u64 {
            None
        } else {
            Some((v as i64, slice_subrange(t, n, t.len())))
        }
    }
}

/// Whether the text starts with the four given characters.
fn starts_with4(s: &[char], c0: char, c1: char, c2: char, c3: char) -> (r: bool)
    ensures
        r == (s@.len() >= 4 && s@.subrange(0, 4) == seq![c0, c1, c2, c3]),
{
    if s.len() >= 4 {
        let r = s[0] == c0 && s[1] == c1 && s[2] == c2 && s[3] == c3;
        proof {
            let w = seq![c0, c1, c2, c3];
            if r {
                assert(s@.subrange(0, 4) =~= w);
            } else {
                if s@.subrange(0, 4) == w {
                    assert(s@[0] == s@.subrange(0, 4)[0] && s@[1] == s@.subrange(0, 4)[1]
                        && s@[2] == s@.subrange(0, 4)[2] && s@[3] == s@.subrange(0, 4)[3]);
                    assert(w[0] == c0 && w[1] == c1 && w[2] == c2 && w[3] == c3);
                }
            }
        }
        r
    } else {
        false
    }
}

/// Whether the text starts with the five given characters.
fn starts_with5(s: &[char], c0: char, c1: char, c2: char, c3: char, c4: char) -> (r: bool)
    ensures
        r == (s@.len() >= 5 && s@.subrange(0, 5) == seq![c0, c1, c2, c3, c4]),
{
    if s.len() >= 5 {
        let r = s[0] == c0 && s[1] == c1 && s[2] == c2 && s[3] == c3 && s[4] == c4;
        proof {
            let w = seq![c0, c1, c2, c3, c4];
            if r {
                assert(s@.subrange(0, 5) =~= w);
            } else {
                if s@.subrange(0, 5) == w {
                    assert(s@[0] == s@.subrange(0, 5)[0] && s@[1] == s@.subrange(0, 5)[1]
                        && s@[2] == s@.subrange(0, 5)[2] && s@[3] == s@.subrange(0, 5)[3]
                        && s@[4] == s@.subrange(0, 5)[4]);
                    assert(w[0] == c0 && w[1] == c1 && w[2] == c2 && w[3] == c3 && w[4] == c4);
                }
            }
        }
        r
    } else {
        false
    }
}

/// Parse a scalar value.
fn parse_scalar<'a>(s: &'a [char]) -> (r: Option<(JsonScalar, &'a [char])>)
    ensures
        match r {
            Some((v, rem)) => sp_scalar(s@) == Some((v@, rem@)),
            None => sp_scalar(s@) is None,
        },
{
    if s.len() == 0 {
        None
    } else if s[0] == '"' {
        match parse_string(s) {
            Some((t, rem)) => Some((JsonScalar::Str(t), rem)),
            None => None,
        }
    } else if s[0] == 't' {
        if starts_with4(s, 't', 'r', 'u', 'e') {
            proof {
                assert(s@.subrange(4, s@.len() as int) =~= s@.skip(4));
            }
            Some((JsonScalar::Bool(true), slice_subrange(s, 4, s.len())))
        } else {
            None
        }
    } else if s[0] == 'f' {
        if starts_with5(s, 'f', 'a', 'l', 's', 'e') {
            proof {
                assert(s@.subrange(5, s@.len() as int) =~= s@.skip(5));
            }
            Some((JsonScalar::Bool(false), slice_subrange(s, 5, s.len())))
        } else {
            None
        }
    } else if s[0] == 'n' {
        if starts_with4(s, 'n', 'u', 'l', 'l') {
            proof {
                assert(s@.subrange(4, s@.len() as int) =~= s@.skip(4));
            }
            Some((JsonScalar::Null, slice_subrange(s, 4, s.len())))
        } else {
            None
        }
    } else if s[0] == '-' || is_digit(s[0]) {
        match parse_int(s) {
            Some((v, rem)) => Some((JsonScalar::Int(v), rem)),
            None => None,
        }
    } else {
        None
    }
}

/// Parse the members of a flat object, the first name expected
/// immediately; consumes the closing brace.
fn parse_member_list<'a>(s: &'a [char], acc: Vec<JsonMember>) -> (r: Option<(Vec<JsonMember>, &'a [char])>)
    ensures
        match r {
            Some((ms, rem)) => sp_member_list(s@, view_members(acc@)) == Some((view_members(ms@), rem@)),
            None => sp_member_list(s@, view_members(acc@)) is None,
        },
    decreases s@.len(),
{
    match parse_string(s) {
        None => None,
        Some((name, r1)) => {
            let r2 = take_ws(r1);
            if r2.len() > 0 && r2[0] == ':' {
                proof {
                    assert(r2@.subrange(1, r2@.len() as int) =~= r2@.drop_first());
                }
                let r2b = take_ws(slice_subrange(r2, 1, r2.len()));
                match parse_scalar(r2b) {
                    None => None,
                    Some((v, r3)) => {
                        let r4 = take_ws(r3);
                        let m = JsonMember { name: name, value: v };
                        let mut acc2 = acc;
                        acc2.push(m);
                        proof {
                            assert(view_members(acc2@) =~= view_members(acc@).push(
                                MemberV { name: name@, value: v@ },
                            ));
                            lemma_sp_string_len(s@);
                            lemma_sp_ws_len(r1@);
                            lemma_sp_ws_len(r2@.drop_first());
                            lemma_sp_scalar_len(r2b@);
                            lemma_sp_ws_len(r3@);
                        }
                        if r4.len() > 0 && r4[0] == ',' {
                            proof {
                                assert(r4@.subrange(1, r4@.len() as int) =~= r4@.drop_first());
                                lemma_sp_ws_len(r4@.drop_first());
                            }
                            let r5 = take_ws(slice_subrange(r4, 1, r4.len()));
                            parse_member_list(r5, acc2)
                        } else if r4.len() > 0 && r4[0] == '}' {
                            proof {
                                assert(r4@.subrange(1, r4@.len() as int) =~= r4@.drop_first());
                            }
                            Some((acc2, slice_subrange(r4, 1, r4.len())))
                        } else {
                            None
                        }
                    },
                }
            } else {
                None
            }
        },
    }
}

/// Parse a flat object, braces included.
fn parse_flat_obj<'a>(s: &'a [char]) -> (r: Option<(Vec<JsonMember>, &'a [char])>)
    ensures
        match r {
            Some((ms, rem)) => sp_flat_obj(s@) == Some((view_members(ms@), rem@)),
            None => sp_flat_obj(s@) is None,
        },
{
    if s.len() > 0 && s[0] == '{' {
        proof {
            assert(s@.subrange(1, s@.len() as int) =~= s@.drop_first());
        }
        let t = take_ws(slice_subrange(s, 1, s.len()));
        if t.len() > 0 && t[0] == '}' {
            proof {
                assert(t@.subrange(1, t@.len() as int) =~= t@.drop_first());
                assert(view_members(Seq::<JsonMember>::empty()) =~= Seq::<MemberV>::empty());
            }
            Some((Vec::new(), slice_subrange(t, 1, t.len())))
        } else {
            proof {
                assert(view_members(Seq::<JsonMember>::empty()) =~= Seq::<MemberV>::empty());
            }
            parse_member_list(t, Vec::new())
        }
    } else {
        None
    }
}

/// Parse the elements of an array of flat objects, the first object
/// expected immediately; consumes the closing bracket.
fn parse_obj_list<'a>(s: &'a [char], acc: Vec<Vec<JsonMember>>) -> (r: Option<(Vec<Vec<JsonMember>>, &'a [char])>)
    ensures
        match r {
            Some((os, rem)) => sp_obj_list(s@, view_objs(acc@)) == Some((view_objs(os@), rem@)),
            None => sp_obj_list(s@, view_objs(acc@)) is None,
        },
    decreases s@.len(),
{
    match parse_flat_obj(s) {
        None => None,
        Some((ms, r1)) => {
            let r2 = take_ws(r1);
            let ghost msv = view_members(ms@);
            let mut acc2 = acc;
            acc2.push(ms);
            proof {
                assert(view_objs(acc2@) =~= view_objs(acc@).push(msv));
                lemma_sp_flat_obj_len(s@);
                lemma_sp_ws_len(r1@);
            }
            if r2.len() > 0 && r2[0] == ',' {
                proof {
                    assert(r2@.subrange(1, r2@.len() as int) =~= r2@.drop_first());
                    lemma_sp_ws_len(r2@.drop_first());
                }
                let r3 = take_ws(slice_subrange(r2, 1, r2.len()));
                parse_obj_list(r3, acc2)
            } else if r2.len() > 0 && r2[0] == ']' {
                proof {
                    assert(r2@.subrange(1, r2@.len() as int) =~= r2@.drop_first());
                }
                Some((acc2, slice_subrange(r2, 1, r2.len())))
            } else {
                None
            }
        },
    }
}

/// Parse an array of flat objects, brackets included.
fn parse_array<'a>(s: &'a [char]) -> (r: Option<(Vec<Vec<JsonMember>>, &'a [char])>)
    ensures
        match r {
            Some((os, rem)) => sp_array(s@) == Some((view_objs(os@), rem@)),
            None => sp_array(s@) is None,
        },
{
    if s.len() > 0 && s[0] == '[' {
        proof {
            assert(s@.subrange(1, s@.len() as int) =~= s@.drop_first());
        }
        let t = take_ws(slice_subrange(s, 1, s.len()));
        if t.len() > 0 && t[0] == ']' {
            proof {
                assert(t@.subrange(1, t@.len() as int) =~= t@.drop_first());
                assert(view_objs(Seq::<Vec<JsonMember>>::empty()) =~= Seq::<Seq<MemberV>>::empty());
            }
            Some((Vec::new(), slice_subrange(t, 1, t.len())))
        } else {
            proof {
                assert(view_objs(Seq::<Vec<JsonMember>>::empty()) =~= Seq::<Seq<MemberV>>::empty());
            }
            parse_obj_list(t, Vec::new())
        }
    } else {
        None
    }
}

/// Parse a top-level field value.
fn parse_field_value<'a>(s: &'a [char]) -> (r: Option<(JsonFieldValue, &'a [char])>)
    ensures
        match r {
            Some((v, rem)) => sp_field_value(s@) == Some((v@, rem@)),
            None => sp_field_value(s@) is None,
        },
{
    if s.len() > 0 && s[0] == '[' {
        match parse_array(s) {
            Some((os, rem)) => Some((JsonFieldValue::ObjArray(os), rem)),
            None => None,
        }
    } else {
        match parse_scalar(s) {
            Some((v, rem)) => Some((JsonFieldValue::Scalar(v), rem)),
            None => None,
        }
    }
}

/// Parse the fields of the document, the first name expected
/// immediately; consumes the closing brace.
fn parse_field_list<'a>(s: &'a [char], acc: Vec<JsonField>) -> (r: Option<(Vec<JsonField>, &'a [char])>)
    ensures
        match r {
            Some((fs, rem)) => sp_field_list(s@, view_fields(acc@)) == Some((view_fields(fs@), rem@)),
            None => sp_field_list(s@, view_fields(acc@)) is None,
        },
    decreases s@.len(),
{
    match parse_string(s) {
        None => None,
        Some((name, r1)) => {
            let r2 = take_ws(r1);
            if r2.len() > 0 && r2[0] == ':' {
                proof {
                    assert(r2@.subrange(1, r2@.len() as int) =~= r2@.drop_first());
                }
                let r2b = take_ws(slice_subrange(r2, 1, r2.len()));
                match parse_field_value(r2b) {
                    None => None,
                    Some((v, r3)) => {
                        let r4 = take_ws(r3);
                        let ghost vv = v@;
                        let f = JsonField { name: name, value: v };
                        let mut acc2 = acc;
                        acc2.push(f);
                        proof {
                            assert(view_fields(acc2@) =~= view_fields(acc@).push(
                                FieldV { name: name@, value: vv },
                            ));
                            lemma_sp_string_len(s@);
                            lemma_sp_ws_len(r1@);
                            lemma_sp_ws_len(r2@.drop_first());
                            lemma_sp_field_value_len(r2b@);
                            lemma_sp_ws_len(r3@);
                        }
                        if r4.len() > 0 && r4[0] == ',' {
                            proof {
                                assert(r4@.subrange(1, r4@.len() as int) =~= r4@.drop_first());
                                lemma_sp_ws_len(r4@.drop_first());
                            }
                            let r5 = take_ws(slice_subrange(r4, 1, r4.len()));
                            parse_field_list(r5, acc2)
                        } else if r4.len() > 0 && r4[0] == '}' {
                            proof {
                                assert(r4@.subrange(1, r4@.len() as int) =~= r4@.drop_first());
                            }
                            Some((acc2, slice_subrange(r4, 1, r4.len())))
                        } else {
                            None
                        }
                    },
                }
            } else {
                None
            }
        },
    }
}

/// Parse one whole reply text into a document. Returns `None` exactly
/// when the grammar rejects the text.
pub fn parse_document(text: &str) -> (r: Option<JsonDocument>)
    ensures
        match r {
            Some(d) => sp_document(text@) == Some(d@),
            None => sp_document(text@) is None,
        },
{
    let cs = chars_of(text);
    let s = cs.as_slice();
    let t = take_ws(s);
    if t.len() > 0 && t[0] == '{' {
        proof {
            assert(t@.subrange(1, t@.len() as int) =~= t@.drop_first());
        }
        let u = take_ws(slice_subrange(t, 1, t.len()));
        if u.len() > 0 && u[0] == '}' {
            proof {
                assert(u@.subrange(1, u@.len() as int) =~= u@.drop_first());
            }
            let rest = take_ws(slice_subrange(u, 1, u.len()));
            if rest.len() == 0 {
                proof {
                    assert(view_fields(Seq::<JsonField>::empty()) =~= Seq::<FieldV>::empty());
                }
                Some(JsonDocument { fields: Vec::new() })
            } else {
                None
            }
        } else {
            proof {
                assert(view_fields(Seq::<JsonField>::empty()) =~= Seq::<FieldV>::empty());
            }
            match parse_field_list(u, Vec::new()) {
                Some((fs, rem)) => {
                    let rest = take_ws(rem);
                    if rest.len() == 0 {
                        Some(JsonDocument { fields: fs })
                    } else {
                        None
                    }
                },
                None => None,
            }
        }
    } else {
        None
    }
}

} // verus!
