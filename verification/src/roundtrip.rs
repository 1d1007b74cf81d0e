//! Inversion of the rendering model by the parsing model.
//!
//! The lemmas here culminate in one statement per reply variant: encoding
//! a reply and decoding the resulting text yields the reply again. They
//! hold for every document whose numbers fit the signed 64-bit range,
//! which every encoded reply satisfies by construction.

use vstd::prelude::*;

use crate::json::{
    array_chars, digit_char, digit_run, digit_val, digits_val, document_chars, esc_code,
    field_chars, field_list_chars, field_value_chars, int_chars, is_digit_char, is_ws_char,
    member_chars, member_list_chars, nat_chars, object_chars, obj_list_chars, quoted_chars,
    scalar_chars, sp_array, sp_document, sp_field_list, sp_field_value, sp_flat_obj, sp_int,
    sp_member_list, sp_obj_list, sp_scalar, sp_str_body, sp_string, sp_ws, string_chars, FieldV,
    FieldValueV, MemberV, ScalarV,
};
use crate::parse::pow10;

verus! {

/// Integers of a scalar fit the signed 64-bit range.
pub open spec fn scalar_wf(v: ScalarV) -> bool {
    v matches ScalarV::Int(n) ==> -9223372036854775808 <= n <= 9223372036854775807
}

/// Integers of every member fit the signed 64-bit range.
pub open spec fn members_wf(ms: Seq<MemberV>) -> bool {
    forall|i: int| 0 <= i < ms.len() ==> scalar_wf(#[trigger] ms[i].value)
}

/// Integers of every object fit the signed 64-bit range.
pub open spec fn objs_wf(os: Seq<Seq<MemberV>>) -> bool {
    forall|i: int| 0 <= i < os.len() ==> members_wf(#[trigger] os[i])
}

/// Integers of a field value fit the signed 64-bit range.
pub open spec fn field_value_wf(v: FieldValueV) -> bool {
    match v {
        FieldValueV::Scalar(s) => scalar_wf(s),
        FieldValueV::ObjArray(os) => objs_wf(os),
    }
}

/// Integers of every field of a document fit the signed 64-bit range.
pub open spec fn fields_wf(fs: Seq<FieldV>) -> bool {
    forall|i: int| 0 <= i < fs.len() ==> field_value_wf(#[trigger] fs[i].value)
}

proof fn lemma_ws_id(s: Seq<char>)
    requires
        s.len() == 0 || !is_ws_char(s[0]),
    ensures
        sp_ws(s) == s,
{
}

proof fn lemma_str_body_rt(t: Seq<char>, acc: Seq<char>, rest: Seq<char>)
    ensures
        sp_str_body(string_chars(t) + seq!['"'] + rest, acc) == Some((acc + t, rest)),
    decreases t.len(),
{
    let s = string_chars(t) + seq!['"'] + rest;
    if t.len() == 0 {
        assert(s =~= seq!['"'] + rest);
        assert(s[0] == '"');
        assert(s.drop_first() =~= rest);
        assert(acc + t =~= acc);
    } else {
        let c = t[0];
        if c == '"' || c == '\\' {
            assert(s[0] == '\\');
            assert(s[1] == c);
            assert(esc_code(c) == Some(c));
            assert(s.skip(2) =~= string_chars(t.drop_first()) + seq!['"'] + rest);
            lemma_str_body_rt(t.drop_first(), acc.push(c), rest);
            assert(acc.push(c) + t.drop_first() =~= acc + t);
        } else {
            assert(s[0] == c);
            assert(s.drop_first() =~= string_chars(t.drop_first()) + seq!['"'] + rest);
            lemma_str_body_rt(t.drop_first(), acc.push(c), rest);
            assert(acc.push(c) + t.drop_first() =~= acc + t);
        }
    }
}

proof fn lemma_string_rt(t: Seq<char>, rest: Seq<char>)
    ensures
        sp_string(quoted_chars(t) + rest) == Some((t, rest)),
{
    let s = quoted_chars(t) + rest;
    assert(s[0] == '"');
    assert(s.drop_first() =~= string_chars(t) + seq!['"'] + rest);
    lemma_str_body_rt(t, Seq::empty(), rest);
    assert(Seq::<char>::empty() + t =~= t);
}

proof fn lemma_digit_char_val(d: int)
    requires
        0 <= d < 10,
    ensures
        is_digit_char(digit_char(d)),
        digit_val(digit_char(d)) == d,
{
}

proof fn lemma_nat_chars_digits(m: int)
    requires
        m >= 0,
    ensures
        nat_chars(m).len() >= 1,
        forall|i: int| 0 <= i < nat_chars(m).len() ==> is_digit_char(#[trigger] nat_chars(m)[i]),
    decreases m,
{
    if m < 10 {
        lemma_digit_char_val(m);
    } else {
        lemma_nat_chars_digits(m / 10);
        lemma_digit_char_val(m % 10);
    }
}

proof fn lemma_digit_run_concat(a: Seq<char>, rest: Seq<char>)
    requires
        forall|i: int| 0 <= i < a.len() ==> is_digit_char(#[trigger] a[i]),
        rest.len() == 0 || !is_digit_char(rest[0]),
    ensures
        digit_run(a + rest) == a.len(),
    decreases a.len(),
{
    if a.len() == 0 {
        assert(a + rest =~= rest);
    } else {
        assert((a + rest)[0] == a[0]);
        assert((a + rest).drop_first() =~= a.drop_first() + rest);
        assert forall|i: int| 0 <= i < a.drop_first().len() implies is_digit_char(
            #[trigger] a.drop_first()[i],
        ) by {
            assert(a.drop_first()[i] == a[i + 1]);
        }
        lemma_digit_run_concat(a.drop_first(), rest);
    }
}

proof fn lemma_digits_val_concat(a: Seq<char>, rest: Seq<char>, acc: int)
    ensures
        digits_val(a + rest, a.len() as int, acc) == digits_val(a, a.len() as int, acc),
    decreases a.len(),
{
    if a.len() > 0 {
        assert((a + rest)[0] == a[0]);
        assert((a + rest).drop_first() =~= a.drop_first() + rest);
        lemma_digits_val_concat(a.drop_first(), rest, acc * 10 + digit_val(a[0]));
    }
}

proof fn lemma_digits_val_snoc(s: Seq<char>, d: char, acc: int)
    ensures
        digits_val(s.push(d), s.len() as int + 1, acc) == 10 * digits_val(s, s.len() as int, acc)
            + digit_val(d),
    decreases s.len(),
{
    if s.len() == 0 {
        assert(s.push(d)[0] == d);
        assert(s.push(d).drop_first() =~= Seq::<char>::empty());
        assert(digits_val(s.push(d), s.len() as int + 1, acc) == digits_val(
            s.push(d).drop_first(),
            s.len() as int,
            acc * 10 + digit_val(d),
        ));
        assert(digits_val(Seq::<char>::empty(), 0, acc * 10 + digit_val(d)) == acc * 10
            + digit_val(d));
    } else {
        assert(s.push(d)[0] == s[0]);
        assert(s.push(d).drop_first() =~= s.drop_first().push(d));
        assert(digits_val(s.push(d), s.len() as int + 1, acc) == digits_val(
            s.drop_first().push(d),
            s.len() as int,
            acc * 10 + digit_val(s[0]),
        ));
        assert(digits_val(s, s.len() as int, acc) == digits_val(
            s.drop_first(),
            s.len() as int - 1,
            acc * 10 + digit_val(s[0]),
        ));
        lemma_digits_val_snoc(s.drop_first(), d, acc * 10 + digit_val(s[0]));
    }
}

proof fn lemma_nat_chars_val(m: int, acc: int)
    requires
        m >= 0,
    ensures
        digits_val(nat_chars(m), nat_chars(m).len() as int, acc) == acc * pow10(
            nat_chars(m).len() as int,
        ) + m,
    decreases m,
{
    assert(pow10(0) == 1);
    assert(pow10(1) == 10 * pow10(0));
    if m < 10 {
        lemma_digit_char_val(m);
        assert(nat_chars(m) =~= Seq::<char>::empty().push(digit_char(m)));
        lemma_digits_val_snoc(Seq::empty(), digit_char(m), acc);
    } else {
        let s = nat_chars(m / 10);
        let k = s.len() as int;
        lemma_nat_chars_val(m / 10, acc);
        lemma_digit_char_val(m % 10);
        lemma_digits_val_snoc(s, digit_char(m % 10), acc);
        assert(pow10(k + 1) == 10 * pow10(k));
        assert(10 * (acc * pow10(k)) == acc * (10 * pow10(k))) by (nonlinear_arith);
        vstd::arithmetic::div_mod::lemma_fundamental_div_mod(m, 10);
    }
}

proof fn lemma_nat_chars_len(m: int, k: int)
    requires
        0 <= m < pow10(k),
        1 <= k,
    ensures
        nat_chars(m).len() <= k,
    decreases m,
{
    if m >= 10 {
        assert(pow10(k) == 10 * pow10(k - 1));
        vstd::arithmetic::div_mod::lemma_fundamental_div_mod(m, 10);
        if m / 10 >= pow10(k - 1) {
            assert(10 * (m / 10) >= 10 * pow10(k - 1));
            assert(false);
        }
        if k == 1 {
            assert(pow10(1) == 10 * pow10(0));
            assert(false);
        }
        lemma_nat_chars_len(m / 10, k - 1);
    }
}

proof fn lemma_int_rt(n: int, rest: Seq<char>)
    requires
        -9223372036854775808 <= n <= 9223372036854775807,
        rest.len() == 0 || !is_digit_char(rest[0]),
    ensures
        sp_int(int_chars(n) + rest) == Some((n, rest)),
{
    assert(pow10(19) == 10000000000000000000) by {
        reveal_with_fuel(pow10, 20);
    }
    let m = if n < 0 { -n } else { n };
    let a = nat_chars(m);
    lemma_nat_chars_digits(m);
    lemma_nat_chars_len(m, 19);
    lemma_digit_run_concat(a, rest);
    lemma_digits_val_concat(a, rest, 0);
    lemma_nat_chars_val(m, 0);
    assert(0 * pow10(a.len() as int) == 0);
    let s = int_chars(n) + rest;
    if n < 0 {
        assert(s[0] == '-');
        assert(s.drop_first() =~= a + rest);
        assert(digit_run(a + rest) == a.len());
        assert(digits_val(a + rest, a.len() as int, 0) == m);
        assert((a + rest).skip(a.len() as int) =~= rest);
    } else {
        assert(s =~= a + rest);
        assert(!(s.len() > 0 && s[0] == '-'));
        assert((a + rest).skip(a.len() as int) =~= rest);
    }
}

proof fn lemma_scalar_chars_head(v: ScalarV)
    ensures
        scalar_chars(v).len() >= 1,
        !is_ws_char(scalar_chars(v)[0]),
        scalar_chars(v)[0] != ',',
        scalar_chars(v)[0] != '}',
        scalar_chars(v)[0] != ']',
        scalar_chars(v)[0] != '[',
    decreases 0int,
{
    match v {
        ScalarV::Null => {},
        ScalarV::Bool(b) => {},
        ScalarV::Int(n) => {
            let m = if n < 0 { -n } else { n };
            lemma_nat_chars_digits(m);
            if n < 0 {
                assert(scalar_chars(v)[0] == '-');
            } else {
                assert(scalar_chars(v)[0] == nat_chars(m)[0]);
            }
        },
        ScalarV::Str(t) => {
            assert(scalar_chars(v)[0] == '"');
        },
    }
}

proof fn lemma_scalar_rt(v: ScalarV, rest: Seq<char>)
    requires
        scalar_wf(v),
        v is Int ==> rest.len() == 0 || !is_digit_char(rest[0]),
    ensures
        sp_scalar(scalar_chars(v) + rest) == Some((v, rest)),
{
    let s = scalar_chars(v) + rest;
    match v {
        ScalarV::Null => {
            assert(s[0] == 'n');
            assert(s.subrange(0, 4) =~= seq!['n', 'u', 'l', 'l']);
            assert(s.skip(4) =~= rest);
        },
        ScalarV::Bool(b) => {
            if b {
                assert(s[0] == 't');
                assert(s.subrange(0, 4) =~= seq!['t', 'r', 'u', 'e']);
                assert(s.skip(4) =~= rest);
            } else {
                assert(s[0] == 'f');
                assert(s.subrange(0, 5) =~= seq!['f', 'a', 'l', 's', 'e']);
                assert(s.skip(5) =~= rest);
            }
        },
        ScalarV::Str(t) => {
            assert(s[0] == '"');
            assert(s =~= quoted_chars(t) + rest);
            lemma_string_rt(t, rest);
        },
        ScalarV::Int(n) => {
            let m = if n < 0 { -n } else { n };
            lemma_nat_chars_digits(m);
            if n < 0 {
                assert(s[0] == '-');
            } else {
                assert(s[0] == nat_chars(m)[0]);
                assert(is_digit_char(s[0]));
            }
            assert(s[0] != '"' && s[0] != 't' && s[0] != 'f' && s[0] != 'n');
            lemma_int_rt(n, rest);
        },
    }
}

proof fn lemma_member_list_rt(ms: Seq<MemberV>, acc: Seq<MemberV>, rest: Seq<char>)
    requires
        ms.len() >= 1,
        members_wf(ms),
    ensures
        sp_member_list(member_list_chars(ms) + seq!['}'] + rest, acc) == Some((acc + ms, rest)),
    decreases ms.len(),
{
    let m0 = ms[0];
    let name = m0.name;
    let v = m0.value;
    let s = member_list_chars(ms) + seq!['}'] + rest;
    assert(scalar_wf(v));
    assert(MemberV { name: name, value: v } == m0);
    if ms.len() == 1 {
        let close = seq!['}'] + rest;
        let tail1 = seq![':'] + scalar_chars(v) + close;
        assert(s =~= quoted_chars(name) + tail1);
        lemma_string_rt(name, tail1);
        assert(tail1[0] == ':');
        lemma_ws_id(tail1);
        let after_colon = tail1.drop_first();
        assert(after_colon =~= scalar_chars(v) + close);
        lemma_scalar_chars_head(v);
        assert(after_colon[0] == scalar_chars(v)[0]);
        lemma_ws_id(after_colon);
        assert(!is_digit_char('}'));
        lemma_scalar_rt(v, close);
        assert(close[0] == '}');
        assert(close[0] != ',');
        lemma_ws_id(close);
        assert(close.drop_first() =~= rest);
        assert(acc.push(m0) =~= acc + ms);
    } else {
        let rest_ms = ms.drop_first();
        let tail_chars = member_list_chars(rest_ms) + seq!['}'] + rest;
        let sep = seq![','] + tail_chars;
        let tail1 = seq![':'] + scalar_chars(v) + sep;
        assert(member_list_chars(ms) =~= member_chars(m0) + seq![','] + member_list_chars(rest_ms));
        assert(s =~= quoted_chars(name) + tail1);
        lemma_string_rt(name, tail1);
        assert(tail1[0] == ':');
        lemma_ws_id(tail1);
        let after_colon = tail1.drop_first();
        assert(after_colon =~= scalar_chars(v) + sep);
        lemma_scalar_chars_head(v);
        assert(after_colon[0] == scalar_chars(v)[0]);
        lemma_ws_id(after_colon);
        assert(!is_digit_char(','));
        lemma_scalar_rt(v, sep);
        assert(sep[0] == ',');
        lemma_ws_id(sep);
        assert(sep.drop_first() =~= tail_chars);
        assert(member_list_chars(rest_ms)[0] == member_chars(rest_ms[0])[0]);
        assert(member_chars(rest_ms[0])[0] == quoted_chars(rest_ms[0].name)[0]);
        assert(quoted_chars(rest_ms[0].name)[0] == '"');
        assert(tail_chars[0] == '"');
        lemma_ws_id(tail_chars);
        assert forall|i: int| 0 <= i < rest_ms.len() implies scalar_wf(
            #[trigger] rest_ms[i].value,
        ) by {
            assert(rest_ms[i] == ms[i + 1]);
        }
        lemma_member_list_rt(rest_ms, acc.push(m0), rest);
        assert(acc.push(m0) + rest_ms =~= acc + ms);
    }
}

proof fn lemma_flat_obj_rt(ms: Seq<MemberV>, rest: Seq<char>)
    requires
        members_wf(ms),
    ensures
        sp_flat_obj(object_chars(ms) + rest) == Some((ms, rest)),
{
    let s = object_chars(ms) + rest;
    assert(s[0] == '{');
    if ms.len() == 0 {
        let close = seq!['}'] + rest;
        assert(s.drop_first() =~= close);
        assert(close[0] == '}');
        lemma_ws_id(close);
        assert(close.drop_first() =~= rest);
    } else {
        let t = member_list_chars(ms) + seq!['}'] + rest;
        assert(s.drop_first() =~= t);
        assert(member_list_chars(ms)[0] == member_chars(ms[0])[0]);
        assert(member_chars(ms[0])[0] == quoted_chars(ms[0].name)[0]);
        assert(quoted_chars(ms[0].name)[0] == '"');
        assert(t[0] == '"');
        lemma_ws_id(t);
        lemma_member_list_rt(ms, Seq::empty(), rest);
        assert(Seq::<MemberV>::empty() + ms =~= ms);
    }
}

proof fn lemma_obj_list_rt(os: Seq<Seq<MemberV>>, acc: Seq<Seq<MemberV>>, rest: Seq<char>)
    requires
        os.len() >= 1,
        objs_wf(os),
    ensures
        sp_obj_list(obj_list_chars(os) + seq![']'] + rest, acc) == Some((acc + os, rest)),
    decreases os.len(),
{
    let o0 = os[0];
    let s = obj_list_chars(os) + seq![']'] + rest;
    assert(members_wf(o0));
    if os.len() == 1 {
        let close = seq![']'] + rest;
        assert(s =~= object_chars(o0) + close);
        lemma_flat_obj_rt(o0, close);
        assert(close[0] == ']');
        assert(close[0] != ',');
        lemma_ws_id(close);
        assert(close.drop_first() =~= rest);
        assert(acc.push(o0) =~= acc + os);
    } else {
        let rest_os = os.drop_first();
        let tail_chars = obj_list_chars(rest_os) + seq![']'] + rest;
        let sep = seq![','] + tail_chars;
        assert(obj_list_chars(os) =~= object_chars(o0) + seq![','] + obj_list_chars(rest_os));
        assert(s =~= object_chars(o0) + sep);
        lemma_flat_obj_rt(o0, sep);
        assert(sep[0] == ',');
        lemma_ws_id(sep);
        assert(sep.drop_first() =~= tail_chars);
        assert(obj_list_chars(rest_os)[0] == object_chars(rest_os[0])[0]);
        assert(object_chars(rest_os[0])[0] == '{');
        assert(tail_chars[0] == '{');
        lemma_ws_id(tail_chars);
        assert forall|i: int| 0 <= i < rest_os.len() implies members_wf(#[trigger] rest_os[i]) by {
            assert(rest_os[i] == os[i + 1]);
        }
        lemma_obj_list_rt(rest_os, acc.push(o0), rest);
        assert(acc.push(o0) + rest_os =~= acc + os);
    }
}

proof fn lemma_array_rt(os: Seq<Seq<MemberV>>, rest: Seq<char>)
    requires
        objs_wf(os),
    ensures
        sp_array(array_chars(os) + rest) == Some((os, rest)),
{
    let s = array_chars(os) + rest;
    assert(s[0] == '[');
    if os.len() == 0 {
        let close = seq![']'] + rest;
        assert(s.drop_first() =~= close);
        assert(close[0] == ']');
        lemma_ws_id(close);
        assert(close.drop_first() =~= rest);
    } else {
        let t = obj_list_chars(os) + seq![']'] + rest;
        assert(s.drop_first() =~= t);
        assert(obj_list_chars(os)[0] == object_chars(os[0])[0]);
        assert(object_chars(os[0])[0] == '{');
        assert(t[0] == '{');
        lemma_ws_id(t);
        assert(t[0] != ']');
        lemma_obj_list_rt(os, Seq::empty(), rest);
        assert(Seq::<Seq<MemberV>>::empty() + os =~= os);
    }
}

proof fn lemma_field_value_chars_head(v: FieldValueV)
    ensures
        field_value_chars(v).len() >= 1,
        !is_ws_char(field_value_chars(v)[0]),
        field_value_chars(v)[0] != ',',
        field_value_chars(v)[0] != '}',
{
    match v {
        FieldValueV::Scalar(s) => {
            lemma_scalar_chars_head(s);
        },
        FieldValueV::ObjArray(os) => {
            assert(field_value_chars(v)[0] == '[');
        },
    }
}

proof fn lemma_field_value_rt(v: FieldValueV, rest: Seq<char>)
    requires
        field_value_wf(v),
        (v matches FieldValueV::Scalar(sv) && sv is Int) ==> rest.len() == 0 || !is_digit_char(
            rest[0],
        ),
    ensures
        sp_field_value(field_value_chars(v) + rest) == Some((v, rest)),
{
    let s = field_value_chars(v) + rest;
    match v {
        FieldValueV::Scalar(sv) => {
            lemma_scalar_chars_head(sv);
            assert(s[0] == scalar_chars(sv)[0]);
            assert(s[0] != '[');
            lemma_scalar_rt(sv, rest);
        },
        FieldValueV::ObjArray(os) => {
            assert(s[0] == '[');
            lemma_array_rt(os, rest);
        },
    }
}

proof fn lemma_field_list_rt(fs: Seq<FieldV>, acc: Seq<FieldV>, rest: Seq<char>)
    requires
        fs.len() >= 1,
        fields_wf(fs),
    ensures
        sp_field_list(field_list_chars(fs) + seq!['}'] + rest, acc) == Some((acc + fs, rest)),
    decreases fs.len(),
{
    let f0 = fs[0];
    let name = f0.name;
    let v = f0.value;
    let s = field_list_chars(fs) + seq!['}'] + rest;
    assert(field_value_wf(v));
    assert(FieldV { name: name, value: v } == f0);
    if fs.len() == 1 {
        let close = seq!['}'] + rest;
        let tail1 = seq![':'] + field_value_chars(v) + close;
        assert(s =~= quoted_chars(name) + tail1);
        lemma_string_rt(name, tail1);
        assert(tail1[0] == ':');
        lemma_ws_id(tail1);
        let after_colon = tail1.drop_first();
        assert(after_colon =~= field_value_chars(v) + close);
        lemma_field_value_chars_head(v);
        assert(after_colon[0] == field_value_chars(v)[0]);
        lemma_ws_id(after_colon);
        assert(!is_digit_char('}'));
        lemma_field_value_rt(v, close);
        assert(close[0] == '}');
        assert(close[0] != ',');
        lemma_ws_id(close);
        assert(close.drop_first() =~= rest);
        assert(acc.push(f0) =~= acc + fs);
    } else {
        let rest_fs = fs.drop_first();
        let tail_chars = field_list_chars(rest_fs) + seq!['}'] + rest;
        let sep = seq![','] + tail_chars;
        let tail1 = seq![':'] + field_value_chars(v) + sep;
        assert(field_list_chars(fs) =~= field_chars(f0) + seq![','] + field_list_chars(rest_fs));
        assert(s =~= quoted_chars(name) + tail1);
        lemma_string_rt(name, tail1);
        assert(tail1[0] == ':');
        lemma_ws_id(tail1);
        let after_colon = tail1.drop_first();
        assert(after_colon =~= field_value_chars(v) + sep);
        lemma_field_value_chars_head(v);
        assert(after_colon[0] == field_value_chars(v)[0]);
        lemma_ws_id(after_colon);
        assert(!is_digit_char(','));
        lemma_field_value_rt(v, sep);
        assert(sep[0] == ',');
        lemma_ws_id(sep);
        assert(sep.drop_first() =~= tail_chars);
        assert(field_list_chars(rest_fs)[0] == field_chars(rest_fs[0])[0]);
        assert(field_chars(rest_fs[0])[0] == quoted_chars(rest_fs[0].name)[0]);
        assert(quoted_chars(rest_fs[0].name)[0] == '"');
        assert(tail_chars[0] == '"');
        lemma_ws_id(tail_chars);
        assert forall|i: int| 0 <= i < rest_fs.len() implies field_value_wf(
            #[trigger] rest_fs[i].value,
        ) by {
            assert(rest_fs[i] == fs[i + 1]);
        }
        lemma_field_list_rt(rest_fs, acc.push(f0), rest);
        assert(acc.push(f0) + rest_fs =~= acc + fs);
    }
}

/// Rendering a document and parsing the text back yields the document:
/// the grammar inverts the renderer on every document whose numbers fit
/// the signed 64-bit range.
pub proof fn lemma_document_rt(fs: Seq<FieldV>)
    requires
        fields_wf(fs),
    ensures
        sp_document(document_chars(fs)) == Some(fs),
{
    let s = document_chars(fs);
    assert(s[0] == '{');
    lemma_ws_id(s);
    if fs.len() == 0 {
        assert(s.drop_first() =~= seq!['}']);
        lemma_ws_id(seq!['}']);
        assert(seq!['}'].drop_first() =~= Seq::<char>::empty());
        assert(sp_ws(Seq::<char>::empty()).len() == 0);
    } else {
        let t = field_list_chars(fs) + seq!['}'] + Seq::<char>::empty();
        assert(s.drop_first() =~= t);
        assert(field_list_chars(fs)[0] == field_chars(fs[0])[0]);
        assert(field_chars(fs[0])[0] == quoted_chars(fs[0].name)[0]);
        assert(quoted_chars(fs[0].name)[0] == '"');
        assert(t[0] == '"');
        lemma_ws_id(t);
        assert(t[0] != '}');
        lemma_field_list_rt(fs, Seq::empty(), Seq::empty());
        assert(Seq::<FieldV>::empty() + fs =~= fs);
        assert(sp_ws(Seq::<char>::empty()).len() == 0);
    }
}

// ---------------------------------------------------------------------
// Round trips for the reply variants, end to end over the wire text
// ---------------------------------------------------------------------

/// Encoding a query reply and decoding the text back yields the reply,
/// field for field.
pub proof fn lemma_query_round_trip(q: crate::response::QueryResponseV)
    ensures
        crate::response::spec_decode_query(crate::response::spec_encode_query(q)) == Some(q),
{
    let fs = crate::response::query_fields(q);
    assert forall|i: int| 0 <= i < fs.len() implies field_value_wf(#[trigger] fs[i].value) by {}
    lemma_document_rt(fs);
    crate::laws::lemma_query_document_round_trip(q);
}

/// Encoding a publish or remove acknowledgement and decoding the text
/// back yields the acknowledgement, field for field.
pub proof fn lemma_ack_round_trip(a: crate::response::AckResponseV)
    ensures
        crate::response::spec_decode_ack(crate::response::spec_encode_ack(a)) == Some(a),
{
    let fs = crate::response::ack_fields(a);
    assert forall|i: int| 0 <= i < fs.len() implies field_value_wf(#[trigger] fs[i].value) by {}
    lemma_document_rt(fs);
    crate::laws::lemma_ack_document_round_trip(a);
}

/// Encoding a batch-change-listen reply and decoding the text back
/// yields the reply, field for field, the order of the changed
/// configurations kept.
pub proof fn lemma_batch_round_trip(b: crate::response::BatchListenResponseV)
    ensures
        crate::response::spec_decode_batch(crate::response::spec_encode_batch(b)) == Some(b),
{
    let fs = crate::response::batch_fields(b);
    assert forall|i: int| 0 <= i < fs.len() implies field_value_wf(#[trigger] fs[i].value) by {
        if i == 4 {
            match b.changed_configs {
                Some(cs) => {
                    let os = crate::response::ctx_objs(cs);
                    assert forall|j: int| 0 <= j < os.len() implies members_wf(
                        #[trigger] os[j],
                    ) by {
                        assert(os[j] == crate::response::ctx_members(cs[j]));
                        assert forall|k: int| 0 <= k < os[j].len() implies scalar_wf(
                            #[trigger] os[j][k].value,
                        ) by {
                            assert(os[j][k].value is Str);
                        }
                    }
                },
                None => {},
            }
        }
    }
    lemma_document_rt(fs);
    crate::laws::lemma_batch_document_round_trip(b);
}

} // verus!
