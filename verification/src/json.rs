//! The wire shape of a server reply, and its mathematical model.
//!
//! A reply is one JSON object. Its field values are scalars (null, boolean,
//! integer, string), except that one field may hold an array of flat objects
//! whose members are scalars (the list of changed configurations). The
//! grammar below states exactly that shape: `sp_document` is the parsing
//! model, the `*_chars` functions are the rendering model. The executable
//! parser and renderer are proved equal to these functions.

use vstd::prelude::*;

verus! {

// ---------------------------------------------------------------------
// Character classes and escapes
// ---------------------------------------------------------------------

/// JSON insignificant whitespace.
pub open spec fn is_ws_char(c: char) -> bool {
    c == ' ' || c == '\t' || c == '\n' || c == '\r'
}

/// Decimal digit.
pub open spec fn is_digit_char(c: char) -> bool {
    48 <= c as u32 && c as u32 <= 57
}

/// Numeric value of a decimal digit.
pub open spec fn digit_val(c: char) -> int {
    c as u32 - 48
}

/// The digit character for a value between 0 and 9.
pub open spec fn digit_char(d: int) -> char {
    if d == 0 { '0' } else if d == 1 { '1' } else if d == 2 { '2' }
    else if d == 3 { '3' } else if d == 4 { '4' } else if d == 5 { '5' }
    else if d == 6 { '6' } else if d == 7 { '7' } else if d == 8 { '8' }
    else { '9' }
}

/// What a backslash escape stands for. Escapes outside this set
/// (such as `\u`) are rejected as malformed.
pub open spec fn esc_code(c: char) -> Option<char> {
    if c == '"' { Some('"') }
    else if c == '\\' { Some('\\') }
    else if c == '/' { Some('/') }
    else if c == 'n' { Some('\n') }
    else if c == 't' { Some('\t') }
    else if c == 'r' { Some('\r') }
    else if c == 'b' { Some('\u{0008}') }
    else if c == 'f' { Some('\u{000C}') }
    else { None }
}

/// How one character of a string value is rendered: the two characters
/// that must be escaped get their escape, every other character stands
/// for itself.
pub open spec fn esc_chars(c: char) -> Seq<char> {
    if c == '"' { seq!['\\', '"'] }
    else if c == '\\' { seq!['\\', '\\'] }
    else { seq![c] }
}

// ---------------------------------------------------------------------
// The decoded document
// ---------------------------------------------------------------------

/// A scalar field value of a reply.
pub enum JsonScalar {
    Null,
    Bool(bool),
    Int(i64),
    Str(String),
}

/// One member of a flat object: a name and a scalar value.
pub struct JsonMember {
    pub name: String,
    pub value: JsonScalar,
}

/// A top-level field value: a scalar, or an array of flat objects.
pub enum JsonFieldValue {
    Scalar(JsonScalar),
    ObjArray(Vec<Vec<JsonMember>>),
}

/// One top-level field of a reply document.
pub struct JsonField {
    pub name: String,
    pub value: JsonFieldValue,
}

/// A fully decoded reply document.
pub struct JsonDocument {
    pub fields: Vec<JsonField>,
}

// Mathematical views of the document types.

/// Model of a scalar value.
pub ghost enum ScalarV {
    Null,
    Bool(bool),
    Int(int),
    Str(Seq<char>),
}

/// Model of an object member.
pub ghost struct MemberV {
    pub name: Seq<char>,
    pub value: ScalarV,
}

/// Model of a top-level field value.
pub ghost enum FieldValueV {
    Scalar(ScalarV),
    ObjArray(Seq<Seq<MemberV>>),
}

/// Model of a top-level field.
pub ghost struct FieldV {
    pub name: Seq<char>,
    pub value: FieldValueV,
}

impl View for JsonScalar {
    type V = ScalarV;

    open spec fn view(&self) -> ScalarV {
        match self {
            JsonScalar::Null => ScalarV::Null,
            JsonScalar::Bool(b) => ScalarV::Bool(*b),
            JsonScalar::Int(n) => ScalarV::Int(*n as int),
            JsonScalar::Str(s) => ScalarV::Str(s@),
        }
    }
}

impl View for JsonMember {
    type V = MemberV;

    open spec fn view(&self) -> MemberV {
        MemberV { name: self.name@, value: self.value@ }
    }
}

/// View of a member list as a sequence of member models.
pub open spec fn view_members(v: Seq<JsonMember>) -> Seq<MemberV> {
    v.map_values(|m: JsonMember| m@)
}

/// View of an object array as a sequence of member-model sequences.
pub open spec fn view_objs(v: Seq<Vec<JsonMember>>) -> Seq<Seq<MemberV>> {
    v.map_values(|o: Vec<JsonMember>| view_members(o@))
}

impl View for JsonFieldValue {
    type V = FieldValueV;

    open spec fn view(&self) -> FieldValueV {
        match self {
            JsonFieldValue::Scalar(s) => FieldValueV::Scalar(s@),
            JsonFieldValue::ObjArray(a) => FieldValueV::ObjArray(view_objs(a@)),
        }
    }
}

impl View for JsonField {
    type V = FieldV;

    open spec fn view(&self) -> FieldV {
        FieldV { name: self.name@, value: self.value@ }
    }
}

/// View of a field list as a sequence of field models.
pub open spec fn view_fields(v: Seq<JsonField>) -> Seq<FieldV> {
    v.map_values(|f: JsonField| f@)
}

impl View for JsonDocument {
    type V = Seq<FieldV>;

    open spec fn view(&self) -> Seq<FieldV> {
        view_fields(self.fields@)
    }
}

// ---------------------------------------------------------------------
// Rendering model: document to text
// ---------------------------------------------------------------------

/// Decimal digits of a non-negative integer, most significant first.
pub open spec fn nat_chars(m: int) -> Seq<char>
    recommends m >= 0,
    decreases m,
{
    if m < 10 { seq![digit_char(m)] } else { nat_chars(m / 10).push(digit_char(m % 10)) }
}

/// Decimal rendering of an integer.
pub open spec fn int_chars(n: int) -> Seq<char> {
    if n < 0 { seq!['-'] + nat_chars(-n) } else { nat_chars(n) }
}

/// The body of a rendered string value: each character escaped as needed.
pub open spec fn string_chars(t: Seq<char>) -> Seq<char>
    decreases t.len(),
{
    if t.len() == 0 { Seq::empty() } else { esc_chars(t[0]) + string_chars(t.drop_first()) }
}

/// A rendered string value, quotes included.
pub open spec fn quoted_chars(t: Seq<char>) -> Seq<char> {
    seq!['"'] + string_chars(t) + seq!['"']
}

/// A rendered scalar.
pub open spec fn scalar_chars(v: ScalarV) -> Seq<char> {
    match v {
        ScalarV::Null => seq!['n', 'u', 'l', 'l'],
        ScalarV::Bool(b) => if b { seq!['t', 'r', 'u', 'e'] } else { seq!['f', 'a', 'l', 's', 'e'] },
        ScalarV::Int(n) => int_chars(n),
        ScalarV::Str(t) => quoted_chars(t),
    }
}

/// A rendered object member.
pub open spec fn member_chars(m: MemberV) -> Seq<char> {
    quoted_chars(m.name) + seq![':'] + scalar_chars(m.value)
}

/// A rendered non-empty member list, comma separated.
pub open spec fn member_list_chars(ms: Seq<MemberV>) -> Seq<char>
    recommends ms.len() > 0,
    decreases ms.len(),
{
    if ms.len() <= 1 { member_chars(ms[0]) }
    else { member_chars(ms[0]) + seq![','] + member_list_chars(ms.drop_first()) }
}

/// A rendered flat object, braces included.
pub open spec fn object_chars(ms: Seq<MemberV>) -> Seq<char> {
    seq!['{'] + (if ms.len() == 0 { Seq::<char>::empty() } else { member_list_chars(ms) }) + seq!['}']
}

/// A rendered non-empty list of flat objects, comma separated.
pub open spec fn obj_list_chars(os: Seq<Seq<MemberV>>) -> Seq<char>
    recommends os.len() > 0,
    decreases os.len(),
{
    if os.len() <= 1 { object_chars(os[0]) }
    else { object_chars(os[0]) + seq![','] + obj_list_chars(os.drop_first()) }
}

/// A rendered array of flat objects, brackets included.
pub open spec fn array_chars(os: Seq<Seq<MemberV>>) -> Seq<char> {
    seq!['['] + (if os.len() == 0 { Seq::<char>::empty() } else { obj_list_chars(os) }) + seq![']']
}

/// A rendered top-level field value.
pub open spec fn field_value_chars(v: FieldValueV) -> Seq<char> {
    match v {
        FieldValueV::Scalar(s) => scalar_chars(s),
        FieldValueV::ObjArray(os) => array_chars(os),
    }
}

/// A rendered top-level field.
pub open spec fn field_chars(f: FieldV) -> Seq<char> {
    quoted_chars(f.name) + seq![':'] + field_value_chars(f.value)
}

/// A rendered non-empty field list, comma separated.
pub open spec fn field_list_chars(fs: Seq<FieldV>) -> Seq<char>
    recommends fs.len() > 0,
    decreases fs.len(),
{
    if fs.len() <= 1 { field_chars(fs[0]) }
    else { field_chars(fs[0]) + seq![','] + field_list_chars(fs.drop_first()) }
}

/// A rendered reply document, braces included.
pub open spec fn document_chars(fs: Seq<FieldV>) -> Seq<char> {
    seq!['{'] + (if fs.len() == 0 { Seq::<char>::empty() } else { field_list_chars(fs) }) + seq!['}']
}

// ---------------------------------------------------------------------
// Parsing model: text to document
// ---------------------------------------------------------------------
//
// Each function consumes a prefix of its input and yields the parsed
// value together with the remaining suffix; `None` means the input is
// malformed at this point.

/// Drop leading whitespace.
pub open spec fn sp_ws(s: Seq<char>) -> Seq<char>
    decreases s.len(),
{
    if s.len() > 0 && is_ws_char(s[0]) { sp_ws(s.drop_first()) } else { s }
}

/// Parse the body of a string value, after the opening quote; `acc`
/// holds the characters read so far.
pub open spec fn sp_str_body(s: Seq<char>, acc: Seq<char>) -> Option<(Seq<char>, Seq<char>)>
    decreases s.len(),
{
    if s.len() == 0 {
        None
    } else if s[0] == '"' {
        Some((acc, s.drop_first()))
    } else if s[0] == '\\' {
        if s.len() >= 2 {
            match esc_code(s[1]) {
                Some(c) => sp_str_body(s.skip(2), acc.push(c)),
                None => None,
            }
        } else {
            None
        }
    } else {
        sp_str_body(s.drop_first(), acc.push(s[0]))
    }
}

/// Parse a quoted string value.
pub open spec fn sp_string(s: Seq<char>) -> Option<(Seq<char>, Seq<char>)> {
    if s.len() > 0 && s[0] == '"' { sp_str_body(s.drop_first(), Seq::empty()) } else { None }
}

/// Length of the leading run of digits.
pub open spec fn digit_run(s: Seq<char>) -> int
    decreases s.len(),
{
    if s.len() > 0 && is_digit_char(s[0]) { 1 + digit_run(s.drop_first()) } else { 0 }
}

/// Value of the first `n` characters, read as decimal digits onto `acc`.
pub open spec fn digits_val(s: Seq<char>, n: int, acc: int) -> int
    recommends 0 <= n <= s.len(),
    decreases n,
{
    if n <= 0 { acc } else { digits_val(s.drop_first(), n - 1, acc * 10 + digit_val(s[0])) }
}

/// Parse an integer: an optional minus sign and one to nineteen digits,
/// within the signed 64-bit range. A longer or larger number is malformed.
pub open spec fn sp_int(s: Seq<char>) -> Option<(int, Seq<char>)> {
    let neg = s.len() > 0 && s[0] == '-';
    let t = if neg { s.drop_first() } else { s };
    let n = digit_run(t);
    if n < 1 || n > 19 {
        None
    } else {
        let v = digits_val(t, n, 0);
        let sv = if neg { -v } else { v };
        if -9223372036854775808 <= sv && sv <= 9223372036854775807 {
            Some((sv, t.skip(n)))
        } else {
            None
        }
    }
}

/// Parse a scalar value.
pub open spec fn sp_scalar(s: Seq<char>) -> Option<(ScalarV, Seq<char>)> {
    if s.len() == 0 {
        None
    } else if s[0] == '"' {
        match sp_string(s) {
            Some((t, r)) => Some((ScalarV::Str(t), r)),
            None => None,
        }
    } else if s[0] == 't' {
        if s.len() >= 4 && s.subrange(0, 4) == seq!['t', 'r', 'u', 'e'] {
            Some((ScalarV::Bool(true), s.skip(4)))
        } else {
            None
        }
    } else if s[0] == 'f' {
        if s.len() >= 5 && s.subrange(0, 5) == seq!['f', 'a', 'l', 's', 'e'] {
            Some((ScalarV::Bool(false), s.skip(5)))
        } else {
            None
        }
    } else if s[0] == 'n' {
        if s.len() >= 4 && s.subrange(0, 4) == seq!['n', 'u', 'l', 'l'] {
            Some((ScalarV::Null, s.skip(4)))
        } else {
            None
        }
    } else if s[0] == '-' || is_digit_char(s[0]) {
        match sp_int(s) {
            Some((v, r)) => Some((ScalarV::Int(v), r)),
            None => None,
        }
    } else {
        None
    }
}

// Progress of the elementary parsers, needed for the termination of the
// list parsers below.

pub proof fn lemma_sp_ws_len(s: Seq<char>)
    ensures sp_ws(s).len() <= s.len(),
    decreases s.len(),
{
    if s.len() > 0 && is_ws_char(s[0]) {
        lemma_sp_ws_len(s.drop_first());
    }
}

pub proof fn lemma_sp_str_body_len(s: Seq<char>, acc: Seq<char>)
    ensures match sp_str_body(s, acc) {
        Some((t, r)) => r.len() < s.len(),
        None => true,
    },
    decreases s.len(),
{
    if s.len() == 0 {
    } else if s[0] == '"' {
    } else if s[0] == '\\' {
        if s.len() >= 2 {
            match esc_code(s[1]) {
                Some(c) => lemma_sp_str_body_len(s.skip(2), acc.push(c)),
                None => {},
            }
        }
    } else {
        lemma_sp_str_body_len(s.drop_first(), acc.push(s[0]));
    }
}

pub proof fn lemma_sp_string_len(s: Seq<char>)
    ensures match sp_string(s) {
        Some((t, r)) => r.len() < s.len(),
        None => true,
    },
{
    if s.len() > 0 && s[0] == '"' {
        lemma_sp_str_body_len(s.drop_first(), Seq::empty());
    }
}

pub proof fn lemma_digit_run_len(s: Seq<char>)
    ensures 0 <= digit_run(s) <= s.len(),
    decreases s.len(),
{
    if s.len() > 0 && is_digit_char(s[0]) {
        lemma_digit_run_len(s.drop_first());
    }
}

pub proof fn lemma_sp_int_len(s: Seq<char>)
    ensures match sp_int(s) {
        Some((v, r)) => r.len() < s.len(),
        None => true,
    },
{
    let neg = s.len() > 0 && s[0] == '-';
    let t = if neg { s.drop_first() } else { s };
    lemma_digit_run_len(t);
}

pub proof fn lemma_sp_scalar_len(s: Seq<char>)
    ensures match sp_scalar(s) {
        Some((v, r)) => r.len() < s.len(),
        None => true,
    },
{
    lemma_sp_string_len(s);
    lemma_sp_int_len(s);
}

/// Parse the members of an object, the first name expected immediately;
/// consumes the closing brace.
pub open spec fn sp_member_list(s: Seq<char>, acc: Seq<MemberV>) -> Option<(Seq<MemberV>, Seq<char>)>
    decreases s.len(),
        via sp_member_list_dec
{
    match sp_string(s) {
        None => None,
        Some((name, r1)) => {
            let r2 = sp_ws(r1);
            if r2.len() > 0 && r2[0] == ':' {
                match sp_scalar(sp_ws(r2.drop_first())) {
                    None => None,
                    Some((v, r3)) => {
                        let r4 = sp_ws(r3);
                        let m = MemberV { name: name, value: v };
                        if r4.len() > 0 && r4[0] == ',' {
                            sp_member_list(sp_ws(r4.drop_first()), acc.push(m))
                        } else if r4.len() > 0 && r4[0] == '}' {
                            Some((acc.push(m), r4.drop_first()))
                        } else {
                            None
                        }
                    }
                }
            } else {
                None
            }
        }
    }
}

#[via_fn]
proof fn sp_member_list_dec(s: Seq<char>, acc: Seq<MemberV>) {
    lemma_sp_string_len(s);
    match sp_string(s) {
        None => {},
        Some((name, r1)) => {
            let r2 = sp_ws(r1);
            lemma_sp_ws_len(r1);
            if r2.len() > 0 && r2[0] == ':' {
                lemma_sp_ws_len(r2.drop_first());
                lemma_sp_scalar_len(sp_ws(r2.drop_first()));
                match sp_scalar(sp_ws(r2.drop_first())) {
                    None => {},
                    Some((v, r3)) => {
                        let r4 = sp_ws(r3);
                        lemma_sp_ws_len(r3);
                        if r4.len() > 0 && r4[0] == ',' {
                            lemma_sp_ws_len(r4.drop_first());
                        }
                    }
                }
            }
        }
    }
}

/// Parse an object body after the opening brace: either an immediate
/// closing brace or a member list.
pub open spec fn sp_obj_body(s: Seq<char>) -> Option<(Seq<MemberV>, Seq<char>)> {
    let t = sp_ws(s);
    if t.len() > 0 && t[0] == '}' {
        Some((Seq::<MemberV>::empty(), t.drop_first()))
    } else {
        sp_member_list(t, Seq::empty())
    }
}

/// Parse one flat object, braces included.
pub open spec fn sp_flat_obj(s: Seq<char>) -> Option<(Seq<MemberV>, Seq<char>)> {
    if s.len() > 0 && s[0] == '{' { sp_obj_body(s.drop_first()) } else { None }
}

pub proof fn lemma_sp_member_list_len(s: Seq<char>, acc: Seq<MemberV>)
    ensures match sp_member_list(s, acc) {
        Some((ms, r)) => r.len() < s.len(),
        None => true,
    },
    decreases s.len(),
{
    lemma_sp_string_len(s);
    match sp_string(s) {
        None => {},
        Some((name, r1)) => {
            let r2 = sp_ws(r1);
            lemma_sp_ws_len(r1);
            if r2.len() > 0 && r2[0] == ':' {
                lemma_sp_ws_len(r2.drop_first());
                lemma_sp_scalar_len(sp_ws(r2.drop_first()));
                match sp_scalar(sp_ws(r2.drop_first())) {
                    None => {},
                    Some((v, r3)) => {
                        let r4 = sp_ws(r3);
                        lemma_sp_ws_len(r3);
                        if r4.len() > 0 && r4[0] == ',' {
                            lemma_sp_ws_len(r4.drop_first());
                            lemma_sp_member_list_len(sp_ws(r4.drop_first()), acc.push(MemberV { name: name, value: v }));
                        }
                    }
                }
            }
        }
    }
}

pub proof fn lemma_sp_flat_obj_len(s: Seq<char>)
    ensures match sp_flat_obj(s) {
        Some((ms, r)) => r.len() < s.len(),
        None => true,
    },
{
    if s.len() > 0 && s[0] == '{' {
        let t = sp_ws(s.drop_first());
        lemma_sp_ws_len(s.drop_first());
        if t.len() > 0 && t[0] == '}' {
        } else {
            lemma_sp_member_list_len(t, Seq::empty());
        }
    }
}

/// Parse the elements of an array of flat objects, the first object
/// expected immediately; consumes the closing bracket.
pub open spec fn sp_obj_list(s: Seq<char>, acc: Seq<Seq<MemberV>>) -> Option<(Seq<Seq<MemberV>>, Seq<char>)>
    decreases s.len(),
        via sp_obj_list_dec
{
    match sp_flat_obj(s) {
        None => None,
        Some((ms, r1)) => {
            let r2 = sp_ws(r1);
            if r2.len() > 0 && r2[0] == ',' {
                sp_obj_list(sp_ws(r2.drop_first()), acc.push(ms))
            } else if r2.len() > 0 && r2[0] == ']' {
                Some((acc.push(ms), r2.drop_first()))
            } else {
                None
            }
        }
    }
}

#[via_fn]
proof fn sp_obj_list_dec(s: Seq<char>, acc: Seq<Seq<MemberV>>) {
    lemma_sp_flat_obj_len(s);
    match sp_flat_obj(s) {
        None => {},
        Some((ms, r1)) => {
            lemma_sp_ws_len(r1);
            let r2 = sp_ws(r1);
            if r2.len() > 0 && r2[0] == ',' {
                lemma_sp_ws_len(r2.drop_first());
            }
        }
    }
}

pub proof fn lemma_sp_obj_list_len(s: Seq<char>, acc: Seq<Seq<MemberV>>)
    ensures match sp_obj_list(s, acc) {
        Some((os, r)) => r.len() < s.len(),
        None => true,
    },
    decreases s.len(),
{
    lemma_sp_flat_obj_len(s);
    match sp_flat_obj(s) {
        None => {},
        Some((ms, r1)) => {
            lemma_sp_ws_len(r1);
            let r2 = sp_ws(r1);
            if r2.len() > 0 && r2[0] == ',' {
                lemma_sp_ws_len(r2.drop_first());
                lemma_sp_obj_list_len(sp_ws(r2.drop_first()), acc.push(ms));
            }
        }
    }
}

/// Parse an array of flat objects, brackets included.
pub open spec fn sp_array(s: Seq<char>) -> Option<(Seq<Seq<MemberV>>, Seq<char>)> {
    if s.len() > 0 && s[0] == '[' {
        let t = sp_ws(s.drop_first());
        if t.len() > 0 && t[0] == ']' {
            Some((Seq::<Seq<MemberV>>::empty(), t.drop_first()))
        } else {
            sp_obj_list(t, Seq::empty())
        }
    } else {
        None
    }
}

/// Parse a top-level field value.
pub open spec fn sp_field_value(s: Seq<char>) -> Option<(FieldValueV, Seq<char>)> {
    if s.len() > 0 && s[0] == '[' {
        match sp_array(s) {
            Some((os, r)) => Some((FieldValueV::ObjArray(os), r)),
            None => None,
        }
    } else {
        match sp_scalar(s) {
            Some((v, r)) => Some((FieldValueV::Scalar(v), r)),
            None => None,
        }
    }
}

pub proof fn lemma_sp_array_len(s: Seq<char>)
    ensures match sp_array(s) {
        Some((os, r)) => r.len() < s.len(),
        None => true,
    },
{
    if s.len() > 0 && s[0] == '[' {
        let t = sp_ws(s.drop_first());
        lemma_sp_ws_len(s.drop_first());
        if t.len() > 0 && t[0] == ']' {
        } else {
            lemma_sp_obj_list_len(t, Seq::empty());
        }
    }
}

pub proof fn lemma_sp_field_value_len(s: Seq<char>)
    ensures match sp_field_value(s) {
        Some((v, r)) => r.len() < s.len(),
        None => true,
    },
{
    lemma_sp_array_len(s);
    lemma_sp_scalar_len(s);
}

/// Parse the fields of the document, the first name expected immediately;
/// consumes the closing brace.
pub open spec fn sp_field_list(s: Seq<char>, acc: Seq<FieldV>) -> Option<(Seq<FieldV>, Seq<char>)>
    decreases s.len(),
        via sp_field_list_dec
{
    match sp_string(s) {
        None => None,
        Some((name, r1)) => {
            let r2 = sp_ws(r1);
            if r2.len() > 0 && r2[0] == ':' {
                match sp_field_value(sp_ws(r2.drop_first())) {
                    None => None,
                    Some((v, r3)) => {
                        let r4 = sp_ws(r3);
                        let f = FieldV { name: name, value: v };
                        if r4.len() > 0 && r4[0] == ',' {
                            sp_field_list(sp_ws(r4.drop_first()), acc.push(f))
                        } else if r4.len() > 0 && r4[0] == '}' {
                            Some((acc.push(f), r4.drop_first()))
                        } else {
                            None
                        }
                    }
                }
            } else {
                None
            }
        }
    }
}

#[via_fn]
proof fn sp_field_list_dec(s: Seq<char>, acc: Seq<FieldV>) {
    lemma_sp_string_len(s);
    match sp_string(s) {
        None => {},
        Some((name, r1)) => {
            let r2 = sp_ws(r1);
            lemma_sp_ws_len(r1);
            if r2.len() > 0 && r2[0] == ':' {
                lemma_sp_ws_len(r2.drop_first());
                lemma_sp_field_value_len(sp_ws(r2.drop_first()));
                match sp_field_value(sp_ws(r2.drop_first())) {
                    None => {},
                    Some((v, r3)) => {
                        let r4 = sp_ws(r3);
                        lemma_sp_ws_len(r3);
                        if r4.len() > 0 && r4[0] == ',' {
                            lemma_sp_ws_len(r4.drop_first());
                        }
                    }
                }
            }
        }
    }
}

/// Parse one whole reply document: a single object, with nothing but
/// whitespace around it.
pub open spec fn sp_document(s: Seq<char>) -> Option<Seq<FieldV>> {
    let t = sp_ws(s);
    if t.len() > 0 && t[0] == '{' {
        let u = sp_ws(t.drop_first());
        if u.len() > 0 && u[0] == '}' {
            if sp_ws(u.drop_first()).len() == 0 { Some(Seq::empty()) } else { None }
        } else {
            match sp_field_list(u, Seq::empty()) {
                Some((fs, r)) => if sp_ws(r).len() == 0 { Some(fs) } else { None },
                None => None,
            }
        }
    } else {
        None
    }
}

} // verus!
