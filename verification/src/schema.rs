//! Typed extraction of reply fields from a decoded document.
//!
//! The server's field names are case sensitive; lookups take the first
//! field of a given name. A required field of the wrong shape, or a
//! numeric field out of range, makes the whole reply malformed: extraction
//! is all or nothing.

use vstd::prelude::*;
use vstd::string::StringExecFns;

use crate::json::{
    view_fields, view_members, FieldV, FieldValueV, JsonField, JsonFieldValue, JsonMember,
    JsonScalar, MemberV, ScalarV,
};

verus! {

/// The reply code carried by every server reply: the server answered
/// "OK", or it reported a failure.
#[derive(Clone, Copy, Debug, PartialEq, Eq, Structural)]
pub enum ResponseCode {
    Success,
    Failure,
}

/// The wire text of a reply code.
pub open spec fn code_chars(c: ResponseCode) -> Seq<char> {
    match c {
        ResponseCode::Success => "OK"@,
        ResponseCode::Failure => "FAIL"@,
    }
}

/// Identity of one configuration entry.
#[derive(Clone, Debug, PartialEq)]
pub struct ConfigContext {
    /// The data id of the entry.
    pub data_id: String,
    /// The group the entry belongs to.
    pub group: String,
    /// The tenant the entry belongs to.
    pub tenant: String,
}

/// Model of a configuration-entry identity.
pub ghost struct ContextV {
    pub data_id: Seq<char>,
    pub group: Seq<char>,
    pub tenant: Seq<char>,
}

impl View for ConfigContext {
    type V = ContextV;

    open spec fn view(&self) -> ContextV {
        ContextV { data_id: self.data_id@, group: self.group@, tenant: self.tenant@ }
    }
}

/// Model of an optional string held in a response.
pub open spec fn view_opt_str(v: Option<String>) -> Option<Seq<char>> {
    match v {
        Some(s) => Some(s@),
        None => None,
    }
}

/// Model of an optional list of configuration contexts.
pub open spec fn view_opt_ctxs(v: Option<Vec<ConfigContext>>) -> Option<Seq<ContextV>> {
    match v {
        Some(cs) => Some(cs@.map_values(|c: ConfigContext| c@)),
        None => None,
    }
}

/// The first field of the given name, if any.
pub open spec fn find_field(fs: Seq<FieldV>, name: Seq<char>) -> Option<FieldValueV>
    decreases fs.len(),
{
    if fs.len() == 0 {
        None
    } else if fs[0].name == name {
        Some(fs[0].value)
    } else {
        find_field(fs.drop_first(), name)
    }
}

/// The first member of the given name, if any.
pub open spec fn find_member(ms: Seq<MemberV>, name: Seq<char>) -> Option<ScalarV>
    decreases ms.len(),
{
    if ms.len() == 0 {
        None
    } else if ms[0].name == name {
        Some(ms[0].value)
    } else {
        find_member(ms.drop_first(), name)
    }
}

/// An optional string field: absent or null means no value; any shape
/// other than a string is malformed.
pub open spec fn opt_string_field(fs: Seq<FieldV>, name: Seq<char>) -> Option<Option<Seq<char>>> {
    match find_field(fs, name) {
        None => Some(None),
        Some(FieldValueV::Scalar(ScalarV::Null)) => Some(None),
        Some(FieldValueV::Scalar(ScalarV::Str(t))) => Some(Some(t)),
        Some(_) => None,
    }
}

/// The required reply-code field: must be a string; "OK" means success,
/// any other string is a failure report.
pub open spec fn req_code_field(fs: Seq<FieldV>, name: Seq<char>) -> Option<ResponseCode> {
    match find_field(fs, name) {
        Some(FieldValueV::Scalar(ScalarV::Str(t))) => Some(
            if t == "OK"@ { ResponseCode::Success } else { ResponseCode::Failure },
        ),
        _ => None,
    }
}

/// A required unsigned 32-bit numeric field.
pub open spec fn req_u32_field(fs: Seq<FieldV>, name: Seq<char>) -> Option<u32> {
    match find_field(fs, name) {
        Some(FieldValueV::Scalar(ScalarV::Int(n))) => if 0 <= n <= 4294967295 {
            Some(n as u32)
        } else {
            None
        },
        _ => None,
    }
}

/// A required signed 64-bit numeric field.
pub open spec fn req_i64_field(fs: Seq<FieldV>, name: Seq<char>) -> Option<i64> {
    match find_field(fs, name) {
        Some(FieldValueV::Scalar(ScalarV::Int(n))) => Some(n as i64),
        _ => None,
    }
}

/// A required boolean field.
pub open spec fn req_bool_field(fs: Seq<FieldV>, name: Seq<char>) -> Option<bool> {
    match find_field(fs, name) {
        Some(FieldValueV::Scalar(ScalarV::Bool(b))) => Some(b),
        _ => None,
    }
}

/// One configuration context read from a flat object: the three name
/// parts are required strings.
pub open spec fn ctx_of_members(ms: Seq<MemberV>) -> Option<ContextV> {
    match (find_member(ms, "dataId"@), find_member(ms, "group"@), find_member(ms, "tenant"@)) {
        (Some(ScalarV::Str(d)), Some(ScalarV::Str(g)), Some(ScalarV::Str(t))) => Some(
            ContextV { data_id: d, group: g, tenant: t },
        ),
        _ => None,
    }
}

/// All configuration contexts of an object array, onto `acc`; one
/// malformed object makes the whole list malformed.
pub open spec fn ctxs_of(os: Seq<Seq<MemberV>>, acc: Seq<ContextV>) -> Option<Seq<ContextV>>
    decreases os.len(),
{
    if os.len() == 0 {
        Some(acc)
    } else {
        match ctx_of_members(os[0]) {
            Some(c) => ctxs_of(os.drop_first(), acc.push(c)),
            None => None,
        }
    }
}

/// An optional list-of-contexts field: absent or null means no value.
pub open spec fn opt_ctxs_field(fs: Seq<FieldV>, name: Seq<char>) -> Option<Option<Seq<ContextV>>> {
    match find_field(fs, name) {
        None => Some(None),
        Some(FieldValueV::Scalar(ScalarV::Null)) => Some(None),
        Some(FieldValueV::ObjArray(os)) => match ctxs_of(os, Seq::empty()) {
            Some(cs) => Some(Some(cs)),
            None => None,
        },
        Some(_) => None,
    }
}

// ---------------------------------------------------------------------
// Executable extraction, proved equal to the model above
// ---------------------------------------------------------------------

fn find_field_x<'a>(fs: &'a [JsonField], name: &String) -> (r: Option<&'a JsonFieldValue>)
    ensures
        match r {
            Some(v) => find_field(view_fields(fs@), name@) == Some(v@),
            None => find_field(view_fields(fs@), name@) is None,
        },
    decreases fs@.len(),
{
    if fs.len() == 0 {
        None
    } else if fs[0].name.eq(name) {
        Some(&fs[0].value)
    } else {
        proof {
            assert(view_fields(fs@).drop_first() =~= view_fields(fs@.drop_first()));
            assert(fs@.subrange(1, fs@.len() as int) =~= fs@.drop_first());
        }
        find_field_x(vstd::slice::slice_subrange(fs, 1, fs.len()), name)
    }
}

fn find_member_x<'a>(ms: &'a [JsonMember], name: &String) -> (r: Option<&'a JsonScalar>)
    ensures
        match r {
            Some(v) => find_member(view_members(ms@), name@) == Some(v@),
            None => find_member(view_members(ms@), name@) is None,
        },
    decreases ms@.len(),
{
    if ms.len() == 0 {
        None
    } else if ms[0].name.eq(name) {
        Some(&ms[0].value)
    } else {
        proof {
            assert(view_members(ms@).drop_first() =~= view_members(ms@.drop_first()));
            assert(ms@.subrange(1, ms@.len() as int) =~= ms@.drop_first());
        }
        find_member_x(vstd::slice::slice_subrange(ms, 1, ms.len()), name)
    }
}

/// Read an optional string field.
pub(crate) fn get_opt_string(fs: &[JsonField], name: &String) -> (r: Result<Option<String>, ()>)
    ensures
        match r {
            Ok(v) => opt_string_field(view_fields(fs@), name@) == Some(view_opt_str(v)),
            Err(_) => opt_string_field(view_fields(fs@), name@) is None,
        },
{
    match find_field_x(fs, name) {
        None => Ok(None),
        Some(v) => match v {
            JsonFieldValue::Scalar(JsonScalar::Null) => Ok(None),
            JsonFieldValue::Scalar(JsonScalar::Str(s)) => Ok(Some(s.clone())),
            _ => Err(()),
        },
    }
}

/// Read the required reply-code field.
pub(crate) fn get_code(fs: &[JsonField], name: &String) -> (r: Result<ResponseCode, ()>)
    ensures
        match r {
            Ok(c) => req_code_field(view_fields(fs@), name@) == Some(c),
            Err(_) => req_code_field(view_fields(fs@), name@) is None,
        },
{
    match find_field_x(fs, name) {
        Some(v) => match v {
            JsonFieldValue::Scalar(JsonScalar::Str(s)) => {
                let ok_text: String = String::from_str("OK");
                if s.eq(&ok_text) {
                    Ok(ResponseCode::Success)
                } else {
                    Ok(ResponseCode::Failure)
                }
            },
            _ => Err(()),
        },
        None => Err(()),
    }
}

/// Read a required unsigned 32-bit numeric field.
pub(crate) fn get_u32(fs: &[JsonField], name: &String) -> (r: Result<u32, ()>)
    ensures
        match r {
            Ok(n) => req_u32_field(view_fields(fs@), name@) == Some(n),
            Err(_) => req_u32_field(view_fields(fs@), name@) is None,
        },
{
    match find_field_x(fs, name) {
        Some(v) => match v {
            JsonFieldValue::Scalar(JsonScalar::Int(n)) => {
                if 0 <= *n && *n <= 4294967295i64 {
                    Ok(*n as u32)
                } else {
                    Err(())
                }
            },
            _ => Err(()),
        },
        None => Err(()),
    }
}

/// Read a required signed 64-bit numeric field.
pub(crate) fn get_i64(fs: &[JsonField], name: &String) -> (r: Result<i64, ()>)
    ensures
        match r {
            Ok(n) => req_i64_field(view_fields(fs@), name@) == Some(n),
            Err(_) => req_i64_field(view_fields(fs@), name@) is None,
        },
{
    match find_field_x(fs, name) {
        Some(v) => match v {
            JsonFieldValue::Scalar(JsonScalar::Int(n)) => Ok(*n),
            _ => Err(()),
        },
        None => Err(()),
    }
}

/// Read a required boolean field.
pub(crate) fn get_bool(fs: &[JsonField], name: &String) -> (r: Result<bool, ()>)
    ensures
        match r {
            Ok(b) => req_bool_field(view_fields(fs@), name@) == Some(b),
            Err(_) => req_bool_field(view_fields(fs@), name@) is None,
        },
{
    match find_field_x(fs, name) {
        Some(v) => match v {
            JsonFieldValue::Scalar(JsonScalar::Bool(b)) => Ok(*b),
            _ => Err(()),
        },
        None => Err(()),
    }
}

fn get_ctx(ms: &[JsonMember]) -> (r: Result<ConfigContext, ()>)
    ensures
        match r {
            Ok(c) => ctx_of_members(view_members(ms@)) == Some(c@),
            Err(_) => ctx_of_members(view_members(ms@)) is None,
        },
{
    let data_key: String = String::from_str("dataId");
    let group_key: String = String::from_str("group");
    let tenant_key: String = String::from_str("tenant");
    let d = match find_member_x(ms, &data_key) {
        Some(JsonScalar::Str(s)) => s.clone(),
        _ => {
            return Err(());
        },
    };
    let g = match find_member_x(ms, &group_key) {
        Some(JsonScalar::Str(s)) => s.clone(),
        _ => {
            return Err(());
        },
    };
    let t = match find_member_x(ms, &tenant_key) {
        Some(JsonScalar::Str(s)) => s.clone(),
        _ => {
            return Err(());
        },
    };
    Ok(ConfigContext { data_id: d, group: g, tenant: t })
}

fn get_ctx_list(os: &[Vec<JsonMember>], acc: Vec<ConfigContext>) -> (r: Result<
    Vec<ConfigContext>,
    (),
>)
    ensures
        match r {
            Ok(cs) => ctxs_of(crate::json::view_objs(os@), acc@.map_values(|c: ConfigContext| c@))
                == Some(cs@.map_values(|c: ConfigContext| c@)),
            Err(_) => ctxs_of(crate::json::view_objs(os@), acc@.map_values(|c: ConfigContext| c@)) is None,
        },
    decreases os@.len(),
{
    if os.len() == 0 {
        Ok(acc)
    } else {
        match get_ctx(os[0].as_slice()) {
            Ok(c) => {
                let ghost cv = c@;
                let mut acc2 = acc;
                acc2.push(c);
                proof {
                    assert(acc2@.map_values(|c: ConfigContext| c@) =~= acc@.map_values(
                        |c: ConfigContext| c@,
                    ).push(cv));
                    assert(os@.subrange(1, os@.len() as int) =~= os@.drop_first());
                    assert(crate::json::view_objs(os@).drop_first() =~= crate::json::view_objs(
                        os@.drop_first(),
                    ));
                }
                get_ctx_list(vstd::slice::slice_subrange(os, 1, os.len()), acc2)
            },
            Err(_) => Err(()),
        }
    }
}

/// Read an optional list-of-contexts field.
pub(crate) fn get_opt_ctxs(fs: &[JsonField], name: &String) -> (r: Result<
    Option<Vec<ConfigContext>>,
    (),
>)
    ensures
        match r {
            Ok(v) => opt_ctxs_field(view_fields(fs@), name@) == Some(view_opt_ctxs(v)),
            Err(_) => opt_ctxs_field(view_fields(fs@), name@) is None,
        },
{
    match find_field_x(fs, name) {
        None => Ok(None),
        Some(v) => match v {
            JsonFieldValue::Scalar(JsonScalar::Null) => Ok(None),
            JsonFieldValue::ObjArray(os) => {
                let empty_acc: Vec<ConfigContext> = Vec::new();
                proof {
                    assert(empty_acc@.map_values(|c: ConfigContext| c@)
                        =~= Seq::<ContextV>::empty());
                }
                match get_ctx_list(os.as_slice(), empty_acc) {
                    Ok(cs) => Ok(Some(cs)),
                    Err(_) => Err(()),
                }
            },
            _ => Err(()),
        },
    }
}

} // verus!
