//! The four server-reply variants and the capability they share.
//!
//! Each variant decodes one wire shape: the transport reads a reply's
//! type identifier, routes the raw text to the matching decoder, and on
//! success reads the variant's accessors. Decoding is strict: a reply is
//! either fully valid or rejected with `Error::Serialization`.

use vstd::prelude::*;
use vstd::string::StringExecFns;

use crate::error::Error;
use crate::json::{
    document_chars, view_fields, FieldV, FieldValueV, JsonDocument, JsonField, JsonFieldValue,
    JsonMember, JsonScalar, MemberV, ScalarV,
};
use crate::parse::parse_document;
use crate::render::render_document;
use crate::schema::{
    code_chars, get_bool, get_code, get_i64, get_opt_ctxs, get_opt_string, get_u32,
    opt_ctxs_field, opt_string_field, req_bool_field, req_code_field, req_i64_field,
    req_u32_field, view_opt_ctxs, view_opt_str, ConfigContext, ContextV, ResponseCode,
};

verus! {

/// Reserved query code: the configuration was not found.
pub const CONFIG_NOT_FOUND: u32 = 300;

/// Reserved query code: the configuration is being modified; retry later.
pub const CONFIG_QUERY_CONFLICT: u32 = 400;

/// The capability every server reply offers: success and common
/// metadata, uniformly across the concrete variants.
pub trait Response: Sized {
    /// Whether the reply reports success; derived solely from the
    /// decoded reply code.
    spec fn success_spec(&self) -> bool;

    /// The correlation id used to match the reply to its request.
    spec fn request_id_spec(&self) -> Option<Seq<char>>;

    /// Server diagnostic text, when present.
    spec fn message_spec(&self) -> Option<Seq<char>>;

    /// The numeric error code of the reply.
    spec fn error_code_spec(&self) -> u32;

    /// The fixed identifier of this reply's wire message kind.
    spec fn type_url_spec() -> Seq<char>;

    fn is_success(&self) -> (r: bool)
        ensures
            r == self.success_spec(),
    ;

    fn request_id(&self) -> (r: Option<&String>)
        ensures
            (match r {
                Some(s) => self.request_id_spec() == Some(s@),
                None => self.request_id_spec() is None,
            }),
    ;

    fn message(&self) -> (r: Option<&String>)
        ensures
            (match r {
                Some(s) => self.message_spec() == Some(s@),
                None => self.message_spec() is None,
            }),
    ;

    fn error_code(&self) -> (r: u32)
        ensures
            r == self.error_code_spec(),
    ;

    /// The dispatch identifier is a static constant of the variant: the
    /// transport uses it to pick the decoder before decoding, so it is
    /// never derived from the decoded payload.
    fn type_url(&self) -> (r: &'static str)
        ensures
            r@ == Self::type_url_spec(),
    ;
}

// ---------------------------------------------------------------------
// Shared pieces of the field layer
// ---------------------------------------------------------------------

/// The field value that carries an optional string: the value itself,
/// or null when absent.
pub open spec fn opt_str_fv(v: Option<Seq<char>>) -> FieldValueV {
    match v {
        Some(t) => FieldValueV::Scalar(ScalarV::Str(t)),
        None => FieldValueV::Scalar(ScalarV::Null),
    }
}

fn opt_str_value(v: &Option<String>) -> (r: JsonFieldValue)
    ensures
        r@ == opt_str_fv(view_opt_str(*v)),
{
    match v {
        Some(s) => JsonFieldValue::Scalar(JsonScalar::Str(s.clone())),
        None => JsonFieldValue::Scalar(JsonScalar::Null),
    }
}

fn code_text(c: ResponseCode) -> (r: String)
    ensures
        r@ == code_chars(c),
{
    match c {
        ResponseCode::Success => String::from_str("OK"),
        ResponseCode::Failure => String::from_str("FAIL"),
    }
}

fn serialization_error() -> (r: Error)
    ensures
        r is Serialization,
{
    Error::Serialization(String::from_str("reply text does not match the wire contract"))
}

// ---------------------------------------------------------------------
// Query reply
// ---------------------------------------------------------------------

/// Reply to a configuration query: the configuration's content and the
/// metadata that goes with it.
#[derive(Clone, Debug, PartialEq)]
pub struct ConfigQueryServerResponse {
    request_id: Option<String>,
    result_code: ResponseCode,
    error_code: u32,
    message: Option<String>,
    content_type: Option<String>,
    content: Option<String>,
    md5: Option<String>,
    encrypted_data_key: Option<String>,
    tag: Option<String>,
    last_modified: i64,
    beta: bool,
}

/// Model of a query reply.
pub ghost struct QueryResponseV {
    pub request_id: Option<Seq<char>>,
    pub result_code: ResponseCode,
    pub error_code: u32,
    pub message: Option<Seq<char>>,
    pub content_type: Option<Seq<char>>,
    pub content: Option<Seq<char>>,
    pub md5: Option<Seq<char>>,
    pub encrypted_data_key: Option<Seq<char>>,
    pub tag: Option<Seq<char>>,
    pub last_modified: i64,
    pub beta: bool,
}

impl View for ConfigQueryServerResponse {
    type V = QueryResponseV;

    closed spec fn view(&self) -> QueryResponseV {
        QueryResponseV {
            request_id: view_opt_str(self.request_id),
            result_code: self.result_code,
            error_code: self.error_code,
            message: view_opt_str(self.message),
            content_type: view_opt_str(self.content_type),
            content: view_opt_str(self.content),
            md5: view_opt_str(self.md5),
            encrypted_data_key: view_opt_str(self.encrypted_data_key),
            tag: view_opt_str(self.tag),
            last_modified: self.last_modified,
            beta: self.beta,
        }
    }
}

/// The query reply a document stands for, if the document matches the
/// query field set: `requestId`, `message`, `contentType`, `content`,
/// `md5`, `encryptedDataKey` and `tag` are optional, the rest required.
pub open spec fn query_of_fields(fs: Seq<FieldV>) -> Option<QueryResponseV> {
    let rid = opt_string_field(fs, "requestId"@);
    let code = req_code_field(fs, "resultCode"@);
    let ec = req_u32_field(fs, "errorCode"@);
    let msg = opt_string_field(fs, "message"@);
    let ct = opt_string_field(fs, "contentType"@);
    let c = opt_string_field(fs, "content"@);
    let m5 = opt_string_field(fs, "md5"@);
    let edk = opt_string_field(fs, "encryptedDataKey"@);
    let tag = opt_string_field(fs, "tag"@);
    let lm = req_i64_field(fs, "lastModified"@);
    let beta = req_bool_field(fs, "beta"@);
    if rid is Some && code is Some && ec is Some && msg is Some && ct is Some && c is Some
        && m5 is Some && edk is Some && tag is Some && lm is Some && beta is Some {
        Some(QueryResponseV {
            request_id: rid->0,
            result_code: code->0,
            error_code: ec->0,
            message: msg->0,
            content_type: ct->0,
            content: c->0,
            md5: m5->0,
            encrypted_data_key: edk->0,
            tag: tag->0,
            last_modified: lm->0,
            beta: beta->0,
        })
    } else {
        None
    }
}

/// What decoding a query reply text yields.
pub open spec fn spec_decode_query(s: Seq<char>) -> Option<QueryResponseV> {
    match crate::json::sp_document(s) {
        Some(fs) => query_of_fields(fs),
        None => None,
    }
}

/// The document a query reply encodes to.
pub open spec fn query_fields(q: QueryResponseV) -> Seq<FieldV> {
    seq![
        FieldV { name: "requestId"@, value: opt_str_fv(q.request_id) },
        FieldV { name: "resultCode"@, value: FieldValueV::Scalar(ScalarV::Str(code_chars(q.result_code))) },
        FieldV { name: "errorCode"@, value: FieldValueV::Scalar(ScalarV::Int(q.error_code as int)) },
        FieldV { name: "message"@, value: opt_str_fv(q.message) },
        FieldV { name: "contentType"@, value: opt_str_fv(q.content_type) },
        FieldV { name: "content"@, value: opt_str_fv(q.content) },
        FieldV { name: "md5"@, value: opt_str_fv(q.md5) },
        FieldV { name: "encryptedDataKey"@, value: opt_str_fv(q.encrypted_data_key) },
        FieldV { name: "tag"@, value: opt_str_fv(q.tag) },
        FieldV { name: "lastModified"@, value: FieldValueV::Scalar(ScalarV::Int(q.last_modified as int)) },
        FieldV { name: "beta"@, value: FieldValueV::Scalar(ScalarV::Bool(q.beta)) },
    ]
}

/// What encoding a query reply yields.
pub open spec fn spec_encode_query(q: QueryResponseV) -> Seq<char> {
    document_chars(query_fields(q))
}

impl ConfigQueryServerResponse {
    /// A query reply built from its parts.
    pub fn new(
        request_id: Option<String>,
        result_code: ResponseCode,
        error_code: u32,
        message: Option<String>,
        content_type: Option<String>,
        content: Option<String>,
        md5: Option<String>,
        encrypted_data_key: Option<String>,
        tag: Option<String>,
        last_modified: i64,
        beta: bool,
    ) -> (r: Self)
        ensures
            r@ == (QueryResponseV {
                request_id: view_opt_str(request_id),
                result_code: result_code,
                error_code: error_code,
                message: view_opt_str(message),
                content_type: view_opt_str(content_type),
                content: view_opt_str(content),
                md5: view_opt_str(md5),
                encrypted_data_key: view_opt_str(encrypted_data_key),
                tag: view_opt_str(tag),
                last_modified: last_modified,
                beta: beta,
            }),
    {
        ConfigQueryServerResponse {
            request_id,
            result_code,
            error_code,
            message,
            content_type,
            content,
            md5,
            encrypted_data_key,
            tag,
            last_modified,
            beta,
        }
    }

    /// Decode a query reply from its wire text. Returns the reply the
    /// text stands for, or `Error::Serialization` exactly when the text
    /// does not match the query wire shape.
    pub fn from_json_text(text: &str) -> (r: Result<Self, Error>)
        ensures
            (match r {
                Ok(resp) => spec_decode_query(text@) == Some(resp@),
                Err(e) => spec_decode_query(text@) is None && e is Serialization,
            }),
    {
        let doc = match parse_document(text) {
            Some(d) => d,
            None => {
                return Err(serialization_error());
            },
        };
        let fs = doc.fields.as_slice();
        let k_request_id: String = String::from_str("requestId");
        let k_result_code: String = String::from_str("resultCode");
        let k_error_code: String = String::from_str("errorCode");
        let k_message: String = String::from_str("message");
        let k_content_type: String = String::from_str("contentType");
        let k_content: String = String::from_str("content");
        let k_md5: String = String::from_str("md5");
        let k_edk: String = String::from_str("encryptedDataKey");
        let k_tag: String = String::from_str("tag");
        let k_last_modified: String = String::from_str("lastModified");
        let k_beta: String = String::from_str("beta");
        let rid = match get_opt_string(fs, &k_request_id) {
            Ok(v) => v,
            Err(_) => {
                return Err(serialization_error());
            },
        };
        let code = match get_code(fs, &k_result_code) {
            Ok(v) => v,
            Err(_) => {
                return Err(serialization_error());
            },
        };
        let ec = match get_u32(fs, &k_error_code) {
            Ok(v) => v,
            Err(_) => {
                return Err(serialization_error());
            },
        };
        let msg = match get_opt_string(fs, &k_message) {
            Ok(v) => v,
            Err(_) => {
                return Err(serialization_error());
            },
        };
        let ct = match get_opt_string(fs, &k_content_type) {
            Ok(v) => v,
            Err(_) => {
                return Err(serialization_error());
            },
        };
        let c = match get_opt_string(fs, &k_content) {
            Ok(v) => v,
            Err(_) => {
                return Err(serialization_error());
            },
        };
        let m5 = match get_opt_string(fs, &k_md5) {
            Ok(v) => v,
            Err(_) => {
                return Err(serialization_error());
            },
        };
        let edk = match get_opt_string(fs, &k_edk) {
            Ok(v) => v,
            Err(_) => {
                return Err(serialization_error());
            },
        };
        let tag = match get_opt_string(fs, &k_tag) {
            Ok(v) => v,
            Err(_) => {
                return Err(serialization_error());
            },
        };
        let lm = match get_i64(fs, &k_last_modified) {
            Ok(v) => v,
            Err(_) => {
                return Err(serialization_error());
            },
        };
        let beta = match get_bool(fs, &k_beta) {
            Ok(v) => v,
            Err(_) => {
                return Err(serialization_error());
            },
        };
        Ok(ConfigQueryServerResponse {
            request_id: rid,
            result_code: code,
            error_code: ec,
            message: msg,
            content_type: ct,
            content: c,
            md5: m5,
            encrypted_data_key: edk,
            tag: tag,
            last_modified: lm,
            beta: beta,
        })
    }

    /// Encode this reply as wire text.
    pub fn to_json_text(&self) -> (r: String)
        ensures
            r@ == spec_encode_query(self@),
    {
        let mut fields: Vec<JsonField> = Vec::new();
        fields.push(JsonField {
            name: String::from_str("requestId"),
            value: opt_str_value(&self.request_id),
        });
        fields.push(JsonField {
            name: String::from_str("resultCode"),
            value: JsonFieldValue::Scalar(JsonScalar::Str(code_text(self.result_code))),
        });
        fields.push(JsonField {
            name: String::from_str("errorCode"),
            value: JsonFieldValue::Scalar(JsonScalar::Int(self.error_code as i64)),
        });
        fields.push(JsonField {
            name: String::from_str("message"),
            value: opt_str_value(&self.message),
        });
        fields.push(JsonField {
            name: String::from_str("contentType"),
            value: opt_str_value(&self.content_type),
        });
        fields.push(JsonField {
            name: String::from_str("content"),
            value: opt_str_value(&self.content),
        });
        fields.push(JsonField {
            name: String::from_str("md5"),
            value: opt_str_value(&self.md5),
        });
        fields.push(JsonField {
            name: String::from_str("encryptedDataKey"),
            value: opt_str_value(&self.encrypted_data_key),
        });
        fields.push(JsonField {
            name: String::from_str("tag"),
            value: opt_str_value(&self.tag),
        });
        fields.push(JsonField {
            name: String::from_str("lastModified"),
            value: JsonFieldValue::Scalar(JsonScalar::Int(self.last_modified)),
        });
        fields.push(JsonField {
            name: String::from_str("beta"),
            value: JsonFieldValue::Scalar(JsonScalar::Bool(self.beta)),
        });
        proof {
            assert(view_fields(fields@) =~~= query_fields(self@));
        }
        let doc = JsonDocument { fields };
        render_document(&doc)
    }

    /// Whether the server reported the queried configuration missing.
    /// This is meaningful whatever the reply code says.
    pub fn is_not_found(&self) -> (r: bool)
        ensures
            r == (self@.error_code == CONFIG_NOT_FOUND),
    {
        self.error_code == CONFIG_NOT_FOUND
    }

    /// Whether the server reported the queried configuration as being
    /// modified concurrently. This is meaningful whatever the reply
    /// code says.
    pub fn is_query_conflict(&self) -> (r: bool)
        ensures
            r == (self@.error_code == CONFIG_QUERY_CONFLICT),
    {
        self.error_code == CONFIG_QUERY_CONFLICT
    }

    /// The failure this reply stands for, under the classification
    /// policy of the client: reserved code 300 is "not found", reserved
    /// code 400 is "query conflict" — both whatever the reply code says
    /// — and any other unsuccessful reply is a generic failure. A
    /// successful reply with no reserved code is no failure. Each error
    /// carries the server's diagnostic text, or an empty message when
    /// none was sent.
    pub fn to_result(&self) -> (r: Result<(), Error>)
        ensures
            (match r {
                Ok(()) => self@.result_code == ResponseCode::Success && self@.error_code
                    != CONFIG_NOT_FOUND && self@.error_code != CONFIG_QUERY_CONFLICT,
                Err(e) => {
                    &&& (e is ConfigNotFound <==> self@.error_code == CONFIG_NOT_FOUND)
                    &&& (e is ConfigQueryConflict <==> (self@.error_code == CONFIG_QUERY_CONFLICT
                        && self@.error_code != CONFIG_NOT_FOUND))
                    &&& (e is ErrResult <==> (self@.result_code != ResponseCode::Success
                        && self@.error_code != CONFIG_NOT_FOUND && self@.error_code
                        != CONFIG_QUERY_CONFLICT))
                },
            }),
    {
        let msg = match &self.message {
            Some(s) => s.clone(),
            None => String::new(),
        };
        if self.error_code == CONFIG_NOT_FOUND {
            Err(Error::ConfigNotFound(msg))
        } else if self.error_code == CONFIG_QUERY_CONFLICT {
            Err(Error::ConfigQueryConflict(msg))
        } else if !(self.result_code == ResponseCode::Success) {
            Err(Error::ErrResult(msg))
        } else {
            Ok(())
        }
    }

    /// The content type of the configuration, when present.
    pub fn content_type(&self) -> (r: Option<&String>)
        ensures
            (match r {
                Some(s) => self@.content_type == Some(s@),
                None => self@.content_type is None,
            }),
    {
        match &self.content_type {
            Some(s) => Some(s),
            None => None,
        }
    }

    /// The configuration content, when present.
    pub fn content(&self) -> (r: Option<&String>)
        ensures
            (match r {
                Some(s) => self@.content == Some(s@),
                None => self@.content is None,
            }),
    {
        match &self.content {
            Some(s) => Some(s),
            None => None,
        }
    }

    /// The checksum of the content, when present.
    pub fn md5(&self) -> (r: Option<&String>)
        ensures
            (match r {
                Some(s) => self@.md5 == Some(s@),
                None => self@.md5 is None,
            }),
    {
        match &self.md5 {
            Some(s) => Some(s),
            None => None,
        }
    }

    /// The identifier of the key the content was encrypted with, when
    /// present.
    pub fn encrypted_data_key(&self) -> (r: Option<&String>)
        ensures
            (match r {
                Some(s) => self@.encrypted_data_key == Some(s@),
                None => self@.encrypted_data_key is None,
            }),
    {
        match &self.encrypted_data_key {
            Some(s) => Some(s),
            None => None,
        }
    }

    /// When the configuration was last modified.
    pub fn last_modified(&self) -> (r: i64)
        ensures
            r == self@.last_modified,
    {
        self.last_modified
    }
}

impl Response for ConfigQueryServerResponse {
    open spec fn success_spec(&self) -> bool {
        self@.result_code == ResponseCode::Success
    }

    open spec fn request_id_spec(&self) -> Option<Seq<char>> {
        self@.request_id
    }

    open spec fn message_spec(&self) -> Option<Seq<char>> {
        self@.message
    }

    open spec fn error_code_spec(&self) -> u32 {
        self@.error_code
    }

    open spec fn type_url_spec() -> Seq<char> {
        "ConfigQueryResponse"@
    }

    fn is_success(&self) -> (r: bool) {
        self.result_code == ResponseCode::Success
    }

    fn request_id(&self) -> (r: Option<&String>) {
        match &self.request_id {
            Some(s) => Some(s),
            None => None,
        }
    }

    fn message(&self) -> (r: Option<&String>) {
        match &self.message {
            Some(s) => Some(s),
            None => None,
        }
    }

    fn error_code(&self) -> (r: u32) {
        self.error_code
    }

    fn type_url(&self) -> (r: &'static str) {
        "ConfigQueryResponse"
    }
}

// ---------------------------------------------------------------------
// Publish and remove replies: minimal acknowledgements
// ---------------------------------------------------------------------

/// Model of an acknowledgement reply.
pub ghost struct AckResponseV {
    pub request_id: Option<Seq<char>>,
    pub result_code: ResponseCode,
    pub error_code: u32,
    pub message: Option<Seq<char>>,
}

/// The acknowledgement a document stands for, if the document matches
/// the acknowledgement field set: `requestId` and `message` optional,
/// `resultCode` and `errorCode` required.
pub open spec fn ack_of_fields(fs: Seq<FieldV>) -> Option<AckResponseV> {
    let rid = opt_string_field(fs, "requestId"@);
    let code = req_code_field(fs, "resultCode"@);
    let ec = req_u32_field(fs, "errorCode"@);
    let msg = opt_string_field(fs, "message"@);
    if rid is Some && code is Some && ec is Some && msg is Some {
        Some(AckResponseV {
            request_id: rid->0,
            result_code: code->0,
            error_code: ec->0,
            message: msg->0,
        })
    } else {
        None
    }
}

/// What decoding an acknowledgement reply text yields.
pub open spec fn spec_decode_ack(s: Seq<char>) -> Option<AckResponseV> {
    match crate::json::sp_document(s) {
        Some(fs) => ack_of_fields(fs),
        None => None,
    }
}

/// The document an acknowledgement reply encodes to.
pub open spec fn ack_fields(a: AckResponseV) -> Seq<FieldV> {
    seq![
        FieldV { name: "requestId"@, value: opt_str_fv(a.request_id) },
        FieldV { name: "resultCode"@, value: FieldValueV::Scalar(ScalarV::Str(code_chars(a.result_code))) },
        FieldV { name: "errorCode"@, value: FieldValueV::Scalar(ScalarV::Int(a.error_code as int)) },
        FieldV { name: "message"@, value: opt_str_fv(a.message) },
    ]
}

/// What encoding an acknowledgement reply yields.
pub open spec fn spec_encode_ack(a: AckResponseV) -> Seq<char> {
    document_chars(ack_fields(a))
}

struct AckParts {
    request_id: Option<String>,
    result_code: ResponseCode,
    error_code: u32,
    message: Option<String>,
}

impl AckParts {
    spec fn view_parts(&self) -> AckResponseV {
        AckResponseV {
            request_id: view_opt_str(self.request_id),
            result_code: self.result_code,
            error_code: self.error_code,
            message: view_opt_str(self.message),
        }
    }
}

fn decode_ack(text: &str) -> (r: Result<AckParts, Error>)
    ensures
        (match r {
            Ok(a) => spec_decode_ack(text@) == Some(a.view_parts()),
            Err(e) => spec_decode_ack(text@) is None && e is Serialization,
        }),
{
    let doc = match parse_document(text) {
        Some(d) => d,
        None => {
            return Err(serialization_error());
        },
    };
    let fs = doc.fields.as_slice();
    let k_request_id: String = String::from_str("requestId");
    let k_result_code: String = String::from_str("resultCode");
    let k_error_code: String = String::from_str("errorCode");
    let k_message: String = String::from_str("message");
    let rid = match get_opt_string(fs, &k_request_id) {
        Ok(v) => v,
        Err(_) => {
            return Err(serialization_error());
        },
    };
    let code = match get_code(fs, &k_result_code) {
        Ok(v) => v,
        Err(_) => {
            return Err(serialization_error());
        },
    };
    let ec = match get_u32(fs, &k_error_code) {
        Ok(v) => v,
        Err(_) => {
            return Err(serialization_error());
        },
    };
    let msg = match get_opt_string(fs, &k_message) {
        Ok(v) => v,
        Err(_) => {
            return Err(serialization_error());
        },
    };
    Ok(AckParts { request_id: rid, result_code: code, error_code: ec, message: msg })
}

fn encode_ack(a: &AckParts) -> (r: String)
    ensures
        r@ == spec_encode_ack(a.view_parts()),
{
    let mut fields: Vec<JsonField> = Vec::new();
    fields.push(JsonField {
        name: String::from_str("requestId"),
        value: opt_str_value(&a.request_id),
    });
    fields.push(JsonField {
        name: String::from_str("resultCode"),
        value: JsonFieldValue::Scalar(JsonScalar::Str(code_text(a.result_code))),
    });
    fields.push(JsonField {
        name: String::from_str("errorCode"),
        value: JsonFieldValue::Scalar(JsonScalar::Int(a.error_code as i64)),
    });
    fields.push(JsonField {
        name: String::from_str("message"),
        value: opt_str_value(&a.message),
    });
    proof {
        assert(view_fields(fields@) =~~= ack_fields(a.view_parts()));
    }
    let doc = JsonDocument { fields };
    render_document(&doc)
}

/// Acknowledgement of a publish request.
#[derive(Clone, Debug, PartialEq)]
pub struct ConfigPublishServerResponse {
    request_id: Option<String>,
    result_code: ResponseCode,
    error_code: u32,
    message: Option<String>,
}

impl View for ConfigPublishServerResponse {
    type V = AckResponseV;

    closed spec fn view(&self) -> AckResponseV {
        AckResponseV {
            request_id: view_opt_str(self.request_id),
            result_code: self.result_code,
            error_code: self.error_code,
            message: view_opt_str(self.message),
        }
    }
}

impl ConfigPublishServerResponse {
    /// A publish acknowledgement built from its parts.
    pub fn new(
        request_id: Option<String>,
        result_code: ResponseCode,
        error_code: u32,
        message: Option<String>,
    ) -> (r: Self)
        ensures
            r@ == (AckResponseV {
                request_id: view_opt_str(request_id),
                result_code: result_code,
                error_code: error_code,
                message: view_opt_str(message),
            }),
    {
        ConfigPublishServerResponse { request_id, result_code, error_code, message }
    }

    /// Decode a publish acknowledgement from its wire text. Returns
    /// `Error::Serialization` exactly when the text does not match the
    /// acknowledgement wire shape.
    pub fn from_json_text(text: &str) -> (r: Result<Self, Error>)
        ensures
            (match r {
                Ok(resp) => spec_decode_ack(text@) == Some(resp@),
                Err(e) => spec_decode_ack(text@) is None && e is Serialization,
            }),
    {
        match decode_ack(text) {
            Ok(a) => Ok(ConfigPublishServerResponse {
                request_id: a.request_id,
                result_code: a.result_code,
                error_code: a.error_code,
                message: a.message,
            }),
            Err(e) => Err(e),
        }
    }

    /// Encode this acknowledgement as wire text.
    pub fn to_json_text(&self) -> (r: String)
        ensures
            r@ == spec_encode_ack(self@),
    {
        let a = AckParts {
            request_id: clone_opt_string(&self.request_id),
            result_code: self.result_code,
            error_code: self.error_code,
            message: clone_opt_string(&self.message),
        };
        encode_ack(&a)
    }
}

impl Response for ConfigPublishServerResponse {
    open spec fn success_spec(&self) -> bool {
        self@.result_code == ResponseCode::Success
    }

    open spec fn request_id_spec(&self) -> Option<Seq<char>> {
        self@.request_id
    }

    open spec fn message_spec(&self) -> Option<Seq<char>> {
        self@.message
    }

    open spec fn error_code_spec(&self) -> u32 {
        self@.error_code
    }

    open spec fn type_url_spec() -> Seq<char> {
        "ConfigPublishResponse"@
    }

    fn is_success(&self) -> (r: bool) {
        self.result_code == ResponseCode::Success
    }

    fn request_id(&self) -> (r: Option<&String>) {
        match &self.request_id {
            Some(s) => Some(s),
            None => None,
        }
    }

    fn message(&self) -> (r: Option<&String>) {
        match &self.message {
            Some(s) => Some(s),
            None => None,
        }
    }

    fn error_code(&self) -> (r: u32) {
        self.error_code
    }

    fn type_url(&self) -> (r: &'static str) {
        "ConfigPublishResponse"
    }
}

/// Acknowledgement of a remove request.
#[derive(Clone, Debug, PartialEq)]
pub struct ConfigRemoveServerResponse {
    request_id: Option<String>,
    result_code: ResponseCode,
    error_code: u32,
    message: Option<String>,
}

impl View for ConfigRemoveServerResponse {
    type V = AckResponseV;

    closed spec fn view(&self) -> AckResponseV {
        AckResponseV {
            request_id: view_opt_str(self.request_id),
            result_code: self.result_code,
            error_code: self.error_code,
            message: view_opt_str(self.message),
        }
    }
}

impl ConfigRemoveServerResponse {
    /// A remove acknowledgement built from its parts.
    pub fn new(
        request_id: Option<String>,
        result_code: ResponseCode,
        error_code: u32,
        message: Option<String>,
    ) -> (r: Self)
        ensures
            r@ == (AckResponseV {
                request_id: view_opt_str(request_id),
                result_code: result_code,
                error_code: error_code,
                message: view_opt_str(message),
            }),
    {
        ConfigRemoveServerResponse { request_id, result_code, error_code, message }
    }

    /// Decode a remove acknowledgement from its wire text. Returns
    /// `Error::Serialization` exactly when the text does not match the
    /// acknowledgement wire shape.
    pub fn from_json_text(text: &str) -> (r: Result<Self, Error>)
        ensures
            (match r {
                Ok(resp) => spec_decode_ack(text@) == Some(resp@),
                Err(e) => spec_decode_ack(text@) is None && e is Serialization,
            }),
    {
        match decode_ack(text) {
            Ok(a) => Ok(ConfigRemoveServerResponse {
                request_id: a.request_id,
                result_code: a.result_code,
                error_code: a.error_code,
                message: a.message,
            }),
            Err(e) => Err(e),
        }
    }

    /// Encode this acknowledgement as wire text.
    pub fn to_json_text(&self) -> (r: String)
        ensures
            r@ == spec_encode_ack(self@),
    {
        let a = AckParts {
            request_id: clone_opt_string(&self.request_id),
            result_code: self.result_code,
            error_code: self.error_code,
            message: clone_opt_string(&self.message),
        };
        encode_ack(&a)
    }
}

impl Response for ConfigRemoveServerResponse {
    open spec fn success_spec(&self) -> bool {
        self@.result_code == ResponseCode::Success
    }

    open spec fn request_id_spec(&self) -> Option<Seq<char>> {
        self@.request_id
    }

    open spec fn message_spec(&self) -> Option<Seq<char>> {
        self@.message
    }

    open spec fn error_code_spec(&self) -> u32 {
        self@.error_code
    }

    open spec fn type_url_spec() -> Seq<char> {
        "ConfigRemoveResponse"@
    }

    fn is_success(&self) -> (r: bool) {
        self.result_code == ResponseCode::Success
    }

    fn request_id(&self) -> (r: Option<&String>) {
        match &self.request_id {
            Some(s) => Some(s),
            None => None,
        }
    }

    fn message(&self) -> (r: Option<&String>) {
        match &self.message {
            Some(s) => Some(s),
            None => None,
        }
    }

    fn error_code(&self) -> (r: u32) {
        self.error_code
    }

    fn type_url(&self) -> (r: &'static str) {
        "ConfigRemoveResponse"
    }
}

fn clone_opt_string(v: &Option<String>) -> (r: Option<String>)
    ensures
        view_opt_str(r) == view_opt_str(*v),
{
    match v {
        Some(s) => Some(s.clone()),
        None => None,
    }
}

// ---------------------------------------------------------------------
// Batch-change-listen reply
// ---------------------------------------------------------------------

/// The members of one changed-configuration entry on the wire.
pub open spec fn ctx_members(c: ContextV) -> Seq<MemberV> {
    seq![
        MemberV { name: "dataId"@, value: ScalarV::Str(c.data_id) },
        MemberV { name: "group"@, value: ScalarV::Str(c.group) },
        MemberV { name: "tenant"@, value: ScalarV::Str(c.tenant) },
    ]
}

/// The object array a list of changed configurations encodes to.
pub open spec fn ctx_objs(cs: Seq<ContextV>) -> Seq<Seq<MemberV>> {
    cs.map_values(|c: ContextV| ctx_members(c))
}

/// The field value that carries an optional list of changed
/// configurations: the array, or null when absent.
pub open spec fn opt_ctxs_fv(v: Option<Seq<ContextV>>) -> FieldValueV {
    match v {
        Some(cs) => FieldValueV::ObjArray(ctx_objs(cs)),
        None => FieldValueV::Scalar(ScalarV::Null),
    }
}

/// Model of a batch-change-listen reply.
pub ghost struct BatchListenResponseV {
    pub request_id: Option<Seq<char>>,
    pub result_code: ResponseCode,
    pub error_code: u32,
    pub message: Option<Seq<char>>,
    pub changed_configs: Option<Seq<ContextV>>,
}

/// The batch-change-listen reply a document stands for. A missing or
/// null `changedConfigs` field means nothing changed; it is not an
/// error.
pub open spec fn batch_of_fields(fs: Seq<FieldV>) -> Option<BatchListenResponseV> {
    let rid = opt_string_field(fs, "requestId"@);
    let code = req_code_field(fs, "resultCode"@);
    let ec = req_u32_field(fs, "errorCode"@);
    let msg = opt_string_field(fs, "message"@);
    let cc = opt_ctxs_field(fs, "changedConfigs"@);
    if rid is Some && code is Some && ec is Some && msg is Some && cc is Some {
        Some(BatchListenResponseV {
            request_id: rid->0,
            result_code: code->0,
            error_code: ec->0,
            message: msg->0,
            changed_configs: cc->0,
        })
    } else {
        None
    }
}

/// What decoding a batch-change-listen reply text yields.
pub open spec fn spec_decode_batch(s: Seq<char>) -> Option<BatchListenResponseV> {
    match crate::json::sp_document(s) {
        Some(fs) => batch_of_fields(fs),
        None => None,
    }
}

/// The document a batch-change-listen reply encodes to.
pub open spec fn batch_fields(b: BatchListenResponseV) -> Seq<FieldV> {
    seq![
        FieldV { name: "requestId"@, value: opt_str_fv(b.request_id) },
        FieldV { name: "resultCode"@, value: FieldValueV::Scalar(ScalarV::Str(code_chars(b.result_code))) },
        FieldV { name: "errorCode"@, value: FieldValueV::Scalar(ScalarV::Int(b.error_code as int)) },
        FieldV { name: "message"@, value: opt_str_fv(b.message) },
        FieldV { name: "changedConfigs"@, value: opt_ctxs_fv(b.changed_configs) },
    ]
}

/// What encoding a batch-change-listen reply yields.
pub open spec fn spec_encode_batch(b: BatchListenResponseV) -> Seq<char> {
    document_chars(batch_fields(b))
}

/// Reply to a batch change-listen request: the ordered list of
/// configurations that changed.
#[derive(Clone, Debug, PartialEq)]
pub struct ConfigChangeBatchListenServerResponse {
    request_id: Option<String>,
    result_code: ResponseCode,
    error_code: u32,
    message: Option<String>,
    changed_configs: Option<Vec<ConfigContext>>,
}

impl View for ConfigChangeBatchListenServerResponse {
    type V = BatchListenResponseV;

    closed spec fn view(&self) -> BatchListenResponseV {
        BatchListenResponseV {
            request_id: view_opt_str(self.request_id),
            result_code: self.result_code,
            error_code: self.error_code,
            message: view_opt_str(self.message),
            changed_configs: view_opt_ctxs(self.changed_configs),
        }
    }
}

fn build_ctx_members(c: &ConfigContext) -> (r: Vec<JsonMember>)
    ensures
        crate::json::view_members(r@) == ctx_members(c@),
{
    let mut ms: Vec<JsonMember> = Vec::new();
    ms.push(JsonMember {
        name: String::from_str("dataId"),
        value: JsonScalar::Str(c.data_id.clone()),
    });
    ms.push(JsonMember {
        name: String::from_str("group"),
        value: JsonScalar::Str(c.group.clone()),
    });
    ms.push(JsonMember {
        name: String::from_str("tenant"),
        value: JsonScalar::Str(c.tenant.clone()),
    });
    proof {
        assert(crate::json::view_members(ms@) =~~= ctx_members(c@));
    }
    ms
}

fn build_ctx_objs(cs: &[ConfigContext], acc: Vec<Vec<JsonMember>>) -> (r: Vec<Vec<JsonMember>>)
    ensures
        crate::json::view_objs(r@) == crate::json::view_objs(acc@) + ctx_objs(
            cs@.map_values(|c: ConfigContext| c@),
        ),
    decreases cs@.len(),
{
    if cs.len() == 0 {
        proof {
            assert(crate::json::view_objs(acc@) + ctx_objs(cs@.map_values(|c: ConfigContext| c@))
                =~= crate::json::view_objs(acc@));
        }
        acc
    } else {
        let ms = build_ctx_members(&cs[0]);
        let ghost msv = crate::json::view_members(ms@);
        let mut acc2 = acc;
        acc2.push(ms);
        proof {
            assert(crate::json::view_objs(acc2@) =~= crate::json::view_objs(acc@).push(msv));
            assert(cs@.subrange(1, cs@.len() as int) =~= cs@.drop_first());
        }
        let r = build_ctx_objs(vstd::slice::slice_subrange(cs, 1, cs.len()), acc2);
        proof {
            assert(crate::json::view_objs(acc@).push(msv) + ctx_objs(
                cs@.drop_first().map_values(|c: ConfigContext| c@),
            ) =~= crate::json::view_objs(acc@) + ctx_objs(cs@.map_values(|c: ConfigContext| c@)));
        }
        r
    }
}

fn opt_ctxs_value(v: &Option<Vec<ConfigContext>>) -> (r: JsonFieldValue)
    ensures
        r@ == opt_ctxs_fv(view_opt_ctxs(*v)),
{
    match v {
        Some(cs) => {
            let empty_objs: Vec<Vec<JsonMember>> = Vec::new();
            proof {
                assert(crate::json::view_objs(empty_objs@) =~= Seq::<Seq<MemberV>>::empty());
            }
            let objs = build_ctx_objs(cs.as_slice(), empty_objs);
            proof {
                assert(crate::json::view_objs(objs@) =~= ctx_objs(
                    cs@.map_values(|c: ConfigContext| c@),
                ));
            }
            JsonFieldValue::ObjArray(objs)
        },
        None => JsonFieldValue::Scalar(JsonScalar::Null),
    }
}

impl ConfigChangeBatchListenServerResponse {
    /// A batch-change-listen reply built from its parts.
    pub fn new(
        request_id: Option<String>,
        result_code: ResponseCode,
        error_code: u32,
        message: Option<String>,
        changed_configs: Option<Vec<ConfigContext>>,
    ) -> (r: Self)
        ensures
            r@ == (BatchListenResponseV {
                request_id: view_opt_str(request_id),
                result_code: result_code,
                error_code: error_code,
                message: view_opt_str(message),
                changed_configs: view_opt_ctxs(changed_configs),
            }),
    {
        ConfigChangeBatchListenServerResponse {
            request_id,
            result_code,
            error_code,
            message,
            changed_configs,
        }
    }

    /// Decode a batch-change-listen reply from its wire text. Returns
    /// `Error::Serialization` exactly when the text does not match the
    /// batch-listen wire shape.
    pub fn from_json_text(text: &str) -> (r: Result<Self, Error>)
        ensures
            (match r {
                Ok(resp) => spec_decode_batch(text@) == Some(resp@),
                Err(e) => spec_decode_batch(text@) is None && e is Serialization,
            }),
    {
        let doc = match parse_document(text) {
            Some(d) => d,
            None => {
                return Err(serialization_error());
            },
        };
        let fs = doc.fields.as_slice();
        let k_request_id: String = String::from_str("requestId");
        let k_result_code: String = String::from_str("resultCode");
        let k_error_code: String = String::from_str("errorCode");
        let k_message: String = String::from_str("message");
        let k_changed: String = String::from_str("changedConfigs");
        let rid = match get_opt_string(fs, &k_request_id) {
            Ok(v) => v,
            Err(_) => {
                return Err(serialization_error());
            },
        };
        let code = match get_code(fs, &k_result_code) {
            Ok(v) => v,
            Err(_) => {
                return Err(serialization_error());
            },
        };
        let ec = match get_u32(fs, &k_error_code) {
            Ok(v) => v,
            Err(_) => {
                return Err(serialization_error());
            },
        };
        let msg = match get_opt_string(fs, &k_message) {
            Ok(v) => v,
            Err(_) => {
                return Err(serialization_error());
            },
        };
        let cc = match get_opt_ctxs(fs, &k_changed) {
            Ok(v) => v,
            Err(_) => {
                return Err(serialization_error());
            },
        };
        Ok(ConfigChangeBatchListenServerResponse {
            request_id: rid,
            result_code: code,
            error_code: ec,
            message: msg,
            changed_configs: cc,
        })
    }

    /// Encode this reply as wire text.
    pub fn to_json_text(&self) -> (r: String)
        ensures
            r@ == spec_encode_batch(self@),
    {
        let mut fields: Vec<JsonField> = Vec::new();
        fields.push(JsonField {
            name: String::from_str("requestId"),
            value: opt_str_value(&self.request_id),
        });
        fields.push(JsonField {
            name: String::from_str("resultCode"),
            value: JsonFieldValue::Scalar(JsonScalar::Str(code_text(self.result_code))),
        });
        fields.push(JsonField {
            name: String::from_str("errorCode"),
            value: JsonFieldValue::Scalar(JsonScalar::Int(self.error_code as i64)),
        });
        fields.push(JsonField {
            name: String::from_str("message"),
            value: opt_str_value(&self.message),
        });
        fields.push(JsonField {
            name: String::from_str("changedConfigs"),
            value: opt_ctxs_value(&self.changed_configs),
        });
        proof {
            assert(view_fields(fields@) =~~= batch_fields(self@));
        }
        let doc = JsonDocument { fields };
        render_document(&doc)
    }

    /// The configurations the server reports as changed: the list when
    /// one was sent, and nothing when the field was absent, which means
    /// nothing changed and is not an error.
    pub fn changed_configs(&self) -> (r: Option<&Vec<ConfigContext>>)
        ensures
            (match r {
                Some(cs) => self@.changed_configs == Some(
                    cs@.map_values(|c: ConfigContext| c@),
                ),
                None => self@.changed_configs is None,
            }),
    {
        match &self.changed_configs {
            Some(cs) => Some(cs),
            None => None,
        }
    }
}

impl Response for ConfigChangeBatchListenServerResponse {
    open spec fn success_spec(&self) -> bool {
        self@.result_code == ResponseCode::Success
    }

    open spec fn request_id_spec(&self) -> Option<Seq<char>> {
        self@.request_id
    }

    open spec fn message_spec(&self) -> Option<Seq<char>> {
        self@.message
    }

    open spec fn error_code_spec(&self) -> u32 {
        self@.error_code
    }

    open spec fn type_url_spec() -> Seq<char> {
        "ConfigChangeBatchListenResponse"@
    }

    fn is_success(&self) -> (r: bool) {
        self.result_code == ResponseCode::Success
    }

    fn request_id(&self) -> (r: Option<&String>) {
        match &self.request_id {
            Some(s) => Some(s),
            None => None,
        }
    }

    fn message(&self) -> (r: Option<&String>) {
        match &self.message {
            Some(s) => Some(s),
            None => None,
        }
    }

    fn error_code(&self) -> (r: u32) {
        self.error_code
    }

    fn type_url(&self) -> (r: &'static str) {
        "ConfigChangeBatchListenResponse"
    }
}

} // verus!
