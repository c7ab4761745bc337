//! The response decoder: from a status code and raw body to a typed
//! envelope `{data, pagination cursor, total}`, or a classified error.
//! Unknown fields are rejected in strict mode and ignored in lenient
//! mode; the flag is chosen once by the caller.

use vstd::prelude::*;
use vstd::string::StrSliceExecFns;
use crate::errors::DecodeFieldError;
use crate::json::Json;
use crate::json::JsonValue;
use crate::json::check_keys_allowed;
use crate::json::jlookup;
use crate::json::jmodel;
use crate::json::json_parse_of;
use crate::json::keys_all_allowed;
use crate::json::parse_json;
use crate::moderation::CheckAutoModStatus;
use crate::moderation::CheckAutoModStatusModel;
use crate::text::chars_to_string;
use crate::text::spec_parse_u64;
use crate::text::parse_u64;

verus! {

/// How many characters of a malformed error body are kept for
/// diagnostics.
pub const DIAG_PREFIX_MAX: usize = 64;

/// A decoded page of verdicts. The cursor is present only if more
/// results may exist; its absence is the terminal signal, not an error.
pub struct ResponseEnvelope {
    pub data: Vec<CheckAutoModStatus>,
    pub pagination: Option<String>,
    pub total: Option<u64>,
}

pub struct ResponseEnvelopeModel {
    pub data: Seq<CheckAutoModStatusModel>,
    pub pagination: Option<Seq<char>>,
    pub total: Option<u64>,
}

impl DeepView for ResponseEnvelope {
    type V = ResponseEnvelopeModel;

    open spec fn deep_view(&self) -> ResponseEnvelopeModel {
        ResponseEnvelopeModel {
            data: self.data.deep_view(),
            pagination: self.pagination.deep_view(),
            total: self.total,
        }
    }
}

/// Why a response could not be turned into an envelope. The shared
/// secret and bearer token never appear in any of these.
#[derive(Debug)]
pub enum ResponseError {
    /// A structured error body on a non-success status.
    Server { status: u16, error_tag: Option<String>, message: String },
    /// A non-success status whose body is not the structured error
    /// shape; only a bounded prefix of the body is kept.
    MalformedErrorBody { status: u16, body_prefix: String },
    /// A success status whose body is not JSON.
    MalformedBody,
    /// A success status whose body does not match the declared shape.
    Decode(DecodeFieldError),
}

pub enum ResponseErrorModel {
    Server { status: u16, error_tag: Option<Seq<char>>, message: Seq<char> },
    MalformedErrorBody { status: u16, body_prefix: Seq<char> },
    MalformedBody,
    Decode(DecodeFieldError),
}

impl DeepView for ResponseError {
    type V = ResponseErrorModel;

    open spec fn deep_view(&self) -> ResponseErrorModel {
        match self {
            ResponseError::Server { status, error_tag, message } => ResponseErrorModel::Server {
                status: *status,
                error_tag: error_tag.deep_view(),
                message: message@,
            },
            ResponseError::MalformedErrorBody { status, body_prefix } =>
                ResponseErrorModel::MalformedErrorBody {
                status: *status,
                body_prefix: body_prefix@,
            },
            ResponseError::MalformedBody => ResponseErrorModel::MalformedBody,
            ResponseError::Decode(e) => ResponseErrorModel::Decode(*e),
        }
    }
}

/// What decoding one verdict object yields.
pub open spec fn spec_decode_automod_item(j: Json, strict: bool) -> Result<
    CheckAutoModStatusModel,
    DecodeFieldError,
> {
    match j {
        Json::Obj(fields) => if strict && !keys_all_allowed(
            fields,
            seq!["msg_id"@, "is_permitted"@],
        ) {
            Err(DecodeFieldError::UnknownField)
        } else {
            match jlookup(fields, "msg_id"@) {
                Some(Json::Str(mid)) => match jlookup(fields, "is_permitted"@) {
                    Some(Json::Bool(p)) => Ok(
                        CheckAutoModStatusModel { msg_id: mid, is_permitted: p },
                    ),
                    Some(_) => Err(DecodeFieldError::WrongFieldType),
                    None => Err(DecodeFieldError::MissingField),
                },
                Some(_) => Err(DecodeFieldError::WrongFieldType),
                None => Err(DecodeFieldError::MissingField),
            }
        },
        _ => Err(DecodeFieldError::WrongFieldType),
    }
}

/// Decodes one verdict object.
pub fn decode_automod_item(v: &JsonValue, strict: bool) -> (r: Result<
    CheckAutoModStatus,
    DecodeFieldError,
>)
    ensures
        match r {
            Ok(st) => spec_decode_automod_item(jmodel(*v), strict) == Ok::<
                CheckAutoModStatusModel,
                DecodeFieldError,
            >(st.deep_view()),
            Err(e) => spec_decode_automod_item(jmodel(*v), strict) == Err::<
                CheckAutoModStatusModel,
                DecodeFieldError,
            >(e),
        },
{
    let fields = match v {
        JsonValue::Obj(fields) => fields,
        _ => {
            return Err(DecodeFieldError::WrongFieldType);
        },
    };
    if strict {
        let mut allowed: Vec<&str> = Vec::new();
        allowed.push("msg_id");
        allowed.push("is_permitted");
        proof {
            assert(allowed.deep_view() =~= seq!["msg_id"@, "is_permitted"@]);
        }
        if !check_keys_allowed(fields, &allowed) {
            return Err(DecodeFieldError::UnknownField);
        }
    }
    let mid = match v.get("msg_id") {
        Some(JsonValue::Str(s)) => s.clone(),
        Some(_) => {
            return Err(DecodeFieldError::WrongFieldType);
        },
        None => {
            return Err(DecodeFieldError::MissingField);
        },
    };
    let permitted = match v.get("is_permitted") {
        Some(JsonValue::Bool(b)) => *b,
        Some(_) => {
            return Err(DecodeFieldError::WrongFieldType);
        },
        None => {
            return Err(DecodeFieldError::MissingField);
        },
    };
    Ok(CheckAutoModStatus { msg_id: mid, is_permitted: permitted })
}

/// Strict mode rejects a verdict object that carries an undeclared
/// field.
pub proof fn lemma_strict_rejects_unknown(fields: Seq<(Seq<char>, Json)>)
    requires
        !keys_all_allowed(fields, seq!["msg_id"@, "is_permitted"@]),
    ensures
        spec_decode_automod_item(Json::Obj(fields), true) == Err::<
            CheckAutoModStatusModel,
            DecodeFieldError,
        >(DecodeFieldError::UnknownField),
{
}

/// Lenient mode ignores the same field: a member appended under an
/// undeclared key changes nothing about the decode.
pub proof fn lemma_lenient_ignores_unknown(
    fields: Seq<(Seq<char>, Json)>,
    extra: (Seq<char>, Json),
)
    requires
        extra.0 != "msg_id"@,
        extra.0 != "is_permitted"@,
    ensures
        spec_decode_automod_item(Json::Obj(fields.push(extra)), false)
            == spec_decode_automod_item(Json::Obj(fields), false),
{
    crate::json::lemma_jlookup_push(fields, extra, "msg_id"@);
    crate::json::lemma_jlookup_push(fields, extra, "is_permitted"@);
}

/// What decoding the data array yields: the verdicts in order, or the
/// first item's error.
pub open spec fn spec_decode_automod_items(items: Seq<Json>, strict: bool) -> Result<
    Seq<CheckAutoModStatusModel>,
    DecodeFieldError,
>
    decreases items.len(),
{
    if items.len() == 0 {
        Ok(Seq::empty())
    } else {
        match spec_decode_automod_items(items.drop_last(), strict) {
            Ok(rest) => match spec_decode_automod_item(items.last(), strict) {
                Ok(m) => Ok(rest.push(m)),
                Err(e) => Err(e),
            },
            Err(e) => Err(e),
        }
    }
}

/// An error in a prefix decides the whole array.
proof fn lemma_items_prefix_err(items: Seq<Json>, strict: bool, k: int, e: DecodeFieldError)
    requires
        0 <= k <= items.len(),
        spec_decode_automod_items(items.subrange(0, k), strict) == Err::<
            Seq<CheckAutoModStatusModel>,
            DecodeFieldError,
        >(e),
    ensures
        spec_decode_automod_items(items, strict) == Err::<
            Seq<CheckAutoModStatusModel>,
            DecodeFieldError,
        >(e),
    decreases items.len() - k,
{
    if k == items.len() {
        assert(items.subrange(0, k) =~= items);
    } else {
        let step = items.subrange(0, k + 1);
        assert(step.drop_last() =~= items.subrange(0, k));
        lemma_items_prefix_err(items, strict, k + 1, e);
    }
}

/// Decodes the data array.
pub fn decode_automod_items(items: &Vec<JsonValue>, strict: bool) -> (r: Result<
    Vec<CheckAutoModStatus>,
    DecodeFieldError,
>)
    ensures
        match r {
            Ok(data) => spec_decode_automod_items(crate::json::jmodel_seq(items@), strict)
                == Ok::<Seq<CheckAutoModStatusModel>, DecodeFieldError>(data.deep_view()),
            Err(e) => spec_decode_automod_items(crate::json::jmodel_seq(items@), strict)
                == Err::<Seq<CheckAutoModStatusModel>, DecodeFieldError>(e),
        },
{
    let ghost m = crate::json::jmodel_seq(items@);
    proof {
        crate::json::lemma_jmodel_seq(items@);
    }
    let mut out: Vec<CheckAutoModStatus> = Vec::new();
    proof {
        assert(m.subrange(0, 0) =~= Seq::<Json>::empty());
        assert(out.deep_view() =~= Seq::<CheckAutoModStatusModel>::empty());
    }
    let mut i: usize = 0;
    while i < items.len()
        invariant
            i <= items@.len(),
            m == crate::json::jmodel_seq(items@),
            m.len() == items@.len(),
            forall|k: int| 0 <= k < items@.len() ==> m[k] == jmodel(items@[k]),
            out@.len() == i,
            spec_decode_automod_items(m.subrange(0, i as int), strict) == Ok::<
                Seq<CheckAutoModStatusModel>,
                DecodeFieldError,
            >(out.deep_view()),
        decreases items@.len() - i,
    {
        proof {
            assert(m.subrange(0, i + 1).drop_last() =~= m.subrange(0, i as int));
            assert(m.subrange(0, i + 1).last() == m[i as int]);
        }
        match decode_automod_item(&items[i], strict) {
            Ok(st) => {
                let ghost before = out.deep_view();
                out.push(st);
                proof {
                    assert(out.deep_view() =~= before.push(st.deep_view()));
                }
            },
            Err(e) => {
                proof {
                    assert(spec_decode_automod_items(m.subrange(0, i + 1), strict)
                        == Err::<Seq<CheckAutoModStatusModel>, DecodeFieldError>(e));
                    lemma_items_prefix_err(m, strict, i + 1, e);
                }
                return Err(e);
            },
        }
        i += 1;
    }
    proof {
        assert(m.subrange(0, m.len() as int) =~= m);
    }
    Ok(out)
}

/// What the pagination member yields: the cursor if one is present and
/// non-empty.
pub open spec fn spec_pagination(j: Option<Json>) -> Result<Option<Seq<char>>, DecodeFieldError> {
    match j {
        None => Ok(None),
        Some(Json::Obj(pf)) => match jlookup(pf, "cursor"@) {
            None => Ok(None),
            Some(Json::Str(c)) => if c.len() == 0 {
                Ok(None)
            } else {
                Ok(Some(c))
            },
            Some(_) => Err(DecodeFieldError::WrongFieldType),
        },
        Some(_) => Err(DecodeFieldError::WrongFieldType),
    }
}

/// What the total member yields.
pub open spec fn spec_total(j: Option<Json>) -> Result<Option<u64>, DecodeFieldError> {
    match j {
        None => Ok(None),
        Some(Json::Num(s)) => match spec_parse_u64(s) {
            Some(v) => Ok(Some(v)),
            None => Err(DecodeFieldError::WrongFieldType),
        },
        Some(_) => Err(DecodeFieldError::WrongFieldType),
    }
}

/// What decoding a success body yields.
pub open spec fn spec_decode_envelope(doc: Json, strict: bool) -> Result<
    ResponseEnvelopeModel,
    DecodeFieldError,
> {
    match doc {
        Json::Obj(fields) => if strict && !keys_all_allowed(
            fields,
            seq!["data"@, "pagination"@, "total"@],
        ) {
            Err(DecodeFieldError::UnknownField)
        } else {
            match jlookup(fields, "data"@) {
                Some(Json::Arr(items)) => match spec_decode_automod_items(items, strict) {
                    Ok(data) => match spec_pagination(jlookup(fields, "pagination"@)) {
                        Ok(pagination) => match spec_total(jlookup(fields, "total"@)) {
                            Ok(total) => Ok(
                                ResponseEnvelopeModel { data, pagination, total },
                            ),
                            Err(e) => Err(e),
                        },
                        Err(e) => Err(e),
                    },
                    Err(e) => Err(e),
                },
                Some(_) => Err(DecodeFieldError::WrongFieldType),
                None => Err(DecodeFieldError::MissingField),
            }
        },
        _ => Err(DecodeFieldError::WrongFieldType),
    }
}

/// Decodes a success body's document into an envelope.
pub fn decode_envelope(v: &JsonValue, strict: bool) -> (r: Result<
    ResponseEnvelope,
    DecodeFieldError,
>)
    ensures
        match r {
            Ok(env) => spec_decode_envelope(jmodel(*v), strict) == Ok::<
                ResponseEnvelopeModel,
                DecodeFieldError,
            >(env.deep_view()),
            Err(e) => spec_decode_envelope(jmodel(*v), strict) == Err::<
                ResponseEnvelopeModel,
                DecodeFieldError,
            >(e),
        },
{
    let fields = match v {
        JsonValue::Obj(fields) => fields,
        _ => {
            return Err(DecodeFieldError::WrongFieldType);
        },
    };
    if strict {
        let mut allowed: Vec<&str> = Vec::new();
        allowed.push("data");
        allowed.push("pagination");
        allowed.push("total");
        proof {
            assert(allowed.deep_view() =~= seq!["data"@, "pagination"@, "total"@]);
        }
        if !check_keys_allowed(fields, &allowed) {
            return Err(DecodeFieldError::UnknownField);
        }
    }
    let data = match v.get("data") {
        Some(JsonValue::Arr(items)) => match decode_automod_items(items, strict) {
            Ok(data) => data,
            Err(e) => {
                return Err(e);
            },
        },
        Some(_) => {
            return Err(DecodeFieldError::WrongFieldType);
        },
        None => {
            return Err(DecodeFieldError::MissingField);
        },
    };
    let pagination = match v.get("pagination") {
        None => None,
        Some(pv) => match pv.get("cursor") {
            None => match pv {
                JsonValue::Obj(_) => None,
                _ => {
                    return Err(DecodeFieldError::WrongFieldType);
                },
            },
            Some(JsonValue::Str(c)) => {
                if c.as_str().unicode_len() == 0 {
                    None
                } else {
                    Some(c.clone())
                }
            },
            Some(_) => {
                return Err(DecodeFieldError::WrongFieldType);
            },
        },
    };
    let total = match v.get("total") {
        None => None,
        Some(JsonValue::Num(s)) => match parse_u64(s.as_str()) {
            Some(t) => Some(t),
            None => {
                return Err(DecodeFieldError::WrongFieldType);
            },
        },
        Some(_) => {
            return Err(DecodeFieldError::WrongFieldType);
        },
    };
    Ok(ResponseEnvelope { data, pagination, total })
}

/// What the structured error body yields: its optional tag and its
/// message.
pub open spec fn spec_error_body(doc: Json) -> Option<(Option<Seq<char>>, Seq<char>)> {
    match doc {
        Json::Obj(fields) => match jlookup(fields, "message"@) {
            Some(Json::Str(msg)) => match jlookup(fields, "error"@) {
                None => Some((None, msg)),
                Some(Json::Str(tag)) => Some((Some(tag), msg)),
                Some(_) => None,
            },
            _ => None,
        },
        _ => None,
    }
}

/// The diagnostic prefix kept of a body that could not be decoded.
pub open spec fn spec_body_prefix(body: Seq<char>) -> Seq<char> {
    if body.len() <= DIAG_PREFIX_MAX {
        body
    } else {
        body.subrange(0, DIAG_PREFIX_MAX as int)
    }
}

/// What decoding a whole response yields, for every status and body.
pub open spec fn spec_decode_response(status: u16, body: Seq<char>, strict: bool) -> Result<
    ResponseEnvelopeModel,
    ResponseErrorModel,
> {
    if 200 <= status < 300 {
        match json_parse_of(body) {
            None => Err(ResponseErrorModel::MalformedBody),
            Some(doc) => match spec_decode_envelope(doc, strict) {
                Ok(env) => Ok(env),
                Err(e) => Err(ResponseErrorModel::Decode(e)),
            },
        }
    } else {
        match json_parse_of(body) {
            Some(doc) => match spec_error_body(doc) {
                Some(parts) => Err(
                    ResponseErrorModel::Server {
                        status,
                        error_tag: parts.0,
                        message: parts.1,
                    },
                ),
                None => Err(
                    ResponseErrorModel::MalformedErrorBody {
                        status,
                        body_prefix: spec_body_prefix(body),
                    },
                ),
            },
            None => Err(
                ResponseErrorModel::MalformedErrorBody {
                    status,
                    body_prefix: spec_body_prefix(body),
                },
            ),
        }
    }
}

/// Copies the diagnostic prefix of a body.
fn body_prefix(body: &str) -> (r: String)
    ensures
        r@ == spec_body_prefix(body@),
{
    let n = body.unicode_len();
    let take = if n <= DIAG_PREFIX_MAX {
        n
    } else {
        DIAG_PREFIX_MAX
    };
    let mut out: Vec<char> = Vec::new();
    let mut i: usize = 0;
    while i < take
        invariant
            i <= take,
            take <= n,
            n == body@.len(),
            out@ == body@.subrange(0, i as int),
        decreases take - i,
    {
        out.push(body.get_char(i));
        proof {
            assert(body@.subrange(0, i + 1)
                =~= body@.subrange(0, i as int).push(body@[i as int]));
        }
        i += 1;
    }
    proof {
        if n <= DIAG_PREFIX_MAX {
            assert(body@.subrange(0, n as int) =~= body@);
        }
    }
    chars_to_string(&out)
}

/// Decodes a response: a typed envelope on a success status, a
/// classified error otherwise. `strict` rejects undeclared fields;
/// lenient mode ignores them.
pub fn decode_response(status: u16, body: &str, strict: bool) -> (r: Result<
    ResponseEnvelope,
    ResponseError,
>)
    ensures
        match r {
            Ok(env) => spec_decode_response(status, body@, strict) == Ok::<
                ResponseEnvelopeModel,
                ResponseErrorModel,
            >(env.deep_view()),
            Err(e) => spec_decode_response(status, body@, strict) == Err::<
                ResponseEnvelopeModel,
                ResponseErrorModel,
            >(e.deep_view()),
        },
{
    let success = 200 <= status && status < 300;
    let parsed = parse_json(body);
    if success {
        match parsed {
            None => Err(ResponseError::MalformedBody),
            Some(doc) => match decode_envelope(&doc, strict) {
                Ok(env) => Ok(env),
                Err(e) => Err(ResponseError::Decode(e)),
            },
        }
    } else {
        match parsed {
            Some(doc) => {
                let msg = match doc.get("message") {
                    Some(JsonValue::Str(m)) => Some(m.clone()),
                    _ => None,
                };
                let tag_ok = match doc.get("error") {
                    None => Some(None),
                    Some(JsonValue::Str(t)) => Some(Some(t.clone())),
                    Some(_) => None,
                };
                match (msg, tag_ok) {
                    (Some(message), Some(error_tag)) => Err(
                        ResponseError::Server { status, error_tag, message },
                    ),
                    _ => Err(
                        ResponseError::MalformedErrorBody {
                            status,
                            body_prefix: body_prefix(body),
                        },
                    ),
                }
            },
            None => Err(
                ResponseError::MalformedErrorBody { status, body_prefix: body_prefix(body) },
            ),
        }
    }
}

} // verus!
