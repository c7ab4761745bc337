//! The `channel.update` subscription, version `"1"`: its condition
//! struct, its payload shape, the decoders the registry dispatches to,
//! and the encoding used to write example payloads back out.

use vstd::prelude::*;
use crate::errors::DecodeFieldError;
use crate::json::Json;
use crate::json::JsonValue;
use crate::json::check_keys_allowed;
use crate::json::jlookup;
use crate::json::jmodel;
use crate::json::jmodel_fields;
use crate::json::keys_all_allowed;
use crate::json::lemma_jlookup_at;
use crate::json::lemma_jmodel_fields;
use vstd::string::StringExecFns;

verus! {

/// The subscription condition: the broadcaster whose channel is watched.
pub struct ChannelUpdateV1 {
    pub broadcaster_user_id: String,
}

/// The notification payload a `channel.update` version `"1"` delivery
/// decodes to.
pub struct ChannelUpdateV1Payload {
    pub broadcaster_user_id: String,
    pub broadcaster_user_name: String,
    pub title: String,
    pub language: String,
    pub category_id: String,
    pub category_name: String,
    pub is_mature: bool,
}

pub struct ChannelUpdateV1Model {
    pub broadcaster_user_id: Seq<char>,
}

pub struct ChannelUpdateV1PayloadModel {
    pub broadcaster_user_id: Seq<char>,
    pub broadcaster_user_name: Seq<char>,
    pub title: Seq<char>,
    pub language: Seq<char>,
    pub category_id: Seq<char>,
    pub category_name: Seq<char>,
    pub is_mature: bool,
}

impl DeepView for ChannelUpdateV1 {
    type V = ChannelUpdateV1Model;

    open spec fn deep_view(&self) -> ChannelUpdateV1Model {
        ChannelUpdateV1Model { broadcaster_user_id: self.broadcaster_user_id@ }
    }
}

impl DeepView for ChannelUpdateV1Payload {
    type V = ChannelUpdateV1PayloadModel;

    open spec fn deep_view(&self) -> ChannelUpdateV1PayloadModel {
        ChannelUpdateV1PayloadModel {
            broadcaster_user_id: self.broadcaster_user_id@,
            broadcaster_user_name: self.broadcaster_user_name@,
            title: self.title@,
            language: self.language@,
            category_id: self.category_id@,
            category_name: self.category_name@,
            is_mature: self.is_mature,
        }
    }
}

/// The event kind this shape is registered under.
pub fn channel_update_kind() -> (r: &'static str)
    ensures
        r@ == "channel.update"@,
{
    "channel.update"
}

/// The version this shape is registered under. `"1"` and `"2"` of one
/// kind are unrelated registrations, never a union.
pub fn channel_update_version() -> (r: &'static str)
    ensures
        r@ == "1"@,
{
    "1"
}

/// What decoding the condition object yields.
pub open spec fn spec_decode_condition(j: Json, strict: bool) -> Result<
    ChannelUpdateV1Model,
    DecodeFieldError,
> {
    match j {
        Json::Obj(fields) => if strict && !keys_all_allowed(
            fields,
            seq!["broadcaster_user_id"@],
        ) {
            Err(DecodeFieldError::UnknownField)
        } else {
            match jlookup(fields, "broadcaster_user_id"@) {
                Some(Json::Str(id)) => Ok(ChannelUpdateV1Model { broadcaster_user_id: id }),
                Some(_) => Err(DecodeFieldError::WrongFieldType),
                None => Err(DecodeFieldError::MissingField),
            }
        },
        _ => Err(DecodeFieldError::WrongFieldType),
    }
}

/// Decodes the condition object.
pub fn decode_condition(v: &JsonValue, strict: bool) -> (r: Result<
    ChannelUpdateV1,
    DecodeFieldError,
>)
    ensures
        match r {
            Ok(c) => spec_decode_condition(jmodel(*v), strict) == Ok::<
                ChannelUpdateV1Model,
                DecodeFieldError,
            >(c.deep_view()),
            Err(e) => spec_decode_condition(jmodel(*v), strict) == Err::<
                ChannelUpdateV1Model,
                DecodeFieldError,
            >(e),
        },
{
    let fields = match v {
        JsonValue::Obj(fields) => fields,
        _ => {
            return Err(DecodeFieldError::WrongFieldType);
        },
    };
    if strict {
        let mut allowed: Vec<&str> = Vec::new();
        allowed.push("broadcaster_user_id");
        proof {
            assert(allowed.deep_view() =~= seq!["broadcaster_user_id"@]);
        }
        if !check_keys_allowed(fields, &allowed) {
            return Err(DecodeFieldError::UnknownField);
        }
    }
    match v.get("broadcaster_user_id") {
        Some(JsonValue::Str(id)) => Ok(ChannelUpdateV1 { broadcaster_user_id: id.clone() }),
        Some(_) => Err(DecodeFieldError::WrongFieldType),
        None => Err(DecodeFieldError::MissingField),
    }
}

/// What decoding the event payload yields.
pub open spec fn spec_decode_payload(j: Json, strict: bool) -> Result<
    ChannelUpdateV1PayloadModel,
    DecodeFieldError,
> {
    match j {
        Json::Obj(fields) => if strict && !keys_all_allowed(fields, channel_update_keys()) {
            Err(DecodeFieldError::UnknownField)
        } else {
            match (
                jlookup(fields, "broadcaster_user_id"@),
                jlookup(fields, "broadcaster_user_name"@),
                jlookup(fields, "title"@),
                jlookup(fields, "language"@),
                jlookup(fields, "category_id"@),
                jlookup(fields, "category_name"@),
                jlookup(fields, "is_mature"@),
            ) {
                (
                    Some(Json::Str(id)),
                    Some(Json::Str(name)),
                    Some(Json::Str(title)),
                    Some(Json::Str(language)),
                    Some(Json::Str(category_id)),
                    Some(Json::Str(category_name)),
                    Some(Json::Bool(mature)),
                ) => Ok(
                    ChannelUpdateV1PayloadModel {
                        broadcaster_user_id: id,
                        broadcaster_user_name: name,
                        title,
                        language,
                        category_id,
                        category_name,
                        is_mature: mature,
                    },
                ),
                _ => Err(DecodeFieldError::WrongFieldType),
            }
        },
        _ => Err(DecodeFieldError::WrongFieldType),
    }
}

/// The declared field names of the payload shape.
pub open spec fn channel_update_keys() -> Seq<Seq<char>> {
    seq![
        "broadcaster_user_id"@,
        "broadcaster_user_name"@,
        "title"@,
        "language"@,
        "category_id"@,
        "category_name"@,
        "is_mature"@,
    ]
}

/// Decodes the event payload.
pub fn decode_payload(v: &JsonValue, strict: bool) -> (r: Result<
    ChannelUpdateV1Payload,
    DecodeFieldError,
>)
    ensures
        match r {
            Ok(p) => spec_decode_payload(jmodel(*v), strict) == Ok::<
                ChannelUpdateV1PayloadModel,
                DecodeFieldError,
            >(p.deep_view()),
            Err(e) => spec_decode_payload(jmodel(*v), strict) == Err::<
                ChannelUpdateV1PayloadModel,
                DecodeFieldError,
            >(e),
        },
{
    let fields = match v {
        JsonValue::Obj(fields) => fields,
        _ => {
            return Err(DecodeFieldError::WrongFieldType);
        },
    };
    if strict {
        let mut allowed: Vec<&str> = Vec::new();
        allowed.push("broadcaster_user_id");
        allowed.push("broadcaster_user_name");
        allowed.push("title");
        allowed.push("language");
        allowed.push("category_id");
        allowed.push("category_name");
        allowed.push("is_mature");
        proof {
            assert(allowed.deep_view() =~= channel_update_keys());
        }
        if !check_keys_allowed(fields, &allowed) {
            return Err(DecodeFieldError::UnknownField);
        }
    }
    let id = match v.get("broadcaster_user_id") {
        Some(JsonValue::Str(s)) => s.clone(),
        _ => {
            return Err(DecodeFieldError::WrongFieldType);
        },
    };
    let name = match v.get("broadcaster_user_name") {
        Some(JsonValue::Str(s)) => s.clone(),
        _ => {
            return Err(DecodeFieldError::WrongFieldType);
        },
    };
    let title = match v.get("title") {
        Some(JsonValue::Str(s)) => s.clone(),
        _ => {
            return Err(DecodeFieldError::WrongFieldType);
        },
    };
    let language = match v.get("language") {
        Some(JsonValue::Str(s)) => s.clone(),
        _ => {
            return Err(DecodeFieldError::WrongFieldType);
        },
    };
    let category_id = match v.get("category_id") {
        Some(JsonValue::Str(s)) => s.clone(),
        _ => {
            return Err(DecodeFieldError::WrongFieldType);
        },
    };
    let category_name = match v.get("category_name") {
        Some(JsonValue::Str(s)) => s.clone(),
        _ => {
            return Err(DecodeFieldError::WrongFieldType);
        },
    };
    let is_mature = match v.get("is_mature") {
        Some(JsonValue::Bool(b)) => *b,
        _ => {
            return Err(DecodeFieldError::WrongFieldType);
        },
    };
    Ok(
        ChannelUpdateV1Payload {
            broadcaster_user_id: id,
            broadcaster_user_name: name,
            title,
            language,
            category_id,
            category_name,
            is_mature,
        },
    )
}

/// The JSON written for a payload: the declared fields, in order.
pub open spec fn channel_update_payload_json(p: ChannelUpdateV1PayloadModel) -> Json {
    Json::Obj(
        seq![
            ("broadcaster_user_id"@, Json::Str(p.broadcaster_user_id)),
            ("broadcaster_user_name"@, Json::Str(p.broadcaster_user_name)),
            ("title"@, Json::Str(p.title)),
            ("language"@, Json::Str(p.language)),
            ("category_id"@, Json::Str(p.category_id)),
            ("category_name"@, Json::Str(p.category_name)),
            ("is_mature"@, Json::Bool(p.is_mature)),
        ],
    )
}

/// The JSON written for a condition.
pub open spec fn channel_update_condition_json(c: ChannelUpdateV1Model) -> Json {
    Json::Obj(seq![("broadcaster_user_id"@, Json::Str(c.broadcaster_user_id))])
}

/// Writes a payload as its JSON document.
pub fn payload_to_json(p: &ChannelUpdateV1Payload) -> (r: JsonValue)
    ensures
        jmodel(r) == channel_update_payload_json(p.deep_view()),
{
    let mut fields: Vec<(String, JsonValue)> = Vec::new();
    fields.push((
        String::from_str("broadcaster_user_id"),
        JsonValue::Str(p.broadcaster_user_id.clone()),
    ));
    fields.push((
        String::from_str("broadcaster_user_name"),
        JsonValue::Str(p.broadcaster_user_name.clone()),
    ));
    fields.push((String::from_str("title"), JsonValue::Str(p.title.clone())));
    fields.push((String::from_str("language"), JsonValue::Str(p.language.clone())));
    fields.push((String::from_str("category_id"), JsonValue::Str(p.category_id.clone())));
    fields.push((String::from_str("category_name"), JsonValue::Str(p.category_name.clone())));
    fields.push((String::from_str("is_mature"), JsonValue::Bool(p.is_mature)));
    proof {
        lemma_jmodel_fields(fields@);
        assert(jmodel_fields(fields@) =~= channel_update_payload_json(p.deep_view())->Obj_0);
    }
    JsonValue::Obj(fields)
}

/// Writes a condition as its JSON document.
pub fn condition_to_json(c: &ChannelUpdateV1) -> (r: JsonValue)
    ensures
        jmodel(r) == channel_update_condition_json(c.deep_view()),
{
    let mut fields: Vec<(String, JsonValue)> = Vec::new();
    fields.push((
        String::from_str("broadcaster_user_id"),
        JsonValue::Str(c.broadcaster_user_id.clone()),
    ));
    proof {
        lemma_jmodel_fields(fields@);
        assert(jmodel_fields(fields@) =~= channel_update_condition_json(c.deep_view())->Obj_0);
    }
    JsonValue::Obj(fields)
}

/// Decoding gives back exactly the payload that was encoded, in strict
/// and in lenient mode alike: one direction of the round-trip law.
pub proof fn lemma_payload_round_trip(p: ChannelUpdateV1PayloadModel, strict: bool)
    ensures
        spec_decode_payload(channel_update_payload_json(p), strict) == Ok::<
            ChannelUpdateV1PayloadModel,
            DecodeFieldError,
        >(p),
{
    let fields = channel_update_payload_json(p)->Obj_0;
    let allowed = channel_update_keys();
    reveal_strlit("broadcaster_user_id");
    reveal_strlit("broadcaster_user_name");
    reveal_strlit("title");
    reveal_strlit("language");
    reveal_strlit("category_id");
    reveal_strlit("category_name");
    reveal_strlit("is_mature");
    assert("broadcaster_user_id"@.len() == 19);
    assert("broadcaster_user_name"@.len() == 21);
    assert("title"@.len() == 5);
    assert("language"@.len() == 8);
    assert("category_id"@.len() == 11);
    assert("category_name"@.len() == 13);
    assert("is_mature"@.len() == 9);
    assert forall|i: int| 0 <= i < fields.len() implies allowed.contains(fields[i].0) by {
        assert(allowed[i] == fields[i].0);
    }
    lemma_jlookup_at(fields, "broadcaster_user_id"@, 0);
    lemma_jlookup_at(fields, "broadcaster_user_name"@, 1);
    lemma_jlookup_at(fields, "title"@, 2);
    lemma_jlookup_at(fields, "language"@, 3);
    lemma_jlookup_at(fields, "category_id"@, 4);
    lemma_jlookup_at(fields, "category_name"@, 5);
    lemma_jlookup_at(fields, "is_mature"@, 6);
}

/// The condition round-trips the same way.
pub proof fn lemma_condition_round_trip(c: ChannelUpdateV1Model, strict: bool)
    ensures
        spec_decode_condition(channel_update_condition_json(c), strict) == Ok::<
            ChannelUpdateV1Model,
            DecodeFieldError,
        >(c),
{
    let fields = channel_update_condition_json(c)->Obj_0;
    assert forall|i: int|
        0 <= i < fields.len() implies seq!["broadcaster_user_id"@].contains(fields[i].0) by {
        assert(seq!["broadcaster_user_id"@][i] == fields[i].0);
    }
    lemma_jlookup_at(fields, "broadcaster_user_id"@, 0);
}

} // verus!
