//! The AutoMod status check endpoint: whether messages meet a channel's
//! AutoMod requirements. One parameter struct, one batch body item, one
//! response record, and the endpoint binding between them.

use vstd::prelude::*;
use vstd::string::StringExecFns;
use crate::errors::BodyError;
use crate::errors::RequestConstructionError;
use crate::json::Json;
use crate::json::JsonValue;
use crate::json::jmodel;
use crate::json::jmodel_fields;
use crate::json::jmodel_seq;
use crate::json::json_text;
use crate::json::json_to_string;
use crate::json::lemma_jmodel_fields;
use crate::json::lemma_jmodel_seq;
use crate::registry::Scope;
use crate::request::EndpointDescriptor;
use crate::request::HttpMethod;
use crate::request::RequestDescriptor;
use crate::request::build_request;
use crate::request::params_first_error;
use crate::request::spec_build_error;
use crate::request::spec_url;

verus! {

/// Query parameters: the broadcaster whose AutoMod settings decide.
pub struct CheckAutoModStatusRequest {
    pub broadcaster_id: String,
}

/// One message of the batch body.
pub struct CheckAutoModStatusBody {
    pub msg_id: String,
    pub msg_text: String,
    pub user_id: String,
}

/// One verdict of the response: the echoed message id and whether the
/// message is permitted.
pub struct CheckAutoModStatus {
    pub msg_id: String,
    pub is_permitted: bool,
}

pub struct CheckAutoModStatusBodyModel {
    pub msg_id: Seq<char>,
    pub msg_text: Seq<char>,
    pub user_id: Seq<char>,
}

pub struct CheckAutoModStatusModel {
    pub msg_id: Seq<char>,
    pub is_permitted: bool,
}

impl DeepView for CheckAutoModStatusBody {
    type V = CheckAutoModStatusBodyModel;

    open spec fn deep_view(&self) -> CheckAutoModStatusBodyModel {
        CheckAutoModStatusBodyModel {
            msg_id: self.msg_id@,
            msg_text: self.msg_text@,
            user_id: self.user_id@,
        }
    }
}

impl DeepView for CheckAutoModStatus {
    type V = CheckAutoModStatusModel;

    open spec fn deep_view(&self) -> CheckAutoModStatusModel {
        CheckAutoModStatusModel { msg_id: self.msg_id@, is_permitted: self.is_permitted }
    }
}

impl CheckAutoModStatusBody {
    pub fn new(msg_id: String, msg_text: String, user_id: String) -> (r: Self)
        ensures
            r.msg_id@ == msg_id@,
            r.msg_text@ == msg_text@,
            r.user_id@ == user_id@,
    {
        CheckAutoModStatusBody { msg_id, msg_text, user_id }
    }
}

impl CheckAutoModStatus {
    pub fn new(msg_id: String, is_permitted: bool) -> (r: Self)
        ensures
            r.msg_id@ == msg_id@,
            r.is_permitted == is_permitted,
    {
        CheckAutoModStatus { msg_id, is_permitted }
    }
}

/// The JSON written for one batch message.
pub open spec fn automod_body_item_json(b: CheckAutoModStatusBodyModel) -> Json {
    Json::Obj(
        seq![
            ("msg_id"@, Json::Str(b.msg_id)),
            ("msg_text"@, Json::Str(b.msg_text)),
            ("user_id"@, Json::Str(b.user_id)),
        ],
    )
}

/// The JSON written for the whole batch: the fixed wrapping key and the
/// messages in order.
pub open spec fn automod_batch_json(bodies: Seq<CheckAutoModStatusBodyModel>) -> Json {
    Json::Obj(
        seq![("data"@, Json::Arr(bodies.map_values(|b: CheckAutoModStatusBodyModel|
            automod_body_item_json(b))))],
    )
}

impl CheckAutoModStatusRequest {
    pub fn new(broadcaster_id: String) -> (r: Self)
        ensures
            r.broadcaster_id@ == broadcaster_id@,
    {
        CheckAutoModStatusRequest { broadcaster_id }
    }

    /// The endpoint this parameter struct binds to.
    pub fn descriptor() -> (r: EndpointDescriptor)
        ensures
            r.path@ == "moderation/enforcements/status"@,
            r.method == HttpMethod::Post,
            r.scopes@ == seq![Scope::ModerationRead],
            r.version@ == "helix"@,
    {
        let mut scopes: Vec<Scope> = Vec::new();
        scopes.push(Scope::ModerationRead);
        proof {
            assert(scopes@ =~= seq![Scope::ModerationRead]);
        }
        EndpointDescriptor {
            path: String::from_str("moderation/enforcements/status"),
            method: HttpMethod::Post,
            scopes,
            version: String::from_str("helix"),
        }
    }

    /// The query parameters this struct serializes to.
    pub fn query_params(&self) -> (r: Vec<(String, String)>)
        ensures
            r.deep_view() == seq![("broadcaster_id"@, self.broadcaster_id@)],
    {
        let mut params: Vec<(String, String)> = Vec::new();
        params.push((String::from_str("broadcaster_id"), self.broadcaster_id.clone()));
        proof {
            assert(params.deep_view()
                =~= seq![("broadcaster_id"@, self.broadcaster_id@)]);
        }
        params
    }

    /// The full URL of this request, queried but unsent.
    pub fn get_uri(&self) -> (r: Result<String, RequestConstructionError>)
        ensures
            match r {
                Ok(u) => params_first_error(seq![("broadcaster_id"@, self.broadcaster_id@)])
                    is None
                    && u@ == spec_url(
                    "moderation/enforcements/status"@,
                    seq![("broadcaster_id"@, self.broadcaster_id@)],
                ),
                Err(e) => params_first_error(
                    seq![("broadcaster_id"@, self.broadcaster_id@)],
                ) == Some(e),
            },
    {
        let desc = Self::descriptor();
        let params = self.query_params();
        match build_request(&desc, &params, None) {
            Ok(rd) => Ok(rd.url),
            Err(e) => Err(e),
        }
    }

    /// Builds the whole request descriptor around a serialized batch.
    pub fn to_request(&self, body: String) -> (r: Result<
        RequestDescriptor,
        RequestConstructionError,
    >)
        ensures
            match r {
                Ok(rd) => spec_build_error(
                    HttpMethod::Post,
                    true,
                    seq![("broadcaster_id"@, self.broadcaster_id@)],
                ) is None && rd.url@ == spec_url(
                    "moderation/enforcements/status"@,
                    seq![("broadcaster_id"@, self.broadcaster_id@)],
                ) && rd.method == HttpMethod::Post && rd.body.deep_view() == Some(body@)
                    && rd.scopes@ == seq![Scope::ModerationRead],
                Err(e) => spec_build_error(
                    HttpMethod::Post,
                    true,
                    seq![("broadcaster_id"@, self.broadcaster_id@)],
                ) == Some(e),
            },
    {
        let desc = Self::descriptor();
        let params = self.query_params();
        build_request(&desc, &params, Some(body))
    }

    /// Serializes the batch body: the messages under the endpoint's
    /// fixed wrapping key. The library's serializer is total, so this
    /// never fails; the signature stays fallible as the endpoint
    /// abstraction demands.
    pub fn body(&self, body: &Vec<CheckAutoModStatusBody>) -> (r: Result<String, BodyError>)
        ensures
            match r {
                Ok(s) => s@ == json_text(automod_batch_json(body.deep_view())),
                Err(_) => false,
            },
    {
        let ghost dv = body.deep_view();
        proof {
            assert(forall|k: int| 0 <= k < body@.len() ==> dv[k] == body@[k].deep_view());
        }
        let mut items: Vec<JsonValue> = Vec::new();
        let mut i: usize = 0;
        while i < body.len()
            invariant
                i <= body@.len(),
                dv == body.deep_view(),
                dv.len() == body@.len(),
                forall|k: int| 0 <= k < body@.len() ==> dv[k] == body@[k].deep_view(),
                items@.len() == i,
                forall|k: int| 0 <= k < i ==> jmodel(#[trigger] items@[k])
                    == automod_body_item_json(dv[k]),
            decreases body@.len() - i,
        {
            let b = &body[i];
            let mut fields: Vec<(String, JsonValue)> = Vec::new();
            fields.push((String::from_str("msg_id"), JsonValue::Str(b.msg_id.clone())));
            fields.push((String::from_str("msg_text"), JsonValue::Str(b.msg_text.clone())));
            fields.push((String::from_str("user_id"), JsonValue::Str(b.user_id.clone())));
            proof {
                lemma_jmodel_fields(fields@);
                assert(jmodel_fields(fields@) =~= seq![
                    ("msg_id"@, Json::Str(b.msg_id@)),
                    ("msg_text"@, Json::Str(b.msg_text@)),
                    ("user_id"@, Json::Str(b.user_id@)),
                ]);
            }
            items.push(JsonValue::Obj(fields));
            i += 1;
        }
        let mut outer: Vec<(String, JsonValue)> = Vec::new();
        outer.push((String::from_str("data"), JsonValue::Arr(items)));
        let doc = JsonValue::Obj(outer);
        proof {
            let arr = doc->Obj_0@[0].1->Arr_0;
            lemma_jmodel_seq(arr@);
            assert(jmodel_seq(arr@) =~= dv.map_values(|b: CheckAutoModStatusBodyModel|
                automod_body_item_json(b)));
            lemma_jmodel_fields(doc->Obj_0@);
            assert(jmodel_fields(doc->Obj_0@) =~= seq![("data"@, Json::Arr(jmodel_seq(arr@)))]);
            assert(jmodel(doc) == automod_batch_json(dv));
        }
        Ok(json_to_string(&doc))
    }
}

} // verus!
