//! The webhook envelope dispatcher: verify the delivery's provenance,
//! classify it by the (kind, version) discriminator, look the pair up,
//! and decode the typed payload — or reject with a classification the
//! caller can act on. Decoded and Rejected are terminal; nothing leaves
//! them.

use vstd::prelude::*;
use vstd::string::StringExecFns;
use crate::errors::RegistryError;
use crate::errors::RejectReason;
use crate::events::ChannelUpdateV1;
use crate::events::ChannelUpdateV1Model;
use crate::events::ChannelUpdateV1Payload;
use crate::events::ChannelUpdateV1PayloadModel;
use crate::events::channel_update_condition_json;
use crate::events::channel_update_payload_json;
use crate::events::condition_to_json;
use crate::events::lemma_condition_round_trip;
use crate::events::lemma_payload_round_trip;
use crate::events::decode_condition;
use crate::events::decode_payload;
use crate::events::payload_to_json;
use crate::events::spec_decode_condition;
use crate::events::spec_decode_payload;
use crate::json::Json;
use crate::json::JsonValue;
use crate::json::jget;
use crate::json::jmodel;
use crate::json::jmodel_fields;
use crate::json::json_parse_of;
use crate::json::lemma_jlookup_at;
use crate::json::lemma_jmodel_fields;
use crate::json::parse_json;
use crate::registry::RegistryEntry;
use crate::registry::RegistryEntryModel;
use crate::registry::ShapeKind;
use crate::registry::TypeRegistry;
use crate::registry::reg_lookup;
use crate::signature::SignatureContext;
use crate::signature::SignatureContextModel;
use crate::signature::spec_signature_ok;

verus! {

/// A decoded delivery: one concrete shape per registered pair.
pub enum TypedPayload {
    ChannelUpdateV1 { subscription: ChannelUpdateV1, event: ChannelUpdateV1Payload },
}

pub enum TypedPayloadModel {
    ChannelUpdateV1 {
        subscription: ChannelUpdateV1Model,
        event: ChannelUpdateV1PayloadModel,
    },
}

impl DeepView for TypedPayload {
    type V = TypedPayloadModel;

    open spec fn deep_view(&self) -> TypedPayloadModel {
        match self {
            TypedPayload::ChannelUpdateV1 { subscription, event } =>
                TypedPayloadModel::ChannelUpdateV1 {
                subscription: subscription.deep_view(),
                event: event.deep_view(),
            },
        }
    }
}

/// Where one delivery ends: decoded, or rejected with a classification.
pub enum DispatchOutcome {
    Decoded(TypedPayload),
    Rejected(RejectReason),
}

pub enum DispatchOutcomeModel {
    Decoded(TypedPayloadModel),
    Rejected(RejectReason),
}

impl DeepView for DispatchOutcome {
    type V = DispatchOutcomeModel;

    open spec fn deep_view(&self) -> DispatchOutcomeModel {
        match self {
            DispatchOutcome::Decoded(p) => DispatchOutcomeModel::Decoded(p.deep_view()),
            DispatchOutcome::Rejected(r) => DispatchOutcomeModel::Rejected(*r),
        }
    }
}

/// The (kind, version) discriminator of an envelope, read without
/// touching the payload.
pub open spec fn spec_discriminator(doc: Json) -> Option<(Seq<char>, Seq<char>)> {
    match jget(doc, "subscription"@) {
        Some(sub) => match (jget(sub, "type"@), jget(sub, "version"@)) {
            (Some(Json::Str(kind)), Some(Json::Str(version))) => Some((kind, version)),
            _ => None,
        },
        None => None,
    }
}

/// Where a parsed envelope ends: the whole classification, from the
/// discriminator through the registry to the shape decoders.
pub open spec fn spec_classify(
    entries: Seq<RegistryEntryModel>,
    doc: Json,
    strict: bool,
) -> DispatchOutcomeModel {
    match jget(doc, "subscription"@) {
        None => DispatchOutcomeModel::Rejected(RejectReason::MalformedEnvelope),
        Some(sub) => match (jget(sub, "type"@), jget(sub, "version"@), jget(doc, "event"@)) {
            (Some(Json::Str(kind)), Some(Json::Str(version)), Some(ev)) => match reg_lookup(
                entries,
                kind,
                version,
            ) {
                None => DispatchOutcomeModel::Rejected(RejectReason::UnregisteredKind),
                Some(entry) => match entry.shape {
                    ShapeKind::ChannelUpdateV1 => match jget(sub, "condition"@) {
                        Some(cj) => match (
                            spec_decode_condition(cj, strict),
                            spec_decode_payload(ev, strict),
                        ) {
                            (Ok(c), Ok(p)) => DispatchOutcomeModel::Decoded(
                                TypedPayloadModel::ChannelUpdateV1 {
                                    subscription: c,
                                    event: p,
                                },
                            ),
                            _ => DispatchOutcomeModel::Rejected(
                                RejectReason::PayloadShapeMismatch,
                            ),
                        },
                        None => DispatchOutcomeModel::Rejected(
                            RejectReason::PayloadShapeMismatch,
                        ),
                    },
                },
            },
            _ => DispatchOutcomeModel::Rejected(RejectReason::MalformedEnvelope),
        },
    }
}

/// Where an unverified body ends: parse, then classify.
pub open spec fn spec_parse_notification(
    entries: Seq<RegistryEntryModel>,
    body: Seq<char>,
    strict: bool,
) -> DispatchOutcomeModel {
    match json_parse_of(body) {
        None => DispatchOutcomeModel::Rejected(RejectReason::MalformedEnvelope),
        Some(doc) => spec_classify(entries, doc, strict),
    }
}

/// Where a whole delivery ends: the signature gate first — before any
/// JSON parsing — then parse and classify.
pub open spec fn spec_dispatch(
    entries: Seq<RegistryEntryModel>,
    c: SignatureContextModel,
    strict: bool,
) -> DispatchOutcomeModel {
    if !spec_signature_ok(c) {
        DispatchOutcomeModel::Rejected(RejectReason::SignatureMismatch)
    } else {
        spec_parse_notification(entries, c.raw_body, strict)
    }
}

/// Classifies a parsed envelope against the registry and decodes its
/// payload.
pub fn classify_and_decode(reg: &TypeRegistry, doc: &JsonValue, strict: bool) -> (r:
    DispatchOutcome)
    ensures
        r.deep_view() == spec_classify(reg.entries_model(), jmodel(*doc), strict),
{
    let sub = match doc.get("subscription") {
        Some(s) => s,
        None => {
            return DispatchOutcome::Rejected(RejectReason::MalformedEnvelope);
        },
    };
    let kind = match sub.get("type") {
        Some(JsonValue::Str(s)) => s,
        _ => {
            return DispatchOutcome::Rejected(RejectReason::MalformedEnvelope);
        },
    };
    let version = match sub.get("version") {
        Some(JsonValue::Str(s)) => s,
        _ => {
            return DispatchOutcome::Rejected(RejectReason::MalformedEnvelope);
        },
    };
    let ev = match doc.get("event") {
        Some(e) => e,
        None => {
            return DispatchOutcome::Rejected(RejectReason::MalformedEnvelope);
        },
    };
    let entry = match reg.lookup(kind.as_str(), version.as_str()) {
        Some(e) => e,
        None => {
            return DispatchOutcome::Rejected(RejectReason::UnregisteredKind);
        },
    };
    match entry.shape {
        ShapeKind::ChannelUpdateV1 => {
            let cj = match sub.get("condition") {
                Some(c) => c,
                None => {
                    return DispatchOutcome::Rejected(RejectReason::PayloadShapeMismatch);
                },
            };
            let cond = decode_condition(cj, strict);
            let payload = decode_payload(ev, strict);
            match (cond, payload) {
                (Ok(c), Ok(p)) => DispatchOutcome::Decoded(
                    TypedPayload::ChannelUpdateV1 { subscription: c, event: p },
                ),
                _ => DispatchOutcome::Rejected(RejectReason::PayloadShapeMismatch),
            }
        },
    }
}

/// Parses a body and classifies it, without a signature gate: for
/// callers that verified provenance separately.
pub fn parse_notification(reg: &TypeRegistry, body: &str, strict: bool) -> (r: DispatchOutcome)
    ensures
        r.deep_view() == spec_parse_notification(reg.entries_model(), body@, strict),
{
    match parse_json(body) {
        None => DispatchOutcome::Rejected(RejectReason::MalformedEnvelope),
        Some(doc) => classify_and_decode(reg, &doc, strict),
    }
}

/// Runs one delivery through the whole state machine: Received →
/// Verified → Classified → Decoded, or Rejected at the first failing
/// gate. The signature is checked before any JSON is parsed.
pub fn dispatch(reg: &TypeRegistry, ctx: &SignatureContext, strict: bool) -> (r: DispatchOutcome)
    ensures
        r.deep_view() == spec_dispatch(reg.entries_model(), ctx.deep_view(), strict),
{
    if !ctx.verify() {
        return DispatchOutcome::Rejected(RejectReason::SignatureMismatch);
    }
    parse_notification(reg, ctx.raw_body.as_str(), strict)
}

/// Registers the `channel.update` version `"1"` shape. It needs no
/// scopes.
pub fn register_channel_update_v1(reg: &mut TypeRegistry) -> (r: Result<(), RegistryError>)
    requires
        old(reg).wf(),
    ensures
        final(reg).wf(),
        match r {
            Ok(()) => reg_lookup(old(reg).entries_model(), "channel.update"@, "1"@) is None
                && final(reg).entries_model() == old(reg).entries_model().push(
                RegistryEntryModel {
                    kind: "channel.update"@,
                    version: "1"@,
                    shape: ShapeKind::ChannelUpdateV1,
                    scopes: Seq::empty(),
                },
            ),
            Err(_) => reg_lookup(old(reg).entries_model(), "channel.update"@, "1"@) is Some
                && final(reg).entries_model() == old(reg).entries_model(),
        },
{
    let entry = RegistryEntry {
        kind: String::from_str("channel.update"),
        version: String::from_str("1"),
        shape: ShapeKind::ChannelUpdateV1,
        scopes: Vec::new(),
    };
    proof {
        assert(entry.deep_view().scopes =~= Seq::<crate::registry::Scope>::empty());
    }
    reg.register(entry)
}

/// The envelope written around an encoded payload: the discriminator
/// fields and the condition under `subscription`, the payload under
/// `event`.
pub open spec fn spec_notification_json(
    kind: Seq<char>,
    version: Seq<char>,
    c: ChannelUpdateV1Model,
    p: ChannelUpdateV1PayloadModel,
) -> Json {
    Json::Obj(
        seq![
            (
                "subscription"@,
                Json::Obj(
                    seq![
                        ("type"@, Json::Str(kind)),
                        ("version"@, Json::Str(version)),
                        ("condition"@, channel_update_condition_json(c)),
                    ],
                ),
            ),
            ("event"@, channel_update_payload_json(p)),
        ],
    )
}

/// Writes the envelope for a condition and payload: what a test or an
/// example sender feeds back through the dispatcher.
pub fn notification_to_json(
    kind: &str,
    version: &str,
    c: &ChannelUpdateV1,
    p: &ChannelUpdateV1Payload,
) -> (r: JsonValue)
    ensures
        jmodel(r) == spec_notification_json(kind@, version@, c.deep_view(), p.deep_view()),
{
    let mut sub_fields: Vec<(String, JsonValue)> = Vec::new();
    sub_fields.push((String::from_str("type"), JsonValue::Str(kind.to_owned())));
    sub_fields.push((String::from_str("version"), JsonValue::Str(version.to_owned())));
    sub_fields.push((String::from_str("condition"), condition_to_json(c)));
    proof {
        lemma_jmodel_fields(sub_fields@);
        assert(jmodel_fields(sub_fields@) =~= seq![
            ("type"@, Json::Str(kind@)),
            ("version"@, Json::Str(version@)),
            ("condition"@, channel_update_condition_json(c.deep_view())),
        ]);
    }
    let mut fields: Vec<(String, JsonValue)> = Vec::new();
    fields.push((String::from_str("subscription"), JsonValue::Obj(sub_fields)));
    fields.push((String::from_str("event"), payload_to_json(p)));
    proof {
        lemma_jmodel_fields(fields@);
        assert(jmodel_fields(fields@)
            =~= spec_notification_json(kind@, version@, c.deep_view(), p.deep_view())->Obj_0);
    }
    JsonValue::Obj(fields)
}

/// The round-trip law: for a registered (kind, version) pair, encoding
/// a payload into its envelope and classifying it back through the
/// dispatcher yields exactly the original, in either decode mode.
pub proof fn lemma_registered_round_trip(
    entries: Seq<RegistryEntryModel>,
    kind: Seq<char>,
    version: Seq<char>,
    c: ChannelUpdateV1Model,
    p: ChannelUpdateV1PayloadModel,
    strict: bool,
)
    requires
        reg_lookup(entries, kind, version) matches Some(e)
            && e.shape == ShapeKind::ChannelUpdateV1,
    ensures
        spec_classify(entries, spec_notification_json(kind, version, c, p), strict)
            == DispatchOutcomeModel::Decoded(
            TypedPayloadModel::ChannelUpdateV1 { subscription: c, event: p },
        ),
{
    let doc = spec_notification_json(kind, version, c, p);
    let fields = doc->Obj_0;
    let sub_fields = fields[0].1->Obj_0;
    reveal_strlit("subscription");
    reveal_strlit("event");
    reveal_strlit("type");
    reveal_strlit("version");
    reveal_strlit("condition");
    assert("subscription"@.len() == 12);
    assert("event"@.len() == 5);
    assert("type"@.len() == 4);
    assert("version"@.len() == 7);
    assert("condition"@.len() == 9);
    lemma_jlookup_at(fields, "subscription"@, 0);
    lemma_jlookup_at(fields, "event"@, 1);
    lemma_jlookup_at(sub_fields, "type"@, 0);
    lemma_jlookup_at(sub_fields, "version"@, 1);
    lemma_jlookup_at(sub_fields, "condition"@, 2);
    lemma_condition_round_trip(c, strict);
    lemma_payload_round_trip(p, strict);
}

/// An envelope whose discriminator has no registration is rejected as
/// unregistered, whatever its payload holds: payload decode is never
/// reached.
pub proof fn lemma_unregistered_is_rejected(
    entries: Seq<RegistryEntryModel>,
    doc: Json,
    kind: Seq<char>,
    version: Seq<char>,
    strict: bool,
)
    requires
        spec_discriminator(doc) == Some((kind, version)),
        jget(doc, "event"@) is Some,
        reg_lookup(entries, kind, version) is None,
    ensures
        spec_classify(entries, doc, strict) == DispatchOutcomeModel::Rejected(
            RejectReason::UnregisteredKind,
        ),
{
}

/// A delivery whose received signature is not the expected one for its
/// exact bytes is rejected before anything is parsed.
pub proof fn lemma_signature_gate(
    entries: Seq<RegistryEntryModel>,
    c: SignatureContextModel,
    strict: bool,
)
    ensures
        !spec_signature_ok(c) ==> spec_dispatch(entries, c, strict)
            == DispatchOutcomeModel::Rejected(RejectReason::SignatureMismatch),
        spec_signature_ok(c) ==> spec_dispatch(entries, c, strict)
            == spec_parse_notification(entries, c.raw_body, strict),
{
}

} // verus!
