//! Webhook provenance: the expected signature over a delivery's bytes,
//! and its comparison with the received one. The platform signs
//! `message_id ++ timestamp ++ raw_body` with the subscription's shared
//! secret and sends the tag hex-encoded behind a `sha256=` prefix.

use vstd::prelude::*;
use vstd::string::StrSliceExecFns;
use vstd::string::StringExecFns;
use hmac::Mac;
use crate::text::chars_eq_str;
use crate::text::hex_of;
use crate::text::hex_encode;
use crate::text::chars_to_string;

verus! {

/// The tag HMAC-SHA256 computes: a function of key and message alone.
pub uninterp spec fn hmac_tag_of(secret: Seq<char>, message: Seq<char>) -> Seq<u8>;

/// Relies on hmac's `Hmac<Sha256>`: the 32-byte tag depends on the key
/// and message bytes alone. HMAC accepts keys of any length, so the
/// construction cannot fail.
#[verifier::external_body]
fn hmac_sha256_tag(secret: &str, message: &str) -> (r: Vec<u8>)
    ensures
        r@ == hmac_tag_of(secret@, message@),
        r@.len() == 32,
{
    let mut mac = <hmac::Hmac<sha2::Sha256> as hmac::KeyInit>::new_from_slice(
        secret.as_bytes(),
    ).expect("HMAC accepts keys of any length");
    mac.update(message.as_bytes());
    mac.finalize().into_bytes().to_vec()
}

/// The signature the platform is expected to send for these bytes.
pub open spec fn spec_expected_signature(
    secret: Seq<char>,
    message_id: Seq<char>,
    timestamp: Seq<char>,
    raw_body: Seq<char>,
) -> Seq<char> {
    "sha256="@ + hex_of(hmac_tag_of(secret, message_id + timestamp + raw_body))
}

/// Computes the expected signature for a delivery.
pub fn expected_signature(
    secret: &str,
    message_id: &str,
    timestamp: &str,
    raw_body: &str,
) -> (r: String)
    ensures
        r@ == spec_expected_signature(secret@, message_id@, timestamp@, raw_body@),
{
    let mut message = message_id.to_owned();
    message.append(timestamp);
    message.append(raw_body);
    let tag = hmac_sha256_tag(secret, message.as_str());
    let hex = hex_encode(&tag);
    let mut out = String::from_str("sha256=");
    let hex_text = chars_to_string(&hex);
    out.append(hex_text.as_str());
    out
}

/// Everything one verification call needs; ephemeral, never persisted.
/// The secret is read only to recompute the tag and is echoed into no
/// result or error.
pub struct SignatureContext {
    pub secret: String,
    pub message_id: String,
    pub timestamp: String,
    pub raw_body: String,
    pub received_signature: String,
}

/// The context as mathematics.
pub struct SignatureContextModel {
    pub secret: Seq<char>,
    pub message_id: Seq<char>,
    pub timestamp: Seq<char>,
    pub raw_body: Seq<char>,
    pub received_signature: Seq<char>,
}

impl DeepView for SignatureContext {
    type V = SignatureContextModel;

    open spec fn deep_view(&self) -> SignatureContextModel {
        SignatureContextModel {
            secret: self.secret@,
            message_id: self.message_id@,
            timestamp: self.timestamp@,
            raw_body: self.raw_body@,
            received_signature: self.received_signature@,
        }
    }
}

/// Whether a delivery is accepted: exactly when the received signature
/// is the expected one for these very bytes.
pub open spec fn spec_signature_ok(c: SignatureContextModel) -> bool {
    c.received_signature == spec_expected_signature(
        c.secret,
        c.message_id,
        c.timestamp,
        c.raw_body,
    )
}

impl SignatureContext {
    /// Recomputes the expected signature and compares it with the
    /// received one. The comparison walks every character once the
    /// lengths agree; it does not stop at the first difference.
    pub fn verify(&self) -> (r: bool)
        ensures
            r <==> spec_signature_ok(self.deep_view()),
    {
        let mut message = self.message_id.as_str().to_owned();
        message.append(self.timestamp.as_str());
        message.append(self.raw_body.as_str());
        let tag = hmac_sha256_tag(self.secret.as_str(), message.as_str());
        let hex = hex_encode(&tag);
        let mut expected: Vec<char> = Vec::new();
        let prefix = "sha256=";
        let plen = prefix.unicode_len();
        let mut i: usize = 0;
        while i < plen
            invariant
                i <= plen,
                plen == prefix@.len(),
                prefix@ == "sha256="@,
                expected@ == prefix@.subrange(0, i as int),
            decreases plen - i,
        {
            expected.push(prefix.get_char(i));
            proof {
                assert(prefix@.subrange(0, i + 1)
                    =~= prefix@.subrange(0, i as int).push(prefix@[i as int]));
            }
            i += 1;
        }
        proof {
            assert(prefix@.subrange(0, plen as int) =~= prefix@);
        }
        let mut j: usize = 0;
        while j < hex.len()
            invariant
                j <= hex@.len(),
                hex@ == hex_of(tag@),
                expected@ == "sha256="@ + hex@.subrange(0, j as int),
            decreases hex@.len() - j,
        {
            expected.push(hex[j]);
            proof {
                assert(hex@.subrange(0, j + 1)
                    =~= hex@.subrange(0, j as int).push(hex@[j as int]));
            }
            j += 1;
        }
        proof {
            assert(hex@.subrange(0, hex@.len() as int) =~= hex@);
        }
        chars_eq_str(&expected, self.received_signature.as_str())
    }
}

/// Verification accepts only the exact expected signature for the
/// unmodified inputs: a delivery that alters any byte of the secret,
/// message id, timestamp or body — any alteration that changes the
/// expected signature, which is every alteration short of a tag
/// collision — rejects the signature the unaltered delivery carried.
pub proof fn lemma_altered_delivery_rejected(
    c: SignatureContextModel,
    altered: SignatureContextModel,
)
    requires
        spec_signature_ok(c),
        altered.received_signature == c.received_signature,
        spec_expected_signature(
            altered.secret,
            altered.message_id,
            altered.timestamp,
            altered.raw_body,
        ) != spec_expected_signature(c.secret, c.message_id, c.timestamp, c.raw_body),
    ensures
        !spec_signature_ok(altered),
{
}

/// Whether a delivery's timestamp lies within the acceptable skew
/// window around the caller's clock, bounding replay risk. The clock is
/// a collaborator: the caller reads it and passes the seconds in.
pub fn timestamp_within_window(ts_seconds: i64, now_seconds: i64, window_seconds: i64) -> (r:
    bool)
    requires
        window_seconds >= 0,
    ensures
        r <==> now_seconds - window_seconds <= ts_seconds
            <= now_seconds + window_seconds,
{
    let ts = ts_seconds as i128;
    let now = now_seconds as i128;
    let w = window_seconds as i128;
    now - w <= ts && ts <= now + w
}

} // verus!
