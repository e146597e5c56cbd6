use vstd::prelude::*;
use vstd::slice::slice_subrange;
use vstd::utf8::valid_utf8;

use crate::auth::{ct_eq, tag_matches, validate, ValidationError};
use crate::codec::{
    closed_bytes, container_magic, dec_digits, dec_key, encode, json_fields_of, opened_bytes,
};
use crate::data::WebhookPayload;

verus! {

/// The disposition of a turned-away request, one variant per HTTP status the
/// service answers with short of success.
#[derive(Clone, Copy, PartialEq, Eq, Structural, Debug)]
pub enum Status {
    BadRequest,
    Unauthorized,
    Forbidden,
    InternalError,
    NotImplemented,
}

impl Status {
    /// The HTTP status code of each disposition.
    pub open spec fn spec_code(&self) -> u16 {
        match self {
            Status::BadRequest => 400u16,
            Status::Unauthorized => 401u16,
            Status::Forbidden => 403u16,
            Status::InternalError => 500u16,
            Status::NotImplemented => 501u16,
        }
    }

    /// The HTTP status code this disposition maps to.
    pub fn code(&self) -> (r: u16)
        ensures
            r == self.spec_code(),
    {
        match self {
            Status::BadRequest => 400,
            Status::Unauthorized => 401,
            Status::Forbidden => 403,
            Status::InternalError => 500,
            Status::NotImplemented => 501,
        }
    }
}

/// What one request comes to: either it is turned away with a status and at
/// most a short message, or exactly one keyed record is ready for the broker.
pub enum Outcome {
    Reject { status: Status, message: Option<String> },
    Publish { key: Vec<u8>, value: Vec<u8> },
}

/// The one topic this service publishes to.
pub fn topic() -> (r: &'static str)
    ensures
        r@ == "new-issue"@,
{
    "new-issue"
}

/// The ASCII bytes of the accepted event type, `issues`.
pub open spec fn issues_bytes() -> Seq<u8> {
    seq![105u8, 115u8, 115u8, 117u8, 101u8, 115u8]
}

/// The ASCII bytes of the scheme prefix `sha256=` that opens the signature
/// header.
pub open spec fn sig_prefix() -> Seq<u8> {
    seq![115u8, 104u8, 97u8, 50u8, 53u8, 54u8, 61u8]
}

/// Whether a signature header opens with the scheme prefix.
pub open spec fn has_sig_prefix(s: Seq<u8>) -> bool {
    s.len() >= 7 && s.subrange(0, 7) == sig_prefix()
}

/// The claimant tag: the signature header with the scheme prefix stripped.
pub open spec fn sig_tag(s: Seq<u8>) -> Seq<u8> {
    s.subrange(7, s.len() as int)
}

/// The text answered in the body when the signature header is not valid text.
pub open spec fn decode_message_text() -> Seq<char> {
    "signature header is not valid utf-8"@
}

/// The bytes of an optional value.
pub open spec fn opt_bytes(o: Option<Vec<u8>>) -> Option<Seq<u8>> {
    match o {
        Option::None => Option::None,
        Option::Some(v) => Option::Some(v@),
    }
}

/// What the pipeline owes a request: turned away with a status, or accepted
/// with the issue id that keys the record.
pub enum Decision {
    Deny { status: Status, with_message: bool },
    Accept { id: u64 },
}

/// The checkpoints of one request, in the order the service walks them: event
/// filter, signature header presence, signature text, scheme prefix, signing
/// key, tag check, payload decode. Each rejection is terminal, and the event
/// filter deliberately precedes all signature work.
pub open spec fn decide(
    event: Option<Seq<u8>>,
    signature: Option<Seq<u8>>,
    key: Option<Seq<u8>>,
    body: Seq<u8>,
) -> Decision {
    if event is None {
        Decision::Deny { status: Status::Unauthorized, with_message: false }
    } else if event.unwrap() != issues_bytes() {
        Decision::Deny { status: Status::NotImplemented, with_message: false }
    } else if signature is None {
        Decision::Deny { status: Status::Unauthorized, with_message: false }
    } else if !valid_utf8(signature.unwrap()) {
        Decision::Deny { status: Status::BadRequest, with_message: true }
    } else if !has_sig_prefix(signature.unwrap()) {
        Decision::Deny { status: Status::Unauthorized, with_message: false }
    } else if key is None {
        Decision::Deny { status: Status::InternalError, with_message: false }
    } else if !tag_matches(key.unwrap(), body, sig_tag(signature.unwrap())) {
        Decision::Deny { status: Status::Forbidden, with_message: false }
    } else {
        match json_fields_of(body) {
            Option::None => Decision::Deny { status: Status::InternalError, with_message: false },
            Option::Some(f) => {
                if f.action == opened_bytes() || f.action == closed_bytes() {
                    Decision::Accept { id: f.id }
                } else {
                    Decision::Deny { status: Status::InternalError, with_message: false }
                }
            },
        }
    }
}

/// Relies on std::str::from_utf8: whether the bytes are valid UTF-8, stated
/// through vstd's model of UTF-8 validity.
#[verifier::external_body]
fn utf8_check(b: &[u8]) -> (r: bool)
    ensures
        r == valid_utf8(b@),
{
    std::str::from_utf8(b).is_ok()
}

fn issues_vec() -> (r: Vec<u8>)
    ensures
        r@ == issues_bytes(),
{
    let mut v: Vec<u8> = Vec::new();
    v.push(105);
    v.push(115);
    v.push(115);
    v.push(117);
    v.push(101);
    v.push(115);
    proof {
        assert(v@ =~= issues_bytes());
    }
    v
}

fn sig_prefix_vec() -> (r: Vec<u8>)
    ensures
        r@ == sig_prefix(),
{
    let mut v: Vec<u8> = Vec::new();
    v.push(115);
    v.push(104);
    v.push(97);
    v.push(50);
    v.push(53);
    v.push(54);
    v.push(61);
    proof {
        assert(v@ =~= sig_prefix());
    }
    v
}

fn decode_message() -> (r: String)
    ensures
        r@ == decode_message_text(),
{
    "signature header is not valid utf-8".to_owned()
}

/// Walks one request through the checkpoints and returns what it comes to:
/// a rejection carrying the status the server must answer, or the one keyed
/// record to hand the broker. The caller passes the raw header bytes, the
/// signing key as it found it, the raw body, and the record schema.
pub fn handle_webhook(
    event: &Option<Vec<u8>>,
    signature: &Option<Vec<u8>>,
    key: &Option<Vec<u8>>,
    body: &[u8],
    schema: &apache_avro::Schema,
) -> (r: Outcome)
    ensures
        // Every checkpoint answers as the decision function says; an accepted
        // request yields the keyed record unless the schema turns the encoder
        // away, which is answered as an internal error.
        (match decide(opt_bytes(*event), opt_bytes(*signature), opt_bytes(*key), body@) {
            Decision::Deny { status, with_message } => r matches Outcome::Reject {
                status: s,
                message,
            } && s == status && (if with_message {
                message matches Some(m) && m@ == decode_message_text()
            } else {
                message is None
            }),
            Decision::Accept { id } => (match r {
                Outcome::Publish { key: k, value } => k@ == dec_digits(id) && value@.len() >= 4
                    && value@.subrange(0, 4) == container_magic(),
                Outcome::Reject { status, message } => status == Status::InternalError && message
                    is None,
            }),
        }),
        // Authentication soundness: a record is readied only when the tag is
        // exactly the lowercase hex MAC of the body under the present key.
        r matches Outcome::Publish { .. } ==> (*key matches Some(k) && *signature matches Some(s)
            && valid_utf8(s@) && has_sig_prefix(s@) && tag_matches(k@, body@, sig_tag(s@))),
        // Header order: a request without the event header is turned away
        // unauthorized whatever else it carries; one with an alien event type
        // is answered not-implemented even when its signature is valid.
        *event is None ==> r == (Outcome::Reject {
            status: Status::Unauthorized,
            message: None,
        }),
        (*event matches Some(e) && e@ != issues_bytes()) ==> r == (Outcome::Reject {
            status: Status::NotImplemented,
            message: None,
        }),
        // Key correctness: the record key is the decimal text of the issue id
        // the body decodes to.
        r matches Outcome::Publish { key: k, .. } ==> (json_fields_of(body@) matches Some(f) && k@
            == dec_digits(f.id)),
{
    let ev = match event {
        Some(e) => e,
        None => return Outcome::Reject { status: Status::Unauthorized, message: None },
    };
    let issues = issues_vec();
    if !ct_eq(ev.as_slice(), issues.as_slice()) {
        return Outcome::Reject { status: Status::NotImplemented, message: None };
    }
    let sig = match signature {
        Some(s) => s,
        None => return Outcome::Reject { status: Status::Unauthorized, message: None },
    };
    if !utf8_check(sig.as_slice()) {
        return Outcome::Reject { status: Status::BadRequest, message: Some(decode_message()) };
    }
    if sig.len() < 7 {
        return Outcome::Reject { status: Status::Unauthorized, message: None };
    }
    let prefix = slice_subrange(sig.as_slice(), 0, 7);
    let scheme = sig_prefix_vec();
    if !ct_eq(prefix, scheme.as_slice()) {
        return Outcome::Reject { status: Status::Unauthorized, message: None };
    }
    let tag = slice_subrange(sig.as_slice(), 7, sig.len());
    match validate(key, body, tag) {
        Err(ValidationError::EnvironmentError) => {
            return Outcome::Reject { status: Status::InternalError, message: None };
        },
        Err(ValidationError::SignatureMismatchError) => {
            return Outcome::Reject { status: Status::Forbidden, message: None };
        },
        Ok(()) => {},
    }
    let payload = match WebhookPayload::decode(body) {
        Some(p) => p,
        None => return Outcome::Reject { status: Status::InternalError, message: None },
    };
    let value = match encode(schema, &payload) {
        Some(v) => v,
        None => return Outcome::Reject { status: Status::InternalError, message: None },
    };
    let record_key = dec_key(payload.issue.id);
    Outcome::Publish { key: record_key, value }
}

} // verus!
