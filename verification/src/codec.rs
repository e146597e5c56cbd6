use apache_avro::types::Value as AvroValue;
use vstd::prelude::*;

use crate::data::{Action, Issue, IssueV, Repository, RepositoryV, WebhookPayload, WebhookPayloadV};

verus! {

// ---------------------------------------------------------------------------
// Decoding the inbound textual body
// ---------------------------------------------------------------------------

/// The plain values read from the inbound document, before the action text has
/// been checked against the accepted variants.
struct Fields {
    id: u64,
    number: u32,
    title: String,
    body: String,
    action: Vec<u8>,
    full_name: String,
    url: String,
}

/// Mathematical model of the values read from an inbound document.
pub struct FieldsV {
    pub id: u64,
    pub number: u32,
    pub title: Seq<char>,
    pub body: Seq<char>,
    pub action: Seq<u8>,
    pub full_name: Seq<char>,
    pub url: Seq<char>,
}

impl View for Fields {
    type V = FieldsV;

    closed spec fn view(&self) -> FieldsV {
        FieldsV {
            id: self.id,
            number: self.number,
            title: self.title@,
            body: self.body@,
            action: self.action@,
            full_name: self.full_name@,
            url: self.url@,
        }
    }
}

/// The fields a well-formed inbound document carries, as a function of its
/// bytes: `None` where the document is not an object holding an `issue` record
/// (`id`, `number`, `title`, `body`), an `action` text and a `repository`
/// record (`full_name`, `url`) of these exact types. What this function is on
/// given bytes is known only through `extract_fields`.
pub uninterp spec fn json_fields_of(bytes: Seq<u8>) -> Option<FieldsV>;

spec fn fields_view_of(r: Option<Fields>) -> Option<FieldsV> {
    match r {
        Option::None => Option::None,
        Option::Some(f) => Option::Some(f@),
    }
}

/// Relies on serde_json: which fields an inbound document holds is a function
/// of its bytes alone. Parses the body as a JSON value and reads out the
/// required fields; any missing or wrongly typed field yields `None`.
#[verifier::external_body]
fn extract_fields(bytes: &[u8]) -> (r: Option<Fields>)
    ensures
        fields_view_of(r) == json_fields_of(bytes@),
{
    let v: serde_json::Value = match serde_json::from_slice(bytes) {
        Ok(v) => v,
        Err(_) => return None,
    };
    let issue = v.get("issue")?;
    let repo = v.get("repository")?;
    Some(Fields {
        id: issue.get("id")?.as_u64()?,
        number: u32::try_from(issue.get("number")?.as_u64()?).ok()?,
        title: issue.get("title")?.as_str()?.to_string(),
        body: issue.get("body")?.as_str()?.to_string(),
        action: v.get("action")?.as_str()?.as_bytes().to_vec(),
        full_name: repo.get("full_name")?.as_str()?.to_string(),
        url: repo.get("url")?.as_str()?.to_string(),
    })
}

/// The ASCII bytes of the action text `opened`.
pub open spec fn opened_bytes() -> Seq<u8> {
    seq![111u8, 112u8, 101u8, 110u8, 101u8, 100u8]
}

/// The ASCII bytes of the action text `closed`.
pub open spec fn closed_bytes() -> Seq<u8> {
    seq![99u8, 108u8, 111u8, 115u8, 101u8, 100u8]
}

/// The variant an accepted action text names.
pub open spec fn action_of(a: Seq<u8>) -> Action {
    if a == opened_bytes() {
        Action::Opened
    } else {
        Action::Closed
    }
}

/// The payload a well-formed document with an accepted action decodes to.
pub open spec fn payload_of_fields(f: FieldsV) -> WebhookPayloadV {
    WebhookPayloadV {
        issue: IssueV { id: f.id, number: f.number, body: f.body, title: f.title },
        action: action_of(f.action),
        repository: RepositoryV { full_name: f.full_name, url: f.url },
    }
}

/// Round trip of the action text: the two accepted texts name distinct
/// variants, and the wire text framed for a variant on encode is
/// character-for-character the ASCII text the accepted inbound document
/// carried, so a decoded container shows the action the caller sent.
pub proof fn lemma_action_text_round_trip()
    ensures
        action_of(opened_bytes()) == Action::Opened,
        action_of(closed_bytes()) == Action::Closed,
        opened_bytes() != closed_bytes(),
        "opened"@ == Seq::new(opened_bytes().len(), |i: int| opened_bytes()[i] as char),
        "closed"@ == Seq::new(closed_bytes().len(), |i: int| closed_bytes()[i] as char),
{
    reveal_strlit("opened");
    reveal_strlit("closed");
    assert(opened_bytes()[0] == 111u8 && closed_bytes()[0] == 99u8);
    assert("opened"@ =~= Seq::new(opened_bytes().len(), |i: int| opened_bytes()[i] as char));
    assert("closed"@ =~= Seq::new(closed_bytes().len(), |i: int| closed_bytes()[i] as char));
}

/// Maps an action text to its variant; every other text is rejected.
fn action_of_bytes(v: &Vec<u8>) -> (r: Option<Action>)
    ensures
        v@ == opened_bytes() ==> r == Some(Action::Opened),
        v@ == closed_bytes() ==> r == Some(Action::Closed),
        v@ != opened_bytes() && v@ != closed_bytes() ==> r is None,
{
    if v.len() == 6 {
        if v[0] == 111 && v[1] == 112 && v[2] == 101 && v[3] == 110 && v[4] == 101 && v[5]
            == 100 {
            proof {
                assert(v@ =~= opened_bytes());
            }
            return Some(Action::Opened);
        }
        if v[0] == 99 && v[1] == 108 && v[2] == 111 && v[3] == 115 && v[4] == 101 && v[5] == 100 {
            proof {
                assert(v@ =~= closed_bytes());
            }
            return Some(Action::Closed);
        }
    }
    proof {
        if v@ == opened_bytes() {
            assert(v@.len() == 6 && v@[0] == 111 && v@[1] == 112 && v@[2] == 101 && v@[3] == 110
                && v@[4] == 101 && v@[5] == 100);
        }
        if v@ == closed_bytes() {
            assert(v@.len() == 6 && v@[0] == 99 && v@[1] == 108 && v@[2] == 111 && v@[3] == 115
                && v@[4] == 101 && v@[5] == 100);
        }
    }
    None
}

impl WebhookPayload {
    /// Decodes the inbound textual body. Exactly the documents whose required
    /// fields are all present and whose action text is `opened` or `closed`
    /// decode; everything else is rejected.
    pub fn decode(bytes: &[u8]) -> (r: Option<WebhookPayload>)
        ensures
            r matches Some(w) ==> (json_fields_of(bytes@) matches Some(f) && (f.action
                == opened_bytes() || f.action == closed_bytes()) && w@ == payload_of_fields(f)),
            r is None ==> (json_fields_of(bytes@) is None || (json_fields_of(bytes@) matches Some(f)
                && f.action != opened_bytes() && f.action != closed_bytes())),
    {
        let f = match extract_fields(bytes) {
            Some(f) => f,
            None => return None,
        };
        let action = match action_of_bytes(&f.action) {
            Some(a) => a,
            None => return None,
        };
        Some(
            WebhookPayload {
                issue: Issue { id: f.id, number: f.number, body: f.body, title: f.title },
                action,
                repository: Repository { full_name: f.full_name, url: f.url },
            },
        )
    }
}

// ---------------------------------------------------------------------------
// Encoding into the outbound binary container
// ---------------------------------------------------------------------------

#[verifier::external_type_specification]
#[verifier::external_body]
pub struct ExSchema(apache_avro::Schema);

#[verifier::external_type_specification]
#[verifier::external_body]
pub struct ExAvroValue(apache_avro::types::Value);

/// The four magic bytes that open every binary container.
pub open spec fn container_magic() -> Seq<u8> {
    seq![79u8, 98u8, 106u8, 1u8]
}

/// The action's wire text.
pub fn action_str(a: &Action) -> (r: &'static str)
    ensures
        *a == Action::Opened ==> r@ == "opened"@,
        *a == Action::Closed ==> r@ == "closed"@,
{
    match a {
        Action::Opened => "opened",
        Action::Closed => "closed",
    }
}

/// Relies on apache_avro::types::Value: builds the record for one payload from
/// plain field values, nested as issue / action / repository.
#[verifier::external_body]
fn payload_record(
    id: i64,
    number: i64,
    title: &str,
    body: &str,
    action: &str,
    full_name: &str,
    url: &str,
) -> (r: apache_avro::types::Value) {
    AvroValue::Record(vec![
        ("issue".to_string(), AvroValue::Record(vec![
            ("id".to_string(), AvroValue::Long(id)),
            ("number".to_string(), AvroValue::Long(number)),
            ("body".to_string(), AvroValue::String(body.to_string())),
            ("title".to_string(), AvroValue::String(title.to_string())),
        ])),
        ("action".to_string(), AvroValue::String(action.to_string())),
        ("repository".to_string(), AvroValue::Record(vec![
            ("full_name".to_string(), AvroValue::String(full_name.to_string())),
            ("url".to_string(), AvroValue::String(url.to_string())),
        ])),
    ])
}

/// Relies on apache_avro::Writer with the deflate codec: encodes one record
/// under the schema and returns the complete container — header, schema
/// metadata, compressed data block — which always begins with the four magic
/// bytes. Schema validation may reject the record; the sync marker is drawn
/// fresh per container, so nothing more is promised of the bytes.
#[verifier::external_body]
fn avro_container(schema: &apache_avro::Schema, record: apache_avro::types::Value) -> (r: Option<
    Vec<u8>,
>)
    ensures
        r matches Some(v) ==> v@.len() >= 4 && v@.subrange(0, 4) == container_magic(),
{
    let codec = apache_avro::Codec::Deflate(Default::default());
    let mut w = match apache_avro::Writer::with_codec(schema, Vec::new(), codec) {
        Ok(w) => w,
        Err(_) => return None,
    };
    if w.append_value(record).is_err() {
        return None;
    }
    w.into_inner().ok()
}

/// Encodes one payload as a self-contained binary container under `schema`.
/// An issue id above the signed 64-bit range cannot be framed and is refused;
/// past that, acceptance is the schema's decision.
pub fn encode(schema: &apache_avro::Schema, w: &WebhookPayload) -> (r: Option<Vec<u8>>)
    ensures
        w.issue.id > 0x7fff_ffff_ffff_ffff ==> r is None,
        r matches Some(v) ==> v@.len() >= 4 && v@.subrange(0, 4) == container_magic(),
{
    if w.issue.id > 0x7fff_ffff_ffff_ffff {
        return None;
    }
    let record = payload_record(
        w.issue.id as i64,
        w.issue.number as i64,
        w.issue.title.as_str(),
        w.issue.body.as_str(),
        action_str(&w.action),
        w.repository.full_name.as_str(),
        w.repository.url.as_str(),
    );
    avro_container(schema, record)
}

// ---------------------------------------------------------------------------
// The broker-record key
// ---------------------------------------------------------------------------

/// The decimal text of an unsigned number, as ASCII bytes without leading
/// zeros.
pub open spec fn dec_digits(n: u64) -> Seq<u8>
    decreases n,
{
    if n < 10 {
        seq![(48 + n) as u8]
    } else {
        dec_digits((n / 10) as u64).push((48 + n % 10) as u8)
    }
}

fn push_dec(n: u64, out: &mut Vec<u8>)
    ensures
        final(out)@ == old(out)@ + dec_digits(n),
    decreases n,
{
    if n >= 10 {
        push_dec(n / 10, out);
    }
    out.push(48 + (n % 10) as u8);
    proof {
        assert(out@ =~= old(out)@ + dec_digits(n));
    }
}

/// The broker-record key for an issue: the decimal text of its id. Never
/// empty, since every number has at least one digit.
pub fn dec_key(n: u64) -> (r: Vec<u8>)
    ensures
        r@ == dec_digits(n),
        r@.len() >= 1,
{
    let mut out: Vec<u8> = Vec::new();
    push_dec(n, &mut out);
    out
}

} // verus!
