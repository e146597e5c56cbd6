use hmac::Mac;
use webhook_handler::auth::{ct_eq, hex_encode, validate, ValidationError};
use webhook_handler::codec::{dec_key, encode};
use webhook_handler::data::{Action, WebhookPayload};
use apache_avro::types::Value as AV;

const SCHEMA_TEXT: &str = r#"
{
  "type": "record",
  "name": "WebhookPayload",
  "fields": [
    {"name": "issue", "type": {"type": "record", "name": "Issue", "fields": [
      {"name": "id", "type": "long"},
      {"name": "number", "type": "long"},
      {"name": "body", "type": "string"},
      {"name": "title", "type": "string"}]}},
    {"name": "action", "type": "string"},
    {"name": "repository", "type": {"type": "record", "name": "Repository", "fields": [
      {"name": "full_name", "type": "string"},
      {"name": "url", "type": "string"}]}}
  ]
}
"#;

const BODY: &[u8] = br#"{"action":"opened","issue":{"id":7,"number":1,"title":"t","body":"b"},"repository":{"full_name":"a/b","url":"https://x"}}"#;

fn schema() -> apache_avro::Schema {
    apache_avro::Schema::parse_str(SCHEMA_TEXT).unwrap()
}

fn tag_of(key: &[u8], body: &[u8]) -> Vec<u8> {
    let mut mac = hmac::Hmac::<sha2::Sha256>::new_from_slice(key).unwrap();
    mac.update(body);
    hex_encode(&mac.finalize().into_bytes())
}

#[test]
fn validate_accepts_exactly_the_keyed_mac() {
    let key = Some(b"secret".to_vec());
    let tag = tag_of(b"secret", BODY);
    assert!(validate(&key, BODY, &tag).is_ok());
}

#[test]
fn validate_rejects_an_altered_tag() {
    let key = Some(b"secret".to_vec());
    let mut tag = tag_of(b"secret", BODY);
    let last = *tag.last().unwrap();
    *tag.last_mut().unwrap() = if last == b'a' { b'b' } else { b'a' };
    assert!(matches!(
        validate(&key, BODY, &tag),
        Err(ValidationError::SignatureMismatchError)
    ));
}

#[test]
fn validate_rejects_a_tag_made_under_another_key() {
    let key = Some(b"secret".to_vec());
    let tag = tag_of(b"other", BODY);
    assert!(matches!(
        validate(&key, BODY, &tag),
        Err(ValidationError::SignatureMismatchError)
    ));
}

#[test]
fn validate_without_a_key_is_an_environment_error() {
    let tag = tag_of(b"secret", BODY);
    assert!(matches!(
        validate(&None, BODY, &tag),
        Err(ValidationError::EnvironmentError)
    ));
}

#[test]
fn hex_encode_gives_two_lowercase_digits_per_byte() {
    assert_eq!(hex_encode(&[]), b"".to_vec());
    assert_eq!(hex_encode(&[0x00]), b"00".to_vec());
    assert_eq!(hex_encode(&[0xa5, 0x0f, 0xff]), b"a50fff".to_vec());
}

#[test]
fn ct_eq_compares_whole_byte_strings() {
    assert!(ct_eq(b"abc", b"abc"));
    assert!(!ct_eq(b"abc", b"abd"));
    assert!(!ct_eq(b"abc", b"ab"));
    assert!(!ct_eq(b"xbc", b"abc"));
    assert!(ct_eq(b"", b""));
}

#[test]
fn decode_reads_the_valid_opened_issue() {
    let w = WebhookPayload::decode(BODY).expect("the valid body decodes");
    assert_eq!(w.issue.id, 7);
    assert_eq!(w.issue.number, 1);
    assert_eq!(w.issue.title, "t");
    assert_eq!(w.issue.body, "b");
    assert_eq!(w.action, Action::Opened);
    assert_eq!(w.repository.full_name, "a/b");
    assert_eq!(w.repository.url, "https://x");
}

#[test]
fn decode_reads_a_closed_issue_and_ignores_unknown_keys() {
    let body = br#"{"action":"closed","extra":[1,2],"issue":{"id":9,"number":2,"title":"x","body":"y","labels":null},"repository":{"full_name":"c/d","url":"u","fork":false}}"#;
    let w = WebhookPayload::decode(body).expect("unknown keys are ignored");
    assert_eq!(w.issue.id, 9);
    assert_eq!(w.action, Action::Closed);
}

#[test]
fn decode_rejects_unknown_and_case_variant_actions() {
    let deleted = br#"{"action":"deleted","issue":{"id":7,"number":1,"title":"t","body":"b"},"repository":{"full_name":"a/b","url":"https://x"}}"#;
    assert!(WebhookPayload::decode(deleted).is_none());
    let cased = br#"{"action":"Opened","issue":{"id":7,"number":1,"title":"t","body":"b"},"repository":{"full_name":"a/b","url":"https://x"}}"#;
    assert!(WebhookPayload::decode(cased).is_none());
}

#[test]
fn decode_rejects_missing_or_wrongly_typed_fields() {
    let no_issue = br#"{"action":"opened","repository":{"full_name":"a/b","url":"https://x"}}"#;
    assert!(WebhookPayload::decode(no_issue).is_none());
    let no_url = br#"{"action":"opened","issue":{"id":7,"number":1,"title":"t","body":"b"},"repository":{"full_name":"a/b"}}"#;
    assert!(WebhookPayload::decode(no_url).is_none());
    let negative_id = br#"{"action":"opened","issue":{"id":-7,"number":1,"title":"t","body":"b"},"repository":{"full_name":"a/b","url":"https://x"}}"#;
    assert!(WebhookPayload::decode(negative_id).is_none());
    let wide_number = br#"{"action":"opened","issue":{"id":7,"number":4294967296,"title":"t","body":"b"},"repository":{"full_name":"a/b","url":"https://x"}}"#;
    assert!(WebhookPayload::decode(wide_number).is_none());
    let not_json = b"not an object";
    assert!(WebhookPayload::decode(not_json).is_none());
}

#[test]
fn encoded_container_round_trips_field_for_field() {
    let w = WebhookPayload::decode(BODY).expect("the valid body decodes");
    let container = encode(&schema(), &w).expect("the payload fits the schema");
    assert_eq!(&container[0..4], b"Obj\x01");
    let reader = apache_avro::Reader::new(&container[..]).unwrap();
    let records: Vec<apache_avro::types::Value> = reader.map(|r| r.unwrap()).collect();
    assert_eq!(records.len(), 1);
    match &records[0] {
        AV::Record(fields) => {
            assert_eq!(fields.len(), 3);
            assert_eq!(fields[0].0, "issue");
            match &fields[0].1 {
                AV::Record(issue) => {
                    assert_eq!(issue[0], ("id".to_string(), AV::Long(w.issue.id as i64)));
                    assert_eq!(
                        issue[1],
                        ("number".to_string(), AV::Long(w.issue.number as i64))
                    );
                    assert_eq!(
                        issue[2],
                        ("body".to_string(), AV::String(w.issue.body.clone()))
                    );
                    assert_eq!(
                        issue[3],
                        ("title".to_string(), AV::String(w.issue.title.clone()))
                    );
                }
                other => panic!("issue must decode as a record, not {:?}", other),
            }
            assert_eq!(fields[1], ("action".to_string(), AV::String("opened".to_string())));
            assert_eq!(
                fields[2],
                (
                    "repository".to_string(),
                    AV::Record(vec![
                        (
                            "full_name".to_string(),
                            AV::String(w.repository.full_name.clone())
                        ),
                        ("url".to_string(), AV::String(w.repository.url.clone())),
                    ])
                )
            );
        }
        other => panic!("the container must hold a record, not {:?}", other),
    }
}

#[test]
fn encode_refuses_an_id_beyond_the_signed_range() {
    let mut w = WebhookPayload::decode(BODY).expect("the valid body decodes");
    w.issue.id = u64::MAX;
    assert!(encode(&schema(), &w).is_none());
}

#[test]
fn encode_refuses_a_record_the_schema_turns_away() {
    let narrow = apache_avro::Schema::parse_str(r#"{"type": "record", "name": "Other", "fields": [{"name": "only", "type": "int"}]}"#).unwrap();
    let w = WebhookPayload::decode(BODY).expect("the valid body decodes");
    assert!(encode(&narrow, &w).is_none());
}

#[test]
fn record_keys_are_decimal_text() {
    assert_eq!(dec_key(0), b"0".to_vec());
    assert_eq!(dec_key(7), b"7".to_vec());
    assert_eq!(dec_key(1234567890), b"1234567890".to_vec());
    assert_eq!(dec_key(u64::MAX), b"18446744073709551615".to_vec());
}
