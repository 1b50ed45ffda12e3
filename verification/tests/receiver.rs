use circular_transaction_exporter::codec::{JsonField, flag_field, text_field, wire_sha256};
use circular_transaction_exporter::proto::SendTransactionRequest;
use circular_transaction_exporter::receiver::{
    Admission, Counters, ReceiverService, UNAUTHENTICATED, decode_compact_u16, primary_signature,
};
use circular_transaction_exporter::text::{decimal, same_text, starts_with};

const SIGNATURE: &str =
    "2Ana1pUpv2ZbMVkwF5FXapYeBEjdxDatLn7nvJkhgTSXbs59SyZSx866bXirPgj8QQVB57uxHJBG1YFvkRbFj4T";

/// One signature, of the bytes 1 to 64, and nothing else.
fn signed_wire() -> Vec<u8> {
    let mut wire = vec![1u8];
    wire.extend(1..=64u8);
    wire
}

fn request(transaction: Vec<u8>, forward: Option<bool>) -> SendTransactionRequest {
    SendTransactionRequest {
        transaction,
        memo: None,
        forward,
        cashback_address: None,
    }
}

#[test]
fn compact_numbers_take_up_to_three_bytes() {
    assert_eq!(decode_compact_u16(&[]), None);
    assert_eq!(decode_compact_u16(&[0x00]), Some((0, 1)));
    assert_eq!(decode_compact_u16(&[0x7f, 0xff]), Some((0x7f, 1)));
    assert_eq!(decode_compact_u16(&[0x80, 0x01]), Some((0x80, 2)));
    assert_eq!(decode_compact_u16(&[0xff, 0xff, 0x7f]), Some((0x1f_ffff, 3)));
    assert_eq!(decode_compact_u16(&[0x80]), None);
    assert_eq!(decode_compact_u16(&[0x80, 0x80, 0x80, 0x00]), None);
}

#[test]
fn the_first_signature_is_read_in_base58() {
    assert_eq!(primary_signature(&signed_wire()).as_deref(), Some(SIGNATURE));
    assert_eq!(primary_signature(&signed_wire()[..64]), None);
    let mut unsigned = signed_wire();
    unsigned[0] = 0;
    assert_eq!(primary_signature(&unsigned), None);
    assert_eq!(primary_signature(&[]), None);

    let zeros = [&[1u8][..], &[0u8; 64][..]].concat();
    assert_eq!(primary_signature(&zeros), Some("1".repeat(64)));
}

#[test]
fn wires_are_known_by_their_digest() {
    assert_eq!(
        wire_sha256(b""),
        "e3b0c44298fc1c149afbf4c8996fb92427ae41e4649b934ca495991b7852b855"
    );
    assert_eq!(
        wire_sha256(b"abc"),
        "ba7816bf8f01cfea414140de5dae2223b00361a396177a9cb410ff61f20015ad"
    );
}

#[test]
fn a_record_is_one_json_line() {
    let record = ReceiverService::record(&SendTransactionRequest {
        transaction: signed_wire(),
        memo: Some("say \"hi\"\n".to_string()),
        forward: Some(false),
        cashback_address: Some("address".to_string()),
    });
    assert_eq!(record.signature.as_deref(), Some(SIGNATURE));
    assert_eq!(
        record.line,
        format!(
            "{{\"cashback_address\":\"address\",\"forward\":false,\"memo\":\"say \\\"hi\\\"\\n\",\
             \"primary_signature\":\"{SIGNATURE}\",\"wire_sha256\":\
             \"feda156c7c8740836406ed27ac45ea11e2b382ac3297be2beef6364ecef78234\",\
             \"wire_size\":65}}"
        )
    );
}

#[test]
fn a_record_never_breaks_its_line() {
    let every_control: String = (0u8..32).map(|byte| byte as char).collect();
    let record = ReceiverService::record(&SendTransactionRequest {
        transaction: vec![],
        memo: Some(every_control.clone()),
        forward: None,
        cashback_address: Some(every_control),
    });
    assert!(record.line.chars().all(|c| c >= ' '));
}

#[test]
fn what_a_request_lacks_is_recorded_as_null() {
    let record = ReceiverService::record(&request(vec![0], None));
    assert_eq!(record.signature, None);
    assert_eq!(
        record.line,
        "{\"cashback_address\":null,\"forward\":null,\"memo\":null,\"primary_signature\":null,\
         \"wire_sha256\":\"6e340b9cffb37a989ca544e6bb780a2c78901d3fb33738768511a30617afa01d\",\
         \"wire_size\":1}"
    );
    assert!(matches!(text_field(&None), JsonField::Null));
    assert!(matches!(flag_field(Some(true)), JsonField::Bool(true)));
}

#[test]
fn callers_without_the_key_are_turned_away() {
    let mut service = ReceiverService::new(Some("secret".to_string()));
    assert_eq!(UNAUTHENTICATED, "invalid or missing x-api-key");
    assert_eq!(
        service.check_in(None, Some(false)),
        Admission::Unauthenticated
    );
    assert_eq!(
        service.check_in(Some("Secret"), None),
        Admission::Unauthenticated
    );
    assert_eq!(
        service.check_in(Some("secret"), Some(false)),
        Admission::Admitted {
            unexpected_flags: false
        }
    );
    assert_eq!(
        service.counters(),
        Counters {
            requests_received: 1,
            auth_failures: 2,
            ..Counters::default()
        }
    );
}

#[test]
fn requests_must_disable_forwarding() {
    let mut service = ReceiverService::new(None);
    for (forward, unexpected_flags) in [(Some(false), false), (Some(true), true), (None, true)] {
        assert_eq!(
            service.check_in(None, forward),
            Admission::Admitted { unexpected_flags }
        );
    }
    assert_eq!(service.counters().requests_received, 3);
    assert_eq!(service.counters().bad_flags, 2);
}

#[test]
fn recorded_requests_are_acknowledged() {
    let mut service = ReceiverService::new(None);
    for _ in 0..11 {
        service.check_in(None, Some(false));
    }
    let message = request(signed_wire(), Some(false));
    let record = ReceiverService::record(&message);
    let response = service.acknowledge(&message, record.signature);
    assert_eq!(response.signature, SIGNATURE);
    assert_eq!(response.bundle_id, None);
    assert_eq!(response.request_id, "11");
    let response = service.acknowledge(&request(vec![], Some(false)), None);
    assert_eq!(response.signature, "");
    assert_eq!(
        service.counters().report(),
        "receiver: requests_received=11 transactions_recorded=2 bytes_received=65 \
         auth_failures=0 bad_flags=0"
    );
}

#[test]
fn numbers_are_written_in_decimal() {
    assert_eq!(decimal(0), "0");
    assert_eq!(decimal(9), "9");
    assert_eq!(decimal(10), "10");
    assert_eq!(decimal(u64::MAX), "18446744073709551615");
}

#[test]
fn texts_are_compared_by_their_characters() {
    assert!(same_text("", ""));
    assert!(!same_text("a", "A"));
    assert!(starts_with("https://x", "https://"));
    assert!(!starts_with("http://x", "https://"));
    assert!(!starts_with("ht", "https://"));
}
