use crosscall::boundary::{classify_status, BoundaryOutcome};
use crosscall::buffer::TransientBuffer;
use crosscall::context::CodeIdentity;
use crosscall::envelope::{encode_env, encode_info, BlockEnv, Coin, MessageInfo};
use crosscall::error::DispatchError;
use crosscall::stack::CallStackMetadata;

#[test]
fn zero_status_is_success_regardless_of_buffer() {
    let outcome = classify_status(
        0,
        TransientBuffer::filled(String::from("ignored")),
        String::from("default"),
    );
    assert!(matches!(outcome, BoundaryOutcome::Success));
}

#[test]
fn known_failure_uses_buffered_message_verbatim() {
    let outcome = classify_status(
        3,
        TransientBuffer::filled(String::from("out of gas in host")),
        String::from("default"),
    );
    match outcome {
        BoundaryOutcome::RecoverableError { message } => {
            assert_eq!(message, "out of gas in host");
        }
        _ => panic!("expected a recoverable error"),
    }
}

#[test]
fn known_failure_without_buffer_uses_default() {
    let outcome = classify_status(2, TransientBuffer::unset(), String::from("operation X failed"));
    match outcome {
        BoundaryOutcome::RecoverableError { message } => {
            assert_eq!(message, "operation X failed");
        }
        _ => panic!("expected a recoverable error"),
    }
}

#[test]
fn the_whole_known_failure_range_is_recoverable() {
    for status in 1..=5 {
        let outcome = classify_status(status, TransientBuffer::unset(), String::from("d"));
        assert!(matches!(outcome, BoundaryOutcome::RecoverableError { .. }));
    }
    let just_past = classify_status(6, TransientBuffer::unset(), String::from("d"));
    assert!(matches!(just_past, BoundaryOutcome::Unknown));
}

#[test]
fn unrecognized_status_is_unknown() {
    let high = classify_status(77, TransientBuffer::unset(), String::from("default"));
    assert!(matches!(high, BoundaryOutcome::Unknown));
    let negative = classify_status(-1, TransientBuffer::unset(), String::from("default"));
    assert!(matches!(negative, BoundaryOutcome::Unknown));
}

#[test]
fn transient_buffer_hands_out_its_payload_once() {
    let buffer = TransientBuffer::filled(vec![1u8, 2, 3]);
    assert!(buffer.is_filled());
    assert_eq!(buffer.consume(), Some(vec![1u8, 2, 3]));
    let empty: TransientBuffer<Vec<u8>> = TransientBuffer::unset();
    assert!(!empty.is_filled());
    assert_eq!(empty.consume(), None);
}

#[test]
fn code_identity_accepts_exactly_32_bytes() {
    let ok = CodeIdentity::from_bytes(vec![0x11u8; 32]);
    assert!(ok.is_some());
    assert_eq!(ok.unwrap().as_bytes(), &vec![0x11u8; 32]);
    assert!(CodeIdentity::from_bytes(vec![0x11u8; 31]).is_none());
    assert!(CodeIdentity::from_bytes(vec![0x11u8; 33]).is_none());
    assert!(CodeIdentity::from_bytes(Vec::new()).is_none());
}

#[test]
fn env_envelope_has_the_fixed_layout() {
    let env = BlockEnv { height: 1, time: 2, chain_id: String::from("c") };
    let bytes = encode_env(&env).unwrap();
    let mut expected = 1u64.to_le_bytes().to_vec();
    expected.extend_from_slice(&2u64.to_le_bytes());
    expected.extend_from_slice(&1u32.to_le_bytes());
    expected.extend_from_slice(b"c");
    assert_eq!(bytes, expected);
}

#[test]
fn info_envelope_has_the_fixed_layout() {
    let info = MessageInfo {
        sender: String::from("al"),
        funds: vec![Coin { denom: String::from("uatom"), amount: 7 }],
    };
    let bytes = encode_info(&info).unwrap();
    let mut expected = 2u32.to_le_bytes().to_vec();
    expected.extend_from_slice(b"al");
    expected.extend_from_slice(&1u32.to_le_bytes());
    expected.extend_from_slice(&5u32.to_le_bytes());
    expected.extend_from_slice(b"uatom");
    expected.extend_from_slice(&7u128.to_le_bytes());
    assert_eq!(bytes, expected);
}

#[test]
fn root_metadata_starts_at_depth_zero() {
    let root = CallStackMetadata::root(String::from("sender"));
    assert_eq!(root.depth, 0);
    assert_eq!(root.sender_address, "sender");
    assert!(root.delegate_context_address.is_none());
}

#[test]
fn each_hop_increments_depth_by_one() {
    let root = CallStackMetadata::root(String::from("sender"));
    let hop1 = root.next_for_call(5).unwrap();
    assert_eq!(hop1.depth, 1);
    assert!(hop1.delegate_context_address.is_none());
    let own = String::from("contractB");
    let hop2 = hop1.next_for_delegate(5, &own).unwrap();
    assert_eq!(hop2.depth, 2);
    assert_eq!(hop2.delegate_context_address.as_deref(), Some("contractB"));
    let hop3 = hop2.next_for_delegate(5, &String::from("contractC")).unwrap();
    assert_eq!(hop3.depth, 3);
    assert_eq!(hop3.delegate_context_address.as_deref(), Some("contractB"));
    assert_eq!(hop3.sender_address, "sender");
}

#[test]
fn a_hop_past_the_maximum_depth_is_refused() {
    let root = CallStackMetadata::root(String::from("sender"));
    let at_limit = CallStackMetadata { depth: 4, ..root };
    assert!(matches!(at_limit.next_for_call(4), Err(DispatchError::DepthExceeded)));
    assert!(matches!(
        at_limit.next_for_delegate(4, &String::from("x")),
        Err(DispatchError::DepthExceeded)
    ));
    let below_limit = CallStackMetadata { depth: 3, ..at_limit };
    assert!(below_limit.next_for_call(4).is_ok());
}

#[test]
fn error_descriptions_name_the_failure() {
    assert_eq!(DispatchError::GasExhausted.describe(), "gas budget exhausted");
    assert_eq!(DispatchError::DepthExceeded.describe(), "maximum call depth exceeded");
    let backend = DispatchError::RecoverableBackend { message: String::from("boom") };
    assert_eq!(backend.describe(), "boom");
}
