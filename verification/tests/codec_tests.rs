use oak_xcm::call::AccountId;
use oak_xcm::call::OakChainCallBuilder;
use oak_xcm::call::RemoteCall;
use oak_xcm::call::SchemaTag;
use oak_xcm::call::TaskHash;
use oak_xcm::call::TestChainCallBuilder;
use oak_xcm::call::encode_call;
use oak_xcm::call::try_encode_call;
use oak_xcm::codec::decode_call;
use parity_scale_codec::Encode;

fn account(fill: u8) -> AccountId {
    AccountId { bytes: vec![fill; 32] }
}

fn task_hash(fill: u8) -> TaskHash {
    TaskHash { bytes: vec![fill; 32] }
}

fn notify_call() -> RemoteCall {
    OakChainCallBuilder::automation_time_schedule_notify(
        b"task-1".to_vec(),
        vec![3600, 7200],
        b"hello".to_vec(),
    )
}

fn xcmp_call() -> RemoteCall {
    OakChainCallBuilder::automation_time_schedule_xcmp(
        b"task-2".to_vec(),
        vec![600],
        2114,
        b"\x0a\x01\x02".to_vec(),
        5_000_000_000,
    )
}

#[test]
fn encode_is_deterministic() {
    let a = encode_call(&notify_call(), SchemaTag::V1);
    let b = encode_call(&notify_call(), SchemaTag::V1);
    assert_eq!(a, b);
    let c = encode_call(&xcmp_call(), SchemaTag::V2);
    let d = encode_call(&xcmp_call(), SchemaTag::V2);
    assert_eq!(c, d);
}

#[test]
fn notify_encoding_is_byte_exact() {
    let encoded = encode_call(&notify_call(), SchemaTag::V1);
    let mut expected: Vec<u8> = vec![60, 0];
    expected.extend(b"task-1".to_vec().encode());
    expected.extend(vec![3600u64, 7200u64].encode());
    expected.extend(b"hello".to_vec().encode());
    assert_eq!(encoded, expected);
}

#[test]
fn remark_encoding_is_byte_exact() {
    let call = OakChainCallBuilder::remark_with_event(b"ping".to_vec());
    let encoded = encode_call(&call, SchemaTag::V1);
    let mut expected: Vec<u8> = vec![0, 8];
    expected.extend(b"ping".to_vec().encode());
    assert_eq!(encoded, expected);
}

#[test]
fn xcmp_encoding_is_byte_exact_v1() {
    let encoded = encode_call(&xcmp_call(), SchemaTag::V1);
    let mut expected: Vec<u8> = vec![60, 2];
    expected.extend(b"task-2".to_vec().encode());
    expected.extend(vec![600u64].encode());
    expected.extend(2114u32.encode());
    expected.extend(b"\x0a\x01\x02".to_vec().encode());
    expected.extend(5_000_000_000u64.encode());
    assert_eq!(encoded, expected);
}

#[test]
fn xcmp_encoding_moves_para_id_first_under_v2() {
    let encoded = encode_call(&xcmp_call(), SchemaTag::V2);
    let mut expected: Vec<u8> = vec![60, 2];
    expected.extend(2114u32.encode());
    expected.extend(b"task-2".to_vec().encode());
    expected.extend(vec![600u64].encode());
    expected.extend(b"\x0a\x01\x02".to_vec().encode());
    expected.extend(5_000_000_000u64.encode());
    assert_eq!(encoded, expected);
}

#[test]
fn native_transfer_encoding_is_byte_exact() {
    let call = OakChainCallBuilder::automation_time_schedule_native_transfer(
        b"task-3".to_vec(),
        vec![60, 120, 180],
        account(7),
        1_000_000_000_000u128,
    );
    let encoded = encode_call(&call, SchemaTag::V1);
    let mut expected: Vec<u8> = vec![60, 3];
    expected.extend(b"task-3".to_vec().encode());
    expected.extend(vec![60u64, 120u64, 180u64].encode());
    expected.extend([7u8; 32].encode());
    expected.extend(1_000_000_000_000u128.encode());
    assert_eq!(encoded, expected);
}

#[test]
fn cancel_encoding_is_byte_exact() {
    let call = OakChainCallBuilder::automation_time_cancel_task(task_hash(0xab));
    let encoded = encode_call(&call, SchemaTag::V1);
    let mut expected: Vec<u8> = vec![60, 4];
    expected.extend([0xabu8; 32].encode());
    assert_eq!(encoded, expected);
}

#[test]
fn force_send_balance_encoding_is_byte_exact() {
    let call = TestChainCallBuilder::force_send_balance(account(1), account(2), 555u128);
    let encoded = encode_call(&call, SchemaTag::TestChain);
    let mut expected: Vec<u8> = vec![60, 1];
    expected.extend([1u8; 32].encode());
    expected.extend([2u8; 32].encode());
    expected.extend(555u128.encode());
    assert_eq!(encoded, expected);
}

#[test]
fn cancel_encodes_differently_under_each_schema() {
    let under_v1 = encode_call(
        &OakChainCallBuilder::automation_time_cancel_task(task_hash(0x42)),
        SchemaTag::V1,
    );
    let under_v2 = encode_call(
        &OakChainCallBuilder::automation_time_cancel_task(task_hash(0x42)),
        SchemaTag::V2,
    );
    assert_ne!(under_v1, under_v2);
    assert_eq!(under_v1[1], 4);
    assert_eq!(under_v2[1], 1);
}

#[test]
fn xcmp_encodes_differently_under_each_schema() {
    let under_v1 = encode_call(&xcmp_call(), SchemaTag::V1);
    let under_v2 = encode_call(&xcmp_call(), SchemaTag::V2);
    assert_ne!(under_v1, under_v2);
}

#[test]
fn length_prefixes_match_the_reference_codec() {
    for len in [0usize, 1, 63, 64, 1000, 16383, 16384, 20000] {
        let payload = vec![0x5au8; len];
        let call = OakChainCallBuilder::remark_with_event(payload.clone());
        let encoded = encode_call(&call, SchemaTag::V1);
        let mut expected: Vec<u8> = vec![0, 8];
        expected.extend(payload.encode());
        assert_eq!(encoded, expected, "length {len}");
    }
}

fn assert_round_trips(call: &RemoteCall, schema: SchemaTag) {
    let encoded = encode_call(call, schema);
    let decoded = decode_call(&encoded, schema).expect("decoding the encoder's output");
    let re_encoded = encode_call(&decoded, schema);
    assert_eq!(encoded, re_encoded);
}

#[test]
fn every_call_round_trips_under_its_schemas() {
    for schema in [SchemaTag::V1, SchemaTag::V2] {
        assert_round_trips(&OakChainCallBuilder::remark_with_event(b"x".to_vec()), schema);
        assert_round_trips(&notify_call(), schema);
        assert_round_trips(&xcmp_call(), schema);
        assert_round_trips(
            &OakChainCallBuilder::automation_time_schedule_native_transfer(
                b"id".to_vec(),
                vec![1, 2, 3],
                account(9),
                42u128,
            ),
            schema,
        );
        assert_round_trips(
            &OakChainCallBuilder::automation_time_cancel_task(task_hash(0x11)),
            schema,
        );
    }
    assert_round_trips(
        &TestChainCallBuilder::force_send_balance(account(3), account(4), 77u128),
        SchemaTag::TestChain,
    );
    assert_round_trips(
        &TestChainCallBuilder::remark_with_event(b"note".to_vec()),
        SchemaTag::TestChain,
    );
}

#[test]
fn decoded_notify_carries_the_original_fields() {
    let encoded = encode_call(&notify_call(), SchemaTag::V1);
    match decode_call(&encoded, SchemaTag::V1) {
        Some(RemoteCall::ScheduleNotifyTask { provided_id, execution_times, message }) => {
            assert_eq!(provided_id, b"task-1".to_vec());
            assert_eq!(execution_times, vec![3600, 7200]);
            assert_eq!(message, b"hello".to_vec());
        }
        other => panic!("decoded to the wrong variant: {:?}", other.is_some()),
    }
}

#[test]
fn decode_rejects_mangled_input() {
    let mut encoded = encode_call(&notify_call(), SchemaTag::V1);
    // Trailing garbage.
    encoded.push(0);
    assert!(decode_call(&encoded, SchemaTag::V1).is_none());
    encoded.pop();
    // Truncation.
    encoded.pop();
    assert!(decode_call(&encoded, SchemaTag::V1).is_none());
    // An unknown module discriminant.
    let mut wrong_pallet = encode_call(&notify_call(), SchemaTag::V1);
    wrong_pallet[0] = 61;
    assert!(decode_call(&wrong_pallet, SchemaTag::V1).is_none());
    // Too short to carry discriminants at all.
    assert!(decode_call(&vec![60], SchemaTag::V1).is_none());
    assert!(decode_call(&Vec::new(), SchemaTag::V1).is_none());
}

#[test]
fn unsupported_pairings_refuse_to_encode() {
    let force_send = TestChainCallBuilder::force_send_balance(account(1), account(2), 1u128);
    assert!(try_encode_call(&force_send, SchemaTag::V1).is_none());
    assert!(try_encode_call(&force_send, SchemaTag::V2).is_none());
    assert!(try_encode_call(&force_send, SchemaTag::TestChain).is_some());
    let notify = notify_call();
    assert!(try_encode_call(&notify, SchemaTag::TestChain).is_none());
    assert!(try_encode_call(&notify, SchemaTag::V1).is_some());
}

#[test]
fn decode_refuses_calls_outside_the_schema() {
    let force_send = TestChainCallBuilder::force_send_balance(account(1), account(2), 1u128);
    let encoded = encode_call(&force_send, SchemaTag::TestChain);
    // Under V2 the same discriminant pair means a cancel call whose body
    // has a different shape, so the bytes must not parse.
    assert!(decode_call(&encoded, SchemaTag::V2).is_none());
}

#[test]
fn empty_collections_round_trip() {
    let call = OakChainCallBuilder::automation_time_schedule_notify(
        Vec::new(),
        Vec::new(),
        Vec::new(),
    );
    let encoded = encode_call(&call, SchemaTag::V1);
    let mut expected: Vec<u8> = vec![60, 0];
    expected.extend(Vec::<u8>::new().encode());
    expected.extend(Vec::<u64>::new().encode());
    expected.extend(Vec::<u8>::new().encode());
    assert_eq!(encoded, expected);
    assert_round_trips(&call, SchemaTag::V1);
}

#[test]
fn extreme_values_round_trip() {
    let call = OakChainCallBuilder::automation_time_schedule_xcmp(
        b"id".to_vec(),
        vec![u64::MAX, 0],
        u32::MAX,
        Vec::new(),
        u64::MAX,
    );
    assert_round_trips(&call, SchemaTag::V1);
    assert_round_trips(&call, SchemaTag::V2);
    let transfer = OakChainCallBuilder::automation_time_schedule_native_transfer(
        Vec::new(),
        vec![0],
        account(0xff),
        u128::MAX,
    );
    let encoded = encode_call(&transfer, SchemaTag::V2);
    let mut expected: Vec<u8> = vec![60, 3];
    expected.extend(Vec::<u8>::new().encode());
    expected.extend(vec![0u64].encode());
    expected.extend([0xffu8; 32].encode());
    expected.extend(u128::MAX.encode());
    assert_eq!(encoded, expected);
    assert_round_trips(&transfer, SchemaTag::V2);
}
