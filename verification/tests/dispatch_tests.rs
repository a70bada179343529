use oak_xcm::call::SchemaTag;
use oak_xcm::dispatch::Error;
use oak_xcm::dispatch::Event;
use oak_xcm::dispatch::SendError;
use oak_xcm::dispatch::SendOutcome;
use oak_xcm::dispatch::after_transport;
use oak_xcm::dispatch::send_outcome_of;
use oak_xcm::executor::ExecutionOutcome;
use oak_xcm::executor::ensure_complete;
use oak_xcm::negotiate::FixedWeigher;
use oak_xcm::schedule::prepare_schedule_notify_in_unit;
use oak_xcm::schedule::prepare_schedule_xcmp_with_crate;
use oak_xcm::schedule::notify_in_unit_after_execution;
use oak_xcm::call::AccountId;
use oak_xcm::envelope::Instruction;
use oak_xcm::envelope::Junction;

fn sender() -> AccountId {
    AccountId { bytes: vec![9u8; 32] }
}

#[test]
fn transport_failure_raises_one_error_event_and_still_succeeds() {
    // Scenario: the transport rejects the envelope with an opaque
    // "Overflow" reason, aimed at sibling chain 2001.
    let result: Result<(), SendError> = Err(SendError { reason: b"Overflow".to_vec() });
    let (event, operation_result) = after_transport(
        result,
        2001,
        b"automation_time_schedule_notify".to_vec(),
    );
    match event {
        Event::ErrorSendingCall(reason, destination, label) => {
            assert_eq!(reason.reason, b"Overflow".to_vec());
            assert_eq!(destination, 2001);
            assert_eq!(label, b"automation_time_schedule_notify".to_vec());
        }
        Event::CallSent(..) => panic!("a rejected send must not raise a call-sent event"),
    }
    assert!(operation_result.is_ok());
}

#[test]
fn accepted_send_raises_the_call_sent_event() {
    let (event, operation_result) = after_transport(Ok(()), 2114, b"label".to_vec());
    match event {
        Event::CallSent(label) => assert_eq!(label, b"label".to_vec()),
        Event::ErrorSendingCall(..) => panic!("an accepted send must not raise an error event"),
    }
    assert!(operation_result.is_ok());
}

#[test]
fn send_outcome_mirrors_the_transport_verdict() {
    assert!(matches!(send_outcome_of(Ok(()), 7, b"l".to_vec()), SendOutcome::Sent));
    match send_outcome_of(
        Err(SendError { reason: b"Unroutable".to_vec() }),
        7,
        b"l".to_vec(),
    ) {
        SendOutcome::SendFailed { reason, destination, label } => {
            assert_eq!(reason.reason, b"Unroutable".to_vec());
            assert_eq!(destination, 7);
            assert_eq!(label, b"l".to_vec());
        }
        SendOutcome::Sent => panic!("a rejection must fold to a failure outcome"),
    }
}

#[test]
fn incomplete_local_execution_is_a_hard_error_with_no_send() {
    // Scenario: the engine completes only the withdraw step of the local
    // envelope before reporting incompletion. The operation must fail hard
    // and release no send plan, so no call-sent event can ever be raised.
    let plan = prepare_schedule_notify_in_unit(
        b"task".to_vec(),
        vec![60],
        b"\x01\x02".to_vec(),
        1_000_000,
        sender(),
        2000,
        2114,
        b"automation_time_schedule_xcmp_in_unit".to_vec(),
        SchemaTag::V1,
    );
    let outcome = ExecutionOutcome::Incomplete {
        weight_used: 1_000_000_000,
        reason: b"FailedToTransactAsset".to_vec(),
    };
    let gate = notify_in_unit_after_execution(plan.remote, &outcome);
    assert!(gate.is_err());
    assert!(matches!(gate, Err(Error::XcmExecutionFailed)));
}

#[test]
fn complete_local_execution_releases_the_remote_plan() {
    let plan = prepare_schedule_notify_in_unit(
        b"task".to_vec(),
        vec![60],
        b"\x01\x02".to_vec(),
        1_000_000,
        sender(),
        2000,
        2114,
        b"automation_time_schedule_xcmp_in_unit".to_vec(),
        SchemaTag::V1,
    );
    let local_len = plan.local_envelope.instructions.len();
    assert_eq!(local_len, 2);
    assert_eq!(plan.execution_weight_limit, 11_000_000_000);
    assert_eq!(plan.execution_credit_limit, 11_000_000_000);
    let outcome = ExecutionOutcome::Complete { weight_used: 2_000_000_000 };
    let remote = notify_in_unit_after_execution(plan.remote, &outcome).expect("complete execution");
    assert_eq!(remote.destination_para_id, 2114);
    assert_eq!(remote.label, b"automation_time_schedule_xcmp_in_unit".to_vec());
    assert_eq!(remote.envelope.instructions.len(), 5);
    assert!(matches!(remote.envelope.instructions[0], Instruction::ReserveAssetDeposited(..)));
    assert!(matches!(remote.envelope.instructions[2], Instruction::Transact { .. }));
}

#[test]
fn ensure_complete_accepts_only_completion() {
    assert_eq!(ensure_complete(&ExecutionOutcome::Complete { weight_used: 5 }), Ok(5));
    assert!(ensure_complete(&ExecutionOutcome::Incomplete {
        weight_used: 5,
        reason: b"Barrier".to_vec(),
    })
    .is_err());
    assert!(ensure_complete(&ExecutionOutcome::Error { reason: b"Barrier".to_vec() }).is_err());
}

#[test]
fn crate_assisted_plan_targets_the_scheduler_chain() {
    let weigher = FixedWeigher { unit_weight: 1_000_000_000, max_instructions: 100 };
    let plan = prepare_schedule_xcmp_with_crate(
        b"task".to_vec(),
        vec![3600, 7200],
        b"\x2a\x00".to_vec(),
        6_000_000_000,
        2000,
        2114,
        b"automation_time_schedule_xcmp_with_crate".to_vec(),
        SchemaTag::V1,
        &weigher,
    )
    .expect("the draft weighs");
    assert_eq!(plan.destination_para_id, 2114);
    assert_eq!(plan.destination.parents, 1);
    assert_eq!(plan.destination.interior.len(), 1);
    assert!(matches!(plan.destination.interior[0], Junction::Parachain(2114)));
    assert_eq!(plan.envelope.instructions.len(), 5);
    match &plan.envelope.instructions[0] {
        Instruction::WithdrawAsset(assets) => {
            assert_eq!(assets.len(), 1);
            assert_eq!(assets[0].amount, 7_000_000_000);
            assert_eq!(assets[0].location.parents, 0);
            assert!(assets[0].location.interior.is_empty());
        }
        _ => unreachable!(),
    }
}
