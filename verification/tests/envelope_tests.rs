use oak_xcm::builder::PROVISIONAL_WEIGHT;
use oak_xcm::builder::build_envelope;
use oak_xcm::builder::create_schedule_notify_instruction;
use oak_xcm::builder::create_xcm_instruction_set;
use oak_xcm::call::SchemaTag;
use oak_xcm::envelope::Asset;
use oak_xcm::envelope::AssetFilter;
use oak_xcm::envelope::Instruction;
use oak_xcm::envelope::Junction;
use oak_xcm::envelope::Location;
use oak_xcm::envelope::OriginKind;
use oak_xcm::envelope::WeightLimit;
use oak_xcm::envelope::sibling_sovereign_account;
use oak_xcm::negotiate::FixedWeigher;
use oak_xcm::negotiate::WeighError;
use oak_xcm::negotiate::negotiate;
use oak_xcm::negotiate::set_buy_execution_limit;
use oak_xcm::negotiate::weigh_envelope;

fn here_asset(amount: u128) -> Asset {
    Asset { location: Location { parents: 0, interior: Vec::new() }, amount }
}

fn notify_transact() -> Instruction {
    create_schedule_notify_instruction(
        b"task-1".to_vec(),
        vec![3600],
        b"msg".to_vec(),
        SchemaTag::V1,
    )
}

fn refund_location() -> Location {
    Location {
        parents: 0,
        interior: vec![Junction::AccountId32(sibling_sovereign_account(2000))],
    }
}

#[test]
fn built_envelope_has_the_five_instructions_in_order() {
    let env = build_envelope(
        here_asset(7_000_000_000),
        notify_transact(),
        refund_location(),
        WeightLimit::Limited(PROVISIONAL_WEIGHT),
    );
    assert_eq!(env.instructions.len(), 5);
    assert!(matches!(env.instructions[0], Instruction::WithdrawAsset(..)));
    assert!(matches!(env.instructions[1], Instruction::BuyExecution { .. }));
    assert!(matches!(env.instructions[2], Instruction::Transact { .. }));
    assert!(matches!(env.instructions[3], Instruction::RefundSurplus));
    assert!(matches!(env.instructions[4], Instruction::DepositAsset { .. }));
    match &env.instructions[0] {
        Instruction::WithdrawAsset(assets) => {
            assert_eq!(assets.len(), 1);
            assert_eq!(assets[0].amount, 7_000_000_000);
        }
        _ => unreachable!(),
    }
    match &env.instructions[2] {
        Instruction::Transact { origin_kind, require_weight_at_most, .. } => {
            assert!(matches!(origin_kind, OriginKind::SovereignAccount));
            assert_eq!(*require_weight_at_most, 6_000_000_000);
        }
        _ => unreachable!(),
    }
    match &env.instructions[4] {
        Instruction::DepositAsset { assets, max_assets, .. } => {
            assert!(matches!(assets, AssetFilter::WildAll));
            assert_eq!(*max_assets, 1);
        }
        _ => unreachable!(),
    }
}

#[test]
fn negotiated_weight_stays_under_the_provisional_constant() {
    // Scenario: a 7e9-unit fee at the local ("here") location and a
    // transact ceiling of 6e9. The Pass-1 draft uses the provisional
    // constant 6e9 as its limit; the measured weight must not exceed it.
    let weigher = FixedWeigher { unit_weight: 1_000_000_000, max_instructions: 100 };
    let envelope = create_xcm_instruction_set(
        here_asset(7_000_000_000),
        notify_transact(),
        sibling_sovereign_account(2000),
        &weigher,
    )
    .expect("the draft must be weighable");
    match &envelope.instructions[1] {
        Instruction::BuyExecution { weight_limit, .. } => match weight_limit {
            WeightLimit::Limited(w) => {
                assert_eq!(*w, 5_000_000_000);
                assert!(*w <= PROVISIONAL_WEIGHT);
            }
            WeightLimit::Unlimited => panic!("the negotiated limit must be bounded"),
        },
        _ => unreachable!(),
    }
}

#[test]
fn reweighing_the_corrected_envelope_reports_the_same_total() {
    let weigher = FixedWeigher { unit_weight: 200, max_instructions: 10 };
    let draft = build_envelope(
        here_asset(1),
        notify_transact(),
        refund_location(),
        WeightLimit::Limited(PROVISIONAL_WEIGHT),
    );
    let pass1 = weigh_envelope(&draft, &weigher).expect("draft weighs");
    let (corrected, measured) = negotiate(draft, &weigher).expect("negotiation succeeds");
    assert_eq!(measured, pass1);
    let pass2 = weigh_envelope(&corrected, &weigher).expect("corrected envelope weighs");
    assert_eq!(pass2, pass1);
}

#[test]
fn pass_two_rewrites_only_the_buy_execution_limit() {
    let draft = build_envelope(
        here_asset(9),
        notify_transact(),
        refund_location(),
        WeightLimit::Limited(PROVISIONAL_WEIGHT),
    );
    let rewritten = set_buy_execution_limit(draft, 1234);
    assert_eq!(rewritten.instructions.len(), 5);
    assert!(matches!(rewritten.instructions[0], Instruction::WithdrawAsset(..)));
    match &rewritten.instructions[1] {
        Instruction::BuyExecution { weight_limit, .. } => {
            assert_eq!(*weight_limit, WeightLimit::Limited(1234));
        }
        _ => unreachable!(),
    }
    assert!(matches!(rewritten.instructions[2], Instruction::Transact { .. }));
    assert!(matches!(rewritten.instructions[3], Instruction::RefundSurplus));
    assert!(matches!(rewritten.instructions[4], Instruction::DepositAsset { .. }));
}

#[test]
fn weighing_fails_fatally_on_an_oversized_sequence() {
    let weigher = FixedWeigher { unit_weight: 1, max_instructions: 3 };
    let draft = build_envelope(
        here_asset(1),
        notify_transact(),
        refund_location(),
        WeightLimit::Unlimited,
    );
    assert_eq!(weigh_envelope(&draft, &weigher), Err(WeighError::TooManyInstructions));
    assert!(negotiate(draft, &weigher).is_err());
}

#[test]
fn weighing_fails_fatally_on_overflow() {
    let weigher = FixedWeigher { unit_weight: u64::MAX, max_instructions: 10 };
    let draft = build_envelope(
        here_asset(1),
        notify_transact(),
        refund_location(),
        WeightLimit::Unlimited,
    );
    assert_eq!(weigh_envelope(&draft, &weigher), Err(WeighError::WeightOverflow));
}

#[test]
fn sovereign_account_is_the_tagged_padded_chain_id() {
    let account = sibling_sovereign_account(2000);
    let mut expected: Vec<u8> = Vec::new();
    expected.extend(b"sibl");
    expected.extend(2000u32.to_le_bytes());
    expected.extend([0u8; 24]);
    assert_eq!(account.bytes, expected);
}

#[test]
fn forwarding_instruction_nests_a_built_envelope() {
    let inner = build_envelope(
        here_asset(3),
        notify_transact(),
        refund_location(),
        WeightLimit::Unlimited,
    );
    let nested = oak_xcm::builder::create_deposit_reserve_instruction(
        AssetFilter::WildAll,
        Location { parents: 1, interior: vec![Junction::Parachain(2114)] },
        inner,
    );
    match nested {
        Instruction::DepositReserveAsset { inner, dest, .. } => {
            assert_eq!(inner.instructions.len(), 5);
            assert_eq!(dest.parents, 1);
        }
        _ => unreachable!(),
    }
}
