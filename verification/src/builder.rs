//! The instruction builder: canonical envelopes and their `Transact` steps.
//!
//! The canonical envelope is five instructions in a fixed order: withdraw
//! the fee, buy execution, transact, refund the surplus, deposit what is
//! left. Withdraw-before-buy-before-transact means the remote side never
//! sees a transact attempt without committed fee payment; refund-then-
//! deposit reclaims unused fee exactly once whether or not the inner call
//! succeeded.

use vstd::prelude::*;
use crate::call::AccountId;
use crate::call::CallData;
use crate::call::OakChainCallBuilder;
use crate::call::RemoteCall;
use crate::call::SchemaTag;
use crate::call::TaskHash;
use crate::call::encode_call;
use crate::call::schema_supports;
use crate::call::spec_encode_call;
use crate::envelope::Asset;
use crate::envelope::AssetData;
use crate::envelope::AssetFilter;
use crate::envelope::AssetFilterData;
use crate::envelope::Envelope;
use crate::envelope::EnvelopeData;
use crate::envelope::Instruction;
use crate::envelope::InstructionData;
use crate::envelope::Location;
use crate::envelope::LocationData;
use crate::envelope::OriginKind;
use crate::envelope::WeightLimit;
use crate::envelope::account_location;
use crate::envelope::assets_view;
use crate::envelope::copy_asset;
use crate::envelope::instruction_view;
use crate::envelope::instructions_view;
use crate::envelope::lemma_instructions_view_push;
use crate::negotiate::FixedWeigher;
use crate::negotiate::WeighError;
use crate::negotiate::apply_limit;
use crate::negotiate::negotiate;
use crate::negotiate::spec_weigh;

verus! {

/// The conservative weight ceiling a `Transact` step declares, and the
/// provisional limit a draft envelope is built with for Pass-1 measurement.
pub const PROVISIONAL_WEIGHT: u64 = 6_000_000_000;

/// The canonical five-instruction envelope over mathematical values.
pub open spec fn build_envelope_data(
    fee: AssetData,
    transact: InstructionData,
    beneficiary: LocationData,
    weight_limit: WeightLimit,
) -> EnvelopeData {
    EnvelopeData {
        instructions: seq![
            InstructionData::WithdrawAsset(seq![fee]),
            InstructionData::BuyExecution { fees: fee, weight_limit },
            transact,
            InstructionData::RefundSurplus,
            InstructionData::DepositAsset {
                assets: AssetFilterData::WildAll,
                max_assets: 1,
                beneficiary,
            },
        ],
    }
}

/// Every built envelope has exactly five instructions, in the fixed order
/// withdraw, buy-execution, transact, refund-surplus, deposit.
pub proof fn lemma_envelope_shape(
    fee: AssetData,
    transact: InstructionData,
    beneficiary: LocationData,
    weight_limit: WeightLimit,
)
    ensures
        build_envelope_data(fee, transact, beneficiary, weight_limit).instructions.len() == 5,
        build_envelope_data(fee, transact, beneficiary, weight_limit).instructions[0]
            == InstructionData::WithdrawAsset(seq![fee]),
        build_envelope_data(fee, transact, beneficiary, weight_limit).instructions[1] == (
        InstructionData::BuyExecution { fees: fee, weight_limit }),
        build_envelope_data(fee, transact, beneficiary, weight_limit).instructions[2] == transact,
        build_envelope_data(fee, transact, beneficiary, weight_limit).instructions[3]
            == InstructionData::RefundSurplus,
        build_envelope_data(fee, transact, beneficiary, weight_limit).instructions[4] == (
        InstructionData::DepositAsset {
            assets: AssetFilterData::WildAll,
            max_assets: 1,
            beneficiary,
        }),
{
}

/// Builds the canonical envelope: pay the fee from the holding register,
/// buy execution up to `weight_limit`, run the transact step, refund unused
/// credit, and deposit everything left to `refund_beneficiary`.
pub fn build_envelope(
    fee_asset: Asset,
    transact_instruction: Instruction,
    refund_beneficiary: Location,
    weight_limit: WeightLimit,
) -> (env: Envelope)
    ensures
        env@ == build_envelope_data(
            fee_asset@,
            transact_instruction@,
            refund_beneficiary@,
            weight_limit,
        ),
{
    let ghost feev = fee_asset@;
    let ghost transactv = transact_instruction@;
    let ghost benv = refund_beneficiary@;
    let fee_for_buy = copy_asset(&fee_asset);
    let mut withdraw_assets: Vec<Asset> = Vec::new();
    withdraw_assets.push(fee_asset);
    proof {
        assert(withdraw_assets@.drop_first() =~= Seq::<Asset>::empty());
        assert(assets_view(Seq::<Asset>::empty()) == Seq::<AssetData>::empty());
        assert(assets_view(withdraw_assets@) =~= seq![feev]);
    }
    let i0 = Instruction::WithdrawAsset(withdraw_assets);
    let i1 = Instruction::BuyExecution { fees: fee_for_buy, weight_limit };
    let i3 = Instruction::RefundSurplus;
    let i4 = Instruction::DepositAsset {
        assets: AssetFilter::WildAll,
        max_assets: 1,
        beneficiary: refund_beneficiary,
    };
    assert(instruction_view(i0) == InstructionData::WithdrawAsset(seq![feev]));
    assert(instruction_view(i1) == (InstructionData::BuyExecution { fees: feev, weight_limit }));
    assert(instruction_view(i4) == (InstructionData::DepositAsset {
        assets: AssetFilterData::WildAll,
        max_assets: 1,
        beneficiary: benv,
    }));
    let mut instructions: Vec<Instruction> = Vec::new();
    push_with_view(&mut instructions, i0);
    push_with_view(&mut instructions, i1);
    push_with_view(&mut instructions, transact_instruction);
    push_with_view(&mut instructions, i3);
    push_with_view(&mut instructions, i4);
    proof {
        assert(instructions_view(Seq::<Instruction>::empty()) == Seq::<InstructionData>::empty());
        assert(instructions_view(instructions@) =~= build_envelope_data(
            feev,
            transactv,
            benv,
            weight_limit,
        ).instructions);
    }
    Envelope { instructions }
}

/// Appends an instruction, appending its view.
pub(crate) fn push_with_view(instructions: &mut Vec<Instruction>, i: Instruction)
    ensures
        final(instructions)@ == old(instructions)@.push(i),
        instructions_view(final(instructions)@) == instructions_view(old(instructions)@).push(
            instruction_view(i),
        ),
{
    proof {
        lemma_instructions_view_push(instructions@, i);
    }
    instructions.push(i);
}

/// The alternate reserve-backed envelope: acknowledge the reserve deposit,
/// buy execution, transact, refund, and deposit a definite asset set to the
/// beneficiary.
pub open spec fn build_reserve_envelope_data(
    reserve: Seq<AssetData>,
    fee: AssetData,
    weight_limit: WeightLimit,
    transact: InstructionData,
    deposit: Seq<AssetData>,
    beneficiary: LocationData,
) -> EnvelopeData {
    EnvelopeData {
        instructions: seq![
            InstructionData::ReserveAssetDeposited(reserve),
            InstructionData::BuyExecution { fees: fee, weight_limit },
            transact,
            InstructionData::RefundSurplus,
            InstructionData::DepositAsset {
                assets: AssetFilterData::Definite(deposit),
                max_assets: 1,
                beneficiary,
            },
        ],
    }
}

/// Builds the reserve-backed envelope used when the fee is provided by a
/// reserve deposit rather than a withdrawal.
pub fn build_reserve_envelope(
    reserve_assets: Vec<Asset>,
    fee_asset: Asset,
    weight_limit: WeightLimit,
    transact_instruction: Instruction,
    deposit_assets: Vec<Asset>,
    beneficiary: Location,
) -> (env: Envelope)
    ensures
        env@ == build_reserve_envelope_data(
            assets_view(reserve_assets@),
            fee_asset@,
            weight_limit,
            transact_instruction@,
            assets_view(deposit_assets@),
            beneficiary@,
        ),
{
    let ghost reservev = assets_view(reserve_assets@);
    let ghost feev = fee_asset@;
    let ghost transactv = transact_instruction@;
    let ghost depositv = assets_view(deposit_assets@);
    let ghost benv = beneficiary@;
    let i0 = Instruction::ReserveAssetDeposited(reserve_assets);
    let i1 = Instruction::BuyExecution { fees: fee_asset, weight_limit };
    let i3 = Instruction::RefundSurplus;
    let i4 = Instruction::DepositAsset {
        assets: AssetFilter::Definite(deposit_assets),
        max_assets: 1,
        beneficiary,
    };
    assert(instruction_view(i0) == InstructionData::ReserveAssetDeposited(reservev));
    assert(instruction_view(i1) == (InstructionData::BuyExecution { fees: feev, weight_limit }));
    assert(instruction_view(i4) == (InstructionData::DepositAsset {
        assets: AssetFilterData::Definite(depositv),
        max_assets: 1,
        beneficiary: benv,
    }));
    let mut instructions: Vec<Instruction> = Vec::new();
    push_with_view(&mut instructions, i0);
    push_with_view(&mut instructions, i1);
    push_with_view(&mut instructions, transact_instruction);
    push_with_view(&mut instructions, i3);
    push_with_view(&mut instructions, i4);
    proof {
        assert(instructions_view(Seq::<Instruction>::empty()) == Seq::<InstructionData>::empty());
        assert(instructions_view(instructions@) =~= build_reserve_envelope_data(
            reservev,
            feev,
            weight_limit,
            transactv,
            depositv,
            benv,
        ).instructions);
    }
    Envelope { instructions }
}

/// Wraps a fully built inner envelope as the payload of a
/// `DepositReserveAsset` instruction: the one-hop forwarding path used when
/// the sender, the fee payer and the call target are three different
/// systems. The inner envelope is built by the same builder contract.
pub fn create_deposit_reserve_instruction(
    assets: AssetFilter,
    dest: Location,
    inner: Envelope,
) -> (r: Instruction)
    ensures
        r@ == (InstructionData::DepositReserveAsset {
            assets: assets@,
            dest: dest@,
            inner: inner@,
        }),
{
    Instruction::DepositReserveAsset { assets, dest, inner }
}

/// The `Transact` instruction that carries `call` encoded under `schema`,
/// under the sovereign-account origin and the conservative weight ceiling.
pub open spec fn transact_data(call: CallData, schema: SchemaTag) -> InstructionData {
    InstructionData::Transact {
        origin_kind: OriginKind::SovereignAccount,
        require_weight_at_most: PROVISIONAL_WEIGHT,
        call: spec_encode_call(call, schema),
    }
}

/// Wraps an already-built remote call in its `Transact` instruction.
pub fn create_transact_instruction(call: &RemoteCall, schema: SchemaTag) -> (r: Instruction)
    requires
        call.wf(),
        schema_supports(schema, call@),
    ensures
        r@ == transact_data(call@, schema),
{
    let encoded = encode_call(call, schema);
    Instruction::Transact {
        origin_kind: OriginKind::SovereignAccount,
        require_weight_at_most: PROVISIONAL_WEIGHT,
        call: encoded,
    }
}

/// The `Transact` step that schedules a notification task.
pub fn create_schedule_notify_instruction(
    provided_id: Vec<u8>,
    execution_times: Vec<u64>,
    message: Vec<u8>,
    schema: SchemaTag,
) -> (r: Instruction)
    requires
        provided_id@.len() <= u32::MAX,
        execution_times@.len() <= u32::MAX,
        message@.len() <= u32::MAX,
        schema == SchemaTag::V1 || schema == SchemaTag::V2,
    ensures
        r@ == transact_data(
            CallData::ScheduleNotifyTask {
                provided_id: provided_id@,
                execution_times: execution_times@,
                message: message@,
            },
            schema,
        ),
{
    let call = OakChainCallBuilder::automation_time_schedule_notify(
        provided_id,
        execution_times,
        message,
    );
    create_transact_instruction(&call, schema)
}

/// The `Transact` step that schedules a cross-chain task.
pub fn create_schedule_xcmp_instruction(
    para_id: u32,
    provided_id: Vec<u8>,
    execution_times: Vec<u64>,
    returnable_call: Vec<u8>,
    weight_at_most: u64,
    schema: SchemaTag,
) -> (r: Instruction)
    requires
        provided_id@.len() <= u32::MAX,
        execution_times@.len() <= u32::MAX,
        returnable_call@.len() <= u32::MAX,
        schema == SchemaTag::V1 || schema == SchemaTag::V2,
    ensures
        r@ == transact_data(
            CallData::ScheduleXcmpTask {
                provided_id: provided_id@,
                execution_times: execution_times@,
                para_id,
                returnable_call: returnable_call@,
                weight_at_most,
            },
            schema,
        ),
{
    let call = OakChainCallBuilder::automation_time_schedule_xcmp(
        provided_id,
        execution_times,
        para_id,
        returnable_call,
        weight_at_most,
    );
    create_transact_instruction(&call, schema)
}

/// The `Transact` step that schedules a native balance transfer.
pub fn create_schedule_native_transfer_instruction(
    provided_id: Vec<u8>,
    execution_times: Vec<u64>,
    recipient_id: AccountId,
    amount: u128,
    schema: SchemaTag,
) -> (r: Instruction)
    requires
        provided_id@.len() <= u32::MAX,
        execution_times@.len() <= u32::MAX,
        recipient_id.wf(),
        schema == SchemaTag::V1 || schema == SchemaTag::V2,
    ensures
        r@ == transact_data(
            CallData::ScheduleNativeTransferTask {
                provided_id: provided_id@,
                execution_times: execution_times@,
                recipient: recipient_id@,
                amount,
            },
            schema,
        ),
{
    let call = OakChainCallBuilder::automation_time_schedule_native_transfer(
        provided_id,
        execution_times,
        recipient_id,
        amount,
    );
    create_transact_instruction(&call, schema)
}

/// The `Transact` step that cancels a scheduled task.
pub fn create_cancel_task_instruction(task_id: TaskHash, schema: SchemaTag) -> (r: Instruction)
    requires
        task_id.wf(),
        schema == SchemaTag::V1 || schema == SchemaTag::V2,
    ensures
        r@ == transact_data(CallData::ScheduleCancelTask { task_id: task_id@ }, schema),
{
    let call = OakChainCallBuilder::automation_time_cancel_task(task_id);
    create_transact_instruction(&call, schema)
}

/// Builds the canonical envelope around `transact_instruction`, with the
/// refund going to `refund_account`, and negotiates its weight: the draft
/// is built with the provisional limit, weighed, and rebuilt with the
/// measured value. A draft the model cannot weigh fails fatally.
pub fn create_xcm_instruction_set(
    fee_asset: Asset,
    transact_instruction: Instruction,
    refund_account: AccountId,
    weigher: &FixedWeigher,
) -> (r: Result<Envelope, WeighError>)
    ensures
        ({
            let beneficiary = LocationData {
                parents: 0,
                interior: seq![
                    crate::envelope::JunctionData::AccountId32(refund_account@),
                ],
            };
            let draft = build_envelope_data(
                fee_asset@,
                transact_instruction@,
                beneficiary,
                WeightLimit::Limited(PROVISIONAL_WEIGHT),
            );
            match r {
                Ok(env) => spec_weigh(draft, weigher.unit_weight, weigher.max_instructions)
                    matches Some(w) && env@ == apply_limit(draft, w),
                Err(_) => spec_weigh(draft, weigher.unit_weight, weigher.max_instructions)
                    is None,
            }
        }),
{
    let beneficiary = account_location(refund_account);
    let draft = build_envelope(
        fee_asset,
        transact_instruction,
        beneficiary,
        WeightLimit::Limited(PROVISIONAL_WEIGHT),
    );
    match negotiate(draft, weigher) {
        Ok((env, _measured)) => Ok(env),
        Err(e) => Err(e),
    }
}

} // verus!
