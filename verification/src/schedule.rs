//! The scheduling operations: each one's pure compute part.
//!
//! An operation is split at the collaborator boundary. Everything up to the
//! transport or the execution engine — building the call, the envelope, the
//! destination and the fee — is computed here and handed back as a plan;
//! the caller performs the outside call and feeds the verdict back into
//! [`notify_in_unit_after_execution`] or
//! [`crate::dispatch::after_transport`].

use vstd::prelude::*;
use crate::builder::PROVISIONAL_WEIGHT;
use crate::builder::build_envelope_data;
use crate::builder::build_reserve_envelope;
use crate::builder::build_reserve_envelope_data;
use crate::builder::create_schedule_xcmp_instruction;
use crate::builder::create_xcm_instruction_set;
use crate::builder::push_with_view;
use crate::builder::transact_data;
use crate::call::AccountId;
use crate::call::CallData;
use crate::call::SchemaTag;
use crate::dispatch::Error;
use crate::dispatch::SendPlan;
use crate::envelope::Asset;
use crate::envelope::AssetData;
use crate::envelope::AssetFilter;
use crate::envelope::AssetFilterData;
use crate::envelope::Envelope;
use crate::envelope::EnvelopeData;
use crate::envelope::Instruction;
use crate::envelope::InstructionData;
use crate::envelope::JunctionData;
use crate::envelope::Location;
use crate::envelope::LocationData;
use crate::envelope::WeightLimit;
use crate::envelope::here_location;
use crate::envelope::instruction_view;
use crate::envelope::instructions_view;
use crate::envelope::lemma_assets_view_singleton;
use crate::envelope::sibling_account_bytes;
use crate::envelope::sibling_parachain_location;
use crate::envelope::sibling_sovereign_account;
use crate::executor::ExecutionOutcome;
use crate::executor::ensure_complete;
use crate::negotiate::FixedWeigher;
use crate::negotiate::WeighError;
use crate::negotiate::apply_limit;
use crate::negotiate::spec_weigh;

verus! {

/// The fee withdrawn from the sovereign account on the crate-assisted
/// path; a fixed provisional amount until fees are negotiated.
pub const XCMP_FEE_AMOUNT: u128 = 7_000_000_000;

/// The fee moved on the in-unit path.
pub const IN_UNIT_FEE_AMOUNT: u128 = 10_000_000_000;

/// The weight and credit allowance for local execution on the in-unit path.
pub const IN_UNIT_EXECUTION_LIMIT: u64 = 11_000_000_000;

/// A fungible amount of the executing chain's own token.
pub open spec fn here_asset(amount: u128) -> AssetData {
    AssetData { location: LocationData { parents: 0, interior: Seq::empty() }, amount }
}

/// A fungible amount of a sibling chain's token.
pub open spec fn sibling_asset(para_id: u32, amount: u128) -> AssetData {
    AssetData {
        location: LocationData {
            parents: 1,
            interior: seq![JunctionData::Parachain(para_id)],
        },
        amount,
    }
}

/// The location of a sibling chain, as a dispatch destination.
pub open spec fn parachain_destination(para_id: u32) -> LocationData {
    LocationData { parents: 1, interior: seq![JunctionData::Parachain(para_id)] }
}

/// The refund beneficiary of the crate-assisted path: this chain's
/// sovereign account on the scheduler chain.
pub open spec fn sovereign_beneficiary(self_para_id: u32) -> LocationData {
    LocationData {
        parents: 0,
        interior: seq![JunctionData::AccountId32(sibling_account_bytes(self_para_id))],
    }
}

fn make_here_asset(amount: u128) -> (r: Asset)
    ensures
        r@ == here_asset(amount),
{
    Asset { location: here_location(), amount }
}

fn make_sibling_asset(para_id: u32, amount: u128) -> (r: Asset)
    ensures
        r@ == sibling_asset(para_id, amount),
{
    Asset { location: sibling_parachain_location(para_id), amount }
}

/// The draft envelope of the crate-assisted path, before negotiation.
pub open spec fn xcmp_with_crate_draft(
    provided_id: Seq<u8>,
    execution_times: Seq<u64>,
    returnable_call: Seq<u8>,
    weight_at_most: u64,
    self_para_id: u32,
    schema: SchemaTag,
) -> EnvelopeData {
    build_envelope_data(
        here_asset(XCMP_FEE_AMOUNT),
        transact_data(
            CallData::ScheduleXcmpTask {
                provided_id,
                execution_times,
                para_id: self_para_id,
                returnable_call,
                weight_at_most,
            },
            schema,
        ),
        sovereign_beneficiary(self_para_id),
        WeightLimit::Limited(PROVISIONAL_WEIGHT),
    )
}

/// Compute part of the crate-assisted schedule operation: encode the
/// schedule call with `returnable_call` as its payload, wrap it in the
/// canonical envelope with the fee drawn from this chain's sovereign
/// account, negotiate the weight, and aim the result at the scheduler
/// chain. The transport call itself stays with the caller.
pub fn prepare_schedule_xcmp_with_crate(
    provided_id: Vec<u8>,
    execution_times: Vec<u64>,
    returnable_call: Vec<u8>,
    weight_at_most: u64,
    self_para_id: u32,
    oak_para_id: u32,
    label: Vec<u8>,
    schema: SchemaTag,
    weigher: &FixedWeigher,
) -> (r: Result<SendPlan, WeighError>)
    requires
        provided_id@.len() <= u32::MAX,
        execution_times@.len() <= u32::MAX,
        returnable_call@.len() <= u32::MAX,
        schema == SchemaTag::V1 || schema == SchemaTag::V2,
    ensures
        ({
            let draft = xcmp_with_crate_draft(
                provided_id@,
                execution_times@,
                returnable_call@,
                weight_at_most,
                self_para_id,
                schema,
            );
            match r {
                Ok(plan) => {
                    &&& plan.destination@ == parachain_destination(oak_para_id)
                    &&& plan.destination_para_id == oak_para_id
                    &&& plan.label == label
                    &&& spec_weigh(draft, weigher.unit_weight, weigher.max_instructions)
                        matches Some(w) && plan.envelope@ == apply_limit(draft, w)
                },
                Err(_) => spec_weigh(draft, weigher.unit_weight, weigher.max_instructions)
                    is None,
            }
        }),
{
    let transact = create_schedule_xcmp_instruction(
        self_para_id,
        provided_id,
        execution_times,
        returnable_call,
        weight_at_most,
        schema,
    );
    let fee = make_here_asset(XCMP_FEE_AMOUNT);
    let refund_account = sibling_sovereign_account(self_para_id);
    let envelope = match create_xcm_instruction_set(fee, transact, refund_account, weigher) {
        Ok(env) => env,
        Err(e) => {
            return Err(e);
        },
    };
    let destination = sibling_parachain_location(oak_para_id);
    Ok(SendPlan { destination, destination_para_id: oak_para_id, envelope, label })
}

/// The local envelope of the in-unit path: move the fee from the caller to
/// the scheduler chain's account, all on this chain's engine.
pub open spec fn in_unit_local_envelope(oak_para_id: u32) -> EnvelopeData {
    EnvelopeData {
        instructions: seq![
            InstructionData::WithdrawAsset(seq![here_asset(IN_UNIT_FEE_AMOUNT)]),
            InstructionData::DepositAsset {
                assets: AssetFilterData::Definite(seq![here_asset(IN_UNIT_FEE_AMOUNT)]),
                max_assets: 1,
                beneficiary: parachain_destination(oak_para_id),
            },
        ],
    }
}

/// The remote envelope of the in-unit path: reserve-backed fee, the
/// schedule call, refund and deposit.
pub open spec fn in_unit_remote_envelope(
    self_para_id: u32,
    oak_para_id: u32,
    call: CallData,
    schema: SchemaTag,
) -> EnvelopeData {
    build_reserve_envelope_data(
        seq![sibling_asset(self_para_id, IN_UNIT_FEE_AMOUNT)],
        sibling_asset(self_para_id, IN_UNIT_FEE_AMOUNT),
        WeightLimit::Unlimited,
        transact_data(call, schema),
        seq![sibling_asset(self_para_id, IN_UNIT_FEE_AMOUNT)],
        parachain_destination(oak_para_id),
    )
}

/// Everything the in-unit operation computes before it touches a
/// collaborator: the local envelope to execute here, the limits to execute
/// it under, and the remote envelope to send afterwards.
pub struct NotifyInUnitPlan {
    pub local_origin: Location,
    pub local_envelope: Envelope,
    pub execution_weight_limit: u64,
    pub execution_credit_limit: u64,
    pub remote: SendPlan,
}

/// Compute part of the in-unit schedule operation: build the local
/// fee-transfer envelope and the remote reserve-backed schedule envelope.
/// The caller executes the local envelope on this chain's engine, reports
/// the outcome to [`notify_in_unit_after_execution`], and only on
/// completeness sends the remote plan.
pub fn prepare_schedule_notify_in_unit(
    provided_id: Vec<u8>,
    execution_times: Vec<u64>,
    returnable_call: Vec<u8>,
    weight_at_most: u64,
    sender: AccountId,
    self_para_id: u32,
    oak_para_id: u32,
    label: Vec<u8>,
    schema: SchemaTag,
) -> (plan: NotifyInUnitPlan)
    requires
        provided_id@.len() <= u32::MAX,
        execution_times@.len() <= u32::MAX,
        returnable_call@.len() <= u32::MAX,
        schema == SchemaTag::V1 || schema == SchemaTag::V2,
    ensures
        plan.local_origin@ == (LocationData {
            parents: 0,
            interior: seq![JunctionData::AccountId32(sender@)],
        }),
        plan.local_envelope@ == in_unit_local_envelope(oak_para_id),
        plan.execution_weight_limit == IN_UNIT_EXECUTION_LIMIT,
        plan.execution_credit_limit == IN_UNIT_EXECUTION_LIMIT,
        plan.remote.destination@ == parachain_destination(oak_para_id),
        plan.remote.destination_para_id == oak_para_id,
        plan.remote.label == label,
        plan.remote.envelope@ == in_unit_remote_envelope(
            self_para_id,
            oak_para_id,
            CallData::ScheduleXcmpTask {
                provided_id: provided_id@,
                execution_times: execution_times@,
                para_id: self_para_id,
                returnable_call: returnable_call@,
                weight_at_most,
            },
            schema,
        ),
{
    let transact = create_schedule_xcmp_instruction(
        self_para_id,
        provided_id,
        execution_times,
        returnable_call,
        weight_at_most,
        schema,
    );
    let mut reserve_assets: Vec<Asset> = Vec::new();
    reserve_assets.push(make_sibling_asset(self_para_id, IN_UNIT_FEE_AMOUNT));
    proof {
        lemma_assets_view_singleton(reserve_assets@);
    }
    let remote_fee = make_sibling_asset(self_para_id, IN_UNIT_FEE_AMOUNT);
    let mut deposit_assets: Vec<Asset> = Vec::new();
    deposit_assets.push(make_sibling_asset(self_para_id, IN_UNIT_FEE_AMOUNT));
    proof {
        lemma_assets_view_singleton(deposit_assets@);
    }
    let remote_beneficiary = sibling_parachain_location(oak_para_id);
    let remote_envelope = build_reserve_envelope(
        reserve_assets,
        remote_fee,
        WeightLimit::Unlimited,
        transact,
        deposit_assets,
        remote_beneficiary,
    );

    let mut withdraw_assets: Vec<Asset> = Vec::new();
    withdraw_assets.push(make_here_asset(IN_UNIT_FEE_AMOUNT));
    proof {
        lemma_assets_view_singleton(withdraw_assets@);
    }
    let mut definite_assets: Vec<Asset> = Vec::new();
    definite_assets.push(make_here_asset(IN_UNIT_FEE_AMOUNT));
    proof {
        lemma_assets_view_singleton(definite_assets@);
    }
    let local_withdraw = Instruction::WithdrawAsset(withdraw_assets);
    let local_deposit = Instruction::DepositAsset {
        assets: AssetFilter::Definite(definite_assets),
        max_assets: 1,
        beneficiary: sibling_parachain_location(oak_para_id),
    };
    assert(instruction_view(local_withdraw) == InstructionData::WithdrawAsset(
        seq![here_asset(IN_UNIT_FEE_AMOUNT)],
    ));
    assert(instruction_view(local_deposit) == (InstructionData::DepositAsset {
        assets: AssetFilterData::Definite(seq![here_asset(IN_UNIT_FEE_AMOUNT)]),
        max_assets: 1,
        beneficiary: parachain_destination(oak_para_id),
    }));
    let mut local_instructions: Vec<Instruction> = Vec::new();
    push_with_view(&mut local_instructions, local_withdraw);
    push_with_view(&mut local_instructions, local_deposit);
    proof {
        assert(instructions_view(Seq::<Instruction>::empty()) == Seq::<InstructionData>::empty());
        assert(instructions_view(local_instructions@) =~= in_unit_local_envelope(
            oak_para_id,
        ).instructions);
    }
    let local_envelope = Envelope { instructions: local_instructions };

    let local_origin = crate::envelope::account_location(sender);
    let destination = sibling_parachain_location(oak_para_id);
    NotifyInUnitPlan {
        local_origin,
        local_envelope,
        execution_weight_limit: IN_UNIT_EXECUTION_LIMIT,
        execution_credit_limit: IN_UNIT_EXECUTION_LIMIT,
        remote: SendPlan {
            destination,
            destination_para_id: oak_para_id,
            envelope: remote_envelope,
            label,
        },
    }
}

/// Gate between the in-unit operation's two collaborator calls: the remote
/// plan is released only when local execution ran to completion; anything
/// less is a hard error, and no call-sent event can arise.
pub fn notify_in_unit_after_execution(remote: SendPlan, outcome: &ExecutionOutcome) -> (r: Result<
    SendPlan,
    Error,
>)
    ensures
        r is Ok <==> outcome is Complete,
        (r matches Ok(sp) ==> sp == remote),
        (r matches Err(e) ==> e == Error::XcmExecutionFailed),
{
    match ensure_complete(outcome) {
        Ok(_) => Ok(remote),
        Err(e) => Err(e),
    }
}

} // verus!
