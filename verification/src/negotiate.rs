//! Two-pass weight negotiation.
//!
//! Pass 1 weighs a draft envelope built with a provisional weight limit:
//! pure static analysis over the instruction list, never execution. Pass 2
//! rewrites the `BuyExecution` weight limit with the measured value and
//! leaves every other instruction untouched, so the measured sequence and
//! the dispatched sequence are structurally identical.

use vstd::prelude::*;
use crate::envelope::Envelope;
use crate::envelope::EnvelopeData;
use crate::envelope::Instruction;
use crate::envelope::InstructionData;
use crate::envelope::WeightLimit;
use crate::envelope::instruction_view;
use crate::envelope::instructions_view;
use crate::envelope::lemma_instructions_view_index;
use crate::envelope::lemma_instructions_view_len;

verus! {

/// A fixed-unit static cost model: every instruction of a sequence declares
/// the same unit weight, and sequences longer than `max_instructions` cannot
/// be weighed at all.
pub struct FixedWeigher {
    pub unit_weight: u64,
    pub max_instructions: u32,
}

/// Why a sequence could not be assigned a cost. Negotiation fails fatally
/// on either: there is no fallback weight.
#[derive(Clone, Copy, PartialEq, Eq, Structural, Debug)]
pub enum WeighError {
    TooManyInstructions,
    WeightOverflow,
}

/// The cost the model assigns to an envelope: unit weight times instruction
/// count, or nothing where the count or the product is out of range.
pub open spec fn spec_weigh(e: EnvelopeData, unit: u64, max: u32) -> Option<u64> {
    if e.instructions.len() > max {
        Option::None
    } else if unit * e.instructions.len() > u64::MAX {
        Option::None
    } else {
        Option::Some((unit * e.instructions.len()) as u64)
    }
}

/// Pass 1: computes the total declared weight of `env` under the model.
/// Pure static analysis; nothing is executed.
pub fn weigh_envelope(env: &Envelope, weigher: &FixedWeigher) -> (r: Result<u64, WeighError>)
    ensures
        (match r {
            Ok(w) => spec_weigh(env@, weigher.unit_weight, weigher.max_instructions)
                == Option::Some(w),
            Err(WeighError::TooManyInstructions) => env@.instructions.len()
                > weigher.max_instructions,
            Err(WeighError::WeightOverflow) => env@.instructions.len()
                <= weigher.max_instructions && weigher.unit_weight * env@.instructions.len()
                > u64::MAX,
        }),
{
    let n = env.instructions.len();
    proof {
        lemma_instructions_view_len(env.instructions@);
    }
    if n > weigher.max_instructions as usize {
        return Err(WeighError::TooManyInstructions);
    }
    proof {
        vstd::arithmetic::mul::lemma_mul_upper_bound(
            weigher.unit_weight as int,
            u64::MAX as int,
            n as int,
            u32::MAX as int,
        );
    }
    let product: u128 = (weigher.unit_weight as u128) * (n as u128);
    if product > u64::MAX as u128 {
        Err(WeighError::WeightOverflow)
    } else {
        Ok(product as u64)
    }
}

/// The Pass-2 rewrite of one instruction: a `BuyExecution` gets the
/// measured limit, everything else is untouched.
pub open spec fn rewrite_limit_instr(i: InstructionData, measured: u64) -> InstructionData {
    match i {
        InstructionData::BuyExecution { fees, .. } => InstructionData::BuyExecution {
            fees,
            weight_limit: WeightLimit::Limited(measured),
        },
        other => other,
    }
}

/// The Pass-2 rewrite of a whole envelope.
pub open spec fn apply_limit(e: EnvelopeData, measured: u64) -> EnvelopeData {
    EnvelopeData {
        instructions: Seq::new(
            e.instructions.len(),
            |k: int| rewrite_limit_instr(e.instructions[k], measured),
        ),
    }
}

/// Whether two instructions are of the same kind.
pub open spec fn same_kind(a: InstructionData, b: InstructionData) -> bool {
    match a {
        InstructionData::WithdrawAsset(..) => b is WithdrawAsset,
        InstructionData::BuyExecution { .. } => b is BuyExecution,
        InstructionData::Transact { .. } => b is Transact,
        InstructionData::RefundSurplus => b is RefundSurplus,
        InstructionData::DepositAsset { .. } => b is DepositAsset,
        InstructionData::ReserveAssetDeposited(..) => b is ReserveAssetDeposited,
        InstructionData::DepositReserveAsset { .. } => b is DepositReserveAsset,
    }
}

/// Whether two envelopes have the same instruction count and kinds, in
/// order: the structural identity that makes a Pass-1 measurement valid for
/// the sequence that actually runs.
pub open spec fn same_shape(a: EnvelopeData, b: EnvelopeData) -> bool {
    &&& a.instructions.len() == b.instructions.len()
    &&& forall|i: int|
        0 <= i < a.instructions.len() ==> same_kind(
            #[trigger] a.instructions[i],
            b.instructions[i],
        )
}

/// Pass 2: rewrites every `BuyExecution` weight limit to the measured
/// value, leaving every other instruction untouched.
pub fn set_buy_execution_limit(env: Envelope, measured: u64) -> (r: Envelope)
    ensures
        r@ == apply_limit(env@, measured),
{
    let ghost oseq = env.instructions@;
    let mut src = env.instructions;
    let mut dst: Vec<Instruction> = Vec::new();
    proof {
        assert(src@ =~= oseq.skip(0));
    }
    while src.len() > 0
        invariant
            dst@.len() + src@.len() == oseq.len(),
            src@ == oseq.skip(dst@.len() as int),
            forall|j: int|
                0 <= j < dst@.len() ==> instruction_view(#[trigger] dst@[j])
                    == rewrite_limit_instr(instruction_view(oseq[j]), measured),
        decreases src.len(),
    {
        let ghost k = dst@.len() as int;
        let ins = src.remove(0);
        proof {
            assert(ins == oseq[k]);
            assert(src@ =~= oseq.skip(k + 1));
        }
        let ins2: Instruction = match ins {
            Instruction::BuyExecution { fees, weight_limit: _ } => Instruction::BuyExecution {
                fees,
                weight_limit: WeightLimit::Limited(measured),
            },
            other => other,
        };
        assert(instruction_view(ins2) == rewrite_limit_instr(instruction_view(ins), measured));
        dst.push(ins2);
    }
    proof {
        lemma_instructions_view_len(dst@);
        assert forall|j: int| 0 <= j < dst@.len() implies instructions_view(dst@)[j]
            == apply_limit(
            EnvelopeData { instructions: instructions_view(oseq) },
            measured,
        ).instructions[j] by {
            lemma_instructions_view_index(dst@, j);
            lemma_instructions_view_index(oseq, j);
        }
        lemma_instructions_view_len(oseq);
        assert(instructions_view(dst@) =~= apply_limit(
            EnvelopeData { instructions: instructions_view(oseq) },
            measured,
        ).instructions);
    }
    Envelope { instructions: dst }
}

/// The two-pass negotiation: weigh the draft, then rewrite its
/// `BuyExecution` limit with the measured value. A draft the model cannot
/// weigh fails fatally.
pub fn negotiate(draft: Envelope, weigher: &FixedWeigher) -> (r: Result<
    (Envelope, u64),
    WeighError,
>)
    ensures
        (match r {
            Ok(p) => {
                &&& spec_weigh(draft@, weigher.unit_weight, weigher.max_instructions)
                    == Option::Some(p.1)
                &&& p.0@ == apply_limit(draft@, p.1)
            },
            Err(_) => spec_weigh(draft@, weigher.unit_weight, weigher.max_instructions) is None,
        }),
{
    let measured = match weigh_envelope(&draft, weigher) {
        Ok(w) => w,
        Err(e) => {
            return Err(e);
        },
    };
    let corrected = set_buy_execution_limit(draft, measured);
    Ok((corrected, measured))
}

/// Negotiation idempotence: the Pass-2 rewrite preserves the structure the
/// model measures, so re-weighing the corrected envelope reports the same
/// total as the Pass-1 measurement of the draft.
pub proof fn lemma_negotiation_idempotent(e: EnvelopeData, unit: u64, max: u32, measured: u64)
    requires
        spec_weigh(e, unit, max) == Option::Some(measured),
    ensures
        spec_weigh(apply_limit(e, measured), unit, max) == Option::Some(measured),
        same_shape(e, apply_limit(e, measured)),
{
    let rewritten = apply_limit(e, measured);
    assert(rewritten.instructions.len() == e.instructions.len());
    assert forall|i: int| 0 <= i < e.instructions.len() implies same_kind(
        #[trigger] e.instructions[i],
        rewritten.instructions[i],
    ) by {
        assert(rewritten.instructions[i] == rewrite_limit_instr(e.instructions[i], measured));
    }
}

} // verus!
