//! Remote calls and their byte-exact, schema-tagged encoding.
//!
//! A [`RemoteCall`] names a module and an operation of a remote system by a
//! pair of small integer discriminants and carries the operation's arguments.
//! Each supported remote system is a [`SchemaTag`] with its own discriminant
//! table and field order; the tables of shipped tags are fixed forever, and a
//! new remote-system version gets a new tag rather than a change to an old
//! one.

use vstd::prelude::*;
use crate::scale::compact_bytes;
use crate::scale::le_bytes;
use crate::scale::push_compact;
use crate::scale::push_le_bytes;

verus! {

/// A 32-byte account identifier, chain-agnostic.
pub struct AccountId {
    pub bytes: Vec<u8>,
}

impl View for AccountId {
    type V = Seq<u8>;

    open spec fn view(&self) -> Seq<u8> {
        self.bytes@
    }
}

impl AccountId {
    pub open spec fn wf(&self) -> bool {
        self.bytes@.len() == 32
    }
}

/// A 32-byte hash, used to name a scheduled task.
pub struct TaskHash {
    pub bytes: Vec<u8>,
}

impl View for TaskHash {
    type V = Seq<u8>;

    open spec fn view(&self) -> Seq<u8> {
        self.bytes@
    }
}

impl TaskHash {
    pub open spec fn wf(&self) -> bool {
        self.bytes@.len() == 32
    }
}

/// An operation of a remote system, with its arguments.
///
/// A nested call-like argument (`returnable_call`) is carried as an opaque,
/// already-encoded byte string and is never re-interpreted here.
pub enum RemoteCall {
    RemarkWithEvent { message: Vec<u8> },
    ScheduleNotifyTask { provided_id: Vec<u8>, execution_times: Vec<u64>, message: Vec<u8> },
    ScheduleXcmpTask {
        provided_id: Vec<u8>,
        execution_times: Vec<u64>,
        para_id: u32,
        returnable_call: Vec<u8>,
        weight_at_most: u64,
    },
    ScheduleNativeTransferTask {
        provided_id: Vec<u8>,
        execution_times: Vec<u64>,
        recipient: AccountId,
        amount: u128,
    },
    ScheduleCancelTask { task_id: TaskHash },
    ForceSendBalance { source: AccountId, dest: AccountId, value: u128 },
}

/// The mathematical value of a [`RemoteCall`]: the same data over `Seq`.
pub enum CallData {
    RemarkWithEvent { message: Seq<u8> },
    ScheduleNotifyTask { provided_id: Seq<u8>, execution_times: Seq<u64>, message: Seq<u8> },
    ScheduleXcmpTask {
        provided_id: Seq<u8>,
        execution_times: Seq<u64>,
        para_id: u32,
        returnable_call: Seq<u8>,
        weight_at_most: u64,
    },
    ScheduleNativeTransferTask {
        provided_id: Seq<u8>,
        execution_times: Seq<u64>,
        recipient: Seq<u8>,
        amount: u128,
    },
    ScheduleCancelTask { task_id: Seq<u8> },
    ForceSendBalance { source: Seq<u8>, dest: Seq<u8>, value: u128 },
}

impl View for RemoteCall {
    type V = CallData;

    open spec fn view(&self) -> CallData {
        match self {
            RemoteCall::RemarkWithEvent { message } => CallData::RemarkWithEvent {
                message: message@,
            },
            RemoteCall::ScheduleNotifyTask { provided_id, execution_times, message } =>
                CallData::ScheduleNotifyTask {
                    provided_id: provided_id@,
                    execution_times: execution_times@,
                    message: message@,
                },
            RemoteCall::ScheduleXcmpTask {
                provided_id,
                execution_times,
                para_id,
                returnable_call,
                weight_at_most,
            } => CallData::ScheduleXcmpTask {
                provided_id: provided_id@,
                execution_times: execution_times@,
                para_id: *para_id,
                returnable_call: returnable_call@,
                weight_at_most: *weight_at_most,
            },
            RemoteCall::ScheduleNativeTransferTask {
                provided_id,
                execution_times,
                recipient,
                amount,
            } => CallData::ScheduleNativeTransferTask {
                provided_id: provided_id@,
                execution_times: execution_times@,
                recipient: recipient@,
                amount: *amount,
            },
            RemoteCall::ScheduleCancelTask { task_id } => CallData::ScheduleCancelTask {
                task_id: task_id@,
            },
            RemoteCall::ForceSendBalance { source, dest, value } => CallData::ForceSendBalance {
                source: source@,
                dest: dest@,
                value: *value,
            },
        }
    }
}

/// A byte string short enough to carry a compact length prefix.
pub open spec fn fits_compact(len: nat) -> bool {
    len <= u32::MAX
}

impl CallData {
    /// Well-formedness: fixed-width identifiers have their width, and every
    /// length-prefixed collection is short enough for a compact prefix.
    pub open spec fn wf(&self) -> bool {
        match self {
            CallData::RemarkWithEvent { message } => fits_compact(message.len()),
            CallData::ScheduleNotifyTask { provided_id, execution_times, message } => {
                &&& fits_compact(provided_id.len())
                &&& fits_compact(execution_times.len())
                &&& fits_compact(message.len())
            },
            CallData::ScheduleXcmpTask { provided_id, execution_times, returnable_call, .. } => {
                &&& fits_compact(provided_id.len())
                &&& fits_compact(execution_times.len())
                &&& fits_compact(returnable_call.len())
            },
            CallData::ScheduleNativeTransferTask { provided_id, execution_times, recipient, .. }
                => {
                &&& fits_compact(provided_id.len())
                &&& fits_compact(execution_times.len())
                &&& recipient.len() == 32
            },
            CallData::ScheduleCancelTask { task_id } => task_id.len() == 32,
            CallData::ForceSendBalance { source, dest, .. } => {
                &&& source.len() == 32
                &&& dest.len() == 32
            },
        }
    }
}

impl RemoteCall {
    pub open spec fn wf(&self) -> bool {
        &&& self@.wf()
        &&& match self {
            RemoteCall::ScheduleNativeTransferTask { recipient, .. } => recipient.wf(),
            RemoteCall::ScheduleCancelTask { task_id } => task_id.wf(),
            RemoteCall::ForceSendBalance { source, dest, .. } => source.wf() && dest.wf(),
            _ => true,
        }
    }
}

/// Selects which remote system's discriminant table the encoder uses.
///
/// `V1` and `V2` are two shipped automation-scheduler schemas whose tables
/// diverge (`ScheduleXcmpTask` moved its chain identifier to the front, and
/// the operation indices were renumbered); `TestChain` is the schema of a
/// test chain that exposes a balance-transfer operation instead.
#[derive(Clone, Copy, PartialEq, Eq, Structural)]
pub enum SchemaTag {
    V1,
    V2,
    TestChain,
}

/// Module index of the system module, in every schema.
pub const SYSTEM_PALLET_INDEX: u8 = 0;

/// Operation index of `RemarkWithEvent` inside the system module.
pub const REMARK_CALL_INDEX: u8 = 8;

/// Module index of the automation scheduler (`V1`, `V2`) or of the template
/// module (`TestChain`).
pub const TARGET_PALLET_INDEX: u8 = 60;

/// Operation index of `ForceSendBalance` inside the template module.
pub const FORCE_SEND_CALL_INDEX: u8 = 1;

/// Operation index of a scheduler call under a tag, as the shipped tables
/// fix it.
pub open spec fn notify_call_index(t: SchemaTag) -> u8 {
    match t {
        SchemaTag::V1 => 0,
        SchemaTag::V2 => 0,
        SchemaTag::TestChain => 0,
    }
}

pub open spec fn xcmp_call_index(t: SchemaTag) -> u8 {
    match t {
        SchemaTag::V1 => 2,
        SchemaTag::V2 => 2,
        SchemaTag::TestChain => 2,
    }
}

pub open spec fn native_transfer_call_index(t: SchemaTag) -> u8 {
    match t {
        SchemaTag::V1 => 3,
        SchemaTag::V2 => 3,
        SchemaTag::TestChain => 3,
    }
}

pub open spec fn cancel_call_index(t: SchemaTag) -> u8 {
    match t {
        SchemaTag::V1 => 4,
        SchemaTag::V2 => 1,
        SchemaTag::TestChain => 1,
    }
}

/// Whether `ScheduleXcmpTask` writes its chain identifier before the other
/// fields under this tag.
pub open spec fn xcmp_para_id_first(t: SchemaTag) -> bool {
    t == SchemaTag::V2
}

/// Which calls a tag's table covers. Encoding a call under a tag whose
/// table has no row for it is a programming error, not a runtime condition.
pub open spec fn schema_supports(t: SchemaTag, c: CallData) -> bool {
    match c {
        CallData::RemarkWithEvent { .. } => true,
        CallData::ForceSendBalance { .. } => t == SchemaTag::TestChain,
        _ => t == SchemaTag::V1 || t == SchemaTag::V2,
    }
}

/// A length-prefixed byte string: compact length, then the bytes.
pub open spec fn enc_byte_list(s: Seq<u8>) -> Seq<u8> {
    compact_bytes(s.len() as u32) + s
}

/// The concatenated 8-byte little-endian encodings of a list of integers.
pub open spec fn flat_u64(s: Seq<u64>) -> Seq<u8>
    decreases s.len(),
{
    if s.len() == 0 {
        Seq::empty()
    } else {
        le_bytes(s[0] as nat, 8) + flat_u64(s.drop_first())
    }
}

/// A length-prefixed list of 64-bit integers.
pub open spec fn enc_u64_list(s: Seq<u64>) -> Seq<u8> {
    compact_bytes(s.len() as u32) + flat_u64(s)
}

/// The bytes of a call under a tag: the module discriminant, the operation
/// discriminant, then the fields in the tag's declared order.
pub open spec fn spec_encode_call(c: CallData, t: SchemaTag) -> Seq<u8> {
    match c {
        CallData::RemarkWithEvent { message } => seq![SYSTEM_PALLET_INDEX, REMARK_CALL_INDEX]
            + enc_byte_list(message),
        CallData::ScheduleNotifyTask { provided_id, execution_times, message } => seq![
            TARGET_PALLET_INDEX,
            notify_call_index(t),
        ] + enc_byte_list(provided_id) + enc_u64_list(execution_times) + enc_byte_list(message),
        CallData::ScheduleXcmpTask {
            provided_id,
            execution_times,
            para_id,
            returnable_call,
            weight_at_most,
        } => {
            let head = seq![TARGET_PALLET_INDEX, xcmp_call_index(t)];
            let tail = enc_byte_list(returnable_call) + le_bytes(weight_at_most as nat, 8);
            if xcmp_para_id_first(t) {
                head + le_bytes(para_id as nat, 4) + enc_byte_list(provided_id) + enc_u64_list(
                    execution_times,
                ) + tail
            } else {
                head + enc_byte_list(provided_id) + enc_u64_list(execution_times) + le_bytes(
                    para_id as nat,
                    4,
                ) + tail
            }
        },
        CallData::ScheduleNativeTransferTask {
            provided_id,
            execution_times,
            recipient,
            amount,
        } => seq![TARGET_PALLET_INDEX, native_transfer_call_index(t)] + enc_byte_list(provided_id)
            + enc_u64_list(execution_times) + recipient + le_bytes(amount as nat, 16),
        CallData::ScheduleCancelTask { task_id } => seq![
            TARGET_PALLET_INDEX,
            cancel_call_index(t),
        ] + task_id,
        CallData::ForceSendBalance { source, dest, value } => seq![
            TARGET_PALLET_INDEX,
            FORCE_SEND_CALL_INDEX,
        ] + source + dest + le_bytes(value as nat, 16),
    }
}

/// Appends the raw bytes of `b` to `out`, with no length prefix.
fn push_raw_bytes(out: &mut Vec<u8>, b: &Vec<u8>)
    ensures
        final(out)@ == old(out)@ + b@,
{
    let ghost start = out@;
    let mut i: usize = 0;
    while i < b.len()
        invariant
            i <= b.len(),
            out@ == start + b@.subrange(0, i as int),
        decreases b.len() - i,
    {
        out.push(b[i]);
        assert(out@ =~= start + b@.subrange(0, i + 1));
        i = i + 1;
    }
    assert(out@ =~= start + b@);
}

/// Appends a length-prefixed byte string.
fn push_byte_list(out: &mut Vec<u8>, b: &Vec<u8>)
    requires
        fits_compact(b@.len()),
    ensures
        final(out)@ == old(out)@ + enc_byte_list(b@),
{
    let ghost start = out@;
    push_compact(out, b.len() as u32);
    push_raw_bytes(out, b);
    assert(final(out)@ =~= start + enc_byte_list(b@));
}

/// Appends a length-prefixed list of 64-bit integers.
fn push_u64_list(out: &mut Vec<u8>, v: &Vec<u64>)
    requires
        fits_compact(v@.len()),
    ensures
        final(out)@ == old(out)@ + enc_u64_list(v@),
{
    let ghost start = out@;
    push_compact(out, v.len() as u32);
    let ghost mid = out@;
    assert(v@.skip(0) =~= v@);
    let mut i: usize = 0;
    while i < v.len()
        invariant
            i <= v.len(),
            out@ + flat_u64(v@.skip(i as int)) == mid + flat_u64(v@),
        decreases v.len() - i,
    {
        let ghost before = out@;
        let ghost remaining = v@.skip(i as int);
        push_le_bytes(out, v[i] as u128, 8);
        proof {
            assert(remaining[0] == v@[i as int]);
            assert(remaining.drop_first() =~= v@.skip(i + 1));
            assert(flat_u64(remaining) == le_bytes(v@[i as int] as nat, 8) + flat_u64(
                v@.skip(i + 1),
            ));
            assert(out@ + flat_u64(v@.skip(i + 1)) =~= before + flat_u64(remaining));
        }
        i = i + 1;
    }
    assert(v@.skip(v@.len() as int) =~= Seq::empty());
    assert(out@ =~= out@ + flat_u64(v@.skip(v@.len() as int)));
    assert(final(out)@ =~= start + enc_u64_list(v@));
}

/// Encodes `call` under `schema`'s discriminant table.
///
/// Builds the calls of the automation-scheduler chain.
pub struct OakChainCallBuilder;

impl OakChainCallBuilder {
    pub fn automation_time_schedule_notify(
        provided_id: Vec<u8>,
        times: Vec<u64>,
        message: Vec<u8>,
    ) -> (r: RemoteCall)
        ensures
            r == (RemoteCall::ScheduleNotifyTask {
                provided_id,
                execution_times: times,
                message,
            }),
    {
        RemoteCall::ScheduleNotifyTask { provided_id, execution_times: times, message }
    }

    pub fn automation_time_schedule_xcmp(
        provided_id: Vec<u8>,
        execution_times: Vec<u64>,
        para_id: u32,
        returnable_call: Vec<u8>,
        weight_at_most: u64,
    ) -> (r: RemoteCall)
        ensures
            r == (RemoteCall::ScheduleXcmpTask {
                provided_id,
                execution_times,
                para_id,
                returnable_call,
                weight_at_most,
            }),
    {
        RemoteCall::ScheduleXcmpTask {
            provided_id,
            execution_times,
            para_id,
            returnable_call,
            weight_at_most,
        }
    }

    pub fn automation_time_schedule_native_transfer(
        provided_id: Vec<u8>,
        execution_times: Vec<u64>,
        recipient_id: AccountId,
        amount: u128,
    ) -> (r: RemoteCall)
        ensures
            r == (RemoteCall::ScheduleNativeTransferTask {
                provided_id,
                execution_times,
                recipient: recipient_id,
                amount,
            }),
    {
        RemoteCall::ScheduleNativeTransferTask {
            provided_id,
            execution_times,
            recipient: recipient_id,
            amount,
        }
    }

    pub fn automation_time_cancel_task(task_id: TaskHash) -> (r: RemoteCall)
        ensures
            r == (RemoteCall::ScheduleCancelTask { task_id }),
    {
        RemoteCall::ScheduleCancelTask { task_id }
    }

    pub fn remark_with_event(message: Vec<u8>) -> (r: RemoteCall)
        ensures
            r == (RemoteCall::RemarkWithEvent { message }),
    {
        RemoteCall::RemarkWithEvent { message }
    }
}

/// Builds the calls of the test chain.
pub struct TestChainCallBuilder;

impl TestChainCallBuilder {
    pub fn remark_with_event(message: Vec<u8>) -> (r: RemoteCall)
        ensures
            r == (RemoteCall::RemarkWithEvent { message }),
    {
        RemoteCall::RemarkWithEvent { message }
    }

    pub fn force_send_balance(source: AccountId, dest: AccountId, value: u128) -> (r: RemoteCall)
        ensures
            r == (RemoteCall::ForceSendBalance { source, dest, value }),
    {
        RemoteCall::ForceSendBalance { source, dest, value }
    }
}

/// Encoding is deterministic and total over well-formed calls that the
/// schema supports: the result is exactly [`spec_encode_call`].
pub fn encode_call(call: &RemoteCall, schema: SchemaTag) -> (r: Vec<u8>)
    requires
        call.wf(),
        schema_supports(schema, call@),
    ensures
        r@ == spec_encode_call(call@, schema),
{
    let mut out: Vec<u8> = Vec::new();
    match call {
        RemoteCall::RemarkWithEvent { message } => {
            out.push(SYSTEM_PALLET_INDEX);
            out.push(REMARK_CALL_INDEX);
            push_byte_list(&mut out, message);
            assert(out@ =~= spec_encode_call(call@, schema));
        },
        RemoteCall::ScheduleNotifyTask { provided_id, execution_times, message } => {
            out.push(TARGET_PALLET_INDEX);
            match schema {
                SchemaTag::V1 => out.push(0u8),
                SchemaTag::V2 => out.push(0u8),
                SchemaTag::TestChain => out.push(0u8),
            }
            push_byte_list(&mut out, provided_id);
            push_u64_list(&mut out, execution_times);
            push_byte_list(&mut out, message);
            assert(out@ =~= spec_encode_call(call@, schema));
        },
        RemoteCall::ScheduleXcmpTask {
            provided_id,
            execution_times,
            para_id,
            returnable_call,
            weight_at_most,
        } => {
            out.push(TARGET_PALLET_INDEX);
            match schema {
                SchemaTag::V1 => out.push(2u8),
                SchemaTag::V2 => out.push(2u8),
                SchemaTag::TestChain => out.push(2u8),
            }
            match schema {
                SchemaTag::V2 => {
                    push_le_bytes(&mut out, *para_id as u128, 4);
                    push_byte_list(&mut out, provided_id);
                    push_u64_list(&mut out, execution_times);
                },
                _ => {
                    push_byte_list(&mut out, provided_id);
                    push_u64_list(&mut out, execution_times);
                    push_le_bytes(&mut out, *para_id as u128, 4);
                },
            }
            push_byte_list(&mut out, returnable_call);
            push_le_bytes(&mut out, *weight_at_most as u128, 8);
            assert(out@ =~= spec_encode_call(call@, schema));
        },
        RemoteCall::ScheduleNativeTransferTask {
            provided_id,
            execution_times,
            recipient,
            amount,
        } => {
            out.push(TARGET_PALLET_INDEX);
            match schema {
                SchemaTag::V1 => out.push(3u8),
                SchemaTag::V2 => out.push(3u8),
                SchemaTag::TestChain => out.push(3u8),
            }
            push_byte_list(&mut out, provided_id);
            push_u64_list(&mut out, execution_times);
            push_raw_bytes(&mut out, &recipient.bytes);
            push_le_bytes(&mut out, *amount, 16);
            assert(out@ =~= spec_encode_call(call@, schema));
        },
        RemoteCall::ScheduleCancelTask { task_id } => {
            out.push(TARGET_PALLET_INDEX);
            match schema {
                SchemaTag::V1 => out.push(4u8),
                SchemaTag::V2 => out.push(1u8),
                SchemaTag::TestChain => out.push(1u8),
            }
            push_raw_bytes(&mut out, &task_id.bytes);
            assert(out@ =~= spec_encode_call(call@, schema));
        },
        RemoteCall::ForceSendBalance { source, dest, value } => {
            out.push(TARGET_PALLET_INDEX);
            out.push(FORCE_SEND_CALL_INDEX);
            push_raw_bytes(&mut out, &source.bytes);
            push_raw_bytes(&mut out, &dest.bytes);
            push_le_bytes(&mut out, *value, 16);
            assert(out@ =~= spec_encode_call(call@, schema));
        },
    }
    out
}

/// Encodes `call` under `schema` if the schema's table has a row for it.
pub fn try_encode_call(call: &RemoteCall, schema: SchemaTag) -> (r: Option<Vec<u8>>)
    requires
        call.wf(),
    ensures
        match r {
            Some(bytes) => schema_supports(schema, call@) && bytes@ == spec_encode_call(
                call@,
                schema,
            ),
            None => !schema_supports(schema, call@),
        },
{
    let supported: bool = match call {
        RemoteCall::RemarkWithEvent { .. } => true,
        RemoteCall::ForceSendBalance { .. } => matches!(schema, SchemaTag::TestChain),
        _ => matches!(schema, SchemaTag::V1) || matches!(schema, SchemaTag::V2),
    };
    if supported {
        Some(encode_call(call, schema))
    } else {
        None
    }
}

/// Encoding is deterministic: the bytes of a call under a tag are a function
/// of the call value and the tag alone, so two encodings of equal inputs are
/// byte-identical.
pub proof fn lemma_encode_deterministic(c1: CallData, c2: CallData, t1: SchemaTag, t2: SchemaTag)
    requires
        c1 == c2,
        t1 == t2,
    ensures
        spec_encode_call(c1, t1) == spec_encode_call(c2, t2),
{
}

} // verus!
