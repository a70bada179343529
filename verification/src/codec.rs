//! Decoding of encoded remote calls, and the round-trip law.
//!
//! Each schema tag has an inverse: a parser over the tag's discriminant
//! table. Decoding the encoder's output under the same tag reconstructs the
//! original call ([`lemma_decode_of_encode`]).

use vstd::prelude::*;
use crate::call::AccountId;
use crate::call::CallData;
use crate::call::RemoteCall;
use crate::call::SchemaTag;
use crate::call::TaskHash;
use crate::call::FORCE_SEND_CALL_INDEX;
use crate::call::REMARK_CALL_INDEX;
use crate::call::SYSTEM_PALLET_INDEX;
use crate::call::TARGET_PALLET_INDEX;
use crate::call::cancel_call_index;
use crate::call::enc_byte_list;
use crate::call::enc_u64_list;
use crate::call::fits_compact;
use crate::call::flat_u64;
use crate::call::native_transfer_call_index;
use crate::call::notify_call_index;
use crate::call::schema_supports;
use crate::call::spec_encode_call;
use crate::call::xcmp_call_index;
use crate::call::xcmp_para_id_first;
use crate::scale::compact_bytes;
use crate::scale::le_bytes;
use crate::scale::le_value;
use crate::scale::lemma_le_bytes_len;
use crate::scale::lemma_le_value_of_le_bytes;
use crate::scale::lemma_read_compact_of_compact_bytes;
use crate::scale::pow256;
use crate::scale::read_compact;
use crate::scale::read_compact_at;
use crate::scale::read_le_bytes;

verus! {

/// Parses a length-prefixed byte string off the front of `s`.
pub open spec fn read_byte_list(s: Seq<u8>) -> Option<(Seq<u8>, Seq<u8>)> {
    match read_compact(s) {
        Option::None => Option::None,
        Option::Some((len, r)) => if r.len() < len {
            Option::None
        } else {
            Option::Some((r.take(len as int), r.skip(len as int)))
        },
    }
}

/// Parses `k` consecutive 8-byte little-endian integers.
pub open spec fn read_u64_items(s: Seq<u8>, k: nat) -> Option<(Seq<u64>, Seq<u8>)>
    decreases k,
{
    if k == 0 {
        Option::Some((Seq::empty(), s))
    } else if s.len() < 8 {
        Option::None
    } else {
        let v = le_value(s.subrange(0, 8));
        match read_u64_items(s.skip(8), (k - 1) as nat) {
            Option::None => Option::None,
            Option::Some((items, r)) => Option::Some((seq![v as u64] + items, r)),
        }
    }
}

/// Parses a length-prefixed list of 64-bit integers.
pub open spec fn read_u64_list(s: Seq<u8>) -> Option<(Seq<u64>, Seq<u8>)> {
    match read_compact(s) {
        Option::None => Option::None,
        Option::Some((len, r)) => read_u64_items(r, len as nat),
    }
}

/// Parses `n` raw bytes.
pub open spec fn read_fixed(s: Seq<u8>, n: nat) -> Option<(Seq<u8>, Seq<u8>)> {
    if s.len() < n {
        Option::None
    } else {
        Option::Some((s.take(n as int), s.skip(n as int)))
    }
}

/// Parses an `n`-byte little-endian unsigned integer.
pub open spec fn read_uint(s: Seq<u8>, n: nat) -> Option<(nat, Seq<u8>)> {
    if s.len() < n {
        Option::None
    } else {
        Option::Some((le_value(s.take(n as int)), s.skip(n as int)))
    }
}

/// Parses the body of a scheduler or template call whose operation
/// discriminant is `op`, under `t`'s table.
pub open spec fn spec_decode_target_call(body: Seq<u8>, op: u8, t: SchemaTag) -> Option<CallData> {
    let scheduler = t == SchemaTag::V1 || t == SchemaTag::V2;
    if scheduler && op == notify_call_index(t) {
        spec_decode_notify(body)
    } else if scheduler && op == xcmp_call_index(t) {
        spec_decode_xcmp(body, xcmp_para_id_first(t))
    } else if scheduler && op == native_transfer_call_index(t) {
        spec_decode_native_transfer(body)
    } else if scheduler && op == cancel_call_index(t) {
        spec_decode_cancel(body)
    } else if t == SchemaTag::TestChain && op == FORCE_SEND_CALL_INDEX {
        spec_decode_force_send(body)
    } else {
        Option::None
    }
}

pub open spec fn spec_decode_notify(body: Seq<u8>) -> Option<CallData> {
    match read_byte_list(body) {
        Option::None => Option::None,
        Option::Some((provided_id, r1)) => match read_u64_list(r1) {
            Option::None => Option::None,
            Option::Some((execution_times, r2)) => match read_byte_list(r2) {
                Option::None => Option::None,
                Option::Some((message, r3)) => if r3.len() == 0 {
                    Option::Some(
                        CallData::ScheduleNotifyTask { provided_id, execution_times, message },
                    )
                } else {
                    Option::None
                },
            },
        },
    }
}

pub open spec fn spec_decode_xcmp(body: Seq<u8>, para_id_first: bool) -> Option<CallData> {
    if para_id_first {
        match read_uint(body, 4) {
            Option::None => Option::None,
            Option::Some((para_id, r0)) => match read_byte_list(r0) {
                Option::None => Option::None,
                Option::Some((provided_id, r1)) => match read_u64_list(r1) {
                    Option::None => Option::None,
                    Option::Some((execution_times, r2)) => spec_decode_xcmp_tail(
                        r2,
                        provided_id,
                        execution_times,
                        para_id as u32,
                    ),
                },
            },
        }
    } else {
        match read_byte_list(body) {
            Option::None => Option::None,
            Option::Some((provided_id, r1)) => match read_u64_list(r1) {
                Option::None => Option::None,
                Option::Some((execution_times, r2)) => match read_uint(r2, 4) {
                    Option::None => Option::None,
                    Option::Some((para_id, r3)) => spec_decode_xcmp_tail(
                        r3,
                        provided_id,
                        execution_times,
                        para_id as u32,
                    ),
                },
            },
        }
    }
}

/// The trailing fields of `ScheduleXcmpTask`, common to both field orders:
/// the opaque nested call and the weight bound.
pub open spec fn spec_decode_xcmp_tail(
    s: Seq<u8>,
    provided_id: Seq<u8>,
    execution_times: Seq<u64>,
    para_id: u32,
) -> Option<CallData> {
    match read_byte_list(s) {
        Option::None => Option::None,
        Option::Some((returnable_call, r0)) => match read_uint(r0, 8) {
            Option::None => Option::None,
            Option::Some((weight, r1)) => if r1.len() == 0 {
                Option::Some(
                    CallData::ScheduleXcmpTask {
                        provided_id,
                        execution_times,
                        para_id,
                        returnable_call,
                        weight_at_most: weight as u64,
                    },
                )
            } else {
                Option::None
            },
        },
    }
}

pub open spec fn spec_decode_native_transfer(body: Seq<u8>) -> Option<CallData> {
    match read_byte_list(body) {
        Option::None => Option::None,
        Option::Some((provided_id, r1)) => match read_u64_list(r1) {
            Option::None => Option::None,
            Option::Some((execution_times, r2)) => match read_fixed(r2, 32) {
                Option::None => Option::None,
                Option::Some((recipient, r3)) => match read_uint(r3, 16) {
                    Option::None => Option::None,
                    Option::Some((amount, r4)) => if r4.len() == 0 {
                        Option::Some(
                            CallData::ScheduleNativeTransferTask {
                                provided_id,
                                execution_times,
                                recipient,
                                amount: amount as u128,
                            },
                        )
                    } else {
                        Option::None
                    },
                },
            },
        },
    }
}

pub open spec fn spec_decode_cancel(body: Seq<u8>) -> Option<CallData> {
    match read_fixed(body, 32) {
        Option::None => Option::None,
        Option::Some((task_id, r)) => if r.len() == 0 {
            Option::Some(CallData::ScheduleCancelTask { task_id })
        } else {
            Option::None
        },
    }
}

pub open spec fn spec_decode_force_send(body: Seq<u8>) -> Option<CallData> {
    match read_fixed(body, 32) {
        Option::None => Option::None,
        Option::Some((source, r1)) => match read_fixed(r1, 32) {
            Option::None => Option::None,
            Option::Some((dest, r2)) => match read_uint(r2, 16) {
                Option::None => Option::None,
                Option::Some((value, r3)) => if r3.len() == 0 {
                    Option::Some(
                        CallData::ForceSendBalance { source, dest, value: value as u128 },
                    )
                } else {
                    Option::None
                },
            },
        },
    }
}

/// The inverse of [`spec_encode_call`] under tag `t`: `None` on bytes that
/// are not exactly one encoded call of `t`'s table.
pub open spec fn spec_decode_call(s: Seq<u8>, t: SchemaTag) -> Option<CallData> {
    if s.len() < 2 {
        Option::None
    } else {
        let pallet = s[0];
        let op = s[1];
        let body = s.skip(2);
        if pallet == SYSTEM_PALLET_INDEX && op == REMARK_CALL_INDEX {
            match read_byte_list(body) {
                Option::None => Option::None,
                Option::Some((message, r)) => if r.len() == 0 {
                    Option::Some(CallData::RemarkWithEvent { message })
                } else {
                    Option::None
                },
            }
        } else if pallet == TARGET_PALLET_INDEX {
            spec_decode_target_call(body, op, t)
        } else {
            Option::None
        }
    }
}

pub proof fn lemma_read_byte_list_of_enc(b: Seq<u8>, rest: Seq<u8>)
    requires
        fits_compact(b.len()),
    ensures
        read_byte_list(enc_byte_list(b) + rest) matches Some(p) && p.0 == b && p.1 == rest,
{
    let len32 = b.len() as u32;
    let s = enc_byte_list(b) + rest;
    assert(s =~= compact_bytes(len32) + (b + rest));
    lemma_read_compact_of_compact_bytes(len32, b + rest);
    let r = (b + rest);
    assert(r.take(len32 as int) =~= b);
    assert(r.skip(len32 as int) =~= rest);
}

pub proof fn lemma_read_u64_items_of_flat(v: Seq<u64>, rest: Seq<u8>)
    ensures
        read_u64_items(flat_u64(v) + rest, v.len()) matches Some(p) && p.0 == v && p.1 == rest,
    decreases v.len(),
{
    if v.len() == 0 {
        assert(flat_u64(v) + rest =~= rest);
        assert(read_u64_items(rest, 0) matches Some(p) && p.0 =~= v && p.1 == rest);
    } else {
        let s = flat_u64(v) + rest;
        let head = le_bytes(v[0] as nat, 8);
        lemma_le_bytes_len(v[0] as nat, 8);
        assert(s =~= head + (flat_u64(v.drop_first()) + rest));
        assert(s.subrange(0, 8) =~= head);
        assert(v[0] < pow256(8)) by {
            reveal_with_fuel(pow256, 9);
        }
        lemma_le_value_of_le_bytes(v[0] as nat, 8);
        assert(s.skip(8) =~= flat_u64(v.drop_first()) + rest);
        lemma_read_u64_items_of_flat(v.drop_first(), rest);
        assert(seq![le_value(s.subrange(0, 8)) as u64] + v.drop_first() =~= v);
    }
}

pub proof fn lemma_read_u64_list_of_enc(v: Seq<u64>, rest: Seq<u8>)
    requires
        fits_compact(v.len()),
    ensures
        read_u64_list(enc_u64_list(v) + rest) matches Some(p) && p.0 == v && p.1 == rest,
{
    let len32 = v.len() as u32;
    let s = enc_u64_list(v) + rest;
    assert(s =~= compact_bytes(len32) + (flat_u64(v) + rest));
    lemma_read_compact_of_compact_bytes(len32, flat_u64(v) + rest);
    lemma_read_u64_items_of_flat(v, rest);
}

pub proof fn lemma_read_fixed_of_raw(b: Seq<u8>, rest: Seq<u8>)
    ensures
        read_fixed(b + rest, b.len()) matches Some(p) && p.0 == b && p.1 == rest,
{
    let s = b + rest;
    assert(s.take(b.len() as int) =~= b);
    assert(s.skip(b.len() as int) =~= rest);
}

pub proof fn lemma_read_uint_of_le_bytes(x: nat, n: nat, rest: Seq<u8>)
    requires
        x < pow256(n),
    ensures
        read_uint(le_bytes(x, n) + rest, n) matches Some(p) && p.0 == x && p.1 == rest,
{
    let s = le_bytes(x, n) + rest;
    lemma_le_bytes_len(x, n);
    assert(s.take(n as int) =~= le_bytes(x, n));
    assert(s.skip(n as int) =~= rest);
    lemma_le_value_of_le_bytes(x, n);
}

proof fn lemma_u32_fits(x: u32)
    ensures
        (x as nat) < pow256(4),
{
    assert(pow256(4) == 0x1_0000_0000) by {
        reveal_with_fuel(pow256, 5);
    }
}

proof fn lemma_u64_fits(x: u64)
    ensures
        (x as nat) < pow256(8),
{
    assert(pow256(8) == 0x1_0000_0000_0000_0000) by {
        reveal_with_fuel(pow256, 9);
    }
}

proof fn lemma_u128_fits(x: u128)
    ensures
        (x as nat) < pow256(16),
{
    assert(pow256(16) == 0x1_0000_0000_0000_0000_0000_0000_0000_0000) by {
        reveal_with_fuel(pow256, 17);
    }
}

proof fn lemma_decode_of_encode_remark(message: Seq<u8>, t: SchemaTag)
    requires
        fits_compact(message.len()),
    ensures
        spec_decode_call(
            spec_encode_call(CallData::RemarkWithEvent { message }, t),
            t,
        ) == Some(CallData::RemarkWithEvent { message }),
{
    let c = CallData::RemarkWithEvent { message };
    let s = spec_encode_call(c, t);
    let nil = Seq::<u8>::empty();
    let body = enc_byte_list(message);
    assert(s =~= seq![SYSTEM_PALLET_INDEX, REMARK_CALL_INDEX] + body);
    assert(s.len() >= 2 && s[0] == SYSTEM_PALLET_INDEX && s[1] == REMARK_CALL_INDEX);
    assert(s.skip(2) =~= body);
    assert(body =~= enc_byte_list(message) + nil);
    lemma_read_byte_list_of_enc(message, nil);
}

proof fn lemma_decode_of_encode_notify(
    provided_id: Seq<u8>,
    execution_times: Seq<u64>,
    message: Seq<u8>,
    t: SchemaTag,
)
    requires
        fits_compact(provided_id.len()),
        fits_compact(execution_times.len()),
        fits_compact(message.len()),
        t == SchemaTag::V1 || t == SchemaTag::V2,
    ensures
        spec_decode_call(
            spec_encode_call(
                CallData::ScheduleNotifyTask { provided_id, execution_times, message },
                t,
            ),
            t,
        ) == Some(CallData::ScheduleNotifyTask { provided_id, execution_times, message }),
{
    let c = CallData::ScheduleNotifyTask { provided_id, execution_times, message };
    let s = spec_encode_call(c, t);
    let nil = Seq::<u8>::empty();
    let body = enc_byte_list(provided_id) + enc_u64_list(execution_times) + enc_byte_list(message);
    assert(s =~= seq![TARGET_PALLET_INDEX, notify_call_index(t)] + body);
    assert(s.len() >= 2 && s[0] == TARGET_PALLET_INDEX && s[1] == notify_call_index(t));
    assert(s.skip(2) =~= body);
    let r1 = enc_u64_list(execution_times) + enc_byte_list(message);
    assert(body =~= enc_byte_list(provided_id) + r1);
    lemma_read_byte_list_of_enc(provided_id, r1);
    let r2 = enc_byte_list(message);
    assert(r1 =~= enc_u64_list(execution_times) + r2);
    lemma_read_u64_list_of_enc(execution_times, r2);
    assert(r2 =~= enc_byte_list(message) + nil);
    lemma_read_byte_list_of_enc(message, nil);
}

#[verifier::rlimit(50)]
proof fn lemma_decode_of_encode_xcmp(
    provided_id: Seq<u8>,
    execution_times: Seq<u64>,
    para_id: u32,
    returnable_call: Seq<u8>,
    weight_at_most: u64,
    t: SchemaTag,
)
    requires
        fits_compact(provided_id.len()),
        fits_compact(execution_times.len()),
        fits_compact(returnable_call.len()),
        t == SchemaTag::V1 || t == SchemaTag::V2,
    ensures
        spec_decode_call(
            spec_encode_call(
                CallData::ScheduleXcmpTask {
                    provided_id,
                    execution_times,
                    para_id,
                    returnable_call,
                    weight_at_most,
                },
                t,
            ),
            t,
        ) == Some(
            CallData::ScheduleXcmpTask {
                provided_id,
                execution_times,
                para_id,
                returnable_call,
                weight_at_most,
            },
        ),
{
    let c = CallData::ScheduleXcmpTask {
        provided_id,
        execution_times,
        para_id,
        returnable_call,
        weight_at_most,
    };
    let s = spec_encode_call(c, t);
    let nil = Seq::<u8>::empty();
    let tail = enc_byte_list(returnable_call) + le_bytes(weight_at_most as nat, 8);
    let rw = le_bytes(weight_at_most as nat, 8);
    lemma_u32_fits(para_id);
    lemma_u64_fits(weight_at_most);
    if xcmp_para_id_first(t) {
        let body = le_bytes(para_id as nat, 4) + enc_byte_list(provided_id) + enc_u64_list(
            execution_times,
        ) + tail;
        assert(s =~= seq![TARGET_PALLET_INDEX, xcmp_call_index(t)] + body);
        assert(s.len() >= 2 && s[0] == TARGET_PALLET_INDEX && s[1] == xcmp_call_index(t));
        assert(s.skip(2) =~= body);
        let r0 = enc_byte_list(provided_id) + enc_u64_list(execution_times) + tail;
        assert(body =~= le_bytes(para_id as nat, 4) + r0);
        lemma_read_uint_of_le_bytes(para_id as nat, 4, r0);
        let r1 = enc_u64_list(execution_times) + tail;
        assert(r0 =~= enc_byte_list(provided_id) + r1);
        lemma_read_byte_list_of_enc(provided_id, r1);
        assert(r1 =~= enc_u64_list(execution_times) + tail);
        lemma_read_u64_list_of_enc(execution_times, tail);
    } else {
        let body = enc_byte_list(provided_id) + enc_u64_list(execution_times) + le_bytes(
            para_id as nat,
            4,
        ) + tail;
        assert(s =~= seq![TARGET_PALLET_INDEX, xcmp_call_index(t)] + body);
        assert(s.len() >= 2 && s[0] == TARGET_PALLET_INDEX && s[1] == xcmp_call_index(t));
        assert(s.skip(2) =~= body);
        let r1 = enc_u64_list(execution_times) + le_bytes(para_id as nat, 4) + tail;
        assert(body =~= enc_byte_list(provided_id) + r1);
        lemma_read_byte_list_of_enc(provided_id, r1);
        let r2 = le_bytes(para_id as nat, 4) + tail;
        assert(r1 =~= enc_u64_list(execution_times) + r2);
        lemma_read_u64_list_of_enc(execution_times, r2);
        assert(r2 =~= le_bytes(para_id as nat, 4) + tail);
        lemma_read_uint_of_le_bytes(para_id as nat, 4, tail);
    }
    assert(tail =~= enc_byte_list(returnable_call) + rw);
    lemma_read_byte_list_of_enc(returnable_call, rw);
    assert(rw =~= le_bytes(weight_at_most as nat, 8) + nil);
    lemma_read_uint_of_le_bytes(weight_at_most as nat, 8, nil);
}

proof fn lemma_decode_of_encode_native_transfer(
    provided_id: Seq<u8>,
    execution_times: Seq<u64>,
    recipient: Seq<u8>,
    amount: u128,
    t: SchemaTag,
)
    requires
        fits_compact(provided_id.len()),
        fits_compact(execution_times.len()),
        recipient.len() == 32,
        t == SchemaTag::V1 || t == SchemaTag::V2,
    ensures
        spec_decode_call(
            spec_encode_call(
                CallData::ScheduleNativeTransferTask {
                    provided_id,
                    execution_times,
                    recipient,
                    amount,
                },
                t,
            ),
            t,
        ) == Some(
            CallData::ScheduleNativeTransferTask {
                provided_id,
                execution_times,
                recipient,
                amount,
            },
        ),
{
    let c = CallData::ScheduleNativeTransferTask {
        provided_id,
        execution_times,
        recipient,
        amount,
    };
    let s = spec_encode_call(c, t);
    let nil = Seq::<u8>::empty();
    let ra = le_bytes(amount as nat, 16);
    lemma_u128_fits(amount);
    let body = enc_byte_list(provided_id) + enc_u64_list(execution_times) + recipient + ra;
    assert(s =~= seq![TARGET_PALLET_INDEX, native_transfer_call_index(t)] + body);
    assert(s.len() >= 2 && s[0] == TARGET_PALLET_INDEX && s[1] == native_transfer_call_index(t));
    assert(s.skip(2) =~= body);
    let r1 = enc_u64_list(execution_times) + recipient + ra;
    assert(body =~= enc_byte_list(provided_id) + r1);
    lemma_read_byte_list_of_enc(provided_id, r1);
    let r2 = recipient + ra;
    assert(r1 =~= enc_u64_list(execution_times) + r2);
    lemma_read_u64_list_of_enc(execution_times, r2);
    lemma_read_fixed_of_raw(recipient, ra);
    assert(ra =~= le_bytes(amount as nat, 16) + nil);
    lemma_read_uint_of_le_bytes(amount as nat, 16, nil);
}

proof fn lemma_decode_of_encode_cancel(task_id: Seq<u8>, t: SchemaTag)
    requires
        task_id.len() == 32,
        t == SchemaTag::V1 || t == SchemaTag::V2,
    ensures
        spec_decode_call(
            spec_encode_call(CallData::ScheduleCancelTask { task_id }, t),
            t,
        ) == Some(CallData::ScheduleCancelTask { task_id }),
{
    let c = CallData::ScheduleCancelTask { task_id };
    let s = spec_encode_call(c, t);
    let nil = Seq::<u8>::empty();
    assert(s =~= seq![TARGET_PALLET_INDEX, cancel_call_index(t)] + task_id);
    assert(s.len() >= 2 && s[0] == TARGET_PALLET_INDEX && s[1] == cancel_call_index(t));
    assert(s.skip(2) =~= task_id);
    assert(task_id =~= task_id + nil);
    lemma_read_fixed_of_raw(task_id, nil);
}

proof fn lemma_decode_of_encode_force_send(
    source: Seq<u8>,
    dest: Seq<u8>,
    value: u128,
    t: SchemaTag,
)
    requires
        source.len() == 32,
        dest.len() == 32,
        t == SchemaTag::TestChain,
    ensures
        spec_decode_call(
            spec_encode_call(CallData::ForceSendBalance { source, dest, value }, t),
            t,
        ) == Some(CallData::ForceSendBalance { source, dest, value }),
{
    let c = CallData::ForceSendBalance { source, dest, value };
    let s = spec_encode_call(c, t);
    let nil = Seq::<u8>::empty();
    let rv = le_bytes(value as nat, 16);
    lemma_u128_fits(value);
    let body = source + dest + rv;
    assert(s =~= seq![TARGET_PALLET_INDEX, FORCE_SEND_CALL_INDEX] + body);
    assert(s.len() >= 2 && s[0] == TARGET_PALLET_INDEX && s[1] == FORCE_SEND_CALL_INDEX);
    assert(s.skip(2) =~= body);
    let r1 = dest + rv;
    assert(body =~= source + r1);
    lemma_read_fixed_of_raw(source, r1);
    lemma_read_fixed_of_raw(dest, rv);
    assert(rv =~= le_bytes(value as nat, 16) + nil);
    lemma_read_uint_of_le_bytes(value as nat, 16, nil);
}

/// Round trip: decoding the encoder's output under the same tag
/// reconstructs the original call.
pub proof fn lemma_decode_of_encode(c: CallData, t: SchemaTag)
    requires
        c.wf(),
        schema_supports(t, c),
    ensures
        spec_decode_call(spec_encode_call(c, t), t) == Some(c),
{
    match c {
        CallData::RemarkWithEvent { message } => {
            lemma_decode_of_encode_remark(message, t);
        },
        CallData::ScheduleNotifyTask { provided_id, execution_times, message } => {
            lemma_decode_of_encode_notify(provided_id, execution_times, message, t);
        },
        CallData::ScheduleXcmpTask {
            provided_id,
            execution_times,
            para_id,
            returnable_call,
            weight_at_most,
        } => {
            lemma_decode_of_encode_xcmp(
                provided_id,
                execution_times,
                para_id,
                returnable_call,
                weight_at_most,
                t,
            );
        },
        CallData::ScheduleNativeTransferTask {
            provided_id,
            execution_times,
            recipient,
            amount,
        } => {
            lemma_decode_of_encode_native_transfer(
                provided_id,
                execution_times,
                recipient,
                amount,
                t,
            );
        },
        CallData::ScheduleCancelTask { task_id } => {
            lemma_decode_of_encode_cancel(task_id, t);
        },
        CallData::ForceSendBalance { source, dest, value } => {
            lemma_decode_of_encode_force_send(source, dest, value, t);
        },
    }
}


/// Copies `n` bytes of `bytes` starting at `start` into a fresh vector.
fn copy_range(bytes: &Vec<u8>, start: usize, n: usize) -> (r: Vec<u8>)
    requires
        start + n <= bytes.len(),
    ensures
        r@ == bytes@.subrange(start as int, start + n),
{
    let mut r: Vec<u8> = Vec::new();
    let mut i: usize = 0;
    while i < n
        invariant
            i <= n,
            start + n <= bytes.len(),
            r@ == bytes@.subrange(start as int, start + i),
        decreases n - i,
    {
        r.push(bytes[start + i]);
        assert(r@ =~= bytes@.subrange(start as int, start + i + 1));
        i = i + 1;
    }
    r
}

/// Parses a length-prefixed byte string out of `bytes` at `pos`.
fn read_byte_list_at(bytes: &Vec<u8>, pos: usize) -> (r: Option<(Vec<u8>, usize)>)
    requires
        pos <= bytes.len(),
    ensures
        match r {
            Some(p) => {
                &&& pos <= p.1 <= bytes.len()
                &&& p.0@.len() <= u32::MAX
                &&& read_byte_list(bytes@.skip(pos as int)) matches Some(q) && q.0 == p.0@ && q.1
                    == bytes@.skip(p.1 as int)
            },
            None => read_byte_list(bytes@.skip(pos as int)) is None,
        },
{
    match read_compact_at(bytes, pos) {
        Option::None => Option::None,
        Option::Some((len, p1)) => {
            let n = len as usize;
            if n > bytes.len() - p1 {
                Option::None
            } else {
                let b = copy_range(bytes, p1, n);
                proof {
                    assert(bytes@.skip(p1 as int).take(len as int) =~= bytes@.subrange(
                        p1 as int,
                        p1 + n,
                    ));
                    assert(bytes@.skip(p1 as int).skip(len as int) =~= bytes@.skip(p1 + n));
                }
                Option::Some((b, p1 + n))
            }
        },
    }
}

/// Parses a length-prefixed list of 64-bit integers out of `bytes` at `pos`.
fn read_u64_list_at(bytes: &Vec<u8>, pos: usize) -> (r: Option<(Vec<u64>, usize)>)
    requires
        pos <= bytes.len(),
    ensures
        match r {
            Some(p) => {
                &&& pos <= p.1 <= bytes.len()
                &&& p.0@.len() <= u32::MAX
                &&& read_u64_list(bytes@.skip(pos as int)) matches Some(q) && q.0 == p.0@ && q.1
                    == bytes@.skip(p.1 as int)
            },
            None => read_u64_list(bytes@.skip(pos as int)) is None,
        },
{
    match read_compact_at(bytes, pos) {
        Option::None => Option::None,
        Option::Some((count, p1)) => {
            let mut items: Vec<u64> = Vec::new();
            let mut p: usize = p1;
            let mut j: u32 = 0;
            proof {
                assert(items@ + Seq::<u64>::empty() =~= items@);
            }
            while j < count
                invariant
                    pos <= p1 <= p <= bytes.len(),
                    j <= count,
                    items@.len() == j,
                    read_compact(bytes@.skip(pos as int)) matches Some(h) && h.0 == count && h.1
                        == bytes@.skip(p1 as int),
                    read_u64_items(bytes@.skip(p1 as int), count as nat) == (
                    match read_u64_items(bytes@.skip(p as int), (count - j) as nat) {
                        Option::None => Option::<(Seq<u64>, Seq<u8>)>::None,
                        Option::Some(q) => Option::Some((items@ + q.0, q.1)),
                    }),
                decreases count - j,
            {
                if bytes.len() - p < 8 {
                    proof {
                        assert(bytes@.skip(p as int).len() < 8);
                        assert(read_u64_items(bytes@.skip(p as int), (count - j) as nat)
                            is None);
                    }
                    return Option::None;
                }
                let ghost prev_items = items@;
                let ghost k = (count - j) as nat;
                let v = read_le_bytes(bytes, p, 8);
                proof {
                    assert(pow256(8) == 0x1_0000_0000_0000_0000) by {
                        reveal_with_fuel(pow256, 9);
                    }
                }
                items.push(v as u64);
                proof {
                    let s = bytes@.skip(p as int);
                    assert(s.subrange(0, 8) =~= bytes@.subrange(p as int, p + 8));
                    assert(s.skip(8) =~= bytes@.skip(p + 8));
                    assert(le_value(s.subrange(0, 8)) as u64 == v as u64);
                    match read_u64_items(bytes@.skip(p + 8), (k - 1) as nat) {
                        Option::None => {
                            assert(read_u64_items(s, k) is None);
                        },
                        Option::Some(q) => {
                            assert(read_u64_items(s, k) == Option::Some(
                                (seq![v as u64] + q.0, q.1),
                            ));
                            assert(prev_items + (seq![v as u64] + q.0) =~= items@ + q.0);
                        },
                    }
                }
                p = p + 8;
                j = j + 1;
            }
            proof {
                assert(read_u64_items(bytes@.skip(p as int), 0) == Option::Some(
                    (Seq::<u64>::empty(), bytes@.skip(p as int)),
                ));
                assert(items@ + Seq::<u64>::empty() =~= items@);
            }
            Option::Some((items, p))
        },
    }
}

/// Parses 32 raw bytes out of `bytes` at `pos`.
fn read_fixed32_at(bytes: &Vec<u8>, pos: usize) -> (r: Option<(Vec<u8>, usize)>)
    requires
        pos <= bytes.len(),
    ensures
        match r {
            Some(p) => {
                &&& pos <= p.1 <= bytes.len()
                &&& p.0@.len() == 32
                &&& read_fixed(bytes@.skip(pos as int), 32) matches Some(q) && q.0 == p.0@ && q.1
                    == bytes@.skip(p.1 as int)
            },
            None => read_fixed(bytes@.skip(pos as int), 32) is None,
        },
{
    if bytes.len() - pos < 32 {
        Option::None
    } else {
        let b = copy_range(bytes, pos, 32);
        proof {
            assert(bytes@.skip(pos as int).take(32) =~= bytes@.subrange(pos as int, pos + 32));
            assert(bytes@.skip(pos as int).skip(32) =~= bytes@.skip(pos + 32));
        }
        Option::Some((b, pos + 32))
    }
}

/// Parses an `n`-byte little-endian unsigned integer out of `bytes` at `pos`.
fn read_uint_at(bytes: &Vec<u8>, pos: usize, n: usize) -> (r: Option<(u128, usize)>)
    requires
        pos <= bytes.len(),
        n <= 16,
    ensures
        match r {
            Some(p) => {
                &&& pos <= p.1 <= bytes.len()
                &&& read_uint(bytes@.skip(pos as int), n as nat) matches Some(q) && q.0
                    == p.0 as nat && q.1 == bytes@.skip(p.1 as int)
            },
            None => read_uint(bytes@.skip(pos as int), n as nat) is None,
        },
{
    if bytes.len() - pos < n {
        Option::None
    } else {
        let v = read_le_bytes(bytes, pos, n);
        proof {
            assert(bytes@.skip(pos as int).take(n as int) =~= bytes@.subrange(pos as int, pos + n));
            assert(bytes@.skip(pos as int).skip(n as int) =~= bytes@.skip(pos + n));
        }
        Option::Some((v, pos + n))
    }
}

/// Decodes one remote call out of `bytes` under `schema`'s table: the
/// inverse of [`encode_call`](crate::call::encode_call). Returns `None`
/// exactly where [`spec_decode_call`] does.
pub fn decode_call(bytes: &Vec<u8>, schema: SchemaTag) -> (r: Option<RemoteCall>)
    ensures
        match r {
            Some(c) => c.wf() && spec_decode_call(bytes@, schema) == Some(c@),
            None => spec_decode_call(bytes@, schema) is None,
        },
{
    if bytes.len() < 2 {
        return Option::None;
    }
    let pallet = bytes[0];
    let op = bytes[1];
    let ghost body = bytes@.skip(2);
    if pallet == SYSTEM_PALLET_INDEX && op == REMARK_CALL_INDEX {
        match read_byte_list_at(bytes, 2) {
            Option::None => Option::None,
            Option::Some((message, p)) => {
                if p == bytes.len() {
                    assert(bytes@.skip(p as int).len() == 0);
                    Option::Some(RemoteCall::RemarkWithEvent { message })
                } else {
                    assert(bytes@.skip(p as int).len() > 0);
                    Option::None
                }
            },
        }
    } else if pallet == TARGET_PALLET_INDEX {
        let scheduler: bool = matches!(schema, SchemaTag::V1) || matches!(schema, SchemaTag::V2);
        let cancel_ix: u8 = match schema {
            SchemaTag::V1 => 4,
            SchemaTag::V2 => 1,
            SchemaTag::TestChain => 1,
        };
        assert(cancel_ix == cancel_call_index(schema));
        if scheduler && op == 0 {
            assert(op == notify_call_index(schema));
            decode_notify_at(bytes, 2)
        } else if scheduler && op == 2 {
            assert(op == xcmp_call_index(schema));
            let para_first: bool = matches!(schema, SchemaTag::V2);
            decode_xcmp_at(bytes, 2, para_first)
        } else if scheduler && op == 3 {
            assert(op == native_transfer_call_index(schema));
            decode_native_transfer_at(bytes, 2)
        } else if scheduler && op == cancel_ix {
            decode_cancel_at(bytes, 2)
        } else if matches!(schema, SchemaTag::TestChain) && op == FORCE_SEND_CALL_INDEX {
            decode_force_send_at(bytes, 2)
        } else {
            Option::None
        }
    } else {
        Option::None
    }
}

fn decode_notify_at(bytes: &Vec<u8>, pos: usize) -> (r: Option<RemoteCall>)
    requires
        pos <= bytes.len(),
    ensures
        match r {
            Some(c) => c.wf() && spec_decode_notify(bytes@.skip(pos as int)) == Some(c@),
            None => spec_decode_notify(bytes@.skip(pos as int)) is None,
        },
{
    match read_byte_list_at(bytes, pos) {
        Option::None => Option::None,
        Option::Some((provided_id, p1)) => match read_u64_list_at(bytes, p1) {
            Option::None => Option::None,
            Option::Some((execution_times, p2)) => match read_byte_list_at(bytes, p2) {
                Option::None => Option::None,
                Option::Some((message, p3)) => {
                    if p3 == bytes.len() {
                        assert(bytes@.skip(p3 as int).len() == 0);
                        Option::Some(
                            RemoteCall::ScheduleNotifyTask {
                                provided_id,
                                execution_times,
                                message,
                            },
                        )
                    } else {
                        assert(bytes@.skip(p3 as int).len() > 0);
                        Option::None
                    }
                },
            },
        },
    }
}

#[verifier::rlimit(50)]
fn decode_xcmp_at(bytes: &Vec<u8>, pos: usize, para_id_first: bool) -> (r: Option<RemoteCall>)
    requires
        pos <= bytes.len(),
    ensures
        match r {
            Some(c) => c.wf() && spec_decode_xcmp(bytes@.skip(pos as int), para_id_first)
                == Some(c@),
            None => spec_decode_xcmp(bytes@.skip(pos as int), para_id_first) is None,
        },
{
    if para_id_first {
        match read_uint_at(bytes, pos, 4) {
            Option::None => Option::None,
            Option::Some((para, p0)) => match read_byte_list_at(bytes, p0) {
                Option::None => Option::None,
                Option::Some((provided_id, p1)) => match read_u64_list_at(bytes, p1) {
                    Option::None => Option::None,
                    Option::Some((execution_times, p2)) => decode_xcmp_tail_at(
                        bytes,
                        p2,
                        provided_id,
                        execution_times,
                        para as u32,
                    ),
                },
            },
        }
    } else {
        match read_byte_list_at(bytes, pos) {
            Option::None => Option::None,
            Option::Some((provided_id, p1)) => match read_u64_list_at(bytes, p1) {
                Option::None => Option::None,
                Option::Some((execution_times, p2)) => match read_uint_at(bytes, p2, 4) {
                    Option::None => Option::None,
                    Option::Some((para, p3)) => decode_xcmp_tail_at(
                        bytes,
                        p3,
                        provided_id,
                        execution_times,
                        para as u32,
                    ),
                },
            },
        }
    }
}

fn decode_xcmp_tail_at(
    bytes: &Vec<u8>,
    pos: usize,
    provided_id: Vec<u8>,
    execution_times: Vec<u64>,
    para_id: u32,
) -> (r: Option<RemoteCall>)
    requires
        pos <= bytes.len(),
        provided_id@.len() <= u32::MAX,
        execution_times@.len() <= u32::MAX,
    ensures
        match r {
            Some(c) => c.wf() && spec_decode_xcmp_tail(
                bytes@.skip(pos as int),
                provided_id@,
                execution_times@,
                para_id,
            ) == Some(c@),
            None => spec_decode_xcmp_tail(
                bytes@.skip(pos as int),
                provided_id@,
                execution_times@,
                para_id,
            ) is None,
        },
{
    match read_byte_list_at(bytes, pos) {
        Option::None => Option::None,
        Option::Some((returnable_call, p0)) => match read_uint_at(bytes, p0, 8) {
            Option::None => Option::None,
            Option::Some((weight, p1)) => {
                if p1 == bytes.len() {
                    assert(bytes@.skip(p1 as int).len() == 0);
                    proof {
                        assert(pow256(8) == 0x1_0000_0000_0000_0000) by {
                            reveal_with_fuel(pow256, 9);
                        }
                    }
                    Option::Some(
                        RemoteCall::ScheduleXcmpTask {
                            provided_id,
                            execution_times,
                            para_id,
                            returnable_call,
                            weight_at_most: weight as u64,
                        },
                    )
                } else {
                    assert(bytes@.skip(p1 as int).len() > 0);
                    Option::None
                }
            },
        },
    }
}

fn decode_native_transfer_at(bytes: &Vec<u8>, pos: usize) -> (r: Option<RemoteCall>)
    requires
        pos <= bytes.len(),
    ensures
        match r {
            Some(c) => c.wf() && spec_decode_native_transfer(bytes@.skip(pos as int))
                == Some(c@),
            None => spec_decode_native_transfer(bytes@.skip(pos as int)) is None,
        },
{
    match read_byte_list_at(bytes, pos) {
        Option::None => Option::None,
        Option::Some((provided_id, p1)) => match read_u64_list_at(bytes, p1) {
            Option::None => Option::None,
            Option::Some((execution_times, p2)) => match read_fixed32_at(bytes, p2) {
                Option::None => Option::None,
                Option::Some((recipient, p3)) => match read_uint_at(bytes, p3, 16) {
                    Option::None => Option::None,
                    Option::Some((amount, p4)) => {
                        if p4 == bytes.len() {
                            assert(bytes@.skip(p4 as int).len() == 0);
                            Option::Some(
                                RemoteCall::ScheduleNativeTransferTask {
                                    provided_id,
                                    execution_times,
                                    recipient: AccountId { bytes: recipient },
                                    amount,
                                },
                            )
                        } else {
                            assert(bytes@.skip(p4 as int).len() > 0);
                            Option::None
                        }
                    },
                },
            },
        },
    }
}

fn decode_cancel_at(bytes: &Vec<u8>, pos: usize) -> (r: Option<RemoteCall>)
    requires
        pos <= bytes.len(),
    ensures
        match r {
            Some(c) => c.wf() && spec_decode_cancel(bytes@.skip(pos as int)) == Some(c@),
            None => spec_decode_cancel(bytes@.skip(pos as int)) is None,
        },
{
    match read_fixed32_at(bytes, pos) {
        Option::None => Option::None,
        Option::Some((task_id, p)) => {
            if p == bytes.len() {
                assert(bytes@.skip(p as int).len() == 0);
                Option::Some(RemoteCall::ScheduleCancelTask { task_id: TaskHash { bytes: task_id } })
            } else {
                assert(bytes@.skip(p as int).len() > 0);
                Option::None
            }
        },
    }
}

fn decode_force_send_at(bytes: &Vec<u8>, pos: usize) -> (r: Option<RemoteCall>)
    requires
        pos <= bytes.len(),
    ensures
        match r {
            Some(c) => c.wf() && spec_decode_force_send(bytes@.skip(pos as int)) == Some(c@),
            None => spec_decode_force_send(bytes@.skip(pos as int)) is None,
        },
{
    match read_fixed32_at(bytes, pos) {
        Option::None => Option::None,
        Option::Some((source, p1)) => match read_fixed32_at(bytes, p1) {
            Option::None => Option::None,
            Option::Some((dest, p2)) => match read_uint_at(bytes, p2, 16) {
                Option::None => Option::None,
                Option::Some((value, p3)) => {
                    if p3 == bytes.len() {
                        assert(bytes@.skip(p3 as int).len() == 0);
                        Option::Some(
                            RemoteCall::ForceSendBalance {
                                source: AccountId { bytes: source },
                                dest: AccountId { bytes: dest },
                                value,
                            },
                        )
                    } else {
                        assert(bytes@.skip(p3 as int).len() > 0);
                        Option::None
                    }
                },
            },
        },
    }
}

/// Within one schema, encoding is injective: two well-formed supported
/// calls with the same bytes are the same call. Follows from the round
/// trip, since decoding is a function of the bytes.
pub proof fn lemma_encode_injective(c1: CallData, c2: CallData, t: SchemaTag)
    requires
        c1.wf(),
        c2.wf(),
        schema_supports(t, c1),
        schema_supports(t, c2),
        spec_encode_call(c1, t) == spec_encode_call(c2, t),
    ensures
        c1 == c2,
{
    lemma_decode_of_encode(c1, t);
    lemma_decode_of_encode(c2, t);
}

} // verus!
