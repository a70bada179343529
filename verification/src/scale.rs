//! Little-endian integer bytes and the compact length prefix.
//!
//! These are the primitive byte layouts out of which every encoded remote
//! call is assembled: an unsigned integer written as a fixed number of
//! little-endian bytes, and a variable-length "compact" form used to prefix
//! collections with their length.

use vstd::prelude::*;

verus! {

/// 256 raised to the power `n`: the number of values `n` bytes can hold.
pub open spec fn pow256(n: nat) -> nat
    decreases n,
{
    if n == 0 {
        1
    } else {
        256 * pow256((n - 1) as nat)
    }
}

/// The `n` little-endian bytes of `x`; digits of `x` in base 256, least
/// significant first, truncated above `256^n`.
pub open spec fn le_bytes(x: nat, n: nat) -> Seq<u8>
    decreases n,
{
    if n == 0 {
        Seq::empty()
    } else {
        seq![(x % 256) as u8] + le_bytes(x / 256, (n - 1) as nat)
    }
}

/// The value of a little-endian byte string.
pub open spec fn le_value(s: Seq<u8>) -> nat
    decreases s.len(),
{
    if s.len() == 0 {
        0
    } else {
        (s[0] + 256 * le_value(s.drop_first())) as nat
    }
}

pub proof fn lemma_le_bytes_len(x: nat, n: nat)
    ensures
        le_bytes(x, n).len() == n,
    decreases n,
{
    if n > 0 {
        lemma_le_bytes_len(x / 256, (n - 1) as nat);
    }
}

pub proof fn lemma_pow256_positive(n: nat)
    ensures
        pow256(n) >= 1,
    decreases n,
{
    if n > 0 {
        lemma_pow256_positive((n - 1) as nat);
    }
}

/// Reading back the little-endian bytes of `x` recovers `x`, as long as `x`
/// fits in `n` bytes.
pub proof fn lemma_le_value_of_le_bytes(x: nat, n: nat)
    requires
        x < pow256(n),
    ensures
        le_value(le_bytes(x, n)) == x,
    decreases n,
{
    if n == 0 {
    } else {
        let m = (n - 1) as nat;
        assert(x < 256 * pow256(m));
        assert(x / 256 < pow256(m)) by {
            if x / 256 >= pow256(m) {
                vstd::arithmetic::div_mod::lemma_fundamental_div_mod(x as int, 256);
                vstd::arithmetic::mul::lemma_mul_inequality(
                    pow256(m) as int,
                    (x / 256) as int,
                    256,
                );
            }
        }
        lemma_le_value_of_le_bytes(x / 256, m);
        let s = le_bytes(x, n);
        assert(s.drop_first() =~= le_bytes(x / 256, m));
        assert(s[0] == (x % 256) as u8);
        vstd::arithmetic::div_mod::lemma_fundamental_div_mod(x as int, 256);
    }
}

/// Appends the `n` little-endian bytes of `x` to `out`.
pub fn push_le_bytes(out: &mut Vec<u8>, x: u128, n: usize)
    ensures
        final(out)@ == old(out)@ + le_bytes(x as nat, n as nat),
{
    let mut v: u128 = x;
    let mut i: usize = 0;
    while i < n
        invariant
            i <= n,
            out@ + le_bytes(v as nat, (n - i) as nat) == old(out)@ + le_bytes(
                x as nat,
                n as nat,
            ),
        decreases n - i,
    {
        let ghost prev = out@;
        let ghost left = (n - i) as nat;
        out.push((v % 256) as u8);
        assert(le_bytes(v as nat, left) == seq![(v as nat % 256) as u8] + le_bytes(
            v as nat / 256,
            (left - 1) as nat,
        ));
        assert(out@ + le_bytes(v as nat / 256, (left - 1) as nat) =~= prev + le_bytes(
            v as nat,
            left,
        ));
        v = v / 256;
        i = i + 1;
    }
    assert(out@ =~= out@ + le_bytes(v as nat, 0));
}

/// Reads `n` little-endian bytes starting at `start`.
pub fn read_le_bytes(bytes: &Vec<u8>, start: usize, n: usize) -> (r: u128)
    requires
        n <= 16,
        start + n <= bytes.len(),
    ensures
        r as nat == le_value(bytes@.subrange(start as int, start + n)),
        r < pow256(n as nat),
{
    let mut r: u128 = 0;
    let mut i: usize = n;
    proof {
        assert(bytes@.subrange(start + n, start + n) =~= Seq::empty());
    }
    while i > 0
        invariant
            i <= n,
            n <= 16,
            start + n <= bytes.len(),
            r as nat == le_value(bytes@.subrange(start + i, start + n)),
            r < pow256((n - i) as nat),
        decreases i,
    {
        proof {
            lemma_pow256_bound_16((n - i + 1) as nat);
            assert(pow256((n - i + 1) as nat) == 256 * pow256((n - i) as nat));
            vstd::arithmetic::mul::lemma_mul_inequality(
                r as int,
                pow256((n - i) as nat) - 1,
                256,
            );
        }
        let b = bytes[start + i - 1];
        let ghost old_r = r;
        r = r * 256 + (b as u128);
        i = i - 1;
        proof {
            let s = bytes@.subrange(start + i, start + n);
            assert(s.len() == n - i);
            assert(s[0] == bytes@[start + i]);
            assert(s.drop_first() =~= bytes@.subrange(start + i + 1, start + n));
            assert(r as nat == s[0] + 256 * le_value(s.drop_first()));
            assert(r < pow256((n - i) as nat)) by {
                assert(pow256((n - i) as nat) == 256 * pow256((n - i - 1) as nat));
                assert(old_r as nat <= pow256((n - i - 1) as nat) - 1);
                vstd::arithmetic::mul::lemma_mul_inequality(
                    old_r as int,
                    pow256((n - i - 1) as nat) - 1,
                    256,
                );
            }
        }
    }
    r
}

/// `256^n` fits in a `u128` for `n` up to 16.
pub proof fn lemma_pow256_bound_16(n: nat)
    requires
        n <= 16,
    ensures
        pow256(n) <= 0x1_0000_0000_0000_0000_0000_0000_0000_0000,
{
    lemma_pow256_mono(n, 16);
    assert(pow256(16) == 0x1_0000_0000_0000_0000_0000_0000_0000_0000) by {
        reveal_with_fuel(pow256, 17);
    }
}

/// The compact form of a length `x`: the two low bits of the first byte pick
/// one of four modes, the remaining bits carry the value.
pub open spec fn compact_bytes(x: u32) -> Seq<u8> {
    if x < 64 {
        seq![(x * 4) as u8]
    } else if x < 16384 {
        le_bytes((x * 4 + 1) as nat, 2)
    } else if x < 0x4000_0000 {
        le_bytes((x * 4 + 2) as nat, 4)
    } else {
        seq![3u8] + le_bytes(x as nat, 4)
    }
}

/// Parses a compact-form length off the front of `s`, returning the value
/// and the unread remainder; `None` on truncated or non-canonical input.
pub open spec fn read_compact(s: Seq<u8>) -> Option<(u32, Seq<u8>)> {
    if s.len() == 0 {
        None
    } else {
        let b0 = s[0];
        if b0 % 4 == 0 {
            Some(((b0 / 4) as u32, s.drop_first()))
        } else if b0 % 4 == 1 {
            if s.len() < 2 {
                None
            } else {
                let x = le_value(s.subrange(0, 2)) / 4;
                if 64 <= x < 16384 {
                    Some((x as u32, s.skip(2)))
                } else {
                    None
                }
            }
        } else if b0 % 4 == 2 {
            if s.len() < 4 {
                None
            } else {
                let x = le_value(s.subrange(0, 4)) / 4;
                if x >= 16384 {
                    Some((x as u32, s.skip(4)))
                } else {
                    None
                }
            }
        } else {
            if b0 != 3 || s.len() < 5 {
                None
            } else {
                let x = le_value(s.subrange(1, 5));
                if x >= 0x4000_0000 {
                    Some((x as u32, s.skip(5)))
                } else {
                    None
                }
            }
        }
    }
}

/// Appends the compact form of `x` to `out`.
pub fn push_compact(out: &mut Vec<u8>, x: u32)
    ensures
        final(out)@ == old(out)@ + compact_bytes(x),
{
    if x < 64 {
        out.push((x * 4) as u8);
        assert(final(out)@ =~= old(out)@ + compact_bytes(x));
    } else if x < 16384 {
        push_le_bytes(out, (x as u128) * 4 + 1, 2);
    } else if x < 0x4000_0000 {
        push_le_bytes(out, (x as u128) * 4 + 2, 4);
    } else {
        let ghost mid = out@;
        out.push(3u8);
        push_le_bytes(out, x as u128, 4);
        assert(final(out)@ =~= mid + (seq![3u8] + le_bytes(x as nat, 4)));
    }
}

/// Reading back the compact form of `x` recovers `x` and leaves the
/// remainder untouched.
pub proof fn lemma_read_compact_of_compact_bytes(x: u32, rest: Seq<u8>)
    ensures
        read_compact(compact_bytes(x) + rest) matches Some(p) && p.0 == x && p.1 == rest,
{
    let s = compact_bytes(x) + rest;
    if x < 64 {
        assert(s[0] == (x * 4) as u8);
        assert(s.drop_first() =~= rest);
    } else if x < 16384 {
        let v = (x * 4 + 1) as nat;
        lemma_le_bytes_len(v, 2);
        assert(s.subrange(0, 2) =~= le_bytes(v, 2));
        assert(v < pow256(2)) by {
            reveal_with_fuel(pow256, 3);
        }
        lemma_le_value_of_le_bytes(v, 2);
        assert(s[0] == le_bytes(v, 2)[0]);
        assert(le_bytes(v, 2)[0] == (v % 256) as u8);
        vstd::arithmetic::div_mod::lemma_mod_mod(v as int, 4, 64);
        assert(s[0] % 4 == 1);
        assert(s.skip(2) =~= rest);
    } else if x < 0x4000_0000 {
        let v = (x * 4 + 2) as nat;
        lemma_le_bytes_len(v, 4);
        assert(s.subrange(0, 4) =~= le_bytes(v, 4));
        assert(v < pow256(4)) by {
            reveal_with_fuel(pow256, 5);
        }
        lemma_le_value_of_le_bytes(v, 4);
        assert(s[0] == le_bytes(v, 4)[0]);
        assert(le_bytes(v, 4)[0] == (v % 256) as u8);
        vstd::arithmetic::div_mod::lemma_mod_mod(v as int, 4, 64);
        assert(s[0] % 4 == 2);
        assert(s.skip(4) =~= rest);
    } else {
        lemma_le_bytes_len(x as nat, 4);
        assert(s[0] == 3u8);
        assert(s.subrange(1, 5) =~= le_bytes(x as nat, 4));
        assert(x < pow256(4)) by {
            reveal_with_fuel(pow256, 5);
        }
        lemma_le_value_of_le_bytes(x as nat, 4);
        assert(s.skip(5) =~= rest);
    }
}

/// Parses a compact-form length out of `bytes` at position `pos`, returning
/// the value and the position just past it.
pub fn read_compact_at(bytes: &Vec<u8>, pos: usize) -> (r: Option<(u32, usize)>)
    requires
        pos <= bytes.len(),
    ensures
        match r {
            Some(p) => {
                &&& pos < p.1 <= bytes.len()
                &&& read_compact(bytes@.skip(pos as int)) matches Some(q) && q.0 == p.0 && q.1
                    == bytes@.skip(p.1 as int)
            },
            None => read_compact(bytes@.skip(pos as int)) is None,
        },
{
    let ghost s = bytes@.skip(pos as int);
    if pos == bytes.len() {
        return None;
    }
    let b0 = bytes[pos];
    assert(b0 == s[0]);
    if b0 % 4 == 0 {
        proof {
            assert(s.drop_first() =~= bytes@.skip(pos + 1));
        }
        Some(((b0 / 4) as u32, pos + 1))
    } else if b0 % 4 == 1 {
        if bytes.len() - pos < 2 {
            return None;
        }
        let v = read_le_bytes(bytes, pos, 2);
        proof {
            assert(bytes@.subrange(pos as int, pos + 2) =~= s.subrange(0, 2));
            assert(s.skip(2) =~= bytes@.skip(pos + 2));
        }
        let x = (v / 4) as u32;
        proof {
            reveal_with_fuel(pow256, 3);
        }
        if x >= 64 {
            Some((x, pos + 2))
        } else {
            None
        }
    } else if b0 % 4 == 2 {
        if bytes.len() - pos < 4 {
            return None;
        }
        let v = read_le_bytes(bytes, pos, 4);
        proof {
            assert(bytes@.subrange(pos as int, pos + 4) =~= s.subrange(0, 4));
            assert(s.skip(4) =~= bytes@.skip(pos + 4));
            reveal_with_fuel(pow256, 5);
        }
        let x = (v / 4) as u32;
        if x >= 16384 {
            Some((x, pos + 4))
        } else {
            None
        }
    } else {
        if b0 != 3 || bytes.len() - pos < 5 {
            return None;
        }
        let v = read_le_bytes(bytes, pos + 1, 4);
        proof {
            assert(bytes@.subrange(pos + 1, pos + 5) =~= s.subrange(1, 5));
            assert(s.skip(5) =~= bytes@.skip(pos + 5));
            reveal_with_fuel(pow256, 5);
        }
        let x = v as u32;
        if x >= 0x4000_0000 {
            Some((x, pos + 5))
        } else {
            None
        }
    }
}

pub proof fn lemma_pow256_mono(m: nat, n: nat)
    requires
        m <= n,
    ensures
        pow256(m) <= pow256(n),
    decreases n,
{
    if m < n {
        lemma_pow256_mono(m, (n - 1) as nat);
        lemma_pow256_positive((n - 1) as nat);
    }
}

} // verus!
