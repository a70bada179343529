//! Token denominations and cross-token amount conversion.
//!
//! Tokens differ in how many decimal places one whole unit carries; moving
//! an amount between tokens rescales it by the difference in decimals.

use vstd::prelude::*;

verus! {

/// Balance of an account.
pub type Balance = u128;

/// 10 raised to the power `n`.
pub open spec fn pow10(n: nat) -> nat
    decreases n,
{
    if n == 0 {
        1
    } else {
        10 * pow10((n - 1) as nat)
    }
}

pub proof fn lemma_pow10_positive(n: nat)
    ensures
        pow10(n) >= 1,
    decreases n,
{
    if n > 0 {
        lemma_pow10_positive((n - 1) as nat);
    }
}

pub proof fn lemma_pow10_mono(m: nat, n: nat)
    requires
        m <= n,
    ensures
        pow10(m) <= pow10(n),
    decreases n,
{
    if m < n {
        lemma_pow10_mono(m, (n - 1) as nat);
        lemma_pow10_positive((n - 1) as nat);
    }
}

/// `10^n` fits in a `u128` for `n` up to 38.
pub proof fn lemma_pow10_bound_38(n: nat)
    requires
        n <= 38,
    ensures
        pow10(n) <= 100_000_000_000_000_000_000_000_000_000_000_000_000,
{
    lemma_pow10_mono(n, 38);
    assert(pow10(38) == 100_000_000_000_000_000_000_000_000_000_000_000_000) by {
        reveal_with_fuel(pow10, 39);
    }
}

/// Computes `10^n`.
pub fn pow10_u128(n: u32) -> (r: u128)
    requires
        n <= 38,
    ensures
        r == pow10(n as nat),
{
    let mut r: u128 = 1;
    let mut i: u32 = 0;
    while i < n
        invariant
            i <= n <= 38,
            r == pow10(i as nat),
        decreases n - i,
    {
        proof {
            lemma_pow10_bound_38((i + 1) as nat);
            assert(pow10((i + 1) as nat) == 10 * pow10(i as nat));
        }
        r = r * 10;
        i = i + 1;
    }
    r
}

/// What a token exposes about itself: how many decimal places one whole
/// unit of it carries. The denominations derive from that alone.
pub trait TokenInfo {
    /// The token's decimal places, as specification data.
    spec fn spec_decimals(&self) -> u32;

    fn get_decimals(&self) -> (r: u32)
        ensures
            r == self.spec_decimals(),
    ;

    /// One whole unit: `10^decimals` base units.
    fn dollar(&self) -> (r: Balance)
        requires
            self.spec_decimals() <= 38,
        ensures
            r == pow10(self.spec_decimals() as nat),
    {
        let decimals = self.get_decimals();
        pow10_u128(decimals)
    }

    /// A hundredth of a whole unit.
    fn cent(&self) -> (r: Balance)
        requires
            self.spec_decimals() <= 38,
        ensures
            r == pow10(self.spec_decimals() as nat) / 100,
    {
        self.dollar() / 100
    }

    /// A thousandth of a cent.
    fn millicent(&self) -> (r: Balance)
        requires
            self.spec_decimals() <= 38,
        ensures
            r == pow10(self.spec_decimals() as nat) / 100 / 1000,
    {
        self.cent() / 1_000
    }
}

/// A token described by its decimal places alone.
pub struct Token {
    pub decimals: u32,
}

impl TokenInfo for Token {
    open spec fn spec_decimals(&self) -> u32 {
        self.decimals
    }

    fn get_decimals(&self) -> (r: u32) {
        self.decimals
    }
}

/// Rescales `amount` from `source`'s decimals to `target`'s: dividing away
/// excess precision, or multiplying missing precision in.
pub fn convert_to_token<C: TokenInfo>(source: C, target: C, amount: Balance) -> (r: Balance)
    requires
        source.spec_decimals() <= 38,
        target.spec_decimals() <= 38,
        source.spec_decimals() < target.spec_decimals() ==> amount * pow10(
            (target.spec_decimals() - source.spec_decimals()) as nat,
        ) <= u128::MAX,
    ensures
        source.spec_decimals() >= target.spec_decimals() ==> r == amount as nat / pow10(
            (source.spec_decimals() - target.spec_decimals()) as nat,
        ),
        source.spec_decimals() < target.spec_decimals() ==> r == amount * pow10(
            (target.spec_decimals() - source.spec_decimals()) as nat,
        ),
{
    let current_decimals = source.get_decimals();
    let target_decimals = target.get_decimals();
    if current_decimals >= target_decimals {
        let diff = current_decimals - target_decimals;
        let divisor = pow10_u128(diff);
        proof {
            lemma_pow10_positive(diff as nat);
        }
        amount / divisor
    } else {
        let diff = target_decimals - current_decimals;
        amount * pow10_u128(diff)
    }
}

} // verus!
