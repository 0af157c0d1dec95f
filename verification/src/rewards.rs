//! The reward balance: an arbitrary-precision non-negative counter.
//!
//! `availableRewards` grows by the amount of every accepted deposit and
//! is never decreased, so it can outgrow any fixed-width machine
//! integer.  The balance is kept as a little-endian sequence of 64-bit
//! limbs whose mathematical value is the view of the type.

use vstd::arithmetic::div_mod::lemma_fundamental_div_mod;
use vstd::arithmetic::power2::lemma2_to64;
use vstd::arithmetic::power2::lemma_pow2_adds;
use vstd::arithmetic::power2::lemma_pow2_strictly_increases;
use vstd::arithmetic::power2::pow2;
use vstd::prelude::*;

verus! {

/// The value of a little-endian sequence of 64-bit limbs.
pub open spec fn limbs_value(s: Seq<u64>) -> nat
    decreases s.len(),
{
    if s.len() == 0 {
        0
    } else {
        s[0] as nat + 0x10000000000000000nat * limbs_value(s.drop_first())
    }
}

/// Splitting a limb sequence at `k` splits its value: the prefix keeps
/// its value and the suffix is scaled by the weight of position `k`.
pub proof fn lemma_limbs_value_split(s: Seq<u64>, k: int)
    requires
        0 <= k <= s.len(),
    ensures
        limbs_value(s) == limbs_value(s.take(k)) + pow2((64 * k) as nat) * limbs_value(
            s.skip(k),
        ),
    decreases k,
{
    if k == 0 {
        assert(s.take(0) =~= Seq::<u64>::empty());
        assert(s.skip(0) =~= s);
        lemma2_to64();
    } else {
        let d = s.drop_first();
        lemma_limbs_value_split(d, k - 1);
        assert(s.take(k).drop_first() =~= d.take(k - 1));
        assert(s.skip(k) =~= d.skip(k - 1));
        lemma_pow2_adds(64, (64 * (k - 1)) as nat);
        lemma2_to64();
        let b: nat = 0x10000000000000000nat;
        let p: nat = pow2((64 * (k - 1)) as nat);
        let vt: nat = limbs_value(d.take(k - 1));
        let vs: nat = limbs_value(d.skip(k - 1));
        assert(limbs_value(s.take(k)) == s[0] as nat + b * vt);
        assert(b * (vt + p * vs) == b * vt + (b * p) * vs) by (nonlinear_arith);
        assert(limbs_value(s) == s[0] as nat + b * (vt + p * vs));
    }
}

/// The value of a single limb is the limb itself.
pub proof fn lemma_limbs_value_singleton(x: u64)
    ensures
        limbs_value(seq![x]) == x as nat,
{
    assert(limbs_value(Seq::<u64>::empty()) == 0);
    assert(seq![x].drop_first() =~= Seq::<u64>::empty());
    assert(limbs_value(seq![x]) == x as nat + 0x10000000000000000nat * limbs_value(
        seq![x].drop_first(),
    ));
}

/// The value of a pair of limbs.
pub proof fn lemma_limbs_value_pair(x: u64, y: u64)
    ensures
        limbs_value(seq![x, y]) == x as nat + 0x10000000000000000nat * y as nat,
{
    lemma_limbs_value_singleton(y);
    assert(seq![x, y].drop_first() =~= seq![y]);
    assert(limbs_value(seq![x, y]) == x as nat + 0x10000000000000000nat * limbs_value(
        seq![x, y].drop_first(),
    ));
}

/// Appending a limb adds its value at the weight of the old length.
pub proof fn lemma_limbs_value_push(s: Seq<u64>, x: u64)
    ensures
        limbs_value(s.push(x)) == limbs_value(s) + x as nat * pow2((64 * s.len()) as nat),
{
    let t = s.push(x);
    lemma_limbs_value_split(t, s.len() as int);
    assert(t.take(s.len() as int) =~= s);
    assert(t.skip(s.len() as int) =~= seq![x]);
    lemma_limbs_value_singleton(x);
    assert(pow2((64 * s.len()) as nat) * x as nat == x as nat * pow2((64 * s.len()) as nat))
        by (nonlinear_arith);
}

/// Extending a prefix by one limb adds that limb at its weight.
pub proof fn lemma_limbs_value_take_step(s: Seq<u64>, i: int)
    requires
        0 <= i < s.len(),
    ensures
        limbs_value(s.take(i + 1)) == limbs_value(s.take(i)) + s[i] as nat * pow2(
            (64 * i) as nat,
        ),
{
    assert(s.take(i + 1) =~= s.take(i).push(s[i]));
    lemma_limbs_value_push(s.take(i), s[i]);
}

/// A sequence of zero limbs has value zero.
pub proof fn lemma_limbs_value_all_zero(s: Seq<u64>)
    requires
        forall|i: int| 0 <= i < s.len() ==> s[i] == 0,
    ensures
        limbs_value(s) == 0,
    decreases s.len(),
{
    if s.len() > 0 {
        lemma_limbs_value_all_zero(s.drop_first());
    }
}

/// A nonzero limb at position `j` pushes the value to at least the
/// weight of that position.
pub proof fn lemma_limbs_value_lower_bound(s: Seq<u64>, j: int)
    requires
        0 <= j < s.len(),
        s[j] > 0,
    ensures
        limbs_value(s) >= pow2((64 * j) as nat),
{
    lemma_limbs_value_split(s, j);
    let suffix = s.skip(j);
    assert(suffix[0] == s[j]);
    assert(limbs_value(suffix) >= 1);
    let p: nat = pow2((64 * j) as nat);
    let v: nat = limbs_value(suffix);
    assert(p * v >= p * 1) by (nonlinear_arith)
        requires
            v >= 1,
    ;
}

/// The limb at `i`, reading positions past the end as zero.
pub open spec fn limb_at(s: Seq<u64>, i: int) -> u64 {
    if 0 <= i < s.len() {
        s[i]
    } else {
        0
    }
}

/// The value of the first `i` limbs, reading past the end as the whole
/// sequence.
pub open spec fn prefix_value(s: Seq<u64>, i: int) -> nat {
    if i <= s.len() {
        limbs_value(s.take(i))
    } else {
        limbs_value(s)
    }
}

proof fn lemma_prefix_value_step(s: Seq<u64>, i: int)
    requires
        0 <= i,
    ensures
        prefix_value(s, i + 1) == prefix_value(s, i) + limb_at(s, i) as nat * pow2(
            (64 * i) as nat,
        ),
{
    if i < s.len() {
        lemma_limbs_value_take_step(s, i);
        assert(prefix_value(s, i + 1) == limbs_value(s.take(i + 1)));
        assert(prefix_value(s, i) == limbs_value(s.take(i)));
        assert(limb_at(s, i) == s[i]);
    } else {
        if i == s.len() {
            assert(s.take(i) =~= s);
        }
        assert(prefix_value(s, i + 1) == limbs_value(s));
        assert(prefix_value(s, i) == limbs_value(s));
        assert(limb_at(s, i) == 0);
    }
}

/// Adds two little-endian limb sequences.
fn add_limbs(a: &Vec<u64>, b: &Vec<u64>) -> (r: Vec<u64>)
    ensures
        limbs_value(r@) == limbs_value(a@) + limbs_value(b@),
{
    let base: u128 = 0x10000000000000000;
    let n: usize = if a.len() >= b.len() {
        a.len()
    } else {
        b.len()
    };
    let mut r: Vec<u64> = Vec::new();
    let mut carry: u64 = 0;
    let mut i: usize = 0;
    proof {
        assert(a@.take(0) =~= Seq::<u64>::empty());
        assert(b@.take(0) =~= Seq::<u64>::empty());
        lemma2_to64();
    }
    while i < n
        invariant
            n >= a@.len(),
            n >= b@.len(),
            i <= n,
            r@.len() == i,
            carry <= 1,
            base == 0x10000000000000000,
            limbs_value(r@) + carry as nat * pow2((64 * i) as nat) == prefix_value(a@, i as int)
                + prefix_value(b@, i as int),
        decreases n - i,
    {
        let ai: u64 = if i < a.len() {
            a[i]
        } else {
            0
        };
        let bi: u64 = if i < b.len() {
            b[i]
        } else {
            0
        };
        let s: u128 = ai as u128 + bi as u128 + carry as u128;
        let limb: u64 = (s % base) as u64;
        let new_carry: u64 = (s / base) as u64;
        proof {
            lemma2_to64();
            lemma_fundamental_div_mod(s as int, base as int);
            lemma_limbs_value_push(r@, limb);
            lemma_prefix_value_step(a@, i as int);
            lemma_prefix_value_step(b@, i as int);
            lemma_pow2_adds((64 * i) as nat, 64);
            let p: nat = pow2((64 * i) as nat);
            let bb: nat = 0x10000000000000000nat;
            assert((limb as nat + bb * new_carry as nat) * p == limb as nat * p + new_carry as nat
                * (bb * p)) by (nonlinear_arith);
            assert((ai as nat + bi as nat + carry as nat) * p == ai as nat * p + bi as nat * p
                + carry as nat * p) by (nonlinear_arith);
        }
        r.push(limb);
        carry = new_carry;
        i = i + 1;
    }
    proof {
        assert(a@.take(a@.len() as int) =~= a@);
        assert(b@.take(b@.len() as int) =~= b@);
    }
    if carry > 0 {
        proof {
            lemma_limbs_value_push(r@, carry);
        }
        r.push(carry);
    }
    r
}

/// The two 64-bit limbs of a 128-bit amount, little-endian.
fn u128_limbs(d: u128) -> (r: Vec<u64>)
    ensures
        limbs_value(r@) == d as nat,
{
    let base: u128 = 0x10000000000000000;
    let low: u64 = (d % base) as u64;
    let high: u64 = (d / base) as u64;
    let mut r: Vec<u64> = Vec::new();
    r.push(low);
    r.push(high);
    proof {
        lemma_fundamental_div_mod(d as int, base as int);
        assert(r@ =~= seq![low, high]);
        lemma_limbs_value_pair(low, high);
    }
    r
}

/// An arbitrary-precision non-negative reward balance.
///
/// The view of a balance is its mathematical value.
pub struct RewardBalance {
    limbs: Vec<u64>,
}

impl View for RewardBalance {
    type V = nat;

    closed spec fn view(&self) -> nat {
        limbs_value(self.limbs@)
    }
}

impl RewardBalance {
    /// The zero balance.
    pub fn zero() -> (r: RewardBalance)
        ensures
            r@ == 0,
    {
        RewardBalance { limbs: Vec::new() }
    }

    /// Adds `amount` to the balance; the balance never overflows.
    pub fn add_u128(&mut self, amount: u128)
        ensures
            final(self)@ == old(self)@ + amount as nat,
    {
        let d = u128_limbs(amount);
        let r = add_limbs(&self.limbs, &d);
        self.limbs = r;
    }

    /// The balance as a 128-bit integer, where it still fits.
    pub fn try_to_u128(&self) -> (r: Option<u128>)
        ensures
            match r {
                Some(v) => self@ == v as nat,
                None => self@ >= pow2(128),
            },
    {
        let mut j: usize = 2;
        while j < self.limbs.len()
            invariant
                j >= 2,
                forall|t: int| 2 <= t < j ==> self.limbs@[t] == 0,
            decreases self.limbs@.len() - j,
        {
            if self.limbs[j] != 0 {
                proof {
                    lemma_limbs_value_lower_bound(self.limbs@, j as int);
                    if 64 * j > 128 {
                        lemma_pow2_strictly_increases(128, (64 * j) as nat);
                    }
                }
                return None;
            }
            j = j + 1;
        }
        let l0: u64 = if self.limbs.len() >= 1 {
            self.limbs[0]
        } else {
            0
        };
        let l1: u64 = if self.limbs.len() >= 2 {
            self.limbs[1]
        } else {
            0
        };
        let v: u128 = l0 as u128 + 0x10000000000000000u128 * l1 as u128;
        proof {
            let s = self.limbs@;
            if s.len() > 2 {
                lemma_limbs_value_split(s, 2);
                lemma_limbs_value_all_zero(s.skip(2));
                lemma_pow2_adds(64, 64);
                lemma2_to64();
                assert(pow2(128) * limbs_value(s.skip(2)) == 0) by (nonlinear_arith)
                    requires
                        limbs_value(s.skip(2)) == 0,
                ;
                assert(s.take(2) =~= seq![s[0], s[1]]);
                lemma_limbs_value_pair(s[0], s[1]);
            } else if s.len() == 2 {
                assert(s =~= seq![s[0], s[1]]);
                lemma_limbs_value_pair(s[0], s[1]);
            } else if s.len() == 1 {
                assert(s =~= seq![s[0]]);
                lemma_limbs_value_singleton(s[0]);
            } else {
                assert(limbs_value(s) == 0);
            }
        }
        Some(v)
    }
}

} // verus!
