//! The deterministic generator the whole game draws from.
//!
//! xorshift32, bit for bit, because "deterministic" is a
//! promise about a *sequence*: any change to the algorithm changes every
//! mission that has ever been recorded. The state is `u32` and the shifts are
//! logical shifts that discard what falls off the top.
//!
//! The unit-interval value `next()` hands to the float code is the raw word
//! divided by `u32::MAX` and rounded to `f32`; that division lives beside the
//! code that uses it. `pick` scales the same value, and the roundings it goes
//! through are spelled out here over whole numbers, so that it picks exactly
//! the item the float code would.

use vstd::prelude::*;
use vstd::arithmetic::power2::pow2;

verus! {

/// One xorshift32 step.
pub open spec fn xorshift(x: u32) -> u32 {
    let a = x ^ (x << 13u32);
    let b = a ^ (a >> 17u32);
    b ^ (b << 5u32)
}

/// The generator's state after `n` steps from `seed`.
pub open spec fn state_after(seed: u32, n: nat) -> u32
    decreases n,
{
    if n == 0 {
        seed
    } else {
        xorshift(state_after(seed, (n - 1) as nat))
    }
}

/// The number of binary digits of `n`.
pub open spec fn bit_len(n: nat) -> nat
    decreases n,
{
    if n == 0 {
        0
    } else {
        1 + bit_len(n / 2)
    }
}

/// `n / d` rounded to the nearest whole number, a tie going to the even one.
pub open spec fn round_even(n: nat, d: nat) -> nat {
    let q = n / d;
    let r = n % d;
    if r > d - r || (r == d - r && q % 2 == 1) {
        q + 1
    } else {
        q
    }
}

/// How many binary digits of `n` lie beyond the 53 a double keeps.
pub open spec fn excess(n: nat) -> nat {
    if bit_len(n) > 53 {
        (bit_len(n) - 53) as nat
    } else {
        0
    }
}

/// The unit value the float code reads from `word`: `word / u32::MAX`
/// divided in double precision, then narrowed to single precision, each
/// rounding to the nearest representable value with ties to even. The
/// result is the single-precision mantissa, to be scaled by
/// `2^(bit_len(word) - 56)`.
pub open spec fn unit_mantissa(word: u32) -> nat {
    let shift = (85 - bit_len(word as nat)) as nat;
    let double = round_even(word as nat * pow2(shift), u32::MAX as nat);
    round_even(double, pow2(29))
}

/// `len` as a double: its mantissa, to be scaled by `2^excess(len)`.
pub open spec fn len_mantissa(len: nat) -> nat {
    round_even(len, pow2(excess(len)))
}

/// The item `pick` chooses from `len` items for the raw word `word`: the
/// single-precision unit value times `len` as a double, rounded to a double,
/// cut to its whole part and held below `len`.
pub open spec fn pick_index(word: u32, len: nat) -> nat {
    let product = unit_mantissa(word) * len_mantissa(len);
    let mantissa = round_even(product, pow2(excess(product)));
    let up = excess(product) + excess(len) + bit_len(word as nat);
    let whole = if up >= 56 {
        mantissa * pow2((up - 56) as nat)
    } else {
        mantissa / pow2((56 - up) as nat)
    };
    if whole < len {
        whole
    } else {
        (len - 1) as nat
    }
}

proof fn lemma_bit_len(n: nat)
    ensures
        n < pow2(bit_len(n)),
        n > 0 ==> pow2((bit_len(n) - 1) as nat) <= n,
    decreases n,
{
    vstd::arithmetic::power2::lemma2_to64();
    if n > 0 {
        lemma_bit_len(n / 2);
        vstd::arithmetic::power2::lemma_pow2_unfold(bit_len(n));
        if n / 2 > 0 {
            vstd::arithmetic::power2::lemma_pow2_unfold((bit_len(n) - 1) as nat);
        }
    }
}

proof fn lemma_bit_len_at_most(n: nat, k: nat)
    requires
        n < pow2(k),
    ensures
        bit_len(n) <= k,
{
    lemma_bit_len(n);
    if bit_len(n) > k {
        if (bit_len(n) - 1) as nat > k {
            vstd::arithmetic::power2::lemma_pow2_strictly_increases(k, (bit_len(n) - 1) as nat);
        }
    }
}

proof fn lemma_pow2_le(a: nat, b: nat)
    requires
        a <= b,
    ensures
        pow2(a) <= pow2(b),
{
    if a < b {
        vstd::arithmetic::power2::lemma_pow2_strictly_increases(a, b);
    }
}

/// Rounding away the excess leaves at most 53 binary digits.
proof fn lemma_excess_rounds_to_a_double(n: nat)
    ensures
        round_even(n, pow2(excess(n))) <= pow2(53),
{
    let s = excess(n);
    lemma_bit_len(n);
    vstd::arithmetic::power2::lemma_pow2_pos(s);
    vstd::arithmetic::power2::lemma_pow2_pos(53);
    lemma_pow2_le(bit_len(n), s + 53);
    vstd::arithmetic::power2::lemma_pow2_adds(s, 53);
    vstd::arithmetic::div_mod::lemma_multiply_divide_lt(n as int, pow2(s) as int, pow2(53) as int);
}

proof fn lemma_pow2_128()
    ensures
        pow2(128) == 0x1_0000_0000_0000_0000_0000_0000_0000_0000,
        pow2(64) == 0x1_0000_0000_0000_0000,
        pow2(32) == 0x1_0000_0000,
        pow2(29) == 0x2000_0000,
        pow2(12) == 0x1000,
{
    vstd::arithmetic::power2::lemma2_to64();
    vstd::arithmetic::power2::lemma_pow2_adds(64, 64);
    vstd::arithmetic::power2::lemma_pow2_adds(29, 0);
}

fn bits_of(n: u128) -> (b: u32)
    ensures
        b as nat == bit_len(n as nat),
        b <= 128,
{
    proof {
        lemma_pow2_128();
        lemma_bit_len_at_most(n as nat, 128);
    }
    let mut m = n;
    let mut b: u32 = 0;
    while m > 0
        invariant
            b + bit_len(m as nat) == bit_len(n as nat),
            bit_len(n as nat) <= 128,
        decreases m,
    {
        m = m / 2;
        b = b + 1;
    }
    b
}

fn two_to(k: u32) -> (p: u128)
    requires
        k < 128,
    ensures
        p == pow2(k as nat),
{
    proof {
        lemma_pow2_128();
        vstd::arithmetic::power2::lemma2_to64();
    }
    let mut p: u128 = 1;
    let mut i: u32 = 0;
    while i < k
        invariant
            i <= k,
            k < 128,
            p == pow2(i as nat),
            pow2(128) == 0x1_0000_0000_0000_0000_0000_0000_0000_0000,
        decreases k - i,
    {
        proof {
            vstd::arithmetic::power2::lemma_pow2_unfold((i + 1) as nat);
            lemma_pow2_le((i + 1) as nat, 127);
            vstd::arithmetic::power2::lemma_pow2_unfold(128);
        }
        p = p * 2;
        i = i + 1;
    }
    p
}

fn round_even_of(n: u128, d: u128) -> (r: u128)
    requires
        d > 0,
    ensures
        r == round_even(n as nat, d as nat),
{
    let q = n / d;
    let rem = n % d;
    if rem > d - rem || (rem == d - rem && q % 2 == 1) {
        proof {
            vstd::arithmetic::div_mod::lemma_div_is_ordered_by_denominator(n as int, 2, d as int);
        }
        q + 1
    } else {
        q
    }
}

/// The index `pick` takes for `word` from `len` items.
fn pick_position(word: u32, len: usize) -> (i: usize)
    requires
        len > 0,
    ensures
        i == pick_index(word, len as nat),
{
    let bl = bits_of(word as u128);
    proof {
        lemma_pow2_128();
        lemma_bit_len_at_most(word as nat, 32);
        lemma_bit_len(word as nat);
        vstd::arithmetic::power2::lemma_pow2_pos((85 - bl) as nat);
        vstd::arithmetic::mul::lemma_mul_strict_inequality(
            word as int,
            pow2(bl as nat) as int,
            pow2((85 - bl) as nat) as int,
        );
        vstd::arithmetic::power2::lemma_pow2_adds(bl as nat, (85 - bl) as nat);
        vstd::arithmetic::power2::lemma_pow2_strictly_increases(85, 128);
    }
    let scale = two_to(85 - bl);
    let numerator: u128 = (word as u128) * scale;
    let double = round_even_of(numerator, 0xFFFF_FFFF);
    proof {
        vstd::arithmetic::div_mod::lemma_div_is_ordered(
            numerator as int,
            pow2(85) as int - 1,
            0xFFFF_FFFF,
        );
        vstd::arithmetic::power2::lemma_pow2_adds(64, 21);
        vstd::arithmetic::power2::lemma2_to64();
        assert((0x1_0000_0000_0000_0000int * 0x20_0000int - 1) / 0xFFFF_FFFFint
            == 9007199256838144int) by (nonlinear_arith);
    }
    let single = round_even_of(double, two_to(29));
    proof {
        vstd::arithmetic::div_mod::lemma_div_is_ordered(
            double as int,
            9007199256838145,
            0x2000_0000,
        );
        assert(9007199256838145int / 0x2000_0000int == 16777216int) by (nonlinear_arith);
        assert(single <= 16777217);
    }
    let lb = bits_of(len as u128);
    proof {
        lemma_bit_len_at_most(len as nat, 64);
    }
    let ls: u32 = if lb > 53 {
        lb - 53
    } else {
        0
    };
    let lm = round_even_of(len as u128, two_to(ls));
    proof {
        lemma_excess_rounds_to_a_double(len as nat);
        vstd::arithmetic::power2::lemma_pow2_adds(29, 24);
        assert(pow2(53) == 0x20_0000_0000_0000);
        assert(single * lm <= 16777217 * 0x20_0000_0000_0000) by (nonlinear_arith)
            requires
                single <= 16777217,
                lm <= 0x20_0000_0000_0000,
        ;
    }
    let product: u128 = single * lm;
    let pb = bits_of(product);
    proof {
        vstd::arithmetic::power2::lemma_pow2_adds(64, 14);
        assert(pow2(14) == 0x4000);
        assert(product < pow2(78));
        lemma_bit_len_at_most(product as nat, 78);
    }
    let ps: u32 = if pb > 53 {
        pb - 53
    } else {
        0
    };
    let mantissa = round_even_of(product, two_to(ps));
    proof {
        lemma_excess_rounds_to_a_double(product as nat);
    }
    let up: u32 = ps + ls + bl;
    let whole: u128 = if up >= 56 {
        proof {
            lemma_pow2_le((up - 56) as nat, 12);
            assert(mantissa * pow2((up - 56) as nat) <= 0x20_0000_0000_0000 * 0x1000)
                by (nonlinear_arith)
                requires
                    mantissa <= 0x20_0000_0000_0000,
                    pow2((up - 56) as nat) <= 0x1000,
            ;
        }
        mantissa * two_to(up - 56)
    } else {
        proof {
            vstd::arithmetic::power2::lemma_pow2_pos((56 - up) as nat);
        }
        mantissa / two_to(56 - up)
    };
    if whole < len as u128 {
        whole as usize
    } else {
        len - 1
    }
}

/// A number between two neighbouring powers of two has the larger one's
/// count of digits.
proof fn lemma_bit_len_exact(n: nat, b: nat)
    requires
        b > 0,
        pow2((b - 1) as nat) <= n < pow2(b),
    ensures
        bit_len(n) == b,
{
    lemma_bit_len(n);
    vstd::arithmetic::power2::lemma_pow2_pos((b - 1) as nat);
    if bit_len(n) > b {
        lemma_pow2_le(b, (bit_len(n) - 1) as nat);
    }
    if bit_len(n) < b {
        lemma_pow2_le(bit_len(n), (b - 1) as nat);
    }
}

/// For any slice shorter than 2^53 items, the largest word picks the last
/// item.
pub proof fn lemma_the_largest_word_picks_the_last_item(len: nat)
    requires
        0 < len < pow2(53),
    ensures
        pick_index(u32::MAX, len) == len - 1,
{
    lemma_pow2_128();
    vstd::arithmetic::power2::lemma2_to64();
    let m = u32::MAX as nat;
    lemma_bit_len_exact(m, 32);
    vstd::arithmetic::power2::lemma_pow2_adds(29, 24);
    assert(pow2(24) == 0x100_0000);
    assert(pow2(53) == 0x20_0000_0000_0000);
    vstd::arithmetic::div_mod::lemma_div_multiples_vanish(pow2(53) as int, m as int);
    vstd::arithmetic::div_mod::lemma_mod_multiples_basic(pow2(53) as int, m as int);
    assert(m * pow2(53) == pow2(53) * m) by (nonlinear_arith);
    assert(round_even(m * pow2(53), m) == pow2(53));
    assert(0x20_0000_0000_0000nat / 0x2000_0000 == 0x100_0000 && 0x20_0000_0000_0000nat % 0x2000_0000
        == 0) by (nonlinear_arith);
    assert(unit_mantissa(u32::MAX) == 0x100_0000);
    lemma_bit_len_at_most(len, 53);
    assert(excess(len) == 0);
    assert(len / 1 == len && len % 1 == 0) by (nonlinear_arith);
    assert(len_mantissa(len) == len);
    let b = bit_len(len);
    lemma_bit_len(len);
    let product = 0x100_0000 * len;
    // The product has 24 more digits than `len`.
    vstd::arithmetic::power2::lemma_pow2_adds((b - 1) as nat, 24);
    vstd::arithmetic::power2::lemma_pow2_adds(b, 24);
    assert(pow2((b - 1) as nat) * 0x100_0000 <= len * 0x100_0000) by (nonlinear_arith)
        requires
            pow2((b - 1) as nat) <= len,
    ;
    assert(len * 0x100_0000 < pow2(b) * 0x100_0000) by (nonlinear_arith)
        requires
            len < pow2(b),
    ;
    assert(((b + 24 - 1) as nat) == ((b - 1) as nat) + 24);
    lemma_bit_len_exact(product, b + 24);
    let e = excess(product);
    assert(e <= 24);
    let k = (24 - e) as nat;
    vstd::arithmetic::power2::lemma_pow2_adds(e, k);
    vstd::arithmetic::power2::lemma_pow2_pos(e);
    vstd::arithmetic::power2::lemma_pow2_pos(k);
    assert(product == pow2(e) * (pow2(k) * len)) by (nonlinear_arith)
        requires
            product == 0x100_0000 * len,
            pow2(e + k) == pow2(e) * pow2(k),
            e + k == 24,
            pow2(24) == 0x100_0000,
    ;
    let x = pow2(k) * len;
    vstd::arithmetic::div_mod::lemma_div_multiples_vanish(x as int, pow2(e) as int);
    vstd::arithmetic::div_mod::lemma_mod_multiples_basic(x as int, pow2(e) as int);
    assert(pow2(e) * x == x * pow2(e)) by (nonlinear_arith);
    assert(product / pow2(e) == x);
    assert(product % pow2(e) == 0);
    assert(round_even(product, pow2(e)) == pow2(k) * len);
    assert(unit_mantissa(u32::MAX) * len_mantissa(len) == product);
    let up = e + excess(len) + bit_len(m);
    assert(up == e + 32);
    let whole = if up >= 56 {
        round_even(product, pow2(e)) * pow2((up - 56) as nat)
    } else {
        round_even(product, pow2(e)) / pow2((56 - up) as nat)
    };
    if up >= 56 {
        assert(k == 0 && (up - 56) as nat == 0);
        assert(pow2(0) == 1);
        assert(pow2(k) == 1);
        assert(pow2(k) * len == len) by (nonlinear_arith)
            requires
                pow2(k) == 1,
        ;
        assert(round_even(product, pow2(e)) == len);
        assert(whole == len * 1);
        assert(len * 1 == len) by (nonlinear_arith);
        assert(whole == len);
    } else {
        assert((56 - up) as nat == k);
        vstd::arithmetic::div_mod::lemma_div_multiples_vanish(len as int, pow2(k) as int);
        assert(whole == len);
    }
    assert(whole == len);
    assert(pick_index(u32::MAX, len) == (if whole < len { whole } else { (len - 1) as nat }));
    assert(pick_index(u32::MAX, len) == (len - 1) as nat);
}

/// The pick always lands inside the slice, and the smallest word picks the
/// first item.
pub proof fn lemma_pick_index_in_range(word: u32, len: nat)
    requires
        len > 0,
    ensures
        pick_index(word, len) < len,
        pick_index(0, len) == 0,
{
    vstd::arithmetic::power2::lemma2_to64();
    vstd::arithmetic::power2::lemma_pow2_pos(85);
    vstd::arithmetic::power2::lemma_pow2_pos(29);
    assert(bit_len(0) == 0);
    assert(0nat * pow2(85) == 0);
    assert(round_even(0, u32::MAX as nat) == 0);
    assert(round_even(0, pow2(29)) == 0);
    assert(unit_mantissa(0) == 0);
    let product = unit_mantissa(0) * len_mantissa(len);
    assert(product == 0);
    assert(excess(product) == 0);
    assert(round_even(0, 1) == 0);
    let up = excess(product) + excess(len) + bit_len(0);
    if up >= 56 {
        assert(0nat * pow2((up - 56) as nat) == 0);
    } else {
        vstd::arithmetic::power2::lemma_pow2_pos((56 - up) as nat);
        assert(0nat / pow2((56 - up) as nat) == 0);
    }
}

/// The seed used when none is given.
pub const DEFAULT_SEED: u32 = 0x9e37_79b9;

/// The generator.
#[derive(Debug, Clone, PartialEq, Eq)]
pub struct Rng {
    state: u32,
}

impl Rng {
    pub closed spec fn current(self) -> u32 {
        self.state
    }

    pub fn new(seed: u32) -> (r: Self)
        ensures
            r.current() == seed,
    {
        Rng { state: seed }
    }

    /// Advance one step and return the new raw word.
    pub fn next_word(&mut self) -> (w: u32)
        ensures
            w == xorshift(old(self).current()),
            final(self).current() == w,
    {
        let mut x = self.state;
        x = x ^ (x << 13u32);
        x = x ^ (x >> 17u32);
        x = x ^ (x << 5u32);
        self.state = x;
        x
    }

    /// Pick one of `items`, as the float code scales the unit value; see
    /// [`pick_index`]. An empty slice has nothing to pick, and is ruled out by
    /// the contract.
    pub fn pick<'a, T>(&mut self, items: &'a [T]) -> (r: &'a T)
        requires
            items@.len() > 0,
        ensures
            final(self).current() == xorshift(old(self).current()),
            *r == items@[pick_index(final(self).current(), items@.len() as nat) as int],
    {
        let word = self.next_word();
        let index = pick_position(word, items.len());
        proof {
            lemma_pick_index_in_range(word, items@.len() as nat);
        }
        &items[index]
    }

    /// Restart the sequence from `seed`.
    pub fn reseed(&mut self, seed: u32)
        ensures
            final(self).current() == seed,
    {
        self.state = seed;
    }

    /// The current state, so a run can be recorded and replayed.
    pub fn state(&self) -> (s: u32)
        ensures
            s == self.current(),
    {
        self.state
    }
}

impl Default for Rng {
    fn default() -> (r: Self)
        ensures
            r.current() == DEFAULT_SEED,
    {
        Rng::new(DEFAULT_SEED)
    }
}

/// Zero is the generator's only dead state: a step lands on zero exactly when
/// it starts there, so a nonzero seed never settles.
pub proof fn lemma_zero_is_the_only_fixed_point(x: u32)
    ensures
        (xorshift(x) == 0) <==> (x == 0),
{
    assert((x ^ (x << 13u32)) == 0 <==> x == 0) by (bit_vector);
    let a = x ^ (x << 13u32);
    assert((a ^ (a >> 17u32)) == 0 <==> a == 0) by (bit_vector);
    let b = a ^ (a >> 17u32);
    assert((b ^ (b << 5u32)) == 0 <==> b == 0) by (bit_vector);
}

/// A stream started from a nonzero seed never reaches the dead state.
pub proof fn lemma_nonzero_seed_never_dies(seed: u32, n: nat)
    requires
        seed != 0,
    ensures
        state_after(seed, n) != 0,
    decreases n,
{
    if n > 0 {
        lemma_nonzero_seed_never_dies(seed, (n - 1) as nat);
        lemma_zero_is_the_only_fixed_point(state_after(seed, (n - 1) as nat));
    }
}

/// Restoring a recorded state continues the stream exactly where it was
/// recorded: `m` steps, a save, a restore and `n` more steps are `m + n`
/// steps from the seed.
pub proof fn lemma_saved_state_resumes_stream(seed: u32, m: nat, n: nat)
    ensures
        state_after(state_after(seed, m), n) == state_after(seed, m + n),
    decreases n,
{
    if n > 0 {
        lemma_saved_state_resumes_stream(seed, m, (n - 1) as nat);
        assert(state_after(seed, m + n) == xorshift(state_after(seed, (m + n - 1) as nat)));
    }
}

/// Different states step to different states.
pub proof fn lemma_distinct_states_stay_distinct(x: u32, y: u32)
    requires
        x != y,
    ensures
        xorshift(x) != xorshift(y),
{
    assert(x != y ==> (x ^ (x << 13u32)) != (y ^ (y << 13u32))) by (bit_vector);
    let (a, c) = (x ^ (x << 13u32), y ^ (y << 13u32));
    assert(a != c ==> (a ^ (a >> 17u32)) != (c ^ (c >> 17u32))) by (bit_vector);
    let (b, d) = (a ^ (a >> 17u32), c ^ (c >> 17u32));
    assert(b != d ==> (b ^ (b << 5u32)) != (d ^ (d << 5u32))) by (bit_vector);
}

/// The same seed gives the same sequence, and two different seeds never merge
/// into one stream: after any number of steps their states still differ.
pub proof fn lemma_seeds_decide_streams(a: u32, b: u32, n: nat)
    ensures
        a == b ==> state_after(a, n) == state_after(b, n),
        a != b ==> state_after(a, n) != state_after(b, n),
    decreases n,
{
    if n > 0 {
        lemma_seeds_decide_streams(a, b, (n - 1) as nat);
        if a != b {
            lemma_distinct_states_stay_distinct(
                state_after(a, (n - 1) as nat),
                state_after(b, (n - 1) as nat),
            );
        }
    }
}

} // verus!
