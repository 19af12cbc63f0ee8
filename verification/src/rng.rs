use std::time::Duration;
use std::time::SystemTime;
use std::time::SystemTimeError;
use vstd::prelude::*;

verus! {

#[verifier::external_type_specification]
#[verifier::external_body]
pub struct ExSystemTime(SystemTime);

#[verifier::external_type_specification]
#[verifier::external_body]
pub struct ExSystemTimeError(SystemTimeError);

/// Calls `SystemTime::now`. The result is the system clock's reading, so nothing is promised of it.
#[verifier::external_body]
fn system_time_now() -> SystemTime {
    SystemTime::now()
}

/// Calls `SystemTime::duration_since` with `UNIX_EPOCH`: the time elapsed since the Unix epoch,
/// or an error when the clock reads earlier than the epoch. Nothing more is stated of either.
#[verifier::external_body]
fn since_unix_epoch(time: &SystemTime) -> Result<Duration, SystemTimeError> {
    time.duration_since(std::time::UNIX_EPOCH)
}

/// Calls `Duration::as_nanos`: the whole number of nanoseconds in the duration.
/// `Duration` is opaque here, so nothing is stated of the value.
#[verifier::external_body]
fn duration_as_nanos(duration: &Duration) -> u128 {
    duration.as_nanos()
}

/// The 64-bit seed taken from a nanosecond count: its low 64 bits.
pub open spec fn seed_of_nanos(nanos: u128) -> u64 {
    (nanos % 0x1_0000_0000_0000_0000) as u64
}

/// Multiplier of the linear congruential step (Knuth's MMIX constant).
pub const LCG_MULTIPLIER: u64 = 6364136223846793005;

/// Increment of the linear congruential step.
pub const LCG_INCREMENT: u64 = 1;

/// One step of the generator: `state * LCG_MULTIPLIER + LCG_INCREMENT` modulo 2^64.
pub open spec fn lcg_step(state: u64) -> u64 {
    ((state as int * LCG_MULTIPLIER as int + LCG_INCREMENT as int) % 0x1_0000_0000_0000_0000) as u64
}

/// The value a draw hands out for a given new state: its upper 32 bits.
pub open spec fn draw_of(state: u64) -> u32 {
    (state as int / 0x1_0000_0000) as u32
}

/// Adding one after reducing modulo 2^64 is the same as reducing after adding one.
proof fn lemma_wrapping_increment(x: int, product: int, next: int)
    requires
        0 <= x,
        product == x % 0x1_0000_0000_0000_0000,
        next == (if product + 1 > u64::MAX {
            product + 1 - 0x1_0000_0000_0000_0000
        } else {
            product + 1
        }),
    ensures
        next == (x + 1) % 0x1_0000_0000_0000_0000,
{
    let m: int = 0x1_0000_0000_0000_0000;
    vstd::arithmetic::div_mod::lemma_add_mod_noop(x, 1, m);
    vstd::arithmetic::div_mod::lemma_mod_bound(x, m);
    vstd::arithmetic::div_mod::lemma_small_mod(1, m as nat);
    if product + 1 < m {
        vstd::arithmetic::div_mod::lemma_small_mod((product + 1) as nat, m as nat);
    } else {
        vstd::arithmetic::div_mod::lemma_mod_self_0(m);
    }
}

/// Every step flips the lowest bit of the state, so the state never stays put.
pub proof fn lemma_step_flips_low_bit(state: u64)
    ensures
        lcg_step(state) % 2 != state % 2,
        lcg_step(state) != state,
{
    let x: int = state as int * LCG_MULTIPLIER as int + 1;
    assert(x == 2 * (state as int * 3182068111923396502) + state as int + 1);
    assert(x >= 0);
    vstd::arithmetic::div_mod::lemma_mod_mod(x, 2, 0x8000_0000_0000_0000);
    assert(lcg_step(state) as int == x % 0x1_0000_0000_0000_0000);
}

/// Distinct states step to distinct states: the step is one-to-one on the 2^64 states,
/// so two generators that differ never come to agree.
pub proof fn lemma_step_one_to_one(a: u64, b: u64)
    requires
        lcg_step(a) == lcg_step(b),
    ensures
        a == b,
{
    let m: int = 0x1_0000_0000_0000_0000;
    let x: int = a as int * LCG_MULTIPLIER as int + 1;
    let y: int = b as int * LCG_MULTIPLIER as int + 1;
    assert(x >= 0 && y >= 0);
    vstd::arithmetic::div_mod::lemma_fundamental_div_mod(x, m);
    vstd::arithmetic::div_mod::lemma_fundamental_div_mod(y, m);
    assert(x % m == y % m);
    let t: int = x / m - y / m;
    let d: int = a as int - b as int;
    assert(d * 6364136223846793005 == m * t);
    // 6364136223846793005 * 13877824140714322085 == 1 + 4787856489426250814 * 2^64
    assert(d * 6364136223846793005 * 13877824140714322085 == d + d * 4787856489426250814 * m);
    assert(m * t * 13877824140714322085 == m * (t * 13877824140714322085));
    let q: int = t * 13877824140714322085 - d * 4787856489426250814;
    assert(d == m * q);
    assert(-m < d < m);
}

/// A draw is the upper half of the state: the state lies between the draw times 2^32
/// and the next multiple of 2^32.
pub proof fn lemma_draw_is_upper_half(state: u64)
    ensures
        draw_of(state) as int * 0x1_0000_0000 <= state as int,
        (state as int) < (draw_of(state) as int + 1) * 0x1_0000_0000,
{
    vstd::arithmetic::div_mod::lemma_fundamental_div_mod(state as int, 0x1_0000_0000);
}

/// A simple linear congruential generator for pseudo-random numbers.
pub struct SimpleRng {
    state: u64,
}

impl View for SimpleRng {
    type V = u64;

    /// The generator is its 64-bit state.
    closed spec fn view(&self) -> u64 {
        self.state
    }
}

impl SimpleRng {
    /// A generator seeded with the current time, in nanoseconds since the Unix epoch
    /// (truncated to 64 bits); `None` when the clock reads earlier than the epoch.
    pub fn new() -> (rng: Option<Self>) {
        let now = system_time_now();
        let elapsed = match since_unix_epoch(&now) {
            Ok(duration) => Some(duration_as_nanos(&duration)),
            Err(_) => None,
        };
        Self::from_epoch_offset(elapsed)
    }

    /// A generator seeded from the time since the Unix epoch, in nanoseconds:
    /// `None` when there is no such time (the clock reads before the epoch).
    pub fn from_epoch_offset(elapsed_nanos: Option<u128>) -> (rng: Option<Self>)
        ensures
            rng is Some <==> elapsed_nanos is Some,
            rng matches Some(r) ==> r@ == seed_of_nanos(elapsed_nanos->0),
    {
        match elapsed_nanos {
            Some(nanos) => Some(Self::from_nanos(nanos)),
            None => None,
        }
    }

    /// A generator seeded with the low 64 bits of a nanosecond count.
    pub fn from_nanos(nanos: u128) -> (rng: Self)
        ensures
            rng@ == seed_of_nanos(nanos),
    {
        let seed = (nanos % 0x1_0000_0000_0000_0000u128) as u64;
        Self::from_seed(seed)
    }

    /// A generator whose state is `seed`.
    pub fn from_seed(seed: u64) -> (rng: Self)
        ensures
            rng@ == seed,
    {
        SimpleRng { state: seed }
    }

    /// Advances the generator one step and returns the upper 32 bits of the new state.
    pub fn next_u32(&mut self) -> (r: u32)
        ensures
            final(self)@ == lcg_step(old(self)@),
            r == draw_of(final(self)@),
    {
        let product = self.state.wrapping_mul(LCG_MULTIPLIER);
        let next = product.wrapping_add(LCG_INCREMENT);
        proof {
            let x: int = self.state as int * LCG_MULTIPLIER as int;
            assert(0 <= x) by (nonlinear_arith)
                requires
                    x == self.state as int * LCG_MULTIPLIER as int,
            ;
            lemma_wrapping_increment(x, product as int, next as int);
        }
        self.state = next;
        assert(next >> 32 == next / 0x1_0000_0000) by (bit_vector);
        (next >> 32) as u32
    }
}

} // verus!
