use vstd::prelude::*;

verus! {

/// The shortest run of one pace, in characters; also how many characters share one
/// spurt number.
pub const MIN_SPURT_SIZE: usize = 5;

/// The longest run of one pace, in characters; spurt sizes stay below it.
pub const MAX_SPURT_SIZE: usize = 15;

/// The golden-ratio step 0.618033988749895 that spreads spurt sizes, as a fraction:
/// this numerator over `SPURT_STEP_DENOMINATOR`.
pub const SPURT_STEP_NUMERATOR: u128 = 618033988749895;

/// Denominator of the golden-ratio step.
pub const SPURT_STEP_DENOMINATOR: u128 = 1_000_000_000_000_000;

/// The spurt number of a character: every `MIN_SPURT_SIZE` characters share one.
pub open spec fn spec_spurt_number(i: nat) -> nat {
    i / MIN_SPURT_SIZE as nat
}

/// The spurt size for spurt number `n`: the shortest size plus the whole part of `n`
/// golden-ratio steps, modulo the spread of sizes.
pub open spec fn spec_spurt_size(n: nat) -> nat {
    (MIN_SPURT_SIZE as int + ((n * SPURT_STEP_NUMERATOR as nat) as int
        / SPURT_STEP_DENOMINATOR as int) % (MAX_SPURT_SIZE - MIN_SPURT_SIZE) as int) as nat
}

/// The spurt rule: character `i` is fast when it lies in an even-numbered block of
/// `spec_spurt_size(spec_spurt_number(i))` characters.
pub open spec fn spurt_rule_is_fast(i: nat) -> bool {
    (i / spec_spurt_size(spec_spurt_number(i))) % 2 == 0
}

/// The run of one pace that character `i` lies in: where it started, and whether it is
/// fast. The first character starts a fast run. A run follows the spurt rule, except that
/// it never changes pace before `MIN_SPURT_SIZE` characters and always changes after
/// `MAX_SPURT_SIZE`.
pub open spec fn pace_run(i: nat) -> (nat, bool)
    decreases i,
{
    if i == 0 {
        (0, true)
    } else {
        let (start, fast) = pace_run((i - 1) as nat);
        let length = i - start;
        if length >= MAX_SPURT_SIZE || (length >= MIN_SPURT_SIZE && spurt_rule_is_fast(i) != fast) {
            (i, !fast)
        } else {
            (start, fast)
        }
    }
}

/// Whether character `i` is typed in a fast spurt.
pub open spec fn spec_is_fast_spurt(i: nat) -> bool {
    pace_run(i).1
}

/// Where the run of the spurt rule's own pace that holds character `i` starts.
pub open spec fn rule_run_start(i: nat) -> nat
    decreases i,
{
    if i == 0 {
        0
    } else if spurt_rule_is_fast(i) != spurt_rule_is_fast((i - 1) as nat) {
        i
    } else {
        rule_run_start((i - 1) as nat)
    }
}

/// Up to character `n`, every run of the spurt rule's own pace is 5 to 15 characters
/// long (the last one, still going on, at most 15 so far), and the first is fast.
pub open spec fn rule_runs_bounded_upto(n: nat) -> bool {
    &&& spurt_rule_is_fast(0)
    &&& forall|i: nat|
        #![trigger rule_run_start(i)]
        0 < i <= n && spurt_rule_is_fast(i) != spurt_rule_is_fast((i - 1) as nat) ==> MIN_SPURT_SIZE
            <= i - rule_run_start((i - 1) as nat) <= MAX_SPURT_SIZE
    &&& forall|i: nat| #![trigger rule_run_start(i)] i <= n ==> i - rule_run_start(i) < MAX_SPURT_SIZE
}

/// A run holds the character that ends it: it started at or before it, and it is
/// never longer than `MAX_SPURT_SIZE` characters.
pub proof fn lemma_run_never_too_long(i: nat)
    ensures
        pace_run(i).0 <= i,
        i - pace_run(i).0 < MAX_SPURT_SIZE,
    decreases i,
{
    if i > 0 {
        lemma_run_never_too_long((i - 1) as nat);
    }
}

/// The pace changes only where a run of 5 to 15 characters ends.
pub proof fn lemma_runs_end_within_bounds(i: nat)
    requires
        spec_is_fast_spurt(i + 1) != spec_is_fast_spurt(i),
    ensures
        MIN_SPURT_SIZE <= (i + 1) - pace_run(i).0 <= MAX_SPURT_SIZE,
        pace_run(i + 1).0 == i + 1,
{
    lemma_run_never_too_long(i);
}

/// Once a run has 5 characters and fewer than 15, the pace is the spurt rule's.
pub proof fn lemma_follows_spurt_rule(i: nat)
    requires
        MIN_SPURT_SIZE <= (i + 1) - pace_run(i).0 < MAX_SPURT_SIZE,
    ensures
        spec_is_fast_spurt(i + 1) == spurt_rule_is_fast(i + 1),
{
}

/// Where the spurt rule's own runs are 5 to 15 characters long, the pace is exactly the
/// spurt rule's, run for run.
pub proof fn lemma_pace_is_spurt_rule(n: nat, i: nat)
    requires
        rule_runs_bounded_upto(n),
        i <= n,
    ensures
        pace_run(i) == (rule_run_start(i), spurt_rule_is_fast(i)),
    decreases i,
{
    if i > 0 {
        lemma_pace_is_spurt_rule(n, (i - 1) as nat);
        let prev = (i - 1) as nat;
        assert(prev - rule_run_start(prev) < MAX_SPURT_SIZE);
        assert(i - rule_run_start(i) < MAX_SPURT_SIZE);
    }
}

/// The spurt number of a character.
pub fn spurt_number(char_index: usize) -> (n: usize)
    ensures
        n == spec_spurt_number(char_index as nat),
{
    char_index / MIN_SPURT_SIZE
}

/// The spurt size for spurt number `spurt`.
pub fn spurt_size(spurt: usize) -> (size: usize)
    ensures
        size == spec_spurt_size(spurt as nat),
        MIN_SPURT_SIZE <= size < MAX_SPURT_SIZE,
{
    let k = spurt as u128;
    assert(k * SPURT_STEP_NUMERATOR <= 0xFFFF_FFFF_FFFF_FFFFu128 * SPURT_STEP_NUMERATOR) by (
    nonlinear_arith)
        requires
            k <= 0xFFFF_FFFF_FFFF_FFFFu128,
    ;
    let offset = ((k * SPURT_STEP_NUMERATOR) / SPURT_STEP_DENOMINATOR) % ((MAX_SPURT_SIZE
        - MIN_SPURT_SIZE) as u128);
    MIN_SPURT_SIZE + offset as usize
}

/// The pace the spurt rule gives a character.
pub fn spurt_rule_pace(char_index: usize) -> (fast: bool)
    ensures
        fast == spurt_rule_is_fast(char_index as nat),
{
    (char_index / spurt_size(spurt_number(char_index))) % 2 == 0
}

/// Whether a character is typed in a fast spurt (true) or a slow one (false).
pub fn is_fast_spurt(char_index: usize) -> (fast: bool)
    ensures
        fast == spec_is_fast_spurt(char_index as nat),
{
    let mut start: usize = 0;
    let mut fast = true;
    let mut i: usize = 0;
    while i < char_index
        invariant
            i <= char_index,
            (start as nat, fast) == pace_run(i as nat),
            start <= i,
        decreases char_index - i,
    {
        i = i + 1;
        let length = i - start;
        if length >= MAX_SPURT_SIZE || (length >= MIN_SPURT_SIZE && spurt_rule_pace(i) != fast) {
            start = i;
            fast = !fast;
        }
    }
    fast
}

} // verus!
