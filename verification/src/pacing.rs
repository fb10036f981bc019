//! Rampup pacing: the start of each iteration is staggered over a warm-up
//! window, so that the load rises linearly instead of arriving all at once.
//!
//! An iteration's delay depends on its index alone, and the iteration waits
//! for it from the moment at which the scheduler starts it. Where every
//! iteration is started at once, the delays are the start times. Where the
//! run holds more iterations than may run at the same time, a late iteration
//! is started late and then still waits for its delay: it begins its work
//! later than its delay says.
use vstd::prelude::*;

verus! {

/// The stagger between two consecutive iterations, in whole seconds: the
/// window divided by the number of iterations, rounded down.
pub open spec fn stagger(rampup: int, iterations: int) -> int {
    rampup / iterations
}

/// The intended start offset of iteration `iteration`, in whole seconds.
///
/// Without a window (`rampup <= 0`) nothing waits. With one, the offset is
/// the stagger times the iteration's index, which makes the offsets an
/// arithmetic progression that starts at zero.
pub open spec fn delay(rampup: int, iterations: int, iteration: int) -> int {
    if rampup > 0 {
        stagger(rampup, iterations) * iteration
    } else {
        0
    }
}

/// Whether the three values describe an iteration of a run: a run with a
/// rampup window has at least one iteration, and the index counts from zero.
pub open spec fn paced(rampup: int, iterations: int, iteration: int) -> bool {
    rampup > 0 ==> iterations >= 1 && 0 <= iteration < iterations
}

/// Computes `delay`: how many seconds iteration `iteration` of `iterations`
/// waits before its first action.
pub fn rampup_delay(rampup: i64, iterations: i64, iteration: i64) -> (seconds: u64)
    requires
        paced(rampup as int, iterations as int, iteration as int),
    ensures
        seconds == delay(rampup as int, iterations as int, iteration as int),
{
    if rampup > 0 {
        let step: i64 = rampup / iterations;
        proof {
            lemma_delay_within_window(rampup as int, iterations as int, iteration as int);
        }
        (step * iteration) as u64
    } else {
        0
    }
}

/// Without a rampup window no iteration waits.
pub proof fn lemma_delay_zero_without_rampup(rampup: int, iterations: int, iteration: int)
    requires
        rampup <= 0,
    ensures
        delay(rampup, iterations, iteration) == 0,
{
}

/// The offsets form an arithmetic progression: the first iteration starts at
/// once, and each later one starts one stagger after the one before it.
pub proof fn lemma_delay_progression(rampup: int, iterations: int, iteration: int)
    requires
        rampup > 0,
    ensures
        delay(rampup, iterations, 0) == 0,
        delay(rampup, iterations, iteration + 1) == delay(rampup, iterations, iteration) + stagger(
            rampup,
            iterations,
        ),
{
    let step = stagger(rampup, iterations);
    assert(step * 0 == 0);
    assert(step * (iteration + 1) == step * iteration + step) by (nonlinear_arith);
}

/// The stagger of a run is never negative.
pub proof fn lemma_stagger_nonnegative(rampup: int, iterations: int)
    requires
        rampup >= 0,
        iterations >= 1,
    ensures
        0 <= stagger(rampup, iterations) <= rampup,
        stagger(rampup, iterations) * iterations <= rampup,
{
    vstd::arithmetic::div_mod::lemma_div_pos_is_pos(rampup, iterations);
    vstd::arithmetic::div_mod::lemma_fundamental_div_mod(rampup, iterations);
    vstd::arithmetic::div_mod::lemma_mod_bound(rampup, iterations);
    let step = rampup / iterations;
    assert(iterations * step == step * iterations) by (nonlinear_arith);
    assert(step <= step * iterations) by (nonlinear_arith)
        requires
            step >= 0,
            iterations >= 1,
    ;
}

/// A later iteration never starts before an earlier one.
pub proof fn lemma_delay_monotonic(rampup: int, iterations: int, earlier: int, later: int)
    requires
        iterations >= 1,
        earlier <= later,
    ensures
        delay(rampup, iterations, earlier) <= delay(rampup, iterations, later),
{
    if rampup > 0 {
        lemma_stagger_nonnegative(rampup, iterations);
        let step = stagger(rampup, iterations);
        assert(step * earlier <= step * later) by (nonlinear_arith)
            requires
                step >= 0,
                earlier <= later,
        ;
    }
}

/// Every offset of a paced run lies inside the window: at or after its
/// start, and before its end.
pub proof fn lemma_delay_within_window(rampup: int, iterations: int, iteration: int)
    requires
        rampup > 0,
        iterations >= 1,
        0 <= iteration < iterations,
    ensures
        0 <= delay(rampup, iterations, iteration) < rampup,
        delay(rampup, iterations, iteration) <= rampup - stagger(rampup, iterations),
{
    lemma_stagger_nonnegative(rampup, iterations);
    let step = stagger(rampup, iterations);
    assert(0 <= step * iteration) by (nonlinear_arith)
        requires
            step >= 0,
            iteration >= 0,
    ;
    assert(step * iteration <= step * iterations - step) by (nonlinear_arith)
        requires
            step >= 0,
            iteration <= iterations - 1,
    ;
    if step == 0 {
        assert(step * iteration == 0) by (nonlinear_arith)
            requires
                step == 0,
        ;
    }
}

} // verus!
