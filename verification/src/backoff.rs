//! The delay schedule between retries of a failed range read.

use vstd::prelude::*;

verus! {

/// The highest number of retries that follow a first send.
pub const MAX_RETRIES: u8 = 8;

/// The delay in milliseconds before retry number `n`: `n * n * 100`.
pub open spec fn wait_millis(n: nat) -> nat {
    n * n * 100
}

/// Return the wait time in milliseconds before retry number `retrycount`. It
/// grows with the square of the number of retries, and nothing is waited
/// before the first send.
///
/// A value of 8 allows up to 6400 ms of retry delay, for a cumulative total
/// of 20400 ms.
pub fn get_wait_time_exp(retrycount: i32) -> (wait: u64)
    requires
        0 <= retrycount,
        wait_millis(retrycount as nat) <= u64::MAX,
    ensures
        wait == wait_millis(retrycount as nat),
        retrycount == 0 ==> wait == 0,
{
    if retrycount == 0 {
        assert(wait_millis(0) == 0) by (nonlinear_arith);
        return 0;
    }
    let n: u64 = retrycount as u64;
    assert(n * n <= n * n * 100) by (nonlinear_arith);
    n * n * 100
}

/// The time in milliseconds spent waiting by the time retry number `n` is
/// sent: the waits of the retries 1 to `n`.
pub open spec fn cumulative_wait(n: nat) -> nat
    decreases n,
{
    if n == 0 {
        0
    } else {
        cumulative_wait((n - 1) as nat) + wait_millis(n)
    }
}

/// More retries never wait less in all.
pub proof fn lemma_cumulative_wait_monotonic(fewer: nat, more: nat)
    requires
        fewer <= more,
    ensures
        cumulative_wait(fewer) <= cumulative_wait(more),
    decreases more,
{
    if fewer < more {
        lemma_cumulative_wait_monotonic(fewer, (more - 1) as nat);
    }
}

/// The last retry waits 6400 ms, and all the retries together wait 20400 ms.
pub proof fn lemma_longest_wait()
    ensures
        wait_millis(MAX_RETRIES as nat) == 6400,
        cumulative_wait(MAX_RETRIES as nat) == 20400,
{
    reveal_with_fuel(cumulative_wait, 9);
}

} // verus!
