use vstd::prelude::*;

verus! {

/// `std::time::Instant`, carried through the timing loop.
#[verifier::external_type_specification]
#[verifier::external_body]
pub struct ExInstant(std::time::Instant);

/// Calls `std::time::Instant::now`. The result is a reading of the
/// monotonic clock, so nothing is stated of it.
#[verifier::external_body]
fn instant_now() -> std::time::Instant {
    std::time::Instant::now()
}

/// Calls `std::time::Instant::elapsed`: the time that passed since `start`.
/// It depends on the clock, so nothing is stated of it.
#[verifier::external_body]
fn instant_elapsed(start: &std::time::Instant) -> std::time::Duration {
    start.elapsed()
}

/// The number of unrecorded warm-up runs before `iters` timed ones: a tenth
/// of them, rounded up.
pub open spec fn warmup_count(iters: u64) -> nat {
    ((iters as nat) + 9) / 10
}

/// The number of unrecorded warm-up runs before `iters` timed ones.
pub fn warmup_runs(iters: u64) -> (r: u64)
    ensures
        r == warmup_count(iters),
{
    if iters % 10 == 0 {
        iters / 10
    } else {
        iters / 10 + 1
    }
}

/// Runs `f` `warmup_runs(iters)` times without timing them, to settle
/// caches and the CPU governor, then runs it exactly `iters` times and
/// returns the wall-clock time that those runs took together.
pub fn bench_iters<F: FnMut()>(mut f: F, iters: u64) -> std::time::Duration
    requires
        forall|g: F| call_requires(g, ()),
{
    let warmup = warmup_runs(iters);
    let mut w: u64 = 0;
    while w < warmup
        invariant
            w <= warmup,
            forall|g: F| call_requires(g, ()),
        decreases warmup - w,
    {
        f();
        w = w + 1;
    }
    let start = instant_now();
    let mut i: u64 = 0;
    while i < iters
        invariant
            i <= iters,
            forall|g: F| call_requires(g, ()),
        decreases iters - i,
    {
        f();
        i = i + 1;
    }
    instant_elapsed(&start)
}

} // verus!
