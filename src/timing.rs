use vstd::prelude::*;

verus! {

/// Sum of a run of timer-query results, in nanoseconds.
pub open spec fn sum(s: Seq<u32>) -> int
    decreases s.len(),
{
    if s.len() == 0 {
        0
    } else {
        sum(s.drop_last()) + s.last()
    }
}

/// The results that count: what is left after dropping `warmup` samples
/// from each end.
pub open spec fn kept(results: Seq<u32>, warmup: int) -> Seq<u32> {
    results.subrange(warmup, results.len() - warmup)
}

/// Elapsed time over the kept samples.
pub open spec fn total_time(results: Seq<u32>, warmup: int) -> int {
    sum(kept(results, warmup))
}

/// Number of full-screen draws that the kept samples cover.
pub open spec fn total_draws(results: Seq<u32>, warmup: int, num_draws: int) -> int {
    (results.len() - 2 * warmup) * num_draws
}

/// Mean time of one full-screen draw, in nanoseconds.
pub open spec fn fullscreen_time(results: Seq<u32>, warmup: int, num_draws: int) -> int {
    total_time(results, warmup) / total_draws(results, warmup, num_draws)
}

/// Time to shade one million pixels, in nanoseconds.
pub open spec fn megapixel_time(
    results: Seq<u32>,
    warmup: int,
    num_draws: int,
    pixel_count: int,
) -> int {
    fullscreen_time(results, warmup, num_draws) * 1_000_000 / pixel_count
}

/// Every intermediate value of the computation fits in a `usize`.
pub open spec fn fits_in_usize(results: Seq<u32>, warmup: int, num_draws: int) -> bool {
    &&& total_time(results, warmup) <= usize::MAX
    &&& total_draws(results, warmup, num_draws) <= usize::MAX
    &&& fullscreen_time(results, warmup, num_draws) * 1_000_000 <= usize::MAX
}

/// Result of one scenario.
#[derive(Clone, Copy, Debug, PartialEq, Eq, Structural)]
pub struct Timing {
    /// Mean time of one full-screen draw, in nanoseconds.
    pub fullscreen_ns: usize,
    /// Time per million pixels, in nanoseconds.
    pub megapixel_ns: usize,
}

impl Timing {
    /// Time per million pixels, in whole microseconds.
    pub fn megapixel_micros(&self) -> (r: usize)
        ensures
            r == self.megapixel_ns / 1000,
    {
        self.megapixel_ns / 1000
    }
}

proof fn lemma_sum_prefix_bounded(s: Seq<u32>, i: int)
    requires
        0 <= i <= s.len(),
    ensures
        0 <= sum(s.take(i)) <= sum(s),
    decreases s.len(),
{
    if i < s.len() {
        lemma_sum_prefix_bounded(s.drop_last(), i);
        assert(s.drop_last().take(i) =~= s.take(i));
    } else {
        assert(s.take(i) =~= s);
        if s.len() > 0 {
            lemma_sum_prefix_bounded(s.drop_last(), i - 1);
            assert(s.drop_last().take(i - 1) =~= s.drop_last());
        }
    }
}

/// Sum of the results left after dropping `warmup` samples from each end;
/// `None` where that sum does not fit in a `usize`.
pub fn trimmed_total(results: &Vec<u32>, warmup: usize) -> (r: Option<usize>)
    requires
        2 * warmup <= results.len(),
    ensures
        r is Some <==> total_time(results@, warmup as int) <= usize::MAX,
        r matches Some(t) ==> t == total_time(results@, warmup as int),
{
    let end = results.len() - warmup;
    let ghost s = results@;
    let mut total: usize = 0;
    let mut i = warmup;
    while i < end
        invariant
            warmup <= i <= end,
            end == s.len() - warmup,
            s == results@,
            total == sum(s.subrange(warmup as int, i as int)),
        decreases end - i,
    {
        proof {
            assert(s.subrange(warmup as int, i + 1).drop_last() =~= s.subrange(
                warmup as int,
                i as int,
            ));
        }
        match total.checked_add(results[i] as usize) {
            Some(t) => {
                total = t;
            },
            None => {
                proof {
                    let k = kept(s, warmup as int);
                    lemma_sum_prefix_bounded(k, i + 1 - warmup);
                    assert(k.take(i + 1 - warmup) =~= s.subrange(warmup as int, i + 1));
                }
                return None;
            },
        }
        i = i + 1;
    }
    Some(total)
}

/// Per-draw and per-megapixel time of a scenario, from the result of each of
/// its timer queries in sample order. The first and last `warmup` samples are
/// dropped; `num_draws` is the instance count of each sampled draw, and
/// `pixel_count` the number of pixels one draw covers. `None` where an
/// intermediate value does not fit in a `usize`.
pub fn summarize(results: &Vec<u32>, warmup: usize, num_draws: usize, pixel_count: usize) -> (r:
    Option<Timing>)
    requires
        2 * warmup < results.len(),
        num_draws > 0,
        pixel_count > 0,
    ensures
        r is Some <==> fits_in_usize(results@, warmup as int, num_draws as int),
        r matches Some(t) ==> {
            &&& t.fullscreen_ns == fullscreen_time(results@, warmup as int, num_draws as int)
            &&& t.megapixel_ns == megapixel_time(
                results@,
                warmup as int,
                num_draws as int,
                pixel_count as int,
            )
        },
{
    let total = match trimmed_total(results, warmup) {
        Some(t) => t,
        None => {
            return None;
        },
    };
    let samples = results.len() - 2 * warmup;
    let draws = match samples.checked_mul(num_draws) {
        Some(d) => d,
        None => {
            return None;
        },
    };
    proof {
        assert(samples * num_draws > 0) by (nonlinear_arith)
            requires
                samples > 0,
                num_draws > 0,
        ;
    }
    let fullscreen = total / draws;
    let scaled = match fullscreen.checked_mul(1_000_000) {
        Some(x) => x,
        None => {
            return None;
        },
    };
    Some(Timing { fullscreen_ns: fullscreen, megapixel_ns: scaled / pixel_count })
}

} // verus!
