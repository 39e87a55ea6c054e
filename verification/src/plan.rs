use vstd::prelude::*;
use vstd::arithmetic::div_mod::lemma_div_is_ordered;
use vstd::arithmetic::div_mod::lemma_div_multiples_vanish;
use vstd::arithmetic::div_mod::lemma_div_multiples_vanish_fancy;
use vstd::arithmetic::div_mod::lemma_div_pos_is_pos;
use vstd::arithmetic::mul::lemma_mul_inequality;
use crate::errors::PipelineError;

verus! {

/// One planned still: the grid cell it fills and the instant to sample.
#[derive(Clone, Copy, Debug, PartialEq, Eq, Structural)]
pub struct Sample {
    pub index: u64,
    pub timestamp_ms: u64,
}

/// The instant of sample `i` out of `total`: the video is cut into `total`
/// equal intervals and each interval's start is sampled, so the first
/// sample sits at the very beginning, not at its interval's centre.
pub open spec fn spec_timestamp(duration_ms: int, total: int, i: int) -> int {
    (duration_ms * i) / total
}

/// Plans one evenly spaced sample per grid cell: `rows * columns` samples
/// over a video of `duration_ms` milliseconds, in cell order.
pub fn plan(duration_ms: u64, rows: u32, columns: u32) -> (r: Result<Vec<Sample>, PipelineError>)
    ensures
        r is Ok <==> rows >= 1 && columns >= 1 && duration_ms >= 1,
        rows == 0 || columns == 0 ==> (r matches Err(e) && e == PipelineError::InvalidLayout),
        rows >= 1 && columns >= 1 && duration_ms == 0 ==> (r matches Err(e) && e
            == PipelineError::InvalidMedia),
        r matches Ok(v) ==> {
            &&& v@.len() == rows * columns
            &&& forall|i: int|
                0 <= i < v@.len() ==> (#[trigger] v@[i]).index == i && v@[i].timestamp_ms
                    == spec_timestamp(duration_ms as int, (rows * columns) as int, i)
            &&& v@[0].timestamp_ms == 0
            &&& forall|i: int, j: int|
                0 <= i <= j < v@.len() ==> #[trigger] v@[i].timestamp_ms <= #[trigger] v@[j].timestamp_ms
            &&& v@[v@.len() - 1].timestamp_ms == (duration_ms * (rows * columns - 1)) / (rows
                * columns)
            &&& forall|i: int| 0 <= i < v@.len() ==> #[trigger] v@[i].timestamp_ms < duration_ms
        },
{
    if rows == 0 || columns == 0 {
        return Err(PipelineError::InvalidLayout);
    }
    if duration_ms == 0 {
        return Err(PipelineError::InvalidMedia);
    }
    proof {
        let m: int = 0xffff_ffff;
        assert(1 <= rows * columns <= m * m) by (nonlinear_arith)
            requires
                1 <= rows <= m,
                1 <= columns <= m,
        ;
    }
    let total: u64 = (rows as u64) * (columns as u64);
    let mut samples: Vec<Sample> = Vec::new();
    let mut i: u64 = 0;
    while i < total
        invariant
            1 <= total == rows * columns,
            duration_ms >= 1,
            0 <= i <= total,
            samples@.len() == i,
            forall|k: int|
                0 <= k < i ==> (#[trigger] samples@[k]).index == k && samples@[k].timestamp_ms
                    == spec_timestamp(duration_ms as int, total as int, k),
        decreases total - i,
    {
        proof {
            let m: int = 0xffff_ffff_ffff_ffff;
            assert(duration_ms * i <= m * m) by (nonlinear_arith)
                requires
                    0 <= duration_ms <= 0xffff_ffff_ffff_ffffu64,
                    0 <= i <= 0xffff_ffff_ffff_ffffu64,
                    m == 0xffff_ffff_ffff_ffffint,
            ;
            lemma_mul_inequality(i as int, total as int - 1, duration_ms as int);
            lemma_div_is_ordered(
                duration_ms as int * i as int,
                duration_ms as int * (total as int - 1),
                total as int,
            );
            lemma_mul_inequality(total as int - 1, total as int, duration_ms as int);
            lemma_div_is_ordered(
                duration_ms as int * (total as int - 1),
                duration_ms as int * total as int,
                total as int,
            );
            lemma_div_multiples_vanish(duration_ms as int, total as int);
            assert(duration_ms as int * total as int == total as int * duration_ms as int)
                by (nonlinear_arith);
            lemma_div_pos_is_pos(duration_ms as int * i as int, total as int);
        }
        let ts: u64 = ((duration_ms as u128 * i as u128) / (total as u128)) as u64;
        samples.push(Sample { index: i, timestamp_ms: ts });
        i = i + 1;
    }
    proof {
        assert forall|a: int, b: int| 0 <= a <= b < total implies spec_timestamp(
            duration_ms as int,
            total as int,
            a,
        ) <= spec_timestamp(duration_ms as int, total as int, b) by {
            lemma_mul_inequality(a, b, duration_ms as int);
            assert(duration_ms as int * a == a * duration_ms as int) by (nonlinear_arith);
            assert(duration_ms as int * b == b * duration_ms as int) by (nonlinear_arith);
            lemma_div_is_ordered(
                duration_ms as int * a,
                duration_ms as int * b,
                total as int,
            );
        }
        assert forall|k: int| 0 <= k < total implies spec_timestamp(
            duration_ms as int,
            total as int,
            k,
        ) < duration_ms by {
            lemma_mul_inequality(k, total as int - 1, duration_ms as int);
            assert(k * duration_ms as int == duration_ms as int * k) by (nonlinear_arith);
            assert((total as int - 1) * duration_ms as int == duration_ms as int * (total as int
                - 1)) by (nonlinear_arith);
            lemma_div_is_ordered(
                duration_ms as int * k,
                duration_ms as int * (total as int - 1),
                total as int,
            );
            lemma_mul_inequality(total as int - 1, total as int, duration_ms as int);
            lemma_div_is_ordered(
                duration_ms as int * (total as int - 1),
                duration_ms as int * total as int,
                total as int,
            );
            lemma_div_multiples_vanish(duration_ms as int, total as int);
            assert(duration_ms as int * total as int == total as int * duration_ms as int)
                by (nonlinear_arith);
            assert(spec_timestamp(duration_ms as int, total as int, total as int - 1)
                <= duration_ms as int - 1) by {
                lemma_mod_timestamp_strict(duration_ms as int, total as int);
            }
        }
        assert(spec_timestamp(duration_ms as int, total as int, 0) == 0) by {
            assert(duration_ms as int * 0 == 0);
            lemma_div_pos_is_pos(0, total as int);
            lemma_div_nonincreasing_zero(total as int);
        }
    }
    Ok(samples)
}

/// The quotient of zero by a positive divisor is zero.
proof fn lemma_div_nonincreasing_zero(d: int)
    requires
        d >= 1,
    ensures
        0int / d == 0,
{
    vstd::arithmetic::div_mod::lemma_div_nonincreasing(0, d);
    lemma_div_pos_is_pos(0, d);
}

/// The last sample of a plan lies strictly before the end of the video.
proof fn lemma_mod_timestamp_strict(duration_ms: int, total: int)
    requires
        duration_ms >= 1,
        total >= 1,
    ensures
        (duration_ms * (total - 1)) / total <= duration_ms - 1,
{
    let x = duration_ms * (total - 1);
    assert(x <= total * (duration_ms - 1) + (total - 1)) by (nonlinear_arith)
        requires
            duration_ms >= 1,
            total >= 1,
            x == duration_ms * (total - 1),
    ;
    lemma_div_is_ordered(x, total * (duration_ms - 1) + (total - 1), total);
    lemma_div_multiples_vanish_fancy(duration_ms - 1, total - 1, total);
}

} // verus!
