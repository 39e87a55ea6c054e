use vstd::prelude::*;
use crate::errors::PipelineError;

verus! {

/// The byte is an ASCII decimal digit.
pub open spec fn is_digit(b: u8) -> bool {
    48 <= b && b <= 57
}

/// Every byte of the sequence is an ASCII decimal digit.
pub open spec fn all_digits(s: Seq<u8>) -> bool {
    forall|i: int| 0 <= i < s.len() ==> is_digit(#[trigger] s[i])
}

/// The numeric value of the digit at position `i`.
pub open spec fn digit_at(s: Seq<u8>, i: int) -> int {
    s[i] - 48
}

/// The value of a sequence of ASCII digits read as a decimal numeral.
pub open spec fn dec_value(s: Seq<u8>) -> int
    decreases s.len(),
{
    if s.len() == 0 {
        0
    } else {
        dec_value(s.drop_last()) * 10 + (s.last() - 48)
    }
}

/// A digit string's value is never negative.
proof fn lemma_dec_value_nonneg(s: Seq<u8>)
    requires
        all_digits(s),
    ensures
        dec_value(s) >= 0,
    decreases s.len(),
{
    if s.len() > 0 {
        assert(all_digits(s.drop_last()));
        lemma_dec_value_nonneg(s.drop_last());
    }
}

/// Reading more digits never shrinks the value: every prefix of a digit
/// string is worth at most the whole string.
proof fn lemma_dec_value_prefix(s: Seq<u8>, k: int)
    requires
        0 <= k <= s.len(),
        all_digits(s),
    ensures
        dec_value(s.take(k)) <= dec_value(s),
    decreases s.len() - k,
{
    if k < s.len() {
        assert(all_digits(s.take(k)));
        lemma_dec_value_nonneg(s.take(k));
        assert(s.take(k + 1).drop_last() =~= s.take(k));
        assert(s.take(k + 1).last() == s[k]);
        lemma_dec_value_prefix(s, k + 1);
    } else {
        assert(s.take(k) =~= s);
    }
}

/// The position of the first `.` in the sequence, or its length when it
/// holds none.
pub open spec fn first_dot(s: Seq<u8>) -> int
    decreases s.len(),
{
    if s.len() == 0 {
        0
    } else if s[0] == 46 {
        0
    } else {
        1 + first_dot(s.skip(1))
    }
}

/// `first_dot` is characterised by its position: no `.` stands before it,
/// and a `.` stands at it unless the sequence holds none.
proof fn lemma_first_dot_at(s: Seq<u8>, k: int)
    requires
        0 <= k <= s.len(),
        forall|j: int| 0 <= j < k ==> s[j] != 46,
        k < s.len() ==> s[k] == 46,
    ensures
        first_dot(s) == k,
    decreases s.len(),
{
    if s.len() == 0 {
    } else if s[0] == 46 {
        assert(k == 0);
    } else {
        let t = s.skip(1);
        assert(forall|j: int| 0 <= j < k - 1 ==> #[trigger] t[j] == s[j + 1]);
        lemma_first_dot_at(t, k - 1);
    }
}

/// A probe duration is a decimal numeral of seconds with an optional
/// fractional part: one or more digits, then optionally a `.` followed by
/// digits only.
pub open spec fn duration_wf(s: Seq<u8>) -> bool {
    let k = first_dot(s);
    &&& k >= 1
    &&& all_digits(s.take(k))
    &&& (k < s.len() ==> all_digits(s.skip(k + 1)))
}

/// Milliseconds contributed by a fractional-seconds digit string: its
/// first three digits, zero-padded on the right; digits beyond the
/// millisecond are cut off.
pub open spec fn frac_ms(fs: Seq<u8>) -> int {
    if fs.len() == 0 {
        0
    } else if fs.len() == 1 {
        digit_at(fs, 0) * 100
    } else if fs.len() == 2 {
        digit_at(fs, 0) * 100 + digit_at(fs, 1) * 10
    } else {
        digit_at(fs, 0) * 100 + digit_at(fs, 1) * 10 + digit_at(fs, 2)
    }
}

/// The milliseconds a well-formed probe duration denotes.
pub open spec fn duration_value_ms(s: Seq<u8>) -> int {
    let k = first_dot(s);
    let frac = if k < s.len() {
        frac_ms(s.skip(k + 1))
    } else {
        0
    };
    dec_value(s.take(k)) * 1000 + frac
}

/// Parses the decimal numeral the probe prints for a pixel dimension.
pub fn parse_u32(s: &[u8]) -> (r: Option<u32>)
    ensures
        r is Some <==> s@.len() >= 1 && all_digits(s@) && dec_value(s@) <= u32::MAX,
        r matches Some(v) ==> v == dec_value(s@),
{
    if s.len() == 0 {
        return None;
    }
    let mut acc: u64 = 0;
    let mut i: usize = 0;
    while i < s.len()
        invariant
            0 <= i <= s@.len(),
            s@.len() >= 1,
            all_digits(s@.take(i as int)),
            acc == dec_value(s@.take(i as int)),
            acc <= 0xffff_ffffu64,
        decreases s@.len() - i,
    {
        let b: u8 = s[i];
        if b < 48 || b > 57 {
            proof {
                assert(!is_digit(s@[i as int]));
            }
            return None;
        }
        let next: u64 = acc * 10 + ((b - 48) as u64);
        proof {
            assert(s@.take(i as int + 1).drop_last() =~= s@.take(i as int));
            assert(s@.take(i as int + 1).last() == s@[i as int]);
        }
        if next > 0xffff_ffff {
            proof {
                if all_digits(s@) {
                    lemma_dec_value_prefix(s@, i as int + 1);
                }
            }
            return None;
        }
        acc = next;
        i = i + 1;
    }
    proof {
        assert(s@.take(s@.len() as int) =~= s@);
    }
    Some(acc as u32)
}

/// Parses the decimal the probe prints for a duration in seconds into
/// whole milliseconds, cutting off digits beyond the millisecond.
pub fn parse_duration_ms(s: &[u8]) -> (r: Option<u64>)
    ensures
        r is Some <==> duration_wf(s@) && duration_value_ms(s@) <= u64::MAX,
        r matches Some(v) ==> v == duration_value_ms(s@),
{
    let mut k: usize = 0;
    while k < s.len() && s[k] != 46
        invariant
            0 <= k <= s@.len(),
            forall|j: int| 0 <= j < k ==> s@[j] != 46,
        decreases s@.len() - k,
    {
        k = k + 1;
    }
    proof {
        lemma_first_dot_at(s@, k as int);
    }
    if k == 0 {
        return None;
    }
    let mut acc: u64 = 0;
    let mut i: usize = 0;
    while i < k
        invariant
            0 <= i <= k <= s@.len(),
            first_dot(s@) == k,
            k >= 1,
            all_digits(s@.take(k as int).take(i as int)),
            acc == dec_value(s@.take(k as int).take(i as int)),
            acc <= 0xffff_ffff_ffff_ffffu64,
        decreases k - i,
    {
        let b: u8 = s[i];
        proof {
            assert(s@.take(k as int)[i as int] == s@[i as int]);
        }
        if b < 48 || b > 57 {
            proof {
                assert(!is_digit(s@.take(k as int)[i as int]));
            }
            return None;
        }
        let next: u128 = (acc as u128) * 10 + ((b - 48) as u128);
        proof {
            assert(s@.take(k as int).take(i as int + 1).drop_last() =~= s@.take(k as int).take(
                i as int,
            ));
            assert(s@.take(k as int).take(i as int + 1).last() == s@[i as int]);
        }
        if next > 0xffff_ffff_ffff_ffff {
            proof {
                if duration_wf(s@) {
                    lemma_dec_value_prefix(s@.take(k as int), i as int + 1);
                    if first_dot(s@) < s@.len() {
                        lemma_frac_ms_nonneg(s@.skip(k as int + 1));
                    }
                }
            }
            return None;
        }
        acc = next as u64;
        i = i + 1;
    }
    proof {
        assert(s@.take(k as int).take(k as int) =~= s@.take(k as int));
    }
    // acc == dec_value of the whole-seconds digits
    let mut frac: u64 = 0;
    if k < s.len() {
        let flen: usize = s.len() - k - 1;
        let ghost fs: Seq<u8> = s@.skip(k as int + 1);
        let mut t: usize = 0;
        while t < flen
            invariant
                0 <= t <= flen,
                flen == s@.len() - k - 1,
                0 <= k < s@.len(),
                s@.len() <= usize::MAX,
                first_dot(s@) == k,
                fs == s@.skip(k as int + 1),
                forall|j: int| 0 <= j < t ==> is_digit(#[trigger] fs[j]),
            decreases flen - t,
        {
            let b: u8 = s[k + 1 + t];
            proof {
                assert(fs[t as int] == s@[k as int + 1 + t as int]);
            }
            if b < 48 || b > 57 {
                proof {
                    assert(!is_digit(fs[t as int]));
                }
                return None;
            }
            t = t + 1;
        }
        proof {
            assert(all_digits(fs));
        }
        if flen >= 1 {
            proof {
                assert(fs[0] == s@[k as int + 1]);
            }
            frac = ((s[k + 1] - 48) as u64) * 100;
        }
        if flen >= 2 {
            proof {
                assert(fs[1] == s@[k as int + 2]);
            }
            frac = frac + ((s[k + 2] - 48) as u64) * 10;
        }
        if flen >= 3 {
            proof {
                assert(fs[2] == s@[k as int + 3]);
            }
            frac = frac + ((s[k + 3] - 48) as u64);
        }
        proof {
            assert(frac == frac_ms(fs));
        }
    }
    let total: u128 = (acc as u128) * 1000 + (frac as u128);
    if total > 0xffff_ffff_ffff_ffff {
        proof {
            lemma_dec_value_nonneg(s@.take(k as int));
        }
        return None;
    }
    Some(total as u64)
}

/// A fractional digit string contributes a non-negative number of
/// milliseconds.
proof fn lemma_frac_ms_nonneg(fs: Seq<u8>)
    requires
        all_digits(fs),
    ensures
        frac_ms(fs) >= 0,
{
}

/// The source video one run works on, as the metadata probe reported it.
#[derive(Debug)]
pub struct MediaDescriptor {
    pub path: String,
    pub width_px: u32,
    pub height_px: u32,
    pub duration_ms: u64,
}

impl MediaDescriptor {
    /// The descriptor invariant: positive pixel dimensions and duration.
    pub open spec fn wf(self) -> bool {
        self.width_px >= 1 && self.height_px >= 1 && self.duration_ms >= 1
    }

    /// Validates what the probe reported; a descriptor only exists for
    /// media with positive dimensions and duration.
    pub fn new(path: String, width_px: u32, height_px: u32, duration_ms: u64) -> (r: Result<
        MediaDescriptor,
        PipelineError,
    >)
        ensures
            r is Ok <==> width_px >= 1 && height_px >= 1 && duration_ms >= 1,
            r matches Ok(d) ==> d.wf() && d.path@ == path@ && d.width_px == width_px
                && d.height_px == height_px && d.duration_ms == duration_ms,
            r matches Err(e) ==> e == PipelineError::InvalidMedia,
    {
        if width_px == 0 || height_px == 0 || duration_ms == 0 {
            Err(PipelineError::InvalidMedia)
        } else {
            Ok(MediaDescriptor { path, width_px, height_px, duration_ms })
        }
    }
}

} // verus!
