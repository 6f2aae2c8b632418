use vstd::prelude::*;

verus! {

/// Control values are fixed-point fractions of one: a control of
/// `CONTROL_ONE` means 1.0, half of it means 0.5.
pub const CONTROL_ONE: u32 = 1_000_000;

/// The grain start control is clamped below one: at most 0.99.
pub const START_CONTROL_MAX: u32 = 990_000;

/// The shortest grain that is ever selected, in samples.
pub const MIN_GRAIN_SAMPLES: usize = 20;

/// The longest grain ever selected covers 500 ms at the current sample rate.
pub const MAX_GRAIN_MILLIS: usize = 500;

/// A playback sub-range of the source sample: `length` frames starting at
/// frame `start`.
#[derive(Clone, Copy, Debug, PartialEq, Eq, Structural)]
pub struct GrainSpec {
    pub start: usize,
    pub length: usize,
}

/// Why no grain could be selected.
#[derive(Clone, Copy, Debug, PartialEq, Eq, Structural)]
pub enum GrainError {
    /// The source holds fewer frames than the shortest grain.
    SampleTooShort,
}

/// `x * control / CONTROL_ONE`, rounded to the nearest integer: the product
/// of `x` with the fraction that `control` stands for.
pub open spec fn scale_round(x: nat, control: nat) -> nat {
    (x * control + (CONTROL_ONE as nat) / 2) / (CONTROL_ONE as nat)
}

/// The number of frames in 500 ms at `rate` frames per second, truncated to
/// whole frames.
pub open spec fn spec_max_grain_cap(rate: nat) -> nat {
    (rate * (MAX_GRAIN_MILLIS as nat)) / 1000
}

/// The longest admissible grain: the whole source, or the 500 ms cap,
/// whichever is shorter.
pub open spec fn spec_max_grain(source_len: nat, rate: nat) -> nat {
    if source_len <= spec_max_grain_cap(rate) {
        source_len
    } else {
        spec_max_grain_cap(rate)
    }
}

/// The selected grain length: the size control's fraction of the longest
/// admissible grain, but never below the 20-sample floor.
pub open spec fn spec_grain_length(source_len: nat, rate: nat, size_control: nat) -> nat {
    let scaled = scale_round(spec_max_grain(source_len, rate), size_control);
    if scaled >= MIN_GRAIN_SAMPLES as nat {
        scaled
    } else {
        MIN_GRAIN_SAMPLES as nat
    }
}

/// The selected grain start: the start control's fraction of the source
/// length, clamped so that the grain still fits inside the source.
pub open spec fn spec_grain_start(source_len: nat, rate: nat, size_control: nat, start_control: nat) -> nat {
    let length = spec_grain_length(source_len, rate, size_control);
    let scaled = scale_round(source_len, start_control);
    if scaled <= source_len - length {
        scaled
    } else {
        (source_len - length) as nat
    }
}

proof fn lemma_scale_round_le(x: nat, control: nat)
    requires
        control <= CONTROL_ONE as nat,
    ensures
        scale_round(x, control) <= x,
{
    let one = CONTROL_ONE as nat;
    assert(x * control <= x * one) by (nonlinear_arith)
        requires control <= one,
    ;
    assert((x * control + one / 2) / one <= (x * one + one / 2) / one) by {
        vstd::arithmetic::div_mod::lemma_div_is_ordered(
            (x * control + one / 2) as int,
            (x * one + one / 2) as int,
            one as int,
        );
    }
    assert((x * one + one / 2) / one == x) by {
        vstd::arithmetic::div_mod::lemma_div_multiples_vanish_fancy(
            x as int,
            (one / 2) as int,
            one as int,
        );
    }
}

/// The grain selector never reaches past the source: the selected range lies
/// inside `[0, source_len]`, and its length is at least the 20-sample floor.
pub proof fn lemma_grain_in_bounds(source_len: nat, rate: nat, size_control: nat, start_control: nat)
    requires
        source_len >= MIN_GRAIN_SAMPLES as nat,
        rate >= 40,
        size_control <= CONTROL_ONE as nat,
        start_control <= START_CONTROL_MAX as nat,
    ensures
        spec_grain_length(source_len, rate, size_control) >= MIN_GRAIN_SAMPLES as nat,
        spec_grain_length(source_len, rate, size_control) <= source_len,
        spec_grain_start(source_len, rate, size_control, start_control)
            + spec_grain_length(source_len, rate, size_control) <= source_len,
{
    let cap = spec_max_grain_cap(rate);
    assert(cap >= MIN_GRAIN_SAMPLES as nat) by {
        assert(rate * 500nat >= 40 * 500nat) by (nonlinear_arith)
            requires rate >= 40,
        ;
        vstd::arithmetic::div_mod::lemma_div_is_ordered(40int * 500, (rate * 500nat) as int, 1000);
    }
    let mg = spec_max_grain(source_len, rate);
    assert(mg >= MIN_GRAIN_SAMPLES as nat);
    lemma_scale_round_le(mg, size_control);
}

/// Selects the playback grain from the source length, the sample rate and
/// the two controls, as `spec_grain_length` and `spec_grain_start` say: the
/// length is the size control's share of the longest admissible grain (the
/// source length capped at 500 ms), at least 20 samples; the start is the
/// start control's share of the source length, clamped so the grain fits.
/// A source shorter than 20 samples is refused, and only such a source is.
pub fn select_grain(source_len: usize, sample_rate: u32, size_control: u32, start_control: u32)
    -> (r: Result<GrainSpec, GrainError>)
    requires
        sample_rate >= 40,
        size_control <= CONTROL_ONE,
        start_control <= START_CONTROL_MAX,
    ensures
        source_len < MIN_GRAIN_SAMPLES <==> r == Err::<GrainSpec, GrainError>(GrainError::SampleTooShort),
        source_len >= MIN_GRAIN_SAMPLES ==> r == Ok::<GrainSpec, GrainError>(GrainSpec {
            start: spec_grain_start(
                source_len as nat,
                sample_rate as nat,
                size_control as nat,
                start_control as nat,
            ) as usize,
            length: spec_grain_length(source_len as nat, sample_rate as nat, size_control as nat) as usize,
        }),
        r matches Ok(g) ==> g.start + g.length <= source_len && g.length >= MIN_GRAIN_SAMPLES,
{
    if source_len < MIN_GRAIN_SAMPLES {
        return Err(GrainError::SampleTooShort);
    }
    proof {
        lemma_grain_in_bounds(
            source_len as nat,
            sample_rate as nat,
            size_control as nat,
            start_control as nat,
        );
    }
    let cap: usize = (((sample_rate as u64) * (MAX_GRAIN_MILLIS as u64)) / 1000) as usize;
    let max_grain: usize = if source_len <= cap {
        source_len
    } else {
        cap
    };
    let scaled_len: u128 = ((max_grain as u128) * (size_control as u128) + (CONTROL_ONE as u128)
        / 2) / (CONTROL_ONE as u128);
    let length: usize = if scaled_len >= MIN_GRAIN_SAMPLES as u128 {
        proof {
            lemma_scale_round_le(max_grain as nat, size_control as nat);
        }
        scaled_len as usize
    } else {
        MIN_GRAIN_SAMPLES
    };
    proof {
        vstd::arithmetic::mul::lemma_mul_upper_bound(
            source_len as int,
            usize::MAX as int,
            start_control as int,
            CONTROL_ONE as int,
        );
    }
    let scaled_start: u128 = ((source_len as u128) * (start_control as u128) + (CONTROL_ONE
        as u128) / 2) / (CONTROL_ONE as u128);
    let start: usize = if scaled_start <= (source_len - length) as u128 {
        scaled_start as usize
    } else {
        source_len - length
    };
    Ok(GrainSpec { start, length })
}

} // verus!
