use vstd::prelude::*;
use crate::wav_parser::StereoFrame;

verus! {

/// How many frames a repitch from `orig` to `new` produces out of `n` source
/// frames: the source length less one, scaled by the frequency ratio
/// `orig / new` and truncated. Degenerate inputs produce nothing: fewer than
/// two source frames leave no room to interpolate, and a zero frequency has
/// no ratio.
pub open spec fn repitch_len(n: nat, orig: nat, new: nat) -> nat {
    if n < 2 || orig == 0 || new == 0 {
        0
    } else {
        (((n - 1) * orig) / (new as int)) as nat
    }
}

/// Linear interpolation between `s0` and `s1` with weight `rem / den`, the
/// quotient truncated toward zero.
pub open spec fn lerp(s0: int, s1: int, rem: nat, den: nat) -> int {
    if s1 >= s0 {
        s0 + (s1 - s0) * rem / (den as int)
    } else {
        s0 - (s0 - s1) * rem / (den as int)
    }
}

/// Output frame `i` of a repitch: the fractional source position of `i` is
/// `i * new / orig`; the frame interpolates between the source frames on
/// either side of that position, weighted by its fractional part.
pub open spec fn repitch_frame(s: Seq<StereoFrame>, orig: nat, new: nat, i: nat) -> StereoFrame {
    let pos = i * new;
    let idx = pos / orig;
    let rem = pos % orig;
    StereoFrame {
        left: lerp(s[idx as int].left as int, s[idx as int + 1].left as int, rem, orig) as i32,
        right: lerp(s[idx as int].right as int, s[idx as int + 1].right as int, rem, orig) as i32,
    }
}

/// The whole repitched sequence.
pub open spec fn repitch_seq(s: Seq<StereoFrame>, orig: nat, new: nat) -> Seq<StereoFrame> {
    Seq::new(repitch_len(s.len(), orig, new), |i: int| repitch_frame(s, orig, new, i as nat))
}

/// Every source index that an output frame reads is in bounds: frame `i`
/// reads source frames `i * new / orig` and the one after it, and both lie
/// inside the source.
pub proof fn lemma_src_index_in_bounds(n: nat, orig: nat, new: nat, i: nat)
    requires
        orig > 0,
        new > 0,
        n >= 2,
        i < repitch_len(n, orig, new),
    ensures
        (i * new) / orig + 1 < n,
{
    let out_len = (((n - 1) * orig) / (new as int)) as nat;
    assert((i as int + 1) * new <= (n - 1) * orig) by {
        vstd::arithmetic::mul::lemma_mul_inequality(i as int + 1, out_len as int, new as int);
        vstd::arithmetic::div_mod::lemma_fundamental_div_mod(((n - 1) * orig) as int, new as int);
        vstd::arithmetic::div_mod::lemma_mod_division_less_than_divisor(
            ((n - 1) * orig) as int,
            new as int,
        );
    }
    assert(i * new < (i as int + 1) * new) by (nonlinear_arith)
        requires new > 0,
    ;
    assert((i * new) / orig < n - 1) by {
        vstd::arithmetic::mul::lemma_mul_is_commutative((n - 1) as int, orig as int);
        vstd::arithmetic::div_mod::lemma_multiply_divide_lt(
            (i * new) as int,
            orig as int,
            (n - 1) as int,
        );
    }
}

/// Interpolating between two source frames with weight `rem / den`, with the
/// quotient truncated toward zero; the result always lies between them.
fn lerp_exec(s0: i32, s1: i32, rem: u64, den: u64) -> (r: i32)
    requires
        den > 0,
        rem < den,
    ensures
        r as int == lerp(s0 as int, s1 as int, rem as nat, den as nat),
{
    if s1 >= s0 {
        let diff: u64 = (s1 as i64 - s0 as i64) as u64;
        proof {
            vstd::arithmetic::mul::lemma_mul_upper_bound(
                diff as int,
                u64::MAX as int,
                rem as int,
                u64::MAX as int,
            );
            lemma_lerp_part_le(diff as nat, rem as nat, den as nat);
        }
        let part: u64 = (((diff as u128) * (rem as u128)) / (den as u128)) as u64;
        (s0 as i64 + part as i64) as i32
    } else {
        let diff: u64 = (s0 as i64 - s1 as i64) as u64;
        proof {
            vstd::arithmetic::mul::lemma_mul_upper_bound(
                diff as int,
                u64::MAX as int,
                rem as int,
                u64::MAX as int,
            );
            lemma_lerp_part_le(diff as nat, rem as nat, den as nat);
        }
        let part: u64 = (((diff as u128) * (rem as u128)) / (den as u128)) as u64;
        (s0 as i64 - part as i64) as i32
    }
}

proof fn lemma_lerp_part_le(diff: nat, rem: nat, den: nat)
    requires
        den > 0,
        rem < den,
    ensures
        (diff * rem) / den <= diff,
{
    vstd::arithmetic::mul::lemma_mul_inequality(rem as int, den as int, diff as int);
    vstd::arithmetic::mul::lemma_mul_is_commutative(rem as int, diff as int);
    vstd::arithmetic::mul::lemma_mul_is_commutative(den as int, diff as int);
    vstd::arithmetic::div_mod::lemma_div_is_ordered(
        (diff * rem) as int,
        (diff * den) as int,
        den as int,
    );
    vstd::arithmetic::div_mod::lemma_div_by_multiple(diff as int, den as int);
}

/// Resamples `samples` from its own frequency `orig_freq` to `new_freq` by
/// linear interpolation, both frequencies in micro-hertz. A ratio above one
/// (pitching down) lengthens the output, one below (pitching up) shortens
/// it, as `repitch_len` says; each output frame is `repitch_frame` of the
/// source. Fewer than two source frames, or a zero frequency, produce an
/// empty output.
pub fn repitch(orig_freq: u64, new_freq: u64, samples: &Vec<StereoFrame>) -> (out: Vec<
    StereoFrame,
>)
    requires
        repitch_len(samples@.len(), orig_freq as nat, new_freq as nat) <= usize::MAX,
    ensures
        out@ == repitch_seq(samples@, orig_freq as nat, new_freq as nat),
{
    let n = samples.len();
    if n < 2 || orig_freq == 0 || new_freq == 0 {
        let out: Vec<StereoFrame> = Vec::new();
        proof {
            assert(out@ =~= repitch_seq(samples@, orig_freq as nat, new_freq as nat));
        }
        return out;
    }
    proof {
        vstd::arithmetic::mul::lemma_mul_upper_bound(
            (n - 1) as int,
            u64::MAX as int,
            orig_freq as int,
            u64::MAX as int,
        );
    }
    let out_len_wide: u128 = (((n - 1) as u128) * (orig_freq as u128)) / (new_freq as u128);
    let out_len: usize = out_len_wide as usize;
    let ghost p: nat = orig_freq as nat;
    let ghost q: nat = new_freq as nat;
    let mut out: Vec<StereoFrame> = Vec::new();
    let mut i: usize = 0;
    while i < out_len
        invariant
            n == samples@.len(),
            n >= 2,
            p == orig_freq as nat,
            q == new_freq as nat,
            p > 0,
            q > 0,
            out_len == repitch_len(n as nat, p, q),
            i <= out_len,
            out@.len() == i,
            forall|j: int| 0 <= j < i ==> out@[j] == repitch_frame(samples@, p, q, j as nat),
        decreases out_len - i,
    {
        proof {
            lemma_src_index_in_bounds(n as nat, p, q, i as nat);
            vstd::arithmetic::mul::lemma_mul_upper_bound(
                i as int,
                u64::MAX as int,
                new_freq as int,
                u64::MAX as int,
            );
            vstd::arithmetic::div_mod::lemma_mod_division_less_than_divisor(
                ((i as nat) * q) as int,
                p as int,
            );
        }
        let pos: u128 = (i as u128) * (new_freq as u128);
        let idx: usize = (pos / (orig_freq as u128)) as usize;
        let rem: u64 = (pos % (orig_freq as u128)) as u64;
        let s0 = samples[idx];
        let s1 = samples[idx + 1];
        let left = lerp_exec(s0.left, s1.left, rem, orig_freq);
        let right = lerp_exec(s0.right, s1.right, rem, orig_freq);
        out.push(StereoFrame { left, right });
        i += 1;
    }
    proof {
        assert(out@ =~= repitch_seq(samples@, p, q));
    }
    out
}

/// A repitch of a grain from its own natural loop frequency to any MIDI
/// note's frequency stays small: the natural frequency of a grain of `len`
/// frames at `rate` frames per second is at most `rate * 1_000_000 / len`
/// micro-hertz, so the output holds no more than
/// `rate * 1_000_000 / 8_175_799` frames — under 600 million even at the
/// widest sample rate, so it always fits in memory.
pub proof fn lemma_repitch_len_fits(len: nat, rate: nat, target: nat)
    requires
        len >= 1,
        rate <= u32::MAX,
        target >= 8_175_799,
    ensures
        repitch_len(len, (rate * 1_000_000) / len, target) <= 600_000_000,
{
    let full = rate * 1_000_000;
    let orig = full / len;
    if len >= 2 && orig > 0 {
        assert(len * orig <= full) by {
            vstd::arithmetic::div_mod::lemma_fundamental_div_mod(full as int, len as int);
            vstd::arithmetic::div_mod::lemma_mod_division_less_than_divisor(
                full as int,
                len as int,
            );
        }
        assert((len - 1) * orig <= len * orig) by {
            vstd::arithmetic::mul::lemma_mul_inequality((len - 1) as int, len as int, orig as int);
        }
        assert(((len - 1) * orig) / (target as int) <= full as int / (target as int)) by {
            vstd::arithmetic::div_mod::lemma_div_is_ordered(
                ((len - 1) * orig) as int,
                full as int,
                target as int,
            );
        }
        assert(full as int / (target as int) <= full as int / 8_175_799) by {
            vstd::arithmetic::div_mod::lemma_div_is_ordered_by_denominator(
                full as int,
                8_175_799,
                target as int,
            );
        }
        assert(full as int / 8_175_799 <= (u32::MAX as int * 1_000_000) / 8_175_799) by {
            vstd::arithmetic::mul::lemma_mul_inequality(rate as int, u32::MAX as int, 1_000_000);
            vstd::arithmetic::div_mod::lemma_div_is_ordered(
                full as int,
                u32::MAX as int * 1_000_000,
                8_175_799,
            );
        }
    }
}

/// Repitching to the source's own frequency is the identity on frames: the
/// output is one frame shorter, and every frame equals the source frame at
/// its own index.
pub proof fn lemma_repitch_identity(s: Seq<StereoFrame>, f: nat)
    requires
        f > 0,
        s.len() >= 2,
    ensures
        repitch_seq(s, f, f).len() == s.len() - 1,
        forall|i: int| 0 <= i < s.len() - 1 ==> repitch_seq(s, f, f)[i] == s[i],
{
    let n = s.len();
    assert(((n - 1) * f) / (f as int) == n - 1) by {
        vstd::arithmetic::div_mod::lemma_div_by_multiple((n - 1) as int, f as int);
    }
    assert forall|i: int| 0 <= i < n - 1 implies repitch_seq(s, f, f)[i] == s[i] by {
        let iq = (i as nat) * f;
        assert(iq / f == i && iq % f == 0) by {
            vstd::arithmetic::div_mod::lemma_div_by_multiple(i, f as int);
            vstd::arithmetic::div_mod::lemma_mod_multiples_basic(i, f as int);
        }
        assert(lerp(s[i].left as int, s[i + 1].left as int, 0, f) == s[i].left as int);
        assert(lerp(s[i].right as int, s[i + 1].right as int, 0, f) == s[i].right as int);
    }
}

/// Pitching up by one octave — to twice the source frequency — halves the
/// output length: it is half the source length less one, truncated.
pub proof fn lemma_repitch_octave_len(n: nat, f: nat)
    requires
        f > 0,
        n >= 2,
    ensures
        repitch_len(n, f, 2 * f) == (n - 1) / 2,
{
    assert(((n - 1) * f) / (2 * (f as int)) == (n - 1) / 2) by {
        vstd::arithmetic::div_mod::lemma_div_denominator(((n - 1) * f) as int, f as int, 2);
        vstd::arithmetic::div_mod::lemma_div_by_multiple((n - 1) as int, f as int);
        assert(f as int * 2 == 2 * f) by (nonlinear_arith);
    }
}

} // verus!
