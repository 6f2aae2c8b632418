use vstd::prelude::*;

verus! {

/// A4 — MIDI note 69 — in micro-hertz: 440 Hz exactly.
pub const A4_MICROHZ: u64 = 440_000_000;

/// The twelve-tone equal-temperament frequencies of the lowest MIDI octave
/// (notes 0 to 11), in micro-hertz, each rounded to the nearest integer:
/// `440 Hz * 2^((note - 69) / 12)`. Note 9 is exact: A4 five octaves down,
/// 13.75 Hz.
pub open spec fn spec_base_microhz(semitone: nat) -> nat {
    if semitone == 0 {
        8_175_799
    } else if semitone == 1 {
        8_661_957
    } else if semitone == 2 {
        9_177_024
    } else if semitone == 3 {
        9_722_718
    } else if semitone == 4 {
        10_300_861
    } else if semitone == 5 {
        10_913_382
    } else if semitone == 6 {
        11_562_326
    } else if semitone == 7 {
        12_249_857
    } else if semitone == 8 {
        12_978_272
    } else if semitone == 9 {
        13_750_000
    } else if semitone == 10 {
        14_567_618
    } else {
        15_433_853
    }
}

/// The equal-temperament frequency of a MIDI note in micro-hertz: the note's
/// pitch class at the lowest octave, doubled once per octave above it.
pub open spec fn spec_midi_microhz(note: nat) -> nat {
    spec_base_microhz(note % 12) * vstd::arithmetic::power2::pow2(note / 12)
}

/// No MIDI note is slower than note 0, which is just above 8.175 Hz.
pub proof fn lemma_midi_microhz_lower_bound(note: nat)
    ensures
        spec_midi_microhz(note) >= 8_175_799,
{
    let base = spec_base_microhz(note % 12);
    let p = vstd::arithmetic::power2::pow2(note / 12);
    assert(p >= 1) by {
        vstd::arithmetic::power2::lemma_pow2_pos(note / 12);
    }
    assert(base * p >= base * 1) by {
        vstd::arithmetic::mul::lemma_mul_inequality(1, p as int, base as int);
        vstd::arithmetic::mul::lemma_mul_is_commutative(1, base as int);
        vstd::arithmetic::mul::lemma_mul_is_commutative(p as int, base as int);
    }
}

/// The frequency a MIDI note asks for, in micro-hertz: standard equal
/// temperament around A4 = 440 Hz, to the nearest micro-hertz.
pub fn midi_pitch_to_microhz(note: u8) -> (r: u64)
    ensures
        r == spec_midi_microhz(note as nat),
        r >= 8_175_799,
{
    let semitone: u8 = note % 12;
    let octave: u8 = note / 12;
    let base: u64 = if semitone == 0 {
        8_175_799
    } else if semitone == 1 {
        8_661_957
    } else if semitone == 2 {
        9_177_024
    } else if semitone == 3 {
        9_722_718
    } else if semitone == 4 {
        10_300_861
    } else if semitone == 5 {
        10_913_382
    } else if semitone == 6 {
        11_562_326
    } else if semitone == 7 {
        12_249_857
    } else if semitone == 8 {
        12_978_272
    } else if semitone == 9 {
        13_750_000
    } else if semitone == 10 {
        14_567_618
    } else {
        15_433_853
    };
    proof {
        lemma_midi_microhz_lower_bound(note as nat);
        assert(octave <= 21) by {
            vstd::arithmetic::div_mod::lemma_div_is_ordered(note as int, 255, 12);
        }
        vstd::arithmetic::power2::lemma_pow2_strictly_increases(octave as nat, 22);
        vstd::arithmetic::power2::lemma2_to64();
        vstd::arithmetic::mul::lemma_mul_upper_bound(
            base as int,
            16_000_000,
            vstd::arithmetic::power2::pow2(octave as nat) as int,
            0x400000,
        );
    }
    let factor: u64 = pow2_u64(octave);
    base * factor
}

/// `2^e` for the small exponents an octave number can reach.
fn pow2_u64(e: u8) -> (r: u64)
    requires
        e < 64,
    ensures
        r == vstd::arithmetic::power2::pow2(e as nat),
{
    let mut r: u64 = 1;
    let mut k: u8 = 0;
    proof {
        vstd::arithmetic::power2::lemma2_to64();
    }
    while k < e
        invariant
            k <= e,
            e < 64,
            r == vstd::arithmetic::power2::pow2(k as nat),
        decreases e - k,
    {
        proof {
            vstd::arithmetic::power2::lemma_pow2_strictly_increases(k as nat, 63);
            vstd::arithmetic::power2::lemma2_to64_rest();
            vstd::arithmetic::power2::lemma_pow2_unfold((k + 1) as nat);
        }
        r = r * 2;
        k = k + 1;
    }
    r
}

/// The natural frequency of a looped grain, in micro-hertz: how many times
/// per second a grain of `grain_len` frames repeats when played back at
/// `sample_rate` frames per second, truncated to whole micro-hertz.
pub fn natural_freq_microhz(sample_rate: u32, grain_len: usize) -> (r: u64)
    requires
        grain_len >= 1,
    ensures
        r == (sample_rate as nat * 1_000_000) / grain_len as nat,
{
    ((sample_rate as u64) * 1_000_000) / (grain_len as u64)
}

} // verus!
