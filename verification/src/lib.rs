pub mod grain;
pub mod pitcher;
pub mod tuning;
pub mod wav_parser;

use vstd::prelude::*;
use crate::grain::{GrainSpec, CONTROL_ONE, MIN_GRAIN_SAMPLES, START_CONTROL_MAX};
use crate::wav_parser::{silent_frame, StereoFrame};

verus! {

/// The control value at and above which pitch mode is on: one half.
pub const PITCH_TOGGLE_THRESHOLD: u32 = 500_000;

/// The control value below which the first bundled sample is selected.
pub const SAMPLE_SELECT_THRESHOLD: u32 = 500_000;

/// The sample rate the engine is built for, in frames per second.
pub const NOMINAL_SAMPLE_RATE: u32 = 44_100;

/// The four continuous controls a host can set, as a closed enumeration.
#[derive(Clone, Copy, Debug, PartialEq, Eq, Structural)]
pub enum ParameterId {
    GrainSize,
    SampleStart,
    PitchToggle,
    SampleSelect,
}

/// Which of the bundled source samples is selected.
#[derive(Clone, Copy, Debug, PartialEq, Eq, Structural)]
pub enum SampleChoice {
    Pads,
    Plucks,
}

/// The granular playback engine: a source sample, the four controls, and the
/// playback state — the held note, the running cursor, and the repitched
/// grain that the last note-on computed.
///
/// Control values are fixed-point fractions of one, `CONTROL_ONE` meaning
/// 1.0. The state machine has two states: idle (`note` is `None`, cursor
/// pinned at zero) and sounding (`note` holds the MIDI note, cursor
/// advancing once per tick).
pub struct Granulizor {
    pub grain_size_control: u32,
    pub sample_start_control: u32,
    pub pitch_toggle: u32,
    pub sample_select_control: u32,
    pub frames: Vec<StereoFrame>,
    pub sample_rate: u32,
    pub time: usize,
    pub note: Option<u8>,
    pub repitched_sample: Vec<StereoFrame>,
}

impl Granulizor {
    /// The controls lie in their ranges, and the sample rate is at least
    /// 40 frames per second: the least rate at which the 500 ms grain cap
    /// can still hold the 20-sample minimum grain, which the grain
    /// selector's bounds rest on.
    pub open spec fn wf(self) -> bool {
        &&& self.grain_size_control <= CONTROL_ONE
        &&& self.sample_start_control <= START_CONTROL_MAX
        &&& self.pitch_toggle <= CONTROL_ONE
        &&& self.sample_select_control <= CONTROL_ONE
        &&& 40 <= self.sample_rate
    }

    /// Pitch mode is on when its toggle sits at one half or above.
    pub open spec fn spec_pitch_mode_on(self) -> bool {
        self.pitch_toggle >= PITCH_TOGGLE_THRESHOLD
    }

    /// The grain length the current controls select.
    pub open spec fn spec_grain_length(self) -> nat {
        crate::grain::spec_grain_length(
            self.frames@.len(),
            self.sample_rate as nat,
            self.grain_size_control as nat,
        )
    }

    /// The grain start the current controls select.
    pub open spec fn spec_grain_start(self) -> nat {
        crate::grain::spec_grain_start(
            self.frames@.len(),
            self.sample_rate as nat,
            self.grain_size_control as nat,
            self.sample_start_control as nat,
        )
    }

    /// Whether pitch mode is on.
    pub fn pitch_mode_on(&self) -> (r: bool)
        ensures
            r == self.spec_pitch_mode_on(),
    {
        self.pitch_toggle >= PITCH_TOGGLE_THRESHOLD
    }

    /// Which bundled sample the select control points at: the lower half of
    /// the control's range selects the first, the upper half the second.
    pub fn selected_sample(&self) -> (r: SampleChoice)
        ensures
            r == SampleChoice::Pads <==> self.sample_select_control < SAMPLE_SELECT_THRESHOLD,
    {
        if self.sample_select_control < SAMPLE_SELECT_THRESHOLD {
            SampleChoice::Pads
        } else {
            SampleChoice::Plucks
        }
    }

    /// Replaces the source sample. The playback state is untouched: the
    /// repitched grain, the held note and the cursor stay until the next
    /// note-on recomputes the grain against the new source.
    pub fn set_frames(&mut self, frames: Vec<StereoFrame>)
        ensures
            *final(self) == (Granulizor { frames, ..*old(self) }),
    {
        self.frames = frames;
    }

    /// The grain the current controls select from the current source.
    pub fn select_current_grain(&self) -> (r: Result<GrainSpec, crate::grain::GrainError>)
        requires
            self.wf(),
        ensures
            self.frames@.len() < MIN_GRAIN_SAMPLES <==> r is Err,
            r matches Ok(g) ==> g.length == self.spec_grain_length() && g.start
                == self.spec_grain_start() && g.start + g.length <= self.frames@.len()
                && g.length >= MIN_GRAIN_SAMPLES,
    {
        proof {
            if self.frames@.len() >= MIN_GRAIN_SAMPLES {
                crate::grain::lemma_grain_in_bounds(
                    self.frames@.len(),
                    self.sample_rate as nat,
                    self.grain_size_control as nat,
                    self.sample_start_control as nat,
                );
            }
        }
        crate::grain::select_grain(
            self.frames.len(),
            self.sample_rate,
            self.grain_size_control,
            self.sample_start_control,
        )
    }

    /// The grain length the current controls select, in samples.
    pub fn get_grain_size(&self) -> (r: usize)
        requires
            self.wf(),
            self.frames@.len() >= MIN_GRAIN_SAMPLES,
        ensures
            r == self.spec_grain_length(),
    {
        let g = self.select_current_grain();
        g.unwrap().length
    }

    /// The grain start the current controls select, as a frame index.
    pub fn get_grain_start(&self) -> (r: usize)
        requires
            self.wf(),
            self.frames@.len() >= MIN_GRAIN_SAMPLES,
        ensures
            r == self.spec_grain_start(),
    {
        let g = self.select_current_grain();
        g.unwrap().start
    }

    /// The natural frequency of the grain the current controls select, in
    /// micro-hertz: how often the looped grain repeats per second.
    pub open spec fn spec_natural_freq(self) -> nat {
        (self.sample_rate as nat * 1_000_000) / self.spec_grain_length()
    }

    /// The repitched grain a note-on for `note` computes: the currently
    /// selected grain, resampled from its natural loop frequency to the
    /// note's equal-temperament frequency. A source too short for any grain
    /// yields an empty sequence — played back as silence.
    pub open spec fn spec_repitched_for(self, note: u8) -> Seq<StereoFrame> {
        if self.frames@.len() < MIN_GRAIN_SAMPLES {
            Seq::empty()
        } else {
            let grain = self.frames@.subrange(
                self.spec_grain_start() as int,
                self.spec_grain_start() as int + self.spec_grain_length() as int,
            );
            crate::pitcher::repitch_seq(
                grain,
                self.spec_natural_freq(),
                crate::tuning::spec_midi_microhz(note as nat),
            )
        }
    }

    /// How a note-on for `note` takes `pre` to `post`: the note is now held;
    /// when pitch mode is on the repitched grain is recomputed for it, and
    /// otherwise kept; the cursor deliberately keeps running — retriggering
    /// does not reset the phase — and everything else is untouched.
    pub open spec fn note_on_rel(pre: Granulizor, post: Granulizor, note: u8) -> bool {
        &&& post.note == Some(note)
        &&& post.repitched_sample@ == if pre.spec_pitch_mode_on() {
            pre.spec_repitched_for(note)
        } else {
            pre.repitched_sample@
        }
        &&& post.grain_size_control == pre.grain_size_control
        &&& post.sample_start_control == pre.sample_start_control
        &&& post.pitch_toggle == pre.pitch_toggle
        &&& post.sample_select_control == pre.sample_select_control
        &&& post.frames == pre.frames
        &&& post.sample_rate == pre.sample_rate
        &&& post.time == pre.time
    }

    /// How a note-off for `note` takes `pre` to `post`: only a note-off that
    /// matches the held note releases it and resets the cursor to zero; a
    /// stale note-off for any other note changes nothing.
    pub open spec fn note_off_rel(pre: Granulizor, post: Granulizor, note: u8) -> bool {
        if pre.note == Some(note) {
            post == (Granulizor { note: None, time: 0, ..pre })
        } else {
            post == pre
        }
    }

    /// Recomputes the repitched grain for the held note, as
    /// `spec_repitched_for` says.
    fn init_pitched_samples(&mut self)
        requires
            old(self).wf(),
            old(self).note is Some,
        ensures
            final(self).repitched_sample@ == old(self).spec_repitched_for(
                old(self).note->Some_0,
            ),
            *final(self) == (Granulizor {
                repitched_sample: final(self).repitched_sample,
                ..*old(self)
            }),
    {
        let grain = match self.select_current_grain() {
            Ok(g) => g,
            Err(_) => {
                let empty: Vec<StereoFrame> = Vec::new();
                proof {
                    assert(empty@ =~= Seq::<StereoFrame>::empty());
                }
                self.repitched_sample = empty;
                return;
            },
        };
        let mut to_pitch: Vec<StereoFrame> = Vec::new();
        let source_len = self.frames.len();
        assert(grain.start + grain.length <= source_len);
        let end = grain.start + grain.length;
        let mut i: usize = grain.start;
        while i < end
            invariant
                grain.start <= i <= end,
                end == grain.start + grain.length,
                end <= self.frames@.len(),
                to_pitch@ =~= self.frames@.subrange(grain.start as int, i as int),
            decreases end - i,
        {
            to_pitch.push(self.frames[i].copy());
            i += 1;
            proof {
                assert(to_pitch@ =~= self.frames@.subrange(grain.start as int, i as int));
            }
        }
        let orig_freq = crate::tuning::natural_freq_microhz(self.sample_rate, grain.length);
        let note = self.note.unwrap();
        let target_freq = crate::tuning::midi_pitch_to_microhz(note);
        proof {
            crate::pitcher::lemma_repitch_len_fits(
                grain.length as nat,
                self.sample_rate as nat,
                target_freq as nat,
            );
        }
        self.repitched_sample = crate::pitcher::repitch(orig_freq, target_freq, &to_pitch);
    }

    /// Starts (or retriggers) a note: records it as held and, when pitch
    /// mode is on, recomputes the repitched grain for it. The cursor is not
    /// reset — a retrigger while sounding keeps the playback phase.
    pub fn note_on(&mut self, note: u8)
        requires
            old(self).wf(),
        ensures
            Granulizor::note_on_rel(*old(self), *final(self), note),
    {
        self.note = Some(note);
        if self.pitch_mode_on() {
            self.init_pitched_samples();
        }
    }

    /// Releases the held note if `note` matches it, returning to idle with
    /// the cursor at zero; a note-off for any other note is ignored.
    pub fn note_off(&mut self, note: u8)
        ensures
            Granulizor::note_off_rel(*old(self), *final(self), note),
    {
        let matches_held = match self.note {
            Some(held) => held == note,
            None => false,
        };
        if matches_held {
            self.note = None;
            self.time = 0;
        }
    }

    /// Dispatches one raw MIDI message: status byte 128 releases, 144
    /// triggers, data byte one is the note, and anything else — the velocity
    /// byte included — is ignored.
    pub fn process_midi_event(&mut self, data: [u8; 3])
        requires
            old(self).wf(),
        ensures
            data[0] == 144 ==> Granulizor::note_on_rel(*old(self), *final(self), data[1]),
            data[0] == 128 ==> Granulizor::note_off_rel(*old(self), *final(self), data[1]),
            data[0] != 144 && data[0] != 128 ==> *final(self) == *old(self),
    {
        if data[0] == 128 {
            self.note_off(data[1]);
        } else if data[0] == 144 {
            self.note_on(data[1]);
        }
    }
}

impl Granulizor {
    /// The cursor after one tick: pinned at zero while idle, advanced by one
    /// while sounding, wrapping at the top of `usize` (never reached in
    /// practice — it would take ages of playback).
    pub open spec fn spec_tick_time(self) -> usize {
        if self.note is None {
            0
        } else if self.time == usize::MAX {
            0
        } else {
            (self.time + 1) as usize
        }
    }

    /// The state after one tick: only the cursor moves.
    pub open spec fn spec_tick_state(self) -> Granulizor {
        Granulizor { time: self.spec_tick_time(), ..self }
    }

    /// The state after `k` ticks.
    pub open spec fn spec_state_after(self, k: nat) -> Granulizor
        decreases k,
    {
        if k == 0 {
            self
        } else {
            self.spec_state_after((k - 1) as nat).spec_tick_state()
        }
    }

    /// The frame one tick emits. Idle is silent. Sounding in pitch mode
    /// loops the repitched grain by the cursor, and silence stands in for an
    /// empty repitched grain; sounding without pitch mode loops the grain
    /// the current controls select from the source, and silence stands in
    /// for a source too short to select from.
    pub open spec fn spec_tick_output(self) -> StereoFrame {
        if self.note is None {
            silent_frame()
        } else if self.spec_pitch_mode_on() {
            if self.repitched_sample@.len() == 0 {
                silent_frame()
            } else {
                self.repitched_sample@[((self.time as nat) % self.repitched_sample@.len()) as int]
            }
        } else {
            if self.frames@.len() < MIN_GRAIN_SAMPLES {
                silent_frame()
            } else {
                self.frames@[(self.spec_grain_start() + (self.time as nat)
                    % self.spec_grain_length()) as int]
            }
        }
    }

    /// One audio frame: emits `spec_tick_output` for the current state and
    /// advances the cursor — while idle the cursor is held at zero instead.
    pub fn tick(&mut self) -> (out: StereoFrame)
        requires
            old(self).wf(),
        ensures
            out == old(self).spec_tick_output(),
            *final(self) == old(self).spec_tick_state(),
            old(self).note is None ==> out == silent_frame(),
    {
        let held = match self.note {
            Some(_) => true,
            None => false,
        };
        if !held {
            self.time = 0;
            return StereoFrame { left: 0, right: 0 };
        }
        let out = if self.pitch_mode_on() {
            let pitched_len = self.repitched_sample.len();
            if pitched_len == 0 {
                StereoFrame { left: 0, right: 0 }
            } else {
                proof {
                    vstd::arithmetic::div_mod::lemma_mod_division_less_than_divisor(
                        old(self).time as int,
                        pitched_len as int,
                    );
                }
                self.repitched_sample[self.time % pitched_len]
            }
        } else {
            match self.select_current_grain() {
                Err(_) => StereoFrame { left: 0, right: 0 },
                Ok(g) => {
                    proof {
                        vstd::arithmetic::div_mod::lemma_mod_division_less_than_divisor(
                            old(self).time as int,
                            g.length as int,
                        );
                    }
                    let source_len = self.frames.len();
                    assert(g.start + g.length <= source_len);
                    self.frames[g.start + self.time % g.length]
                },
            }
        };
        self.time = if self.time == usize::MAX {
            0
        } else {
            self.time + 1
        };
        out
    }

    /// Fills one callback's worth of output: `len` frames, one tick each.
    /// A host handing anything but two channels gets no frames and leaves
    /// the state untouched.
    pub fn process(&mut self, channels: usize, len: usize) -> (out: Vec<StereoFrame>)
        requires
            old(self).wf(),
        ensures
            channels != 2 ==> *final(self) == *old(self) && out@.len() == 0,
            channels == 2 ==> out@.len() == len && *final(self) == old(self).spec_state_after(
                len as nat,
            ) && forall|i: int|
                0 <= i < len ==> out@[i] == old(self).spec_state_after(
                    i as nat,
                ).spec_tick_output(),
    {
        let mut out: Vec<StereoFrame> = Vec::new();
        if channels != 2 {
            return out;
        }
        let mut i: usize = 0;
        while i < len
            invariant
                i <= len,
                out@.len() == i,
                self.wf(),
                *self == old(self).spec_state_after(i as nat),
                forall|j: int|
                    0 <= j < i ==> out@[j] == old(self).spec_state_after(
                        j as nat,
                    ).spec_tick_output(),
            decreases len - i,
        {
            let frame = self.tick();
            out.push(frame);
            i += 1;
        }
        out
    }
}

/// `value` clamped from above to `cap`.
pub open spec fn spec_clamped(value: u32, cap: u32) -> u32 {
    if value <= cap {
        value
    } else {
        cap
    }
}

impl Granulizor {
    /// Maps a host's parameter index to the parameter it names; the four
    /// known indices in order, anything else to nothing.
    pub fn parameter_from_index(index: i32) -> (r: Option<ParameterId>)
        ensures
            r == if index == 0 {
                Some(ParameterId::GrainSize)
            } else if index == 1 {
                Some(ParameterId::SampleStart)
            } else if index == 2 {
                Some(ParameterId::PitchToggle)
            } else if index == 3 {
                Some(ParameterId::SampleSelect)
            } else {
                None::<ParameterId>
            },
    {
        match index {
            0 => Some(ParameterId::GrainSize),
            1 => Some(ParameterId::SampleStart),
            2 => Some(ParameterId::PitchToggle),
            3 => Some(ParameterId::SampleSelect),
            _ => None,
        }
    }

    /// The current value of one control.
    pub fn get_parameter(&self, id: ParameterId) -> (r: u32)
        ensures
            id == ParameterId::GrainSize ==> r == self.grain_size_control,
            id == ParameterId::SampleStart ==> r == self.sample_start_control,
            id == ParameterId::PitchToggle ==> r == self.pitch_toggle,
            id == ParameterId::SampleSelect ==> r == self.sample_select_control,
    {
        match id {
            ParameterId::GrainSize => self.grain_size_control,
            ParameterId::SampleStart => self.sample_start_control,
            ParameterId::PitchToggle => self.pitch_toggle,
            ParameterId::SampleSelect => self.sample_select_control,
        }
    }

    /// Sets one control, clamped to its range: the start control to at most
    /// 0.99, the others to at most one. Only the named control changes; a
    /// change of the sample-select control leaves the loaded sample as it is
    /// — the caller reloads it, off the audio thread, and hands the frames
    /// to `set_frames`.
    pub fn set_parameter(&mut self, id: ParameterId, value: u32)
        ensures
            id == ParameterId::GrainSize ==> *final(self) == (Granulizor {
                grain_size_control: spec_clamped(value, CONTROL_ONE),
                ..*old(self)
            }),
            id == ParameterId::SampleStart ==> *final(self) == (Granulizor {
                sample_start_control: spec_clamped(value, START_CONTROL_MAX),
                ..*old(self)
            }),
            id == ParameterId::PitchToggle ==> *final(self) == (Granulizor {
                pitch_toggle: spec_clamped(value, CONTROL_ONE),
                ..*old(self)
            }),
            id == ParameterId::SampleSelect ==> *final(self) == (Granulizor {
                sample_select_control: spec_clamped(value, CONTROL_ONE),
                ..*old(self)
            }),
            old(self).wf() ==> final(self).wf(),
    {
        match id {
            ParameterId::GrainSize => {
                self.grain_size_control = if value <= CONTROL_ONE {
                    value
                } else {
                    CONTROL_ONE
                };
            },
            ParameterId::SampleStart => {
                self.sample_start_control = if value <= START_CONTROL_MAX {
                    value
                } else {
                    START_CONTROL_MAX
                };
            },
            ParameterId::PitchToggle => {
                self.pitch_toggle = if value <= CONTROL_ONE {
                    value
                } else {
                    CONTROL_ONE
                };
            },
            ParameterId::SampleSelect => {
                self.sample_select_control = if value <= CONTROL_ONE {
                    value
                } else {
                    CONTROL_ONE
                };
            },
        }
    }

    /// The display name of one control.
    pub fn get_parameter_name(id: ParameterId) -> (r: String)
        ensures
            id == ParameterId::GrainSize ==> r@ == "Grain Size"@,
            id == ParameterId::SampleStart ==> r@ == "Sample Start"@,
            id == ParameterId::PitchToggle ==> r@ == "Toggle Pitched Mode"@,
            id == ParameterId::SampleSelect ==> r@ == "Sample Select"@,
    {
        match id {
            ParameterId::GrainSize => String::from_str("Grain Size"),
            ParameterId::SampleStart => String::from_str("Sample Start"),
            ParameterId::PitchToggle => String::from_str("Toggle Pitched Mode"),
            ParameterId::SampleSelect => String::from_str("Sample Select"),
        }
    }

    /// The unit label shown after one control's value: milliseconds for the
    /// grain size, percent for the grain start, nothing for the rest.
    pub fn get_parameter_label(id: ParameterId) -> (r: String)
        ensures
            id == ParameterId::GrainSize ==> r@ == "ms"@,
            id == ParameterId::SampleStart ==> r@ == "%"@,
            id == ParameterId::PitchToggle || id == ParameterId::SampleSelect ==> r@ == ""@,
    {
        match id {
            ParameterId::GrainSize => String::from_str("ms"),
            ParameterId::SampleStart => String::from_str("%"),
            ParameterId::PitchToggle => String::from_str(""),
            ParameterId::SampleSelect => String::from_str(""),
        }
    }

    /// The grain-size control's display value in micro-milliseconds: the
    /// control maps affinely onto 20 ms to 150 ms.
    pub fn grain_size_display_micro_ms(&self) -> (r: u64)
        ensures
            r == self.grain_size_control * 130 + 20_000_000,
    {
        (self.grain_size_control as u64) * 130 + 20_000_000
    }

    /// The start control's display value in micro-percent.
    pub fn sample_start_display_micro_percent(&self) -> (r: u64)
        ensures
            r == self.sample_start_control * 100,
    {
        (self.sample_start_control as u64) * 100
    }

    /// The pitch toggle's display text.
    pub fn pitch_toggle_text(&self) -> (r: String)
        ensures
            self.spec_pitch_mode_on() ==> r@ == "On"@,
            !self.spec_pitch_mode_on() ==> r@ == "Off"@,
    {
        if self.pitch_toggle >= PITCH_TOGGLE_THRESHOLD {
            String::from_str("On")
        } else {
            String::from_str("Off")
        }
    }
}

impl SampleChoice {
    /// The file name of this bundled sample.
    pub fn file_name(&self) -> (r: String)
        ensures
            *self == SampleChoice::Pads ==> r@ == "pads.wav"@,
            *self == SampleChoice::Plucks ==> r@ == "plucks.wav"@,
    {
        match self {
            SampleChoice::Pads => String::from_str("pads.wav"),
            SampleChoice::Plucks => String::from_str("plucks.wav"),
        }
    }
}

impl Default for Granulizor {
    /// A fresh engine: grain size full, start at the beginning, pitch mode
    /// off, first sample selected, no source loaded yet, idle at the nominal
    /// rate.
    fn default() -> (g: Granulizor)
        ensures
            g.grain_size_control == CONTROL_ONE,
            g.sample_start_control == 0,
            g.pitch_toggle == 0,
            g.sample_select_control == 0,
            g.frames@.len() == 0,
            g.sample_rate == NOMINAL_SAMPLE_RATE,
            g.time == 0,
            g.note is None,
            g.repitched_sample@.len() == 0,
            g.wf(),
    {
        Granulizor {
            grain_size_control: CONTROL_ONE,
            sample_start_control: 0,
            pitch_toggle: 0,
            sample_select_control: 0,
            frames: Vec::new(),
            sample_rate: NOMINAL_SAMPLE_RATE,
            time: 0,
            note: None,
            repitched_sample: Vec::new(),
        }
    }
}

/// While idle the engine is silent, whatever came before: from any idle
/// state, every later tick still finds the engine idle and emits the silent
/// frame.
pub proof fn lemma_idle_silence(g: Granulizor, k: nat)
    requires
        g.note is None,
    ensures
        g.spec_state_after(k).note is None,
        g.spec_state_after(k).spec_tick_output() == silent_frame(),
    decreases k,
{
    if k > 0 {
        lemma_idle_silence(g, (k - 1) as nat);
    }
}

/// The playback cursor can never index out of a grain: whatever the cursor,
/// its remainder by a grain's length falls inside the grain.
pub proof fn lemma_cursor_in_bounds(cursor: nat, grain_len: nat)
    requires
        grain_len > 0,
    ensures
        0 <= cursor % grain_len < grain_len,
{
    vstd::arithmetic::div_mod::lemma_mod_division_less_than_divisor(
        cursor as int,
        grain_len as int,
    );
}

/// A second matching note-off is a no-op: after one note-on for a note and
/// one note-off for it the engine is idle with the cursor at zero, and a
/// repeated note-off leaves that state exactly as it is.
pub proof fn lemma_note_off_idempotent(g0: Granulizor, g1: Granulizor, g2: Granulizor, note: u8)
    requires
        g0.note == Some(note),
        Granulizor::note_off_rel(g0, g1, note),
        Granulizor::note_off_rel(g1, g2, note),
    ensures
        g1.note is None,
        g1.time == 0,
        g2 == g1,
{
}

} // verus!
