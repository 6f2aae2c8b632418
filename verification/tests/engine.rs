use granulizor::grain::{select_grain, GrainError, GrainSpec};
use granulizor::pitcher::repitch;
use granulizor::tuning::{midi_pitch_to_microhz, natural_freq_microhz};
use granulizor::wav_parser::StereoFrame;
use granulizor::{Granulizor, ParameterId, SampleChoice};

fn frame(left: i32, right: i32) -> StereoFrame {
    StereoFrame { left, right }
}

fn ramp_frames(n: usize) -> Vec<StereoFrame> {
    let mut v = Vec::new();
    for i in 0..n {
        v.push(frame(i as i32 * 1000, -(i as i32) * 1000));
    }
    v
}

#[test]
fn grain_full_source_scenario() {
    // 1000 frames at 44.1 kHz with the size control at one and the start
    // control at zero: the 500 ms cap is 22050 frames, so the source length
    // binds, and the whole source is the grain.
    let g = select_grain(1000, 44100, 1_000_000, 0).unwrap();
    assert_eq!(g, GrainSpec { start: 0, length: 1000 });
}

#[test]
fn grain_bounds_hold_across_combinations() {
    let lengths = [20usize, 21, 100, 441, 1000, 22050, 22051, 1_000_000];
    let rates = [40u32, 63, 1000, 8000, 44100, 48000, 192_000];
    let sizes = [0u32, 1, 250_000, 500_000, 999_999, 1_000_000];
    let starts = [0u32, 1, 500_000, 989_999, 990_000];
    for &len in &lengths {
        for &rate in &rates {
            for &size in &sizes {
                for &start in &starts {
                    let g = select_grain(len, rate, size, start).unwrap();
                    assert!(g.length >= 20);
                    assert!(g.start + g.length <= len);
                }
            }
        }
    }
}

#[test]
fn grain_too_short_is_refused() {
    assert_eq!(select_grain(19, 44100, 1_000_000, 0), Err(GrainError::SampleTooShort));
    assert_eq!(select_grain(0, 44100, 0, 0), Err(GrainError::SampleTooShort));
    assert!(select_grain(20, 44100, 0, 0).is_ok());
}

#[test]
fn grain_cap_binds_on_long_sources() {
    // 100000 frames at 44.1 kHz: the 500 ms cap of 22050 frames binds.
    let g = select_grain(100_000, 44100, 1_000_000, 0).unwrap();
    assert_eq!(g.length, 22050);
    assert_eq!(g.start, 0);
}

#[test]
fn grain_start_is_clamped_to_fit() {
    // 100 frames, minimum length, start control at 0.99: the raw start of 99
    // would push the 20-frame grain past the end, so it is clamped to 80.
    let g = select_grain(100, 44100, 0, 990_000).unwrap();
    assert_eq!(g, GrainSpec { start: 80, length: 20 });
}

#[test]
fn repitch_identity_keeps_frames() {
    let src = vec![frame(0, 0), frame(1000, -1000), frame(2000, 500), frame(3000, 3)];
    let out = repitch(5_000_000, 5_000_000, &src);
    assert_eq!(out.len(), 3);
    for i in 0..3 {
        assert_eq!(out[i], src[i]);
    }
}

#[test]
fn repitch_octave_up_halves_length() {
    let src = ramp_frames(5);
    let out = repitch(100, 200, &src);
    // (5 - 1) / 2 frames, each at twice the source stride.
    assert_eq!(out.len(), 2);
    assert_eq!(out[0], src[0]);
    assert_eq!(out[1], src[2]);

    let src9 = ramp_frames(9);
    let out9 = repitch(100, 200, &src9);
    assert_eq!(out9.len(), 4);
}

#[test]
fn repitch_down_interpolates_between_frames() {
    // Halving the frequency doubles the length; odd output frames sit midway
    // between source frames, truncated toward zero per channel.
    let src = vec![frame(0, 0), frame(10, -10), frame(20, -20)];
    let out = repitch(2, 1, &src);
    assert_eq!(out.len(), 4);
    assert_eq!(out[0], frame(0, 0));
    assert_eq!(out[1], frame(5, -5));
    assert_eq!(out[2], frame(10, -10));
    assert_eq!(out[3], frame(15, -15));
}

#[test]
fn repitch_degenerate_inputs_give_silence_length() {
    let src = ramp_frames(1);
    assert_eq!(repitch(100, 100, &src).len(), 0);
    let src2 = ramp_frames(10);
    assert_eq!(repitch(0, 100, &src2).len(), 0);
    assert_eq!(repitch(100, 0, &src2).len(), 0);
    // Pitching far up can empty the output entirely: 9 source frames and a
    // ratio under one ninth leave no full output frame.
    assert_eq!(repitch(1, 10, &src2).len(), 0);
}

#[test]
fn tuning_reference_notes_are_exact() {
    assert_eq!(midi_pitch_to_microhz(69), 440_000_000);
    assert_eq!(midi_pitch_to_microhz(81), 880_000_000);
    assert_eq!(midi_pitch_to_microhz(57), 220_000_000);
    assert_eq!(midi_pitch_to_microhz(9), 13_750_000);
    assert_eq!(midi_pitch_to_microhz(60), 261_625_568); // middle C: table value, nearest-micro-hertz base doubled five times
    for n in 0..=255u8 {
        assert!(midi_pitch_to_microhz(n) >= 8_175_799);
    }
}

#[test]
fn natural_frequency_of_grain() {
    // A 441-frame grain at 44.1 kHz loops 100 times a second.
    assert_eq!(natural_freq_microhz(44100, 441), 100_000_000);
    assert_eq!(natural_freq_microhz(44100, 44100), 1_000_000);
    assert_eq!(natural_freq_microhz(44100, 88200), 500_000);
}

#[test]
fn note_on_a4_repitches_hundred_hz_grain() {
    // 441 source frames at 44.1 kHz, grain size control at one: the grain is
    // the whole source and loops at 100 Hz. Note 69 asks for 440 Hz, so the
    // repitched grain holds (441 - 1) * 100 / 440 = 100 frames — pitching up
    // shortens the loop.
    let mut g = Granulizor::default();
    g.set_frames(ramp_frames(441));
    g.set_parameter(ParameterId::PitchToggle, 1_000_000);
    g.note_on(69);
    assert_eq!(g.note, Some(69));
    assert_eq!(g.repitched_sample.len(), 100);
    assert!(g.repitched_sample.len() < 441);
}

#[test]
fn note_off_twice_is_idle_no_op() {
    let mut g = Granulizor::default();
    g.set_frames(ramp_frames(100));
    g.note_on(60);
    assert_eq!(g.note, Some(60));
    g.note_off(60);
    assert_eq!(g.note, None);
    assert_eq!(g.time, 0);
    g.note_off(60);
    assert_eq!(g.note, None);
    assert_eq!(g.time, 0);
}

#[test]
fn stale_note_off_is_ignored() {
    let mut g = Granulizor::default();
    g.set_frames(ramp_frames(100));
    g.note_on(60);
    let time_before = g.time;
    g.note_off(61);
    assert_eq!(g.note, Some(60));
    assert_eq!(g.time, time_before);
}

#[test]
fn retrigger_keeps_cursor_running() {
    let mut g = Granulizor::default();
    g.set_frames(ramp_frames(100));
    g.note_on(60);
    g.tick();
    g.tick();
    assert_eq!(g.time, 2);
    g.note_on(64);
    assert_eq!(g.note, Some(64));
    assert_eq!(g.time, 2);
}

#[test]
fn cursor_modulus_stays_in_grain() {
    let g = select_grain(1000, 44100, 1_000_000, 0).unwrap();
    for cursor in 0usize..10_000 {
        let index = g.start + cursor % g.length;
        assert!(cursor % g.length < g.length);
        assert!(index < 1000);
    }
}

#[test]
fn unpitched_ticks_loop_the_grain() {
    let frames = ramp_frames(25);
    let mut g = Granulizor::default();
    g.set_frames(frames.clone());
    g.note_on(60);
    // Size control at one selects all 25 frames from the start.
    for step in 0..60usize {
        let out = g.tick();
        assert_eq!(out, frames[step % 25]);
    }
    assert_eq!(g.time, 60);
}

#[test]
fn pitched_ticks_loop_the_repitched_grain() {
    let mut g = Granulizor::default();
    g.set_frames(ramp_frames(441));
    g.set_parameter(ParameterId::PitchToggle, 1_000_000);
    g.note_on(69);
    let pitched = g.repitched_sample.clone();
    assert_eq!(pitched.len(), 100);
    for step in 0..250usize {
        let out = g.tick();
        assert_eq!(out, pitched[step % 100]);
    }
}

#[test]
fn empty_repitched_grain_plays_silence() {
    // A source too short for any grain leaves the repitched sequence empty;
    // playback must guard the modulus and emit silence instead.
    let mut g = Granulizor::default();
    g.set_frames(ramp_frames(10));
    g.set_parameter(ParameterId::PitchToggle, 1_000_000);
    g.note_on(69);
    assert_eq!(g.repitched_sample.len(), 0);
    assert_eq!(g.tick(), frame(0, 0));
    assert_eq!(g.tick(), frame(0, 0));
}

#[test]
fn idle_is_silent_whatever_came_before() {
    let mut g = Granulizor::default();
    g.set_frames(ramp_frames(100));
    g.note_on(60);
    for _ in 0..37 {
        g.tick();
    }
    g.note_off(60);
    for _ in 0..100 {
        assert_eq!(g.tick(), frame(0, 0));
        assert_eq!(g.time, 0);
    }
    let out = g.process(2, 64);
    assert_eq!(out.len(), 64);
    for f in &out {
        assert_eq!(*f, frame(0, 0));
    }
}

#[test]
fn process_fills_buffer_and_advances() {
    let frames = ramp_frames(25);
    let mut g = Granulizor::default();
    g.set_frames(frames.clone());
    g.note_on(60);
    let out = g.process(2, 40);
    assert_eq!(out.len(), 40);
    for i in 0..40usize {
        assert_eq!(out[i], frames[i % 25]);
    }
    assert_eq!(g.time, 40);
}

#[test]
fn process_refuses_other_channel_counts() {
    let mut g = Granulizor::default();
    g.set_frames(ramp_frames(100));
    g.note_on(60);
    for channels in [0usize, 1, 3, 16] {
        let out = g.process(channels, 64);
        assert!(out.is_empty());
        assert_eq!(g.time, 0);
        assert_eq!(g.note, Some(60));
    }
}

#[test]
fn default_engine_state() {
    let g = Granulizor::default();
    assert_eq!(g.grain_size_control, 1_000_000);
    assert_eq!(g.sample_start_control, 0);
    assert_eq!(g.pitch_toggle, 0);
    assert_eq!(g.sample_select_control, 0);
    assert_eq!(g.sample_rate, 44100);
    assert_eq!(g.time, 0);
    assert_eq!(g.note, None);
    assert!(g.frames.is_empty());
    assert!(g.repitched_sample.is_empty());
}

#[test]
fn parameters_map_and_clamp() {
    assert_eq!(Granulizor::parameter_from_index(0), Some(ParameterId::GrainSize));
    assert_eq!(Granulizor::parameter_from_index(1), Some(ParameterId::SampleStart));
    assert_eq!(Granulizor::parameter_from_index(2), Some(ParameterId::PitchToggle));
    assert_eq!(Granulizor::parameter_from_index(3), Some(ParameterId::SampleSelect));
    assert_eq!(Granulizor::parameter_from_index(4), None);
    assert_eq!(Granulizor::parameter_from_index(-1), None);

    let mut g = Granulizor::default();
    g.set_parameter(ParameterId::SampleStart, 995_000);
    assert_eq!(g.get_parameter(ParameterId::SampleStart), 990_000);
    g.set_parameter(ParameterId::GrainSize, 2_000_000);
    assert_eq!(g.get_parameter(ParameterId::GrainSize), 1_000_000);
    g.set_parameter(ParameterId::PitchToggle, 600_000);
    assert_eq!(g.get_parameter(ParameterId::PitchToggle), 600_000);
    assert!(g.pitch_mode_on());
    g.set_parameter(ParameterId::SampleSelect, 700_000);
    assert_eq!(g.get_parameter(ParameterId::SampleSelect), 700_000);
}

#[test]
fn parameter_display_values() {
    let mut g = Granulizor::default();
    // Size control at one shows 150 ms; at zero, 20 ms.
    assert_eq!(g.grain_size_display_micro_ms(), 150_000_000);
    g.set_parameter(ParameterId::GrainSize, 0);
    assert_eq!(g.grain_size_display_micro_ms(), 20_000_000);
    g.set_parameter(ParameterId::SampleStart, 990_000);
    assert_eq!(g.sample_start_display_micro_percent(), 99_000_000);
    assert_eq!(g.pitch_toggle_text(), "Off");
    g.set_parameter(ParameterId::PitchToggle, 500_000);
    assert_eq!(g.pitch_toggle_text(), "On");
}

#[test]
fn parameter_names_and_labels() {
    assert_eq!(Granulizor::get_parameter_name(ParameterId::GrainSize), "Grain Size");
    assert_eq!(Granulizor::get_parameter_name(ParameterId::SampleStart), "Sample Start");
    assert_eq!(Granulizor::get_parameter_name(ParameterId::PitchToggle), "Toggle Pitched Mode");
    assert_eq!(Granulizor::get_parameter_name(ParameterId::SampleSelect), "Sample Select");
    assert_eq!(Granulizor::get_parameter_label(ParameterId::GrainSize), "ms");
    assert_eq!(Granulizor::get_parameter_label(ParameterId::SampleStart), "%");
    assert_eq!(Granulizor::get_parameter_label(ParameterId::PitchToggle), "");
}

#[test]
fn sample_selection_threshold() {
    let mut g = Granulizor::default();
    assert_eq!(g.selected_sample(), SampleChoice::Pads);
    assert_eq!(g.selected_sample().file_name(), "pads.wav");
    g.set_parameter(ParameterId::SampleSelect, 500_000);
    assert_eq!(g.selected_sample(), SampleChoice::Plucks);
    assert_eq!(g.selected_sample().file_name(), "plucks.wav");
}

#[test]
fn midi_events_drive_the_state_machine() {
    let mut g = Granulizor::default();
    g.set_frames(ramp_frames(100));
    g.process_midi_event([144, 60, 100]);
    assert_eq!(g.note, Some(60));
    g.process_midi_event([128, 61, 0]);
    assert_eq!(g.note, Some(60));
    g.process_midi_event([128, 60, 0]);
    assert_eq!(g.note, None);
    g.process_midi_event([200, 60, 0]);
    assert_eq!(g.note, None);
}
