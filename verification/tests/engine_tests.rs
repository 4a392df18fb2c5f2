use gain_bridge::bridge::ParamCell;
use gain_bridge::engine::{apply_constant_gain, apply_gain, process, process_block};

fn mul_f32(a: u32, b: u32) -> u32 {
    (f32::from_bits(a) * f32::from_bits(b)).to_bits()
}

fn bits(samples: &[f32]) -> Vec<u32> {
    samples.iter().map(|s| s.to_bits()).collect()
}

fn floats(words: &[u32]) -> Vec<f32> {
    words.iter().map(|w| f32::from_bits(*w)).collect()
}

#[test]
fn unity_gain_passes_input_through() {
    // Both channels fed 1.0 at unity gain come out as 1.0 exactly.
    let input = bits(&[1.0, 1.0]);
    let gain = bits(&[1.0, 1.0]);
    let mut out_left: Vec<u32> = vec![0; 2];
    let mut out_right: Vec<u32> = vec![0; 2];
    process(&mul_f32, &input, &input, &gain, &mut out_left, &mut out_right, 2);
    assert_eq!(floats(&out_left), vec![1.0, 1.0]);
    assert_eq!(floats(&out_right), vec![1.0, 1.0]);
}

#[test]
fn output_is_input_times_gain_elementwise() {
    let in_left = bits(&[2.0, -3.0, 0.0]);
    let in_right = bits(&[0.5, 4.0, -1.0]);
    let gain = bits(&[0.5, 2.0, 8.0]);
    let mut out_left: Vec<u32> = vec![0; 3];
    let mut out_right: Vec<u32> = vec![0; 3];
    process(&mul_f32, &in_left, &in_right, &gain, &mut out_left, &mut out_right, 3);
    assert_eq!(floats(&out_left), vec![1.0, -6.0, 0.0]);
    assert_eq!(floats(&out_right), vec![0.25, 8.0, -8.0]);
}

#[test]
fn channels_are_processed_identically() {
    // The same input on both channels gives the same output on both.
    let input = bits(&[0.3, -0.7, 1.5, 0.0]);
    let gain = bits(&[1.1, 0.9, 0.5, 2.0]);
    let mut out_left: Vec<u32> = vec![0; 4];
    let mut out_right: Vec<u32> = vec![0; 4];
    process(&mul_f32, &input, &input, &gain, &mut out_left, &mut out_right, 4);
    assert_eq!(out_left, out_right);
}

#[test]
fn frames_past_the_block_stay_untouched() {
    let input = bits(&[2.0, 2.0, 2.0]);
    let gain = bits(&[3.0, 3.0, 3.0]);
    let mut output = bits(&[9.0, 9.0, 9.0]);
    apply_gain(&mul_f32, &input, &gain, &mut output, 2);
    assert_eq!(floats(&output), vec![6.0, 6.0, 9.0]);
}

#[test]
fn near_silence_at_minus_ninety_db() {
    // -90 dB is about 0.0000316 linear; a full-scale sample lands there.
    let coeff: f32 = 10.0f32.powf(-90.0 / 20.0);
    let input = bits(&[1.0]);
    let gain = vec![coeff.to_bits()];
    let mut output: Vec<u32> = vec![0; 1];
    apply_gain(&mul_f32, &input, &gain, &mut output, 1);
    let got = f32::from_bits(output[0]);
    assert!((got - 0.0000316).abs() < 1e-6);
}

#[test]
fn constant_gain_scales_whole_block() {
    let input = bits(&[1.0, 2.0, -4.0]);
    let mut output: Vec<u32> = vec![0; 3];
    apply_constant_gain(&mul_f32, &input, 0.5f32.to_bits(), &mut output, 3);
    assert_eq!(floats(&output), vec![0.5, 1.0, -2.0]);
}

#[test]
fn slider_value_reaches_next_block() {
    // The UI stores +3 dB; the audio side reads about 1.413 back and the
    // next block is scaled by it.
    let slider_db: f32 = 3.0;
    let coeff: f32 = 10.0f32.powf(slider_db / 20.0);
    let mut cell = ParamCell::new(1.0f32.to_bits());
    cell.set(coeff.to_bits());

    let seen = f32::from_bits(cell.get());
    assert!((seen - 1.413).abs() < 1e-3);

    let input = bits(&[1.0, 0.5]);
    let mut out_left: Vec<u32> = vec![0; 2];
    let mut out_right: Vec<u32> = vec![0; 2];
    process_block(&mul_f32, &cell, &input, &input, &mut out_left, &mut out_right, 2);
    assert!((f32::from_bits(out_left[0]) - 1.413).abs() < 1e-3);
    assert!((f32::from_bits(out_right[1]) - 0.7065).abs() < 1e-3);
    assert_eq!(out_left, out_right);
}

#[test]
fn block_gain_is_read_once_from_cell() {
    let cell = ParamCell::new(2.0f32.to_bits());
    let input = bits(&[1.0, -1.0]);
    let mut out_left: Vec<u32> = vec![0; 2];
    let mut out_right: Vec<u32> = vec![0; 2];
    process_block(&mul_f32, &cell, &input, &input, &mut out_left, &mut out_right, 2);
    assert_eq!(floats(&out_left), vec![2.0, -2.0]);
    assert_eq!(floats(&out_right), vec![2.0, -2.0]);
}
