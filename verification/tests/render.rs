use fundsp::hacker32::{pan, sine_hz, Net32, Wave32};
use image::{DynamicImage, Rgba, RgbaImage};
use imagesound::config::{BASE_FREQ_CENTIHZ, FRAMES_PER_CHANNEL, GRID_HEIGHT, GRID_WIDTH};
use imagesound::engine::voices_for_samples;
use imagesound::sample::LuminanceSample;
use imagesound::voice::Voice;

fn frequency_of(note_index: u32) -> f32 {
    let base = BASE_FREQ_CENTIHZ as f32 / 100.0;
    base * 2.0_f32.powf(1.0 / 12.0).powi(note_index as i32)
}

fn build_net(voices: &[Voice]) -> Net32 {
    let mut net = Net32::new(0, 2);
    for v in voices {
        let freq = frequency_of(v.note_index);
        let amp = v.level as f32 / 255.0;
        let stereo = v.pan_numer as f32 / v.pan_denom as f32;
        net = net + (sine_hz(freq) * amp >> pan(stereo));
    }
    net
}

fn render(net: &mut Net32) -> Wave32 {
    Wave32::render(44100.0, 10.0, net)
}

fn full_grid(luminance: u8) -> Vec<LuminanceSample> {
    let mut samples = Vec::new();
    for y in 0..GRID_HEIGHT {
        for x in 0..GRID_WIDTH {
            samples.push(LuminanceSample::new(x, y, luminance));
        }
    }
    samples
}

#[test]
fn all_black_grid_renders_pure_silence() {
    let voices = voices_for_samples(&full_grid(0));
    assert!(voices.is_empty());
    let wave = render(&mut build_net(&voices));
    assert_eq!(wave.channels(), 2);
    assert_eq!(wave.len(), FRAMES_PER_CHANNEL as usize);
    for channel in 0..2 {
        for i in 0..wave.len() {
            assert_eq!(wave.at(channel, i), 0.0);
        }
    }
}

#[test]
fn rendered_waveform_always_has_fixed_frame_count() {
    // Regardless of content: an empty bus and a few voices both render
    // exactly 441000 frames per channel.
    let empty = render(&mut build_net(&[]));
    assert_eq!(empty.len(), 441000);
    assert_eq!(empty.channels(), 2);
    let voices = voices_for_samples(&vec![
        LuminanceSample::new(3, 4, 200),
        LuminanceSample::new(10, 10, 90),
    ]);
    let wave = render(&mut build_net(&voices));
    assert_eq!(wave.len(), 441000);
    assert_eq!(wave.channels(), 2);
}

#[test]
fn rendering_is_deterministic() {
    let samples = vec![
        LuminanceSample::new(0, 0, 255),
        LuminanceSample::new(7, 12, 130),
        LuminanceSample::new(19, 19, 26),
    ];
    let voices_a = voices_for_samples(&samples);
    let voices_b = voices_for_samples(&samples);
    assert_eq!(voices_a, voices_b);
    let wave_a = render(&mut build_net(&voices_a));
    let wave_b = render(&mut build_net(&voices_b));
    assert_eq!(wave_a.len(), wave_b.len());
    for channel in 0..2 {
        for i in 0..wave_a.len() {
            assert_eq!(wave_a.at(channel, i).to_bits(), wave_b.at(channel, i).to_bits());
        }
    }
}

#[test]
fn single_full_voice_is_audible() {
    // A fully bright cell contributes audible energy; a gated cell beside
    // it contributes none at all.
    let voices = voices_for_samples(&vec![
        LuminanceSample::new(10, 5, 255),
        LuminanceSample::new(11, 5, 25),
    ]);
    assert_eq!(voices.len(), 1);
    let wave = render(&mut build_net(&voices));
    assert!(wave.amplitude() > 0.1);
}

#[test]
fn white_image_fills_grid_and_sums_all_voices() {
    // A 1x1 pure-white image stretched onto the whole grid: every cell
    // samples luminance 255.
    let white = RgbaImage::from_pixel(1, 1, Rgba([255, 255, 255, 255]));
    let image = DynamicImage::ImageRgba8(white)
        .resize_to_fill(GRID_WIDTH, GRID_HEIGHT, image::imageops::FilterType::Nearest)
        .grayscale();
    let gray = image.to_luma8();
    assert_eq!(gray.width(), GRID_WIDTH);
    assert_eq!(gray.height(), GRID_HEIGHT);
    let mut samples = Vec::new();
    for (x, y, luma) in gray.enumerate_pixels() {
        assert_eq!(luma.0[0], 255);
        samples.push(LuminanceSample::new(x, y, luma.0[0]));
    }
    assert_eq!(samples.len(), 400);
    let voices = voices_for_samples(&samples);
    assert_eq!(voices.len(), 400);
    for v in &voices {
        assert_eq!(v.level, 255);
        assert!(v.note_index >= 3 && v.note_index <= 60);
    }
    // The voices span the full pitch range and the full stereo field.
    assert!(voices.iter().any(|v| v.note_index == 60));
    assert!(voices.iter().any(|v| v.note_index == 3));
    assert!(voices.iter().any(|v| v.pan_numer == -20));
    assert!(voices.iter().any(|v| v.pan_numer == 18));
    let wave = render(&mut build_net(&voices));
    assert_eq!(wave.len(), 441000);
    // The peak amplitude before quantization shows that summation, not
    // accidental discard, occurred: many full voices together exceed the
    // amplitude any single voice could reach.
    assert!(wave.amplitude() > 1.0);
}
