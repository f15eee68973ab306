use std::io::Cursor;
use std::num::NonZeroU8;

use avasara::{encoder_sample_rate, finish_output, plan_reduction, validate_stream, windows, ENCODE_BLOCK};
use vorbis_rs::{VorbisBitrateManagementStrategy, VorbisDecoder, VorbisEncoderBuilder};

#[test]
fn encoded_mono_decodes_with_same_rate_and_channels() {
    let rate = encoder_sample_rate(22050).unwrap();
    let samples: Vec<f32> = (0..22050)
        .map(|i| (2.0 * std::f32::consts::PI * 330.0 * i as f32 / 22050.0).sin() * 0.5)
        .collect();
    let plan = plan_reduction(samples.len(), rate, 1).unwrap();
    assert_eq!(plan.frames, samples.len());

    let mut encoder = VorbisEncoderBuilder::new_with_serial(
        rate.try_into().unwrap(),
        NonZeroU8::new(1).unwrap(),
        Vec::new(),
        7,
    )
    .bitrate_management_strategy(VorbisBitrateManagementStrategy::QualityVbr {
        target_quality: 0.5,
    })
    .build()
    .unwrap();
    for w in windows(samples.len(), ENCODE_BLOCK) {
        encoder.encode_audio_block([&samples[w.start..w.end]]).unwrap();
    }
    let encoded = finish_output(encoder.finish().unwrap(), false).unwrap();

    let decoder = VorbisDecoder::new(Cursor::new(encoded)).unwrap();
    assert_eq!(decoder.sampling_frequency().get(), 22050);
    assert_eq!(decoder.channels().get(), 1);
    assert_eq!(
        validate_stream(decoder.sampling_frequency().get() as usize, decoder.channels().get() as usize),
        Ok(())
    );
}
