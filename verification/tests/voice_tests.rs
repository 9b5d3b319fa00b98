use peersync::voice::{
    bad_jitter_buffer, voice_frame_samples, FrameBuffer, JitterCommand, MicrophoneConfig,
    MicrophonePlugin, SupportedInputConfig, VoiceChatPlugin, FRAME_SAMPLES_PER_CHANNEL,
    SAMPLE_RATE,
};

#[test]
fn jitter_controller_boundaries() {
    // 0 or 1 queued frames: paused.
    assert_eq!(bad_jitter_buffer(0), JitterCommand::Pause);
    assert_eq!(bad_jitter_buffer(1), JitterCommand::Pause);
    // 2 or 3 queued: slowed to 0.95x to rebuild the buffer.
    assert_eq!(bad_jitter_buffer(2), JitterCommand::Play { num: 19, den: 20 });
    assert_eq!(bad_jitter_buffer(3), JitterCommand::Play { num: 19, den: 20 });
    assert_eq!(19.0_f32 / 20.0_f32, 0.95_f32);
    // in between: normal speed.
    assert_eq!(bad_jitter_buffer(4), JitterCommand::Play { num: 1, den: 1 });
    assert_eq!(bad_jitter_buffer(9), JitterCommand::Play { num: 1, den: 1 });
    // ten or more: proportional drain at queued / 10; exactly ten is 1.0x.
    assert_eq!(bad_jitter_buffer(10), JitterCommand::Play { num: 10, den: 10 });
    match bad_jitter_buffer(10) {
        JitterCommand::Play { num, den } => assert_eq!(num as f32 / den as f32, 1.0_f32),
        JitterCommand::Pause => panic!("ten queued frames must play"),
    }
    assert_eq!(bad_jitter_buffer(11), JitterCommand::Play { num: 11, den: 10 });
}

#[test]
fn decode_size_follows_channel_count() {
    assert_eq!(voice_frame_samples(1), Some(2880));
    assert_eq!(voice_frame_samples(2), Some(5760));
    assert_eq!(voice_frame_samples(0), None);
    assert_eq!(voice_frame_samples(3), None);
    assert_eq!(FRAME_SAMPLES_PER_CHANNEL, 2880);
    assert_eq!(SAMPLE_RATE, 48_000);
}

#[test]
fn frame_buffer_releases_whole_frames_in_order() {
    let mut fb: FrameBuffer<f32> = FrameBuffer::new(1);
    assert!(!fb.has_frame());
    assert!(fb.pop_frame().is_none());

    // two and a half frames of a ramp signal
    let batch: Vec<f32> = (0..7200).map(|i| i as f32).collect();
    fb.push_batch(&batch);
    assert!(fb.has_frame());

    let first = fb.pop_frame().expect("one full frame is buffered");
    assert_eq!(first.len(), 2880);
    assert_eq!(first[0], 0.0);
    assert_eq!(first[2879], 2879.0);

    let second = fb.pop_frame().expect("a second full frame is buffered");
    assert_eq!(second[0], 2880.0);

    // only half a frame left
    assert!(!fb.has_frame());
    assert!(fb.pop_frame().is_none());

    // topping it up completes the third frame
    fb.push_batch(&vec![0.5_f32; 1440]);
    let third = fb.pop_frame().expect("the third frame is now complete");
    assert_eq!(third[0], 5760.0);
    assert_eq!(third[2879], 0.5);
    assert!(!fb.has_frame());
}

#[test]
fn stereo_frame_buffer_counts_both_channels() {
    let mut fb: FrameBuffer<f32> = FrameBuffer::new(2);
    fb.push_batch(&vec![0.0_f32; 5759]);
    assert!(!fb.has_frame());
    fb.push_batch(&[1.0_f32]);
    assert!(fb.has_frame());
    assert_eq!(fb.pop_frame().unwrap().len(), 5760);
}

#[test]
fn microphone_config_defaults() {
    let c = MicrophoneConfig::default();
    assert_eq!(c.channels, 1);
    assert_eq!(c.sample_rate, 48_000);
}

#[test]
fn input_config_selection_takes_first_match() {
    let plugin = MicrophonePlugin::new(MicrophoneConfig::default());
    let offered = vec![
        // wrong sample format
        SupportedInputConfig {
            channels: 1,
            min_sample_rate: 8_000,
            max_sample_rate: 96_000,
            supported_format: false,
        },
        // wrong channel count
        SupportedInputConfig {
            channels: 2,
            min_sample_rate: 8_000,
            max_sample_rate: 96_000,
            supported_format: true,
        },
        // rate range too low
        SupportedInputConfig {
            channels: 1,
            min_sample_rate: 8_000,
            max_sample_rate: 44_100,
            supported_format: true,
        },
        // first real match
        SupportedInputConfig {
            channels: 1,
            min_sample_rate: 48_000,
            max_sample_rate: 48_000,
            supported_format: true,
        },
        // also matches, but comes later
        SupportedInputConfig {
            channels: 1,
            min_sample_rate: 8_000,
            max_sample_rate: 96_000,
            supported_format: true,
        },
    ];
    assert_eq!(plugin.select_input_config(&offered), Some(3));
    assert_eq!(plugin.select_input_config(&Vec::new()), None);
}

#[test]
fn voice_chat_plugin_frame_sizing() {
    assert_eq!(VoiceChatPlugin::new(1).frame_samples(), 2880);
    assert_eq!(VoiceChatPlugin::new(2).frame_samples(), 5760);
}
