use embassy_usb::class::uac1::FeedbackRefresh;
use usb_audio::audio::{AudioError, AudioSource};
use usb_audio::board::{
    board_frame_layout, i2s_frame_layout, Blink, SaiFrameLayout, SAMPLE_SIZE, SAMPLE_SIZE_PER_S,
    USB_FRAME_SIZE, USB_MAX_PACKET_SIZE, USB_MAX_SAMPLE_COUNT,
};
use usb_audio::buffers::FeedbackPacket;
use usb_audio::feedback::{write_feedback_packet, FeedbackCounter};
use usb_audio::host::{initial_channel, is_dsp_device};
use usb_audio::protocol::{Filter, Info, Variant, FILTERS_PER_CHANNEL};
use usb_audio::routing::{
    queue_signal, receiver_action, sai_needs_renewal, ReceiverAction, ReceiverEvent, RoutingOutcome, VolumeControl,
};
use usb_audio::stream::{parse_sample_block, StreamError};

#[test]
fn packet_of_whole_samples_is_parsed_little_endian() {
    let data = [1u8, 0, 0, 0, 0, 1, 0, 0, 0xEF, 0xBE, 0xAD, 0xDE];
    let block = parse_sample_block(&data).unwrap();
    assert_eq!(block.as_slice(), &[1u32, 256, 0xDEAD_BEEF]);
}

#[test]
fn packet_with_partial_sample_is_skipped() {
    let data = [1u8, 2, 3];
    assert_eq!(parse_sample_block(&data).unwrap_err(), StreamError::InvalidBufferSize(3));
    let data = [0u8; 10];
    assert_eq!(parse_sample_block(&data).unwrap_err(), StreamError::InvalidBufferSize(10));
}

#[test]
fn empty_packet_gives_empty_block() {
    let block = parse_sample_block(&[]).unwrap();
    assert!(block.is_empty());
}

#[test]
fn largest_packet_fills_a_whole_block() {
    let mut data = [0u8; USB_MAX_PACKET_SIZE];
    for (i, byte) in data.iter_mut().enumerate() {
        *byte = (i / SAMPLE_SIZE) as u8;
    }
    let block = parse_sample_block(&data).unwrap();
    assert_eq!(block.len(), USB_MAX_SAMPLE_COUNT);
    for (i, sample) in block.iter().enumerate() {
        let b = i as u32;
        assert_eq!(*sample, b | b << 8 | b << 16 | b << 24);
    }
}

#[test]
fn board_constants() {
    assert_eq!(SAMPLE_SIZE_PER_S, 384_000);
    assert_eq!(USB_FRAME_SIZE, 384);
    assert_eq!(USB_MAX_PACKET_SIZE, 448);
    assert_eq!(USB_MAX_SAMPLE_COUNT, 112);
}

#[test]
fn counter_takes_refresh_period_from_embassy() {
    assert_eq!(FeedbackCounter::new(&FeedbackRefresh::Period32Frames).refresh_frames(), 32);
    assert_eq!(FeedbackCounter::new(&FeedbackRefresh::Period8Frames).refresh_frames(), 8);
    assert_eq!(FeedbackCounter::new(&FeedbackRefresh::Period2Frames).refresh_frames(), 2);
}

#[test]
fn counter_signals_once_per_refresh_period() {
    let mut counter = FeedbackCounter::new(&FeedbackRefresh::Period8Frames);
    let mut signals = Vec::new();
    for frame in 1..=20u32 {
        if let Some(v) = counter.on_capture(frame * 1000) {
            signals.push(v);
        }
    }
    // Periods end at frames 8 and 16.
    assert_eq!(signals, vec![8000, 8000]);
}

#[test]
fn counter_counts_through_wrap_around() {
    let mut counter = FeedbackCounter::new(&FeedbackRefresh::Period2Frames);
    assert_eq!(counter.on_capture(0xFFFF_FFF0), None);
    assert_eq!(counter.on_capture(0xFFFF_FFF8), Some(0xFFFF_FFF8));
    assert_eq!(counter.on_capture(0x0000_0004), None);
    assert_eq!(counter.on_capture(0x0000_0010), Some(0x18));
}

#[test]
fn signalled_ticks_add_up_to_counter_movement() {
    let mut counter = FeedbackCounter::new(&FeedbackRefresh::Period4Frames);
    let mut sum: u32 = 0;
    let mut last_end: u32 = 0;
    let mut ticks: u32 = 0xFFFF_0000;
    for _ in 0..37 {
        ticks = ticks.wrapping_add(12_289);
        if let Some(v) = counter.on_capture(ticks) {
            sum = sum.wrapping_add(v);
            last_end = ticks;
        }
    }
    assert_eq!(sum, last_end);
}

#[test]
fn feedback_packet_holds_low_three_bytes() {
    let mut packet = FeedbackPacket::new();
    write_feedback_packet(&mut packet, 0x0012_3456);
    assert_eq!(packet.as_slice(), &[0x56, 0x34, 0x12]);
    write_feedback_packet(&mut packet, 0xFF00_0001);
    assert_eq!(packet.as_slice(), &[0x01, 0x00, 0x00]);
}

#[test]
fn feedback_packet_replaces_old_contents() {
    let mut packet = FeedbackPacket::new();
    packet.extend_from_slice(&[9, 9, 9, 9]).unwrap();
    write_feedback_packet(&mut packet, 48 << 14);
    assert_eq!(packet.as_slice(), &[0x00, 0x00, 0x0C]);
    let value = packet[0] as u32 | (packet[1] as u32) << 8 | (packet[2] as u32) << 16;
    assert_eq!(value, 48 << 14);
}

#[test]
fn variant_names() {
    let names: Vec<&str> = [
        Variant::Peak,
        Variant::LowPass,
        Variant::HighPass,
        Variant::LowShelf,
        Variant::HighShelf,
        Variant::AllPass,
    ]
    .into_iter()
    .map(|v| v.into())
    .collect();
    assert_eq!(names, vec!["Peak", "Low pass", "High pass", "Low shelf", "High shelf", "All pass"]);
}

#[test]
fn only_shelf_and_peak_filters_have_a_level() {
    assert!(Variant::Peak.uses_level());
    assert!(Variant::LowShelf.uses_level());
    assert!(Variant::HighShelf.uses_level());
    assert!(!Variant::LowPass.uses_level());
    assert!(!Variant::HighPass.uses_level());
    assert!(!Variant::AllPass.uses_level());
}

#[test]
fn new_filter_has_default_settings() {
    let f = Filter::new(5);
    assert_eq!(f.id, 5);
    assert_eq!(f.variant, Variant::Peak);
    assert_eq!(f32::from_bits(f.level_db_bits), 0.0);
    assert_eq!(f32::from_bits(f.fs_hz_bits), 48000.0);
    assert_eq!(f32::from_bits(f.f0_hz_bits), 1000.0);
    assert_eq!(f32::from_bits(f.q_value_bits), 0.71);
    assert!(!f.is_muted);
    assert_eq!(Filter::default(), Filter::new(0));
}

#[test]
fn dsp_device_is_found_by_product_string() {
    assert!(is_dsp_device(Some("usb-dsp")));
    assert!(!is_dsp_device(Some("usb-dsp2")));
    assert!(!is_dsp_device(Some("USB-DSP")));
    assert!(!is_dsp_device(Some("")));
    assert!(!is_dsp_device(None));
}

#[test]
fn initial_channel_has_default_filters_numbered_in_order() {
    let channel = initial_channel(3);
    assert_eq!(channel.id, 3);
    assert_eq!(channel.input_id, 0);
    assert_eq!(channel.filters.len(), FILTERS_PER_CHANNEL);
    for (i, f) in channel.filters.iter().enumerate() {
        assert_eq!(*f, Filter::new(i as u32));
    }
}

#[test]
fn i2s_layouts() {
    assert_eq!(
        board_frame_layout(),
        SaiFrameLayout { slot_count: 2, frame_sync_active_level_length: 32, frame_length: 64 }
    );
    assert_eq!(
        i2s_frame_layout(4, 16),
        SaiFrameLayout { slot_count: 4, frame_sync_active_level_length: 16, frame_length: 64 }
    );
}

#[test]
fn receiver_renews_sai_after_write_error() {
    assert_eq!(receiver_action(ReceiverEvent::SamplesReceived), ReceiverAction::Play);
    assert_eq!(
        receiver_action(ReceiverEvent::SaiWriteError),
        ReceiverAction::RenewSai { blink: Blink::Red }
    );
}

#[test]
fn routing_renews_sai_only_after_failed_write() {
    assert!(!sai_needs_renewal(RoutingOutcome::TimedOut));
    assert!(!sai_needs_renewal(RoutingOutcome::Written));
    assert!(sai_needs_renewal(RoutingOutcome::WriteFailed));
}

#[test]
fn full_queue_blinks_yellow() {
    assert_eq!(queue_signal(true), None);
    assert_eq!(queue_signal(false), Some(Blink::Yellow));
}

#[test]
fn latest_signalled_volume_wins() {
    let mut control = VolumeControl::new((1.0f32, 1.0f32));
    control.update(None);
    assert_eq!(control.volume, (1.0, 1.0));
    control.update(Some((0.5, 0.25)));
    assert_eq!(control.volume, (0.5, 0.25));
    control.update(None);
    assert_eq!(control.volume, (0.5, 0.25));
}

#[test]
fn audio_error_messages() {
    assert_eq!(AudioError::I2cError.message(), "I2C communication error");
    assert_eq!(AudioError::BufferOverflow.message(), "Audio buffer overflow");
    assert_eq!(AudioError::InvalidSampleRate.message(), "Invalid sample rate");
    assert_eq!(AudioError::InvalidConfiguration.message(), "Invalid configuration");
    assert_eq!(AudioError::InitializationFailed.message(), "Device initialization failed");
}

#[test]
fn audio_sources_are_distinct() {
    assert_ne!(AudioSource::Usb, AudioSource::Spdif);
    assert_eq!(AudioSource::NoSource, AudioSource::NoSource);
}

#[test]
fn info_holds_device_figures() {
    let info = Info { channel_count: 2, input_count: 1, sample_rate_hz: 48_000 };
    assert_eq!(info.channel_count, 2);
    assert_eq!(info, Info { channel_count: 2, input_count: 1, sample_rate_hz: 48_000 });
}
