//! Attached devices, capture outputs, reader outputs and the small value
//! types.

use cidre::am;
use cidre::av;
use cidre::ns;

fn demo_device() -> am::Device {
    am::Device {
        connection_id: 7,
        identifier: "00008110-000A2D623C0A801E".to_owned(),
        paired: false,
        interface_type: am::InterfaceConnectionType::DirectUsb,
        values: vec![
            ("DeviceName".to_owned(), "Lab Phone".to_owned()),
            ("ProductVersion".to_owned(), "17.4".to_owned()),
            ("HardwareModel".to_owned(), "D17AP".to_owned()),
        ],
    }
}

#[test]
fn device_ladder() {
    let mut device = demo_device();
    assert_eq!(device.connection_id(), 7);
    assert_eq!(device.interface_type(), am::InterfaceConnectionType::DirectUsb);
    assert!(!device.is_paired());
    assert!(device.validate_pairing().is_err());
    device.pair().unwrap();
    assert!(device.validate_pairing().is_ok());

    let connected = device.connected().unwrap();
    assert_eq!(connected.name().unwrap(), "Lab Phone");
    assert_eq!(connected.product_version().unwrap(), "17.4");
    assert_eq!(connected.product_name().unwrap(), "D17AP");
    assert!(connected.value(&"NoSuchKey".to_owned()).is_none());
    assert!(connected.domain_value(&"com.apple.mobile.battery".to_owned()).is_none());

    let session = connected.start_session().unwrap();
    let service = session.start_debug_server().unwrap();
    assert_eq!(service.name, "com.apple.debugserver");

    // the ladder unwinds in order, each teardown owed exactly once
    let connected = session.stop();
    let device = connected.disconnect();
    assert!(device.is_paired());
}

#[test]
fn reader_track_output() {
    let track = av::asset::Track { media_type: "soun".to_owned() };
    let output = av::asset::ReaderTrackOutput::with_track(&track, None).unwrap();
    assert_eq!(output.output.media_type(), "soun");
    assert!(output.output.always_copies_sample_data());
    assert!(!output.output.supports_random_access());

    let settings = ns::Dictionary::new();
    assert!(av::asset::ReaderTrackOutput::with_track(&track, Some(&settings)).is_err());
}

#[test]
fn reader_output_switches() {
    let track = av::asset::Track { media_type: "vide".to_owned() };
    let mut output = av::asset::ReaderTrackOutput::with_track(&track, None).unwrap();
    output.output.set_always_copies_sample_data(false);
    assert!(!output.output.always_copies_sample_data());

    // an output configured for random access accepts new ranges
    output.output.supports_random_access = true;
    let ranges = ns::Array::from_slice(vec![
        ns::Value { start: 0, duration: 600 },
        ns::Value { start: 1200, duration: 600 },
    ]);
    output.reset_for_reading_time_ranges(&ranges);
    assert_eq!(output.pending_range_count, 2);
}

struct CountingDelegate {
    delivered: usize,
    dropped: usize,
}

impl av::VideoDataOutputSampleBufDelegate for CountingDelegate {
    fn capture_output_did_output_sample_buf_from_connection(
        &mut self,
        _output: &av::CaptureOutput,
        _sample_buffer: &cidre::cm::SampleBuf,
        _connection: &av::CaptureConnection,
    ) {
        self.delivered += 1;
    }

    fn capture_output_did_drop_sample_buf_from_connection(
        &mut self,
        _output: &av::CaptureOutput,
        _sample_buffer: &cidre::cm::SampleBuf,
        _connection: &av::CaptureConnection,
    ) {
        self.dropped += 1;
    }
}

#[test]
fn video_data_output_delegate() {
    let formats = ns::Array::from_slice(vec![ns::Number::with_i32(875_704_438)]);
    let codecs = ns::Array::from_slice(vec![av::VideoCodec("avc1".to_owned())]);
    let mut output = av::VideoDataOutput::new(formats, codecs);

    assert!(output.always_discard_late_video_frames());
    assert!(output.automatically_configures_output_buffer_dimensions());
    assert!(!output.delivers_preview_sized_output_buffers());
    assert!(output.sample_buffer_callback_queue().is_none());
    assert!(output.video_settings().is_none());
    assert_eq!(output.available_video_cv_pixel_formats().len(), 1);
    assert_eq!(output.available_video_codecs().len(), 1);

    let mut delegate = CountingDelegate { delivered: 0, dropped: 0 };
    let queue = cidre::dispatch::Queue::with_id(3);
    output.set_sample_buf_delegate(Some(&delegate), Some(&queue));
    assert!(output.has_delegate);
    assert_eq!(output.sample_buffer_callback_queue().unwrap().id, 3);

    // the edge drives the delegate with what the session delivered
    let capture = av::CaptureOutput { id: 1 };
    let connection = av::CaptureConnection { id: 2 };
    let buf = cidre::cm::SampleBuf { presentation_time: 480 };
    av::VideoDataOutputSampleBufDelegate::capture_output_did_output_sample_buf_from_connection(
        &mut delegate,
        &capture,
        &buf,
        &connection,
    );
    assert_eq!(delegate.delivered, 1);
    assert_eq!(delegate.dropped, 0);

    output.set_sample_buf_delegate(None::<&CountingDelegate>, None);
    assert!(!output.has_delegate);

    output.set_delivers_preview_sized_output_buffers(true);
    assert!(output.delivers_preview_sized_output_buffers());
    output.set_always_discard_late_video_frames(false);
    assert!(!output.always_discard_late_video_frames());
    output.set_automatically_configures_output_buffer_dimensions(false);
    assert!(!output.automatically_configures_output_buffer_dimensions());
}

#[test]
fn sound_analysis_codes() {
    assert_eq!(cidre::sn::Code::UnknownError.raw_value(), 1);
    assert_eq!(cidre::sn::Code::OpFailed.raw_value(), 2);
    assert_eq!(cidre::sn::Code::InvalidFormat.raw_value(), 3);
    assert_eq!(cidre::sn::Code::InvalidModel.raw_value(), 4);
    assert_eq!(cidre::sn::Code::InvalidFile.raw_value(), 5);
}

#[test]
fn adam_defaults() {
    let desc = cidre::mlc::OptimizerDesc { gradient_clipping: false };
    let opt = cidre::mlc::AdamOptimizer::with_desc(&desc);
    assert!(!opt.uses_ams_grad());
    assert_eq!(opt.time_step(), 1);
}

#[test]
fn tensor_accessors() {
    let t = cidre::mps::graph::Tensor {
        shape: Some(vec![1, 3, 224, 224]),
        data_type: cidre::mps::graph::tensor::DataType(0x10000000 | 32),
        operation: cidre::mps::graph::Operation { name: "placeholder".to_owned() },
    };
    assert_eq!(t.shape().unwrap(), &vec![1, 3, 224, 224]);
    assert_eq!(t.data_type().0, 0x10000020);
    assert_eq!(t.operation().name, "placeholder");
}

use cidre::au;

#[test]
fn audio_unit_values() {
    assert_eq!(au::Scope::global().0, 0);
    assert_eq!(au::Scope::input().0, 1);
    assert_eq!(au::Scope::output().0, 2);
    assert_eq!(au::Element::output().0, 0);
    assert_eq!(au::Element::input().0, 1);
    assert_eq!(au::PropId::voice_io_bypass_voice_processing().0, 2100);
    assert_eq!(au::PropId::voice_io_mute_output().0, 2104);

    let flags = au::ParamFlags::can_ramp().with(au::ParamFlags::is_readable());
    assert!(flags.contains(au::ParamFlags::can_ramp()));
    assert!(!flags.contains(au::ParamFlags::expert_mode()));

    assert_eq!(au::preset_key::version(), "version");
    assert_eq!(au::preset_key::type_(), "type");
    assert_eq!(au::preset_key::preset_number(), "preset-number");
    assert_eq!(au::preset_key::file_refs(), "file-references");
    assert_eq!(au::preset_key::part(), "part");

    let cfg = au::VoiceIoOtherAudioDuckingCfg {
        enable_advanced_ducking: true,
        ducking_level: au::DUCKING_LEVEL_MID,
    };
    assert_eq!(cfg.ducking_level, 20);
}

#[test]
fn four_cc_codes() {
    assert_eq!(cidre::four_cc::four_cc(b'a', b'b', b'c', b'd'), 0x6162_6364);
    assert_eq!(cidre::four_cc::four_cc(b'd', b'e', b'v', b'#'), u32::from_be_bytes(*b"dev#"));
}
