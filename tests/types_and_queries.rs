use std::time::Duration;

use rportaudio::device;
use rportaudio::hostapi;
use rportaudio::rpa_error::PaError;
use rportaudio::types::{
    HostApiType, PaHostApiInfo, PaHostErrorInfo, PaStreamCallbackFlags, PaStreamCallbackResult,
    PaStreamParameters, RawHostApiInfo, RawHostErrorInfo, SampleFormat, SampleType, StreamFlags,
    CLIP_OFF, DITHER_OFF, INPUT_OVERFLOW, OUTPUT_UNDERFLOW, PLATFORM_SPECIFIC, PRIMING_OUTPUT,
};

#[test]
fn host_api_types_from_ids() {
    assert_eq!(HostApiType::from_u32(0), HostApiType::InDevelopment);
    assert_eq!(HostApiType::from_u32(5), HostApiType::CoreAudio);
    assert_eq!(HostApiType::from_u32(6), HostApiType::Unknown);
    assert_eq!(HostApiType::from_u32(8), HostApiType::ALSA);
    assert_eq!(HostApiType::from_u32(14), HostApiType::AudioScienceHPI);
    assert_eq!(HostApiType::from_u32(99), HostApiType::Unknown);
    assert_eq!(HostApiType::JACK.type_id(), 12);
    assert_eq!(HostApiType::from_u32(HostApiType::WASAPI.type_id()), HostApiType::WASAPI);
}

#[test]
fn host_api_type_to_index_asks_engine_with_id() {
    let r = HostApiType::ALSA.to_api_index(|id| if id == 8 { 2 } else { -9979 });
    assert_eq!(r, Ok(2));
    let r = HostApiType::ASIO.to_api_index(|_| -9979);
    assert_eq!(r, Err(PaError::PaHostApiNotFound));
}

#[test]
fn sample_format_tags() {
    assert_eq!(SampleFormat::Float32.tag(), 0x01);
    assert_eq!(SampleFormat::Int32.tag(), 0x02);
    assert_eq!(SampleFormat::Int16.tag(), 0x08);
    assert_eq!(SampleFormat::Int8.tag(), 0x10);
    assert_eq!(SampleFormat::UInt8.tag(), 0x20);
    assert_eq!(SampleFormat::from_tag(0x08), Some(SampleFormat::Int16));
    assert_eq!(SampleFormat::from_tag(0x04), None);
    assert_eq!(<i16 as SampleType>::sample_format(), SampleFormat::Int16);
    assert_eq!(<u8 as SampleType>::sample_format(), SampleFormat::UInt8);
    assert_eq!(<i32 as SampleType>::sample_format(), SampleFormat::Int32);
    assert_eq!(<i8 as SampleType>::sample_format(), SampleFormat::Int8);
}

#[test]
fn stream_parameters_to_raw() {
    let p = PaStreamParameters {
        device: 3,
        channel_count: 2,
        suggested_latency: Duration::new(0, 5_000_000),
        data: 0i16,
    };
    let raw = p.to_raw();
    assert_eq!(raw.device, 3);
    assert_eq!(raw.channel_count, 2);
    assert_eq!(raw.sample_format, 0x08);
    assert_eq!(raw.suggested_latency, Duration::new(0, 5_000_000));
}

#[test]
fn callback_flags_truncate_and_contain() {
    let f = PaStreamCallbackFlags::from_bits_truncate(0xFF);
    assert_eq!(f.bits(), 0x1F);
    assert!(f.contains(INPUT_OVERFLOW | PRIMING_OUTPUT));
    let g = PaStreamCallbackFlags::from_bits_truncate(OUTPUT_UNDERFLOW);
    assert!(g.contains(OUTPUT_UNDERFLOW));
    assert!(!g.contains(INPUT_OVERFLOW));
    assert_eq!(PaStreamCallbackFlags::empty().bits(), 0);
}

#[test]
fn stream_flags_truncate_and_union() {
    let f = StreamFlags::from_bits_truncate(CLIP_OFF | 0x30);
    assert_eq!(f.bits(), CLIP_OFF);
    let g = f.union(StreamFlags::from_bits_truncate(DITHER_OFF | PLATFORM_SPECIFIC));
    assert_eq!(g.bits(), 0xFFFF0003);
    assert!(g.contains(CLIP_OFF | DITHER_OFF));
    assert_eq!(StreamFlags::empty().bits(), 0);
}

#[test]
fn callback_result_codes() {
    assert_eq!(PaStreamCallbackResult::Continue.code(), 0);
    assert_eq!(PaStreamCallbackResult::Complete.code(), 1);
    assert_eq!(PaStreamCallbackResult::Abort.code(), 2);
}

#[test]
fn host_api_info_from_record() {
    let raw = RawHostApiInfo {
        struct_version: 1,
        type_id: 8,
        name: "ALSA".to_string(),
        device_count: 3,
        default_input_device: 0,
        default_output_device: -1,
    };
    let info = PaHostApiInfo::from_raw(raw);
    assert_eq!(info.type_, HostApiType::ALSA);
    assert_eq!(info.name, "ALSA");
    assert_eq!(info.device_count, 3);
    assert_eq!(info.default_input, Some(0));
    assert_eq!(info.default_output, None);
}

#[test]
fn host_error_from_record() {
    let raw = RawHostErrorInfo { host_api_type: 12, error_code: -3, error_text: "busy".to_string() };
    let e = PaHostErrorInfo::from_raw(raw);
    assert_eq!(e.code, -3);
    assert_eq!(e.text, "busy");
    assert_eq!(e.api_type, HostApiType::JACK);
}

#[test]
fn device_queries_decode_engine_answers() {
    assert_eq!(device::count(|| 6), Ok(6));
    assert_eq!(device::count(|| -10000), Err(PaError::PaNotInitialized));
    assert_eq!(device::default_input(|| 1), Some(1));
    assert_eq!(device::default_output(|| -1), None);
    let r = device::hostapi_device_index_to_device_index(1, 3, |a, b| a * 10 + b);
    assert_eq!(r, Ok(13));
    let r = device::hostapi_device_index_to_device_index(9, 0, |_, _| -9978);
    assert_eq!(r, Err(PaError::PaInvalidHostApi));
}

#[test]
fn host_api_queries_decode_engine_answers() {
    assert_eq!(hostapi::count(|| 2), Ok(2));
    assert_eq!(hostapi::default(|| -9999), Err(PaError::PaUnanticipatedHostError));
    assert!(hostapi::info(7, |_| None).is_none());
    let info = hostapi::info(0, |i| {
        Some(RawHostApiInfo {
            struct_version: 1,
            type_id: 5,
            name: format!("api {}", i),
            device_count: 1,
            default_input_device: -1,
            default_output_device: 0,
        })
    })
    .unwrap();
    assert_eq!(info.type_, HostApiType::CoreAudio);
    assert_eq!(info.name, "api 0");
    assert!(hostapi::last_error(|| None).is_none());
    let e = hostapi::last_error(|| {
        Some(RawHostErrorInfo { host_api_type: 2, error_code: 17, error_text: "x".to_string() })
    })
    .unwrap();
    assert_eq!(e.api_type, HostApiType::MME);
    assert_eq!(e.code, 17);
}

#[test]
fn sample_size_asks_with_format_tag() {
    let r = rportaudio::types::sample_size::<i16, _>(|tag| if tag == 0x08 { 2 } else { -9994 });
    assert_eq!(r, Ok(2));
    let r = rportaudio::types::sample_size::<u8, _>(|_| -9994);
    assert_eq!(r, Err(PaError::PaSampleFormatNotSupported));
}

#[test]
fn format_support_hands_raw_parameters() {
    let p = PaStreamParameters {
        device: 1,
        channel_count: 2,
        suggested_latency: Duration::new(0, 0),
        data: 0i32,
    };
    let r = rportaudio::stream::is_format_supported::<i32, i32, _>(None, Some(p), |i, o| {
        assert!(i.is_none());
        let o = o.unwrap();
        assert_eq!(o.device, 1);
        assert_eq!(o.channel_count, 2);
        assert_eq!(o.sample_format, 0x02);
        0
    });
    assert_eq!(r, Ok(()));
    let r = rportaudio::stream::is_format_supported::<i32, i32, _>(Some(p), None, |_, _| -9997);
    assert_eq!(r, Err(PaError::PaInvalidSampleRate));
}
