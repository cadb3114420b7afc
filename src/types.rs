use vstd::prelude::*;

use std::time::Duration;

use crate::kit::{index_result, index_result_of, optional_index, optional_index_of};
use crate::rpa_error::PaError;

verus! {

/// Relies on `Duration`'s `Clone`, which std derives beside `Copy`: the clone
/// is the same span of time.
pub assume_specification[ <Duration as Clone>::clone ](d: &Duration) -> (r: Duration)
    ensures
        r == *d,
;

/// Index number of a host API.
pub type HostApiIndex = u32;

/// Index of a device.
pub type DeviceIndex = u32;

/// Possible host API types, by the engine's well-known identifiers.
#[derive(PartialEq, Eq, Structural, Copy, Clone, Debug)]
pub enum HostApiType {
    InDevelopment,
    DirectSound,
    MME,
    ASIO,
    SoundManager,
    CoreAudio,
    OSS,
    ALSA,
    AL,
    BeOS,
    WDMKS,
    JACK,
    WASAPI,
    AudioScienceHPI,
    /// Any identifier without a known meaning.
    Unknown,
}

/// The host API type that the identifier `num` stands for.
pub open spec fn host_api_type_of(num: u32) -> HostApiType {
    if num == 0 {
        HostApiType::InDevelopment
    } else if num == 1 {
        HostApiType::DirectSound
    } else if num == 2 {
        HostApiType::MME
    } else if num == 3 {
        HostApiType::ASIO
    } else if num == 4 {
        HostApiType::SoundManager
    } else if num == 5 {
        HostApiType::CoreAudio
    } else if num == 7 {
        HostApiType::OSS
    } else if num == 8 {
        HostApiType::ALSA
    } else if num == 9 {
        HostApiType::AL
    } else if num == 10 {
        HostApiType::BeOS
    } else if num == 11 {
        HostApiType::WDMKS
    } else if num == 12 {
        HostApiType::JACK
    } else if num == 13 {
        HostApiType::WASAPI
    } else if num == 14 {
        HostApiType::AudioScienceHPI
    } else {
        HostApiType::Unknown
    }
}

/// The identifier of a host API type; `Unknown` takes the one after the last known.
pub open spec fn host_api_id_of(t: HostApiType) -> u32 {
    match t {
        HostApiType::InDevelopment => 0,
        HostApiType::DirectSound => 1,
        HostApiType::MME => 2,
        HostApiType::ASIO => 3,
        HostApiType::SoundManager => 4,
        HostApiType::CoreAudio => 5,
        HostApiType::OSS => 7,
        HostApiType::ALSA => 8,
        HostApiType::AL => 9,
        HostApiType::BeOS => 10,
        HostApiType::WDMKS => 11,
        HostApiType::JACK => 12,
        HostApiType::WASAPI => 13,
        HostApiType::AudioScienceHPI => 14,
        HostApiType::Unknown => 15,
    }
}

impl HostApiType {
    /// Get the enum value corresponding to the identifier.
    pub fn from_u32(num: u32) -> (r: HostApiType)
        ensures
            r == host_api_type_of(num),
    {
        match num {
            0 => HostApiType::InDevelopment,
            1 => HostApiType::DirectSound,
            2 => HostApiType::MME,
            3 => HostApiType::ASIO,
            4 => HostApiType::SoundManager,
            5 => HostApiType::CoreAudio,
            7 => HostApiType::OSS,
            8 => HostApiType::ALSA,
            9 => HostApiType::AL,
            10 => HostApiType::BeOS,
            11 => HostApiType::WDMKS,
            12 => HostApiType::JACK,
            13 => HostApiType::WASAPI,
            14 => HostApiType::AudioScienceHPI,
            _ => HostApiType::Unknown,
        }
    }

    /// The identifier of this host API type.
    pub fn type_id(self) -> (r: u32)
        ensures
            r == host_api_id_of(self),
    {
        match self {
            HostApiType::InDevelopment => 0,
            HostApiType::DirectSound => 1,
            HostApiType::MME => 2,
            HostApiType::ASIO => 3,
            HostApiType::SoundManager => 4,
            HostApiType::CoreAudio => 5,
            HostApiType::OSS => 7,
            HostApiType::ALSA => 8,
            HostApiType::AL => 9,
            HostApiType::BeOS => 10,
            HostApiType::WDMKS => 11,
            HostApiType::JACK => 12,
            HostApiType::WASAPI => 13,
            HostApiType::AudioScienceHPI => 14,
            HostApiType::Unknown => 15,
        }
    }

    /// Converts this static host API identifier into the engine's runtime index
    /// of that host API. `engine_lookup` asks the engine, given the identifier.
    pub fn to_api_index<E: FnOnce(u32) -> i32>(self, engine_lookup: E) -> (r: Result<u32, PaError>)
        requires
            engine_lookup.requires((host_api_id_of(self),)),
        ensures
            exists|code: i32|
                engine_lookup.ensures((host_api_id_of(self),), code) && r == index_result_of(code),
    {
        let code = engine_lookup(self.type_id());
        index_result(code)
    }
}

/// A host API description as the engine reports it, its name already decoded.
pub struct RawHostApiInfo {
    pub struct_version: i32,
    pub type_id: u32,
    pub name: String,
    pub device_count: i32,
    pub default_input_device: i32,
    pub default_output_device: i32,
}

/// Information about a host API.
#[derive(Debug, Clone)]
pub struct PaHostApiInfo {
    /// Version of the engine's description record.
    pub struct_version: i32,
    /// The well-known unique identifier of this host API.
    pub type_: HostApiType,
    /// A textual description of the host API for display on user interfaces.
    pub name: String,
    /// The number of devices belonging to this host API.
    pub device_count: u32,
    /// The default input device of this host API, if it has one.
    pub default_input: Option<u32>,
    /// The default output device of this host API, if it has one.
    pub default_output: Option<u32>,
}

/// What the engine's description record says of a host API.
pub open spec fn host_api_info_of(raw: RawHostApiInfo) -> PaHostApiInfo {
    PaHostApiInfo {
        struct_version: raw.struct_version,
        type_: host_api_type_of(raw.type_id),
        name: raw.name,
        device_count: raw.device_count as u32,
        default_input: optional_index_of(raw.default_input_device),
        default_output: optional_index_of(raw.default_output_device),
    }
}

impl PaHostApiInfo {
    /// Reads the engine's description record.
    pub fn from_raw(raw: RawHostApiInfo) -> (r: PaHostApiInfo)
        ensures
            r == host_api_info_of(raw),
    {
        PaHostApiInfo {
            struct_version: raw.struct_version,
            type_: HostApiType::from_u32(raw.type_id),
            name: raw.name,
            device_count: raw.device_count as u32,
            default_input: optional_index(raw.default_input_device),
            default_output: optional_index(raw.default_output_device),
        }
    }
}

/// A host error record as the engine reports it, its text already decoded.
pub struct RawHostErrorInfo {
    pub host_api_type: u32,
    pub error_code: i64,
    pub error_text: String,
}

/// Error info obtained by `hostapi::last_error`.
#[derive(Debug, Clone)]
pub struct PaHostErrorInfo {
    /// The error code given.
    pub code: i32,
    /// A human readable error message.
    pub text: String,
    /// The type of the API that produced the error.
    pub api_type: HostApiType,
}

/// What the engine's host error record says.
pub open spec fn host_error_info_of(raw: RawHostErrorInfo) -> PaHostErrorInfo {
    PaHostErrorInfo {
        code: raw.error_code as i32,
        text: raw.error_text,
        api_type: host_api_type_of(raw.host_api_type),
    }
}

impl PaHostErrorInfo {
    /// Reads the engine's host error record.
    pub fn from_raw(raw: RawHostErrorInfo) -> (r: PaHostErrorInfo)
        ensures
            r == host_error_info_of(raw),
    {
        PaHostErrorInfo {
            code: raw.error_code as i32,
            text: raw.error_text,
            api_type: HostApiType::from_u32(raw.host_api_type),
        }
    }
}

/// The five sample representations that the engine can move, each with its
/// fixed wire tag.
#[derive(PartialEq, Eq, Structural, Copy, Clone, Debug)]
pub enum SampleFormat {
    Float32,
    Int32,
    Int16,
    Int8,
    UInt8,
}

/// The wire tag of a sample format: one bit each.
pub open spec fn tag_of(f: SampleFormat) -> u64 {
    match f {
        SampleFormat::Float32 => 0x01,
        SampleFormat::Int32 => 0x02,
        SampleFormat::Int16 => 0x08,
        SampleFormat::Int8 => 0x10,
        SampleFormat::UInt8 => 0x20,
    }
}

/// The sample format that a wire tag names, if any.
pub open spec fn format_of_tag(tag: u64) -> Option<SampleFormat> {
    if tag == 0x01 {
        Some(SampleFormat::Float32)
    } else if tag == 0x02 {
        Some(SampleFormat::Int32)
    } else if tag == 0x08 {
        Some(SampleFormat::Int16)
    } else if tag == 0x10 {
        Some(SampleFormat::Int8)
    } else if tag == 0x20 {
        Some(SampleFormat::UInt8)
    } else {
        None
    }
}

impl SampleFormat {
    /// The wire tag of this format.
    pub fn tag(self) -> (r: u64)
        ensures
            r == tag_of(self),
    {
        match self {
            SampleFormat::Float32 => 0x01,
            SampleFormat::Int32 => 0x02,
            SampleFormat::Int16 => 0x08,
            SampleFormat::Int8 => 0x10,
            SampleFormat::UInt8 => 0x20,
        }
    }

    /// The format that a wire tag names, or `None` for any other value.
    pub fn from_tag(tag: u64) -> (r: Option<SampleFormat>)
        ensures
            r == format_of_tag(tag),
    {
        if tag == 0x01 {
            Some(SampleFormat::Float32)
        } else if tag == 0x02 {
            Some(SampleFormat::Int32)
        } else if tag == 0x08 {
            Some(SampleFormat::Int16)
        } else if tag == 0x10 {
            Some(SampleFormat::Int8)
        } else if tag == 0x20 {
            Some(SampleFormat::UInt8)
        } else {
            None
        }
    }
}

/// Each format has its own tag, and reading a tag back gives the format.
pub proof fn lemma_sample_tags_unique(f: SampleFormat, g: SampleFormat)
    ensures
        format_of_tag(tag_of(f)) == Some(f),
        tag_of(f) == tag_of(g) <==> f == g,
{
}

/// Types that can be used as samples in a stream.
///
/// Do not implement it for types other than the engine's five sample
/// representations: the format tells the engine how to read raw memory.
pub trait SampleType {
    /// The engine format that corresponds to the type.
    spec fn format() -> SampleFormat;

    /// The engine format that corresponds to the type.
    fn sample_format() -> (r: SampleFormat)
        ensures
            r == Self::format(),
    ;
}

impl SampleType for i32 {
    open spec fn format() -> SampleFormat {
        SampleFormat::Int32
    }

    fn sample_format() -> SampleFormat {
        SampleFormat::Int32
    }
}

impl SampleType for i16 {
    open spec fn format() -> SampleFormat {
        SampleFormat::Int16
    }

    fn sample_format() -> SampleFormat {
        SampleFormat::Int16
    }
}

impl SampleType for i8 {
    open spec fn format() -> SampleFormat {
        SampleFormat::Int8
    }

    fn sample_format() -> SampleFormat {
        SampleFormat::Int8
    }
}

impl SampleType for u8 {
    open spec fn format() -> SampleFormat {
        SampleFormat::UInt8
    }

    fn sample_format() -> SampleFormat {
        SampleFormat::UInt8
    }
}

/// Size in bytes of one sample of type `T`; `engine_size` asks the engine,
/// given the wire tag of `T`'s format.
pub fn sample_size<T: SampleType, E: FnOnce(u64) -> i32>(engine_size: E) -> (r: Result<u32, PaError>)
    requires
        engine_size.requires((tag_of(T::format()),)),
    ensures
        exists|code: i32|
            engine_size.ensures((tag_of(T::format()),), code) && r == index_result_of(code),
{
    let format = T::sample_format();
    index_result(engine_size(format.tag()))
}

/// Stream parameters in the form the engine takes them.
#[derive(Copy, Clone)]
pub struct RawStreamParameters {
    pub device: i32,
    pub channel_count: i32,
    pub sample_format: u64,
    pub suggested_latency: Duration,
}

/// Stream parameters to be used with `Stream::open`.
#[derive(Copy, Clone)]
pub struct PaStreamParameters<T> {
    /// Index of the device to use.
    pub device: DeviceIndex,
    /// Requested number of channels.
    pub channel_count: u32,
    /// Desired latency of the stream.
    pub suggested_latency: Duration,
    /// Sample data to be used in the stream.
    pub data: T,
}

/// `raw` is `p` in the engine's form, tagged with the format of `T`.
pub open spec fn raw_parameters_match<T: SampleType>(
    raw: RawStreamParameters,
    p: PaStreamParameters<T>,
) -> bool {
    &&& raw.device == p.device as i32
    &&& raw.channel_count == p.channel_count as i32
    &&& raw.suggested_latency == p.suggested_latency
    &&& raw.sample_format == tag_of(T::format())
}

impl<T: SampleType> PaStreamParameters<T> {
    /// The parameters in the engine's form, tagged with the sample type's format.
    pub fn to_raw(&self) -> (r: RawStreamParameters)
        ensures
            raw_parameters_match(r, *self),
    {
        let format = T::sample_format();
        RawStreamParameters {
            device: self.device as i32,
            channel_count: self.channel_count as i32,
            sample_format: format.tag(),
            suggested_latency: self.suggested_latency,
        }
    }
}

/// Time information for various stream related values.
#[derive(Copy, Clone)]
pub struct PaStreamTimeInfo {
    /// Timestamp for the ADC capture time of the first frame.
    pub input_adc_time: Duration,
    /// Timestamp that the callback was invoked.
    pub current_time: Duration,
    /// Timestamp for the DAC output time of the first frame.
    pub output_dac_time: Duration,
}

/// The callback reported that input was missing and zeroes were inserted.
pub const INPUT_UNDERFLOW: u64 = 0x01;
/// The callback reported that input was discarded.
pub const INPUT_OVERFLOW: u64 = 0x02;
/// Output was padded because not enough data was available.
pub const OUTPUT_UNDERFLOW: u64 = 0x04;
/// Output was discarded because there was no room.
pub const OUTPUT_OVERFLOW: u64 = 0x08;
/// Some or all of the output primes the stream; input may be zero.
pub const PRIMING_OUTPUT: u64 = 0x10;
/// Every status flag of a callback invocation.
pub const ALL_CALLBACK_FLAGS: u64 = 0x1F;

/// Flags indicating the status of one callback invocation.
#[derive(PartialEq, Eq, Structural, Copy, Clone, Debug)]
pub struct PaStreamCallbackFlags {
    bits: u64,
}

impl View for PaStreamCallbackFlags {
    type V = u64;

    closed spec fn view(&self) -> u64 {
        self.bits
    }
}

impl PaStreamCallbackFlags {
    /// No flag set.
    pub fn empty() -> (r: PaStreamCallbackFlags)
        ensures
            r@ == 0,
    {
        PaStreamCallbackFlags { bits: 0 }
    }

    /// The flags among `bits`; other bits are dropped.
    pub fn from_bits_truncate(bits: u64) -> (r: PaStreamCallbackFlags)
        ensures
            r@ == bits & ALL_CALLBACK_FLAGS,
    {
        PaStreamCallbackFlags { bits: bits & ALL_CALLBACK_FLAGS }
    }

    /// The flags as bits.
    pub fn bits(&self) -> (r: u64)
        ensures
            r == self@,
    {
        self.bits
    }

    /// Whether every flag of `flags` is set.
    pub fn contains(&self, flags: u64) -> (r: bool)
        ensures
            r == (self@ & flags == flags),
    {
        self.bits & flags == flags
    }
}

/// Disable clipping of out of range samples.
pub const CLIP_OFF: u64 = 0x00000001;
/// Disable dithering.
pub const DITHER_OFF: u64 = 0x00000002;
/// A full duplex stream will not discard overflowed input samples; only with
/// an unspecified number of frames per buffer.
pub const NEVER_DROP_INPUT: u64 = 0x00000004;
/// Fill the initial output buffers with the stream callback rather than silence.
pub const PRIME_OUTPUT_BUFFERS_USING_STREAM_CALLBACK: u64 = 0x00000008;
/// Range for platform specific flags.
pub const PLATFORM_SPECIFIC: u64 = 0xFFFF0000;
/// Every stream flag.
pub const ALL_STREAM_FLAGS: u64 = 0xFFFF000F;

/// Flags used to control the behaviour of a stream.
#[derive(PartialEq, Eq, Structural, Copy, Clone, Debug)]
pub struct StreamFlags {
    bits: u64,
}

impl View for StreamFlags {
    type V = u64;

    closed spec fn view(&self) -> u64 {
        self.bits
    }
}

impl StreamFlags {
    /// No flag set.
    pub fn empty() -> (r: StreamFlags)
        ensures
            r@ == 0,
    {
        StreamFlags { bits: 0 }
    }

    /// The flags among `bits`; other bits are dropped.
    pub fn from_bits_truncate(bits: u64) -> (r: StreamFlags)
        ensures
            r@ == bits & ALL_STREAM_FLAGS,
    {
        StreamFlags { bits: bits & ALL_STREAM_FLAGS }
    }

    /// The flags as bits.
    pub fn bits(&self) -> (r: u64)
        ensures
            r == self@,
    {
        self.bits
    }

    /// Whether every flag of `flags` is set.
    pub fn contains(&self, flags: u64) -> (r: bool)
        ensures
            r == (self@ & flags == flags),
    {
        self.bits & flags == flags
    }

    /// The flags of both.
    pub fn union(&self, other: StreamFlags) -> (r: StreamFlags)
        ensures
            r@ == self@ | other@,
    {
        StreamFlags { bits: self.bits | other.bits }
    }
}

/// What the per-frame callback tells the engine.
#[derive(PartialEq, Eq, Structural, Copy, Clone, Debug)]
pub enum PaStreamCallbackResult {
    /// Continue invoking the callback.
    Continue,
    /// Stop invoking the callback and finish once everything has played.
    Complete,
    /// Stop invoking the callback and finish as soon as possible.
    Abort,
}

/// The engine's code for a callback result.
pub open spec fn callback_result_code(r: PaStreamCallbackResult) -> i32 {
    match r {
        PaStreamCallbackResult::Continue => 0,
        PaStreamCallbackResult::Complete => 1,
        PaStreamCallbackResult::Abort => 2,
    }
}

impl PaStreamCallbackResult {
    /// The engine's code for this result.
    pub fn code(self) -> (r: i32)
        ensures
            r == callback_result_code(self),
    {
        match self {
            PaStreamCallbackResult::Continue => 0,
            PaStreamCallbackResult::Complete => 1,
            PaStreamCallbackResult::Abort => 2,
        }
    }
}

} // verus!
