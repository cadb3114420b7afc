use vstd::prelude::*;

verus! {

/// An error reported by the audio engine, one variant per engine error code,
/// plus `UnknownError` for any code without a known meaning.
#[derive(PartialEq, Eq, Structural, Copy, Clone, Debug)]
pub enum PaError {
    PaNoError,
    PaNotInitialized,
    PaUnanticipatedHostError,
    PaInvalidChannelCount,
    PaInvalidSampleRate,
    PaInvalidDevice,
    PaInvalidFlag,
    PaSampleFormatNotSupported,
    PaBadIODeviceCombination,
    PaInsufficientMemory,
    PaBufferTooBig,
    PaBufferTooSmall,
    PaNullCallback,
    PaBadStreamPtr,
    PaTimedOut,
    PaInternalError,
    PaDeviceUnavailable,
    PaIncompatibleHostApiSpecificStreamInfo,
    PaStreamIsStopped,
    PaStreamIsNotStopped,
    PaInputOverflowed,
    PaOutputUnderflowed,
    PaHostApiNotFound,
    PaInvalidHostApi,
    PaCanNotReadFromACallbackStream,
    PaCanNotWriteToACallbackStream,
    PaCanNotReadFromAnOutputOnlyStream,
    PaCanNotWriteToAnInputOnlyStream,
    PaIncompatibleStreamHostApi,
    PaBadBufferPtr,
    UnknownError,
}

/// The error variant that the engine's numeric code `num` stands for.
pub open spec fn error_of_code(num: i32) -> PaError {
    if num == 0 {
        PaError::PaNoError
    } else if num == -10000 {
        PaError::PaNotInitialized
    } else if num == -9999 {
        PaError::PaUnanticipatedHostError
    } else if num == -9998 {
        PaError::PaInvalidChannelCount
    } else if num == -9997 {
        PaError::PaInvalidSampleRate
    } else if num == -9996 {
        PaError::PaInvalidDevice
    } else if num == -9995 {
        PaError::PaInvalidFlag
    } else if num == -9994 {
        PaError::PaSampleFormatNotSupported
    } else if num == -9993 {
        PaError::PaBadIODeviceCombination
    } else if num == -9992 {
        PaError::PaInsufficientMemory
    } else if num == -9991 {
        PaError::PaBufferTooBig
    } else if num == -9990 {
        PaError::PaBufferTooSmall
    } else if num == -9989 {
        PaError::PaNullCallback
    } else if num == -9988 {
        PaError::PaBadStreamPtr
    } else if num == -9987 {
        PaError::PaTimedOut
    } else if num == -9986 {
        PaError::PaInternalError
    } else if num == -9985 {
        PaError::PaDeviceUnavailable
    } else if num == -9984 {
        PaError::PaIncompatibleHostApiSpecificStreamInfo
    } else if num == -9983 {
        PaError::PaStreamIsStopped
    } else if num == -9982 {
        PaError::PaStreamIsNotStopped
    } else if num == -9981 {
        PaError::PaInputOverflowed
    } else if num == -9980 {
        PaError::PaOutputUnderflowed
    } else if num == -9979 {
        PaError::PaHostApiNotFound
    } else if num == -9978 {
        PaError::PaInvalidHostApi
    } else if num == -9977 {
        PaError::PaCanNotReadFromACallbackStream
    } else if num == -9976 {
        PaError::PaCanNotWriteToACallbackStream
    } else if num == -9975 {
        PaError::PaCanNotReadFromAnOutputOnlyStream
    } else if num == -9974 {
        PaError::PaCanNotWriteToAnInputOnlyStream
    } else if num == -9973 {
        PaError::PaIncompatibleStreamHostApi
    } else if num == -9972 {
        PaError::PaBadBufferPtr
    } else {
        PaError::UnknownError
    }
}

/// The engine's numeric code of an error; `UnknownError` has none.
pub open spec fn code_of_error(e: PaError) -> Option<i32> {
    match e {
        PaError::PaNoError => Some(0i32),
        PaError::PaNotInitialized => Some(-10000i32),
        PaError::PaUnanticipatedHostError => Some(-9999i32),
        PaError::PaInvalidChannelCount => Some(-9998i32),
        PaError::PaInvalidSampleRate => Some(-9997i32),
        PaError::PaInvalidDevice => Some(-9996i32),
        PaError::PaInvalidFlag => Some(-9995i32),
        PaError::PaSampleFormatNotSupported => Some(-9994i32),
        PaError::PaBadIODeviceCombination => Some(-9993i32),
        PaError::PaInsufficientMemory => Some(-9992i32),
        PaError::PaBufferTooBig => Some(-9991i32),
        PaError::PaBufferTooSmall => Some(-9990i32),
        PaError::PaNullCallback => Some(-9989i32),
        PaError::PaBadStreamPtr => Some(-9988i32),
        PaError::PaTimedOut => Some(-9987i32),
        PaError::PaInternalError => Some(-9986i32),
        PaError::PaDeviceUnavailable => Some(-9985i32),
        PaError::PaIncompatibleHostApiSpecificStreamInfo => Some(-9984i32),
        PaError::PaStreamIsStopped => Some(-9983i32),
        PaError::PaStreamIsNotStopped => Some(-9982i32),
        PaError::PaInputOverflowed => Some(-9981i32),
        PaError::PaOutputUnderflowed => Some(-9980i32),
        PaError::PaHostApiNotFound => Some(-9979i32),
        PaError::PaInvalidHostApi => Some(-9978i32),
        PaError::PaCanNotReadFromACallbackStream => Some(-9977i32),
        PaError::PaCanNotWriteToACallbackStream => Some(-9976i32),
        PaError::PaCanNotReadFromAnOutputOnlyStream => Some(-9975i32),
        PaError::PaCanNotWriteToAnInputOnlyStream => Some(-9974i32),
        PaError::PaIncompatibleStreamHostApi => Some(-9973i32),
        PaError::PaBadBufferPtr => Some(-9972i32),
        PaError::UnknownError => None,
    }
}

impl PaError {
    /// Get the enum value corresponding to the given engine code.
    pub fn from_i32(num: i32) -> (r: PaError)
        ensures
            r == error_of_code(num),
    {
        match num {
            0 => PaError::PaNoError,
            -10000 => PaError::PaNotInitialized,
            -9999 => PaError::PaUnanticipatedHostError,
            -9998 => PaError::PaInvalidChannelCount,
            -9997 => PaError::PaInvalidSampleRate,
            -9996 => PaError::PaInvalidDevice,
            -9995 => PaError::PaInvalidFlag,
            -9994 => PaError::PaSampleFormatNotSupported,
            -9993 => PaError::PaBadIODeviceCombination,
            -9992 => PaError::PaInsufficientMemory,
            -9991 => PaError::PaBufferTooBig,
            -9990 => PaError::PaBufferTooSmall,
            -9989 => PaError::PaNullCallback,
            -9988 => PaError::PaBadStreamPtr,
            -9987 => PaError::PaTimedOut,
            -9986 => PaError::PaInternalError,
            -9985 => PaError::PaDeviceUnavailable,
            -9984 => PaError::PaIncompatibleHostApiSpecificStreamInfo,
            -9983 => PaError::PaStreamIsStopped,
            -9982 => PaError::PaStreamIsNotStopped,
            -9981 => PaError::PaInputOverflowed,
            -9980 => PaError::PaOutputUnderflowed,
            -9979 => PaError::PaHostApiNotFound,
            -9978 => PaError::PaInvalidHostApi,
            -9977 => PaError::PaCanNotReadFromACallbackStream,
            -9976 => PaError::PaCanNotWriteToACallbackStream,
            -9975 => PaError::PaCanNotReadFromAnOutputOnlyStream,
            -9974 => PaError::PaCanNotWriteToAnInputOnlyStream,
            -9973 => PaError::PaIncompatibleStreamHostApi,
            -9972 => PaError::PaBadBufferPtr,
            _ => PaError::UnknownError,
        }
    }

    /// The engine's numeric code for this error, or `None` for `UnknownError`.
    pub fn code(self) -> (r: Option<i32>)
        ensures
            r == code_of_error(self),
    {
        match self {
            PaError::PaNoError => Some(0),
            PaError::PaNotInitialized => Some(-10000),
            PaError::PaUnanticipatedHostError => Some(-9999),
            PaError::PaInvalidChannelCount => Some(-9998),
            PaError::PaInvalidSampleRate => Some(-9997),
            PaError::PaInvalidDevice => Some(-9996),
            PaError::PaInvalidFlag => Some(-9995),
            PaError::PaSampleFormatNotSupported => Some(-9994),
            PaError::PaBadIODeviceCombination => Some(-9993),
            PaError::PaInsufficientMemory => Some(-9992),
            PaError::PaBufferTooBig => Some(-9991),
            PaError::PaBufferTooSmall => Some(-9990),
            PaError::PaNullCallback => Some(-9989),
            PaError::PaBadStreamPtr => Some(-9988),
            PaError::PaTimedOut => Some(-9987),
            PaError::PaInternalError => Some(-9986),
            PaError::PaDeviceUnavailable => Some(-9985),
            PaError::PaIncompatibleHostApiSpecificStreamInfo => Some(-9984),
            PaError::PaStreamIsStopped => Some(-9983),
            PaError::PaStreamIsNotStopped => Some(-9982),
            PaError::PaInputOverflowed => Some(-9981),
            PaError::PaOutputUnderflowed => Some(-9980),
            PaError::PaHostApiNotFound => Some(-9979),
            PaError::PaInvalidHostApi => Some(-9978),
            PaError::PaCanNotReadFromACallbackStream => Some(-9977),
            PaError::PaCanNotWriteToACallbackStream => Some(-9976),
            PaError::PaCanNotReadFromAnOutputOnlyStream => Some(-9975),
            PaError::PaCanNotWriteToAnInputOnlyStream => Some(-9974),
            PaError::PaIncompatibleStreamHostApi => Some(-9973),
            PaError::PaBadBufferPtr => Some(-9972),
            PaError::UnknownError => None,
        }
    }
}
/// Decoding an error's own code gives the error back.
pub proof fn lemma_error_code_round_trip(e: PaError)
    requires
        e != PaError::UnknownError,
    ensures
        code_of_error(e) is Some,
        error_of_code(code_of_error(e)->0) == e,
{
}

/// Every code decodes either to `UnknownError` or to the variant whose code it is.
pub proof fn lemma_code_error_round_trip(num: i32)
    ensures
        error_of_code(num) == PaError::UnknownError || code_of_error(error_of_code(num)) == Some(num),
{
}

/// The message for an error: the engine's text for its code, which
/// `engine_text` fetches, or "Unknown Error" for an error without a code.
pub fn error_text<E: FnOnce(i32) -> String>(pa_error: PaError, engine_text: E) -> (r: String)
    requires
        pa_error != PaError::UnknownError ==> engine_text.requires((code_of_error(pa_error)->0,)),
    ensures
        pa_error == PaError::UnknownError ==> r@ == "Unknown Error"@,
        pa_error != PaError::UnknownError ==> exists|text: String|
            engine_text.ensures((code_of_error(pa_error)->0,), text) && r == text,
{
    match pa_error.code() {
        None => "Unknown Error".to_owned(),
        Some(code) => engine_text(code),
    }
}

/// A result type wrapping PaError: the engine's no-error code is `Ok(())`, any
/// other code is `Err`.
pub type PaResult = Result<(), PaError>;

/// An error of the ring buffer or of the memory that backs it.
#[derive(PartialEq, Eq, Copy, Clone, Debug)]
pub enum RingBufferError {
    MemoryAllocateFail(&'static str),
    NotPower2(&'static str),
}

impl RingBufferError {
    /// The message carried by the error.
    pub fn description(&self) -> (r: &'static str)
        ensures
            r == match *self {
                RingBufferError::MemoryAllocateFail(m) => m,
                RingBufferError::NotPower2(m) => m,
            },
    {
        match *self {
            RingBufferError::NotPower2(msg) => msg,
            RingBufferError::MemoryAllocateFail(msg) => msg,
        }
    }
}

} // verus!
