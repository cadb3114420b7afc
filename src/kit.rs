use vstd::prelude::*;

use crate::rpa_error::{error_of_code, PaError, PaResult};

verus! {

/// The engine's code for success.
pub const PA_NO_ERROR: i32 = 0;

/// What an engine status code means: success for the no-error code, else its error.
pub open spec fn pa_result_of(code: i32) -> PaResult {
    if code == PA_NO_ERROR {
        Ok(())
    } else {
        Err(error_of_code(code))
    }
}

/// What an engine answer that is a count or an index means: a non-negative
/// answer is the value, a negative one is an error code.
pub open spec fn index_result_of(code: i32) -> Result<u32, PaError> {
    if code >= 0 {
        Ok(code as u32)
    } else {
        Err(error_of_code(code))
    }
}

/// What an engine answer that is an optional device index means: a negative
/// answer stands for "no device".
pub open spec fn optional_index_of(code: i32) -> Option<u32> {
    if code >= 0 {
        Some(code as u32)
    } else {
        None
    }
}

/// What an engine answer to a yes/no query means: one is yes, the no-error
/// code is no, anything else is the error of that code.
pub open spec fn flag_result_of(code: i32) -> Result<bool, PaError> {
    if code == 1 {
        Ok(true)
    } else {
        match pa_result_of(code) {
            Ok(_) => Ok(false),
            Err(e) => Err(e),
        }
    }
}

/// What an engine answer that is a frame count of the engine's wide integer
/// type means: a non-negative answer is the count, saturated at the largest
/// 32-bit count; a negative one is an error code, and one below every 32-bit
/// code has no known meaning.
pub open spec fn frame_count_result_of(code: i64) -> Result<u32, PaError> {
    if code > u32::MAX {
        Ok(u32::MAX)
    } else if code >= 0 {
        Ok(code as u32)
    } else if code >= i32::MIN {
        Err(error_of_code(code as i32))
    } else {
        Err(PaError::UnknownError)
    }
}

/// Decodes an engine status code into a result.
pub fn to_pa_result(code: i32) -> (r: PaResult)
    ensures
        r == pa_result_of(code),
        r is Ok <==> code == PA_NO_ERROR,
{
    if code == PA_NO_ERROR {
        return Ok(());
    }
    Err(PaError::from_i32(code))
}

/// Decodes an engine answer that is a count or an index.
pub fn index_result(code: i32) -> (r: Result<u32, PaError>)
    ensures
        r == index_result_of(code),
{
    if code >= 0 {
        Ok(code as u32)
    } else {
        match to_pa_result(code) {
            Ok(()) => Ok(0),
            Err(e) => Err(e),
        }
    }
}

/// Decodes an engine answer that is an optional device index.
pub fn optional_index(code: i32) -> (r: Option<u32>)
    ensures
        r == optional_index_of(code),
{
    if code >= 0 {
        Some(code as u32)
    } else {
        None
    }
}

/// Decodes an engine answer to a yes/no query.
pub fn flag_result(code: i32) -> (r: Result<bool, PaError>)
    ensures
        r == flag_result_of(code),
{
    if code == 1 {
        Ok(true)
    } else {
        match to_pa_result(code) {
            Ok(()) => Ok(false),
            Err(e) => Err(e),
        }
    }
}

/// Decodes an engine answer that is a frame count.
pub fn frame_count_result(code: i64) -> (r: Result<u32, PaError>)
    ensures
        r == frame_count_result_of(code),
{
    if code > u32::MAX as i64 {
        Ok(u32::MAX)
    } else if code >= 0 {
        Ok(code as u32)
    } else if code >= i32::MIN as i64 {
        Err(PaError::from_i32(code as i32))
    } else {
        Err(PaError::UnknownError)
    }
}

} // verus!
