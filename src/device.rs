use vstd::prelude::*;

use crate::kit::{index_result, index_result_of, optional_index, optional_index_of};
use crate::rpa_error::PaError;
use crate::types::DeviceIndex;

verus! {

/// Retrieves the number of available devices; `engine_count` asks the engine.
pub fn count<E: FnOnce() -> i32>(engine_count: E) -> (r: Result<u32, PaError>)
    requires
        engine_count.requires(()),
    ensures
        exists|code: i32| engine_count.ensures((), code) && r == index_result_of(code),
{
    index_result(engine_count())
}

/// Retrieves the index of the default input device, or `None` when there is
/// none; `engine_default` asks the engine.
pub fn default_input<E: FnOnce() -> i32>(engine_default: E) -> (r: Option<DeviceIndex>)
    requires
        engine_default.requires(()),
    ensures
        exists|code: i32| engine_default.ensures((), code) && r == optional_index_of(code),
{
    optional_index(engine_default())
}

/// Retrieves the index of the default output device, or `None` when there is
/// none; `engine_default` asks the engine.
pub fn default_output<E: FnOnce() -> i32>(engine_default: E) -> (r: Option<DeviceIndex>)
    requires
        engine_default.requires(()),
    ensures
        exists|code: i32| engine_default.ensures((), code) && r == optional_index_of(code),
{
    optional_index(engine_default())
}

/// Converts a device index of a specific host API into a global device index.
/// `engine_convert` asks the engine, given the two indices; it answers
/// `InvalidHostApi` when the host API is out of range and `InvalidDevice` when
/// the device index is.
pub fn hostapi_device_index_to_device_index<E: FnOnce(i32, i32) -> i32>(
    hostapi: u32,
    hostapi_device_index: u32,
    engine_convert: E,
) -> (r: Result<u32, PaError>)
    requires
        engine_convert.requires((hostapi as i32, hostapi_device_index as i32)),
    ensures
        exists|code: i32|
            engine_convert.ensures((hostapi as i32, hostapi_device_index as i32), code) && r
                == index_result_of(code),
{
    let code = engine_convert(hostapi as i32, hostapi_device_index as i32);
    index_result(code)
}

} // verus!
