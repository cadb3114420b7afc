use vstd::prelude::*;

use crate::kit::{index_result, index_result_of};
use crate::rpa_error::PaError;
use crate::types::{
    host_api_info_of, host_error_info_of, HostApiIndex, PaHostApiInfo, PaHostErrorInfo,
    RawHostApiInfo, RawHostErrorInfo,
};

verus! {

/// Information about the last host error encountered; `engine_last_error`
/// fetches the engine's record. The record means something only after an
/// operation has failed with `PaUnanticipatedHostError`.
pub fn last_error<E: FnOnce() -> Option<RawHostErrorInfo>>(engine_last_error: E) -> (r: Option<
    PaHostErrorInfo,
>)
    requires
        engine_last_error.requires(()),
    ensures
        exists|raw: Option<RawHostErrorInfo>|
            #[trigger] engine_last_error.ensures((), raw) && match raw {
                None => r is None,
                Some(x) => r == Some(host_error_info_of(x)),
            },
{
    match engine_last_error() {
        None => None,
        Some(raw) => Some(PaHostErrorInfo::from_raw(raw)),
    }
}

/// Gets the number of host APIs available; `engine_count` asks the engine.
pub fn count<E: FnOnce() -> i32>(engine_count: E) -> (r: Result<u32, PaError>)
    requires
        engine_count.requires(()),
    ensures
        exists|code: i32| engine_count.ensures((), code) && r == index_result_of(code),
{
    index_result(engine_count())
}

/// Gets the index of the default host API; `engine_default` asks the engine.
pub fn default<E: FnOnce() -> i32>(engine_default: E) -> (r: Result<HostApiIndex, PaError>)
    requires
        engine_default.requires(()),
    ensures
        exists|code: i32| engine_default.ensures((), code) && r == index_result_of(code),
{
    index_result(engine_default())
}

/// Gets information about a host API, or `None` for an index that the engine
/// does not know; `engine_info` fetches the engine's record for the index.
pub fn info<E: FnOnce(i32) -> Option<RawHostApiInfo>>(index: HostApiIndex, engine_info: E) -> (r:
    Option<PaHostApiInfo>)
    requires
        engine_info.requires((index as i32,)),
    ensures
        exists|raw: Option<RawHostApiInfo>|
            #[trigger] engine_info.ensures((index as i32,), raw) && match raw {
                None => r is None,
                Some(x) => r == Some(host_api_info_of(x)),
            },
{
    match engine_info(index as i32) {
        None => None,
        Some(raw) => Some(PaHostApiInfo::from_raw(raw)),
    }
}

} // verus!
