//! The extraction client: the pure adapter around the one opaque native
//! call.
//!
//! The native subsystem is platform-specific and is consumed, never
//! reimplemented; the program's unverified shell owns the call itself. The
//! client here does everything around it: it builds the exact request the
//! native call takes (a null-terminated UTF-16 path plus a mode flag), and
//! it classifies the raw outcome the call hands back into success or a
//! typed error.

use vstd::prelude::*;

use crate::errors::GetThumbnailError;
use crate::wstr::path_to_wstr;
use crate::wstr::wstr_of;

verus! {

/// Mode flag for the normal extract-and-cache behavior.
pub const WTS_EXTRACT: u32 = 0x0;
/// Mode flag that forces re-extraction, bypassing a warm cache; used only
/// by benchmark harnesses so repeated runs do real work.
pub const WTS_FORCEEXTRACTION: u32 = 0x4;

/// The two behaviors of the extraction call: the production
/// extract-and-cache mode and the benchmark-only cache-bypassing mode.
#[derive(Clone, Copy, Debug, PartialEq, Eq, Structural)]
pub enum ExtractMode {
    Extract,
    ForceExtraction,
}

/// The native flag that selects a mode.
pub open spec fn spec_flag_of(mode: ExtractMode) -> u32 {
    match mode {
        ExtractMode::Extract => WTS_EXTRACT,
        ExtractMode::ForceExtraction => WTS_FORCEEXTRACTION,
    }
}

/// Exactly what one native extraction call takes: the null-terminated
/// UTF-16 form of the path and the mode flag.
#[derive(Clone, Debug)]
pub struct ExtractRequest {
    pub wpath: Vec<u16>,
    pub flags: u32,
}

/// Exactly what one native extraction call hands back: a success flag and,
/// on failure, the raw status code and the wrapper's diagnostic message.
#[derive(Clone, Debug)]
pub struct NativeOutcome {
    pub ok: bool,
    pub code: i32,
    pub msg: String,
}

/// Builds the native request for a path under a given mode.
pub fn build_request(path: &str, mode: ExtractMode) -> (r: ExtractRequest)
    ensures
        r.wpath@ == wstr_of(path@),
        r.flags == spec_flag_of(mode),
{
    let flags = match mode {
        ExtractMode::Extract => WTS_EXTRACT,
        ExtractMode::ForceExtraction => WTS_FORCEEXTRACTION,
    };
    ExtractRequest { wpath: path_to_wstr(path), flags }
}

/// The request that extracts a thumbnail for a path and caches it: the
/// production mode of the extraction call.
pub fn get_thumbnail_from_path(path: &str) -> (r: ExtractRequest)
    ensures
        r.wpath@ == wstr_of(path@),
        r.flags == spec_flag_of(ExtractMode::Extract),
{
    build_request(path, ExtractMode::Extract)
}

/// The request that forces re-extraction of an already cached path. A
/// helper to be used only from benchmarking contexts, so that cached
/// thumbnails need no manual removal between runs.
pub fn __bench_force_get_thumbnail_from_path(path: &str) -> (r: ExtractRequest)
    ensures
        r.wpath@ == wstr_of(path@),
        r.flags == spec_flag_of(ExtractMode::ForceExtraction),
{
    build_request(path, ExtractMode::ForceExtraction)
}

/// Classifies a raw native outcome: success exactly when the native call
/// reported success, and otherwise an error carrying the raw status code
/// and message unchanged.
pub fn classify_outcome(outcome: &NativeOutcome) -> (r: Result<(), GetThumbnailError>)
    ensures
        outcome.ok <==> r is Ok,
        !outcome.ok ==> (r matches Err(e) && e == (GetThumbnailError {
            code: outcome.code,
            msg: outcome.msg,
        })),
{
    if outcome.ok {
        Ok(())
    } else {
        Err(GetThumbnailError { code: outcome.code, msg: outcome.msg.clone() })
    }
}

} // verus!
