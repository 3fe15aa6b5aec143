//! Typed classification of the status codes returned by the native
//! thumbnail-extraction subsystem.
//!
//! The native call reports failures through an HRESULT status code plus a
//! diagnostic message. The closed set of codes the subsystem is known to
//! return is classified into [`ExtractError`]; any other code is kept in the
//! `Unknown` escape hatch so the raw value is never lost.

use vstd::prelude::*;

verus! {

/// HRESULT for an invalid argument handed to the native call (0x80070057).
pub const E_INVALIDARG: i32 = -2147024809;
/// HRESULT for a thumbnail handler class that is not registered (0x80040154).
pub const REGDB_E_CLASSNOTREG: i32 = -2147221164;
/// HRESULT for a handler that refuses aggregation (0x80040110).
pub const CLASS_E_NOAGGREGATION: i32 = -2147221232;
/// HRESULT for a missing interface on the handler (0x80004002).
pub const E_NOINTERFACE: i32 = -2147467262;
/// HRESULT for a null pointer handed across the native boundary (0x80004003).
pub const E_POINTER: i32 = -2147467261;
/// HRESULT for an extraction the handler attempted and failed (0x8004B200).
pub const WTS_E_FAILEDEXTRACTION: i32 = -2147175936;
/// HRESULT for an extraction that exceeded its deadline (0x8004B201).
pub const WTS_E_EXTRACTIONTIMEDOUT: i32 = -2147175935;
/// HRESULT for an unavailable extraction surrogate process (0x8004B202).
pub const WTS_E_SURROGATEUNAVAILABLE: i32 = -2147175934;
/// HRESULT for a handler without fast-extraction support (0x8004B203).
pub const WTS_E_FASTEXTRACTIONNOTSUPPORTED: i32 = -2147175933;
/// HRESULT for a call made on a thread without a live apartment (0x800401F0).
pub const CO_E_NOTINITIALIZED: i32 = -2147221008;
/// The generic failure HRESULT (0x80004005); the native wrapper reports it
/// when it cannot parse the result of an extraction.
pub const E_FAIL: i32 = -2147467259;

/// The failure classes of a single native extraction call.
///
/// Every class but `Unknown` stands for one fixed status code; `Unknown`
/// carries the raw code of any status outside the known set, since the
/// native subsystem may grow new codes.
#[derive(Clone, Copy, Debug, PartialEq, Eq, Structural)]
pub enum ExtractError {
    InvalidArgument,
    ClassNotRegistered,
    NoAggregation,
    NoInterface,
    NullPointer,
    FailedExtraction,
    ExtractionTimedOut,
    SurrogateUnavailable,
    FastExtractionUnsupported,
    SessionInitFailed,
    ParsingFailed,
    Unknown(i32),
}

/// The failure class a given status code falls under.
pub open spec fn spec_classify(code: i32) -> ExtractError {
    if code == E_INVALIDARG {
        ExtractError::InvalidArgument
    } else if code == REGDB_E_CLASSNOTREG {
        ExtractError::ClassNotRegistered
    } else if code == CLASS_E_NOAGGREGATION {
        ExtractError::NoAggregation
    } else if code == E_NOINTERFACE {
        ExtractError::NoInterface
    } else if code == E_POINTER {
        ExtractError::NullPointer
    } else if code == WTS_E_FAILEDEXTRACTION {
        ExtractError::FailedExtraction
    } else if code == WTS_E_EXTRACTIONTIMEDOUT {
        ExtractError::ExtractionTimedOut
    } else if code == WTS_E_SURROGATEUNAVAILABLE {
        ExtractError::SurrogateUnavailable
    } else if code == WTS_E_FASTEXTRACTIONNOTSUPPORTED {
        ExtractError::FastExtractionUnsupported
    } else if code == CO_E_NOTINITIALIZED {
        ExtractError::SessionInitFailed
    } else if code == E_FAIL {
        ExtractError::ParsingFailed
    } else {
        ExtractError::Unknown(code)
    }
}

/// The status code that a failure class reports.
pub open spec fn spec_code_of(e: ExtractError) -> i32 {
    match e {
        ExtractError::InvalidArgument => E_INVALIDARG,
        ExtractError::ClassNotRegistered => REGDB_E_CLASSNOTREG,
        ExtractError::NoAggregation => CLASS_E_NOAGGREGATION,
        ExtractError::NoInterface => E_NOINTERFACE,
        ExtractError::NullPointer => E_POINTER,
        ExtractError::FailedExtraction => WTS_E_FAILEDEXTRACTION,
        ExtractError::ExtractionTimedOut => WTS_E_EXTRACTIONTIMEDOUT,
        ExtractError::SurrogateUnavailable => WTS_E_SURROGATEUNAVAILABLE,
        ExtractError::FastExtractionUnsupported => WTS_E_FASTEXTRACTIONNOTSUPPORTED,
        ExtractError::SessionInitFailed => CO_E_NOTINITIALIZED,
        ExtractError::ParsingFailed => E_FAIL,
        ExtractError::Unknown(code) => code,
    }
}

/// Classifies a raw native status code into its failure class.
pub fn classify_hresult(code: i32) -> (e: ExtractError)
    ensures
        e == spec_classify(code),
{
    if code == E_INVALIDARG {
        ExtractError::InvalidArgument
    } else if code == REGDB_E_CLASSNOTREG {
        ExtractError::ClassNotRegistered
    } else if code == CLASS_E_NOAGGREGATION {
        ExtractError::NoAggregation
    } else if code == E_NOINTERFACE {
        ExtractError::NoInterface
    } else if code == E_POINTER {
        ExtractError::NullPointer
    } else if code == WTS_E_FAILEDEXTRACTION {
        ExtractError::FailedExtraction
    } else if code == WTS_E_EXTRACTIONTIMEDOUT {
        ExtractError::ExtractionTimedOut
    } else if code == WTS_E_SURROGATEUNAVAILABLE {
        ExtractError::SurrogateUnavailable
    } else if code == WTS_E_FASTEXTRACTIONNOTSUPPORTED {
        ExtractError::FastExtractionUnsupported
    } else if code == CO_E_NOTINITIALIZED {
        ExtractError::SessionInitFailed
    } else if code == E_FAIL {
        ExtractError::ParsingFailed
    } else {
        ExtractError::Unknown(code)
    }
}

/// Reports the status code of a failure class.
pub fn code_of(e: ExtractError) -> (code: i32)
    ensures
        code == spec_code_of(e),
{
    match e {
        ExtractError::InvalidArgument => E_INVALIDARG,
        ExtractError::ClassNotRegistered => REGDB_E_CLASSNOTREG,
        ExtractError::NoAggregation => CLASS_E_NOAGGREGATION,
        ExtractError::NoInterface => E_NOINTERFACE,
        ExtractError::NullPointer => E_POINTER,
        ExtractError::FailedExtraction => WTS_E_FAILEDEXTRACTION,
        ExtractError::ExtractionTimedOut => WTS_E_EXTRACTIONTIMEDOUT,
        ExtractError::SurrogateUnavailable => WTS_E_SURROGATEUNAVAILABLE,
        ExtractError::FastExtractionUnsupported => WTS_E_FASTEXTRACTIONNOTSUPPORTED,
        ExtractError::SessionInitFailed => CO_E_NOTINITIALIZED,
        ExtractError::ParsingFailed => E_FAIL,
        ExtractError::Unknown(code) => code,
    }
}

/// Classification never discards information: reporting the code of the
/// class a status falls under gives back the original status.
pub proof fn lemma_classify_preserves_code(code: i32)
    ensures
        spec_code_of(spec_classify(code)) == code,
{
}

/// Whether a status code is one of the known codes, those with a failure
/// class of their own.
pub open spec fn is_known_code(code: i32) -> bool {
    !(spec_classify(code) is Unknown)
}

/// Each failure class other than `Unknown` is recovered exactly from its
/// own status code, and `Unknown` is reserved for codes outside the known
/// set.
pub proof fn lemma_code_round_trip(e: ExtractError)
    requires
        e matches ExtractError::Unknown(code) ==> !is_known_code(code),
    ensures
        spec_classify(spec_code_of(e)) == e,
{
}

/// The error reported for one failed extraction: the raw native status code
/// and the diagnostic message the native wrapper attached to it.
#[derive(Clone, Debug)]
pub struct GetThumbnailError {
    pub code: i32,
    pub msg: String,
}

impl GetThumbnailError {
    /// The failure class of this error's status code.
    pub fn kind(&self) -> (e: ExtractError)
        ensures
            e == spec_classify(self.code),
    {
        classify_hresult(self.code)
    }
}

} // verus!
