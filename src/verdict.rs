//! Scan verdicts and the translation of a scan call's outcome.
use vstd::prelude::*;

use crate::error::{low_word, WinError};

verus! {

/// The engine reports a detection.
pub open spec fn malware_code(code: u32) -> bool {
    code >= 32768
}

/// The engine asserts that the content is not malicious.
pub open spec fn clean_code(code: u32) -> bool {
    code == 0
}

/// No current signature matched, without a guarantee for the future.
pub open spec fn not_detected_code(code: u32) -> bool {
    code == 1
}

/// An administrator's policy blocked the content.
pub open spec fn blocked_by_admin_code(code: u32) -> bool {
    0x4000 <= code <= 0x4fff
}

/// The verdict of one scan: an immutable numeric classification code.
#[derive(Debug, PartialEq, Eq, Structural)]
pub struct AmsiResult {
    code: u32,
}

impl View for AmsiResult {
    type V = u32;

    /// The raw classification code.
    closed spec fn view(&self) -> u32 {
        self.code
    }
}

impl AmsiResult {
    /// Wraps a classification code returned by the engine.
    pub fn new(code: u32) -> (r: AmsiResult)
        ensures
            r@ == code,
    {
        AmsiResult { code }
    }

    /// Returns `true` if the result is malicious.
    pub fn is_malware(&self) -> (b: bool)
        ensures
            b == malware_code(self@),
    {
        self.code >= 32768
    }

    /// Returns `true` if the result is not malicious and will probably never be.
    pub fn is_clean(&self) -> (b: bool)
        ensures
            b == clean_code(self@),
    {
        self.code == 0
    }

    /// Returns `true` if the result is not malicious, but might be malicious
    /// with future definition updates.
    pub fn is_not_detected(&self) -> (b: bool)
        ensures
            b == not_detected_code(self@),
    {
        self.code == 1
    }

    /// Returns `true` if an administrator's policy blocked the content.
    pub fn is_blocked_by_admin(&self) -> (b: bool)
        ensures
            b == blocked_by_admin_code(self@),
    {
        self.code >= 0x4000 && self.code <= 0x4fff
    }

    /// The raw classification code.
    pub fn get_code(&self) -> (c: u32)
        ensures
            c == self@,
    {
        self.code
    }
}

/// Each classification pins the raw code to its range: a clean verdict has
/// code 0, a not-detected one code 1, a malicious one a code of at least
/// 32768, and one blocked by an administrator a code in [0x4000, 0x4FFF].
pub proof fn lemma_verdict_ranges(v: AmsiResult)
    ensures
        clean_code(v@) ==> v@ == 0,
        not_detected_code(v@) ==> v@ == 1,
        malware_code(v@) ==> v@ >= 32768,
        blocked_by_admin_code(v@) ==> 0x4000 <= v@ <= 0x4fff,
{
}

/// Translates the outcome of a scan call: a zero status yields the verdict
/// built from `result`, any other status the error in its low 16 bits.
pub fn scan_outcome(status: u32, result: u32) -> (r: Result<AmsiResult, WinError>)
    ensures
        status == 0 <==> r is Ok,
        r matches Ok(v) ==> v@ == result,
        r matches Err(e) ==> e@ == low_word(status),
{
    if status == 0 {
        Ok(AmsiResult::new(result))
    } else {
        Err(WinError::from_hresult(status))
    }
}

} // verus!
