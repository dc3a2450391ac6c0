//! Errors reported by the scanning engine or the platform.
use vstd::prelude::*;

verus! {

/// The low 16 bits of a composite status code: the part that names the error.
pub open spec fn low_word(status: u32) -> u32 {
    status & 0xffff
}

/// A platform error, carrying a single numeric code.
#[derive(Debug, PartialEq, Eq, Structural)]
pub struct WinError {
    code: u32,
}

impl View for WinError {
    type V = u32;

    /// The numeric code carried by the error.
    closed spec fn view(&self) -> u32 {
        self.code
    }
}

impl WinError {
    /// Creates an error that carries `code` unchanged.
    pub fn from_code(code: u32) -> (e: WinError)
        ensures
            e@ == code,
    {
        WinError { code }
    }

    /// Creates an error from a composite status code, keeping its low 16 bits.
    pub fn from_hresult(res: u32) -> (e: WinError)
        ensures
            e@ == low_word(res),
            e@ < 0x10000,
    {
        assert(res & 0xffff < 0x10000) by (bit_vector);
        Self::from_code(res & 0xffff)
    }

    /// The numeric code carried by the error.
    pub fn code(&self) -> (c: u32)
        ensures
            c == self@,
    {
        self.code
    }
}

} // verus!
