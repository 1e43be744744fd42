//! Status codes of the OFX API.

use vstd::prelude::*;

verus! {

/// An OFX status code (`kOfxStat...`).
#[derive(Copy, Clone, Debug, PartialEq, Eq, Structural)]
pub enum OfxStatus {
    OK,
    Failed,
    ErrFatal,
    ErrUnknown,
    ErrMissingHostFeature,
    ErrUnsupported,
    ErrExists,
    ErrFormat,
    ErrMemory,
    ErrBadHandle,
    ErrBadIndex,
    ErrValue,
    ReplyYes,
    ReplyNo,
    ReplyDefault,
}

/// The C value of each status, as the OFX headers define it.
pub open spec fn status_code(s: OfxStatus) -> i32 {
    match s {
        OfxStatus::OK => 0,
        OfxStatus::Failed => 1,
        OfxStatus::ErrFatal => 2,
        OfxStatus::ErrUnknown => 3,
        OfxStatus::ErrMissingHostFeature => 4,
        OfxStatus::ErrUnsupported => 5,
        OfxStatus::ErrExists => 6,
        OfxStatus::ErrFormat => 7,
        OfxStatus::ErrMemory => 8,
        OfxStatus::ErrBadHandle => 9,
        OfxStatus::ErrBadIndex => 10,
        OfxStatus::ErrValue => 11,
        OfxStatus::ReplyYes => 12,
        OfxStatus::ReplyNo => 13,
        OfxStatus::ReplyDefault => 14,
    }
}

/// A call succeeded when it returned `OK` or `ReplyDefault`.
pub open spec fn status_succeeded(s: OfxStatus) -> bool {
    s == OfxStatus::OK || s == OfxStatus::ReplyDefault
}

impl OfxStatus {
    /// The C value of the status.
    pub fn code(&self) -> (r: i32)
        ensures
            r == status_code(*self),
    {
        match self {
            OfxStatus::OK => 0,
            OfxStatus::Failed => 1,
            OfxStatus::ErrFatal => 2,
            OfxStatus::ErrUnknown => 3,
            OfxStatus::ErrMissingHostFeature => 4,
            OfxStatus::ErrUnsupported => 5,
            OfxStatus::ErrExists => 6,
            OfxStatus::ErrFormat => 7,
            OfxStatus::ErrMemory => 8,
            OfxStatus::ErrBadHandle => 9,
            OfxStatus::ErrBadIndex => 10,
            OfxStatus::ErrValue => 11,
            OfxStatus::ReplyYes => 12,
            OfxStatus::ReplyNo => 13,
            OfxStatus::ReplyDefault => 14,
        }
    }

    /// The status with C value `code`, if there is one.
    pub fn from_code(code: i32) -> (r: Option<OfxStatus>)
        ensures
            match r {
                Some(s) => status_code(s) == code,
                None => !(0 <= code <= 14),
            },
    {
        match code {
            0 => Some(OfxStatus::OK),
            1 => Some(OfxStatus::Failed),
            2 => Some(OfxStatus::ErrFatal),
            3 => Some(OfxStatus::ErrUnknown),
            4 => Some(OfxStatus::ErrMissingHostFeature),
            5 => Some(OfxStatus::ErrUnsupported),
            6 => Some(OfxStatus::ErrExists),
            7 => Some(OfxStatus::ErrFormat),
            8 => Some(OfxStatus::ErrMemory),
            9 => Some(OfxStatus::ErrBadHandle),
            10 => Some(OfxStatus::ErrBadIndex),
            11 => Some(OfxStatus::ErrValue),
            12 => Some(OfxStatus::ReplyYes),
            13 => Some(OfxStatus::ReplyNo),
            14 => Some(OfxStatus::ReplyDefault),
            _ => None,
        }
    }

    /// True for the success codes `OK` and `ReplyDefault`.
    pub fn succeeded(&self) -> (r: bool)
        ensures
            r == status_succeeded(*self),
    {
        match self {
            OfxStatus::OK | OfxStatus::ReplyDefault => true,
            _ => false,
        }
    }

    /// True for every code but the success codes.
    pub fn failed(&self) -> (r: bool)
        ensures
            r == !status_succeeded(*self),
    {
        !self.succeeded()
    }
}

/// Each status code stands for one status: `from_code` undoes `code`.
pub proof fn law_code_round_trip(s: OfxStatus)
    ensures
        0 <= status_code(s) <= 14,
        forall|t: OfxStatus| status_code(t) == status_code(s) ==> t == s,
{
}

} // verus!
